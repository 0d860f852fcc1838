//! What the public server keeps of one session: the references it has handed out
//! and the timeouts that were set.

use vstd::prelude::*;
use crate::error::{failure, no_element_message, ErrorKind, W3cError};
use crate::json::{entries_view, no_entries, put, Json, JsonValue, NumberValue};
use crate::outside::fresh_id;
use crate::registry::{
    distinct_keys, find, has_key, lemma_find, lemma_find_at, lemma_find_mapped, lemma_find_push,
    lemma_same_keys, Registry,
};

verus! {

/// How to find an element again: by a selector, a position among its matches, and
/// the strategy that reads the selector.
#[derive(Debug)]
pub struct ElementRef {
    pub selector: String,
    pub index: u64,
    pub using: String,
}

/// What an `ElementRef` stands for.
pub ghost struct ElementRefView {
    pub selector: Seq<char>,
    pub index: u64,
    pub using: Seq<char>,
}

impl View for ElementRef {
    type V = ElementRefView;

    open spec fn view(&self) -> ElementRefView {
        ElementRefView { selector: self.selector@, index: self.index, using: self.using@ }
    }
}

/// How to find a shadow root again: by the reference of its host.
#[derive(Debug)]
pub struct ShadowRef {
    pub host_selector: String,
    pub host_index: u64,
    pub host_using: String,
}

/// What a `ShadowRef` stands for.
pub ghost struct ShadowRefView {
    pub host_selector: Seq<char>,
    pub host_index: u64,
    pub host_using: Seq<char>,
}

impl View for ShadowRef {
    type V = ShadowRefView;

    open spec fn view(&self) -> ShadowRefView {
        ShadowRefView {
            host_selector: self.host_selector@,
            host_index: self.host_index,
            host_using: self.host_using@,
        }
    }
}

/// The three timeouts of a session, in milliseconds.
#[derive(Clone, Copy, Debug, PartialEq, Eq, Structural)]
pub struct Timeouts {
    pub script: u64,
    pub page_load: u64,
    pub implicit: u64,
}

impl Default for Timeouts {
    fn default() -> (t: Timeouts)
        ensures
            t == (Timeouts { script: 30000, page_load: 300000, implicit: 0 }),
    {
        Timeouts { script: 30000, page_load: 300000, implicit: 0 }
    }
}

/// The element table as contracts see it: each id with the reference it stands for,
/// in the order the ids were given out.
pub type ElementTable = Seq<(Seq<char>, ElementRefView)>;

/// The shadow table as contracts see it.
pub type ShadowTable = Seq<(Seq<char>, ShadowRefView)>;

/// The reference that the document `elem` describes: its members `selector`, `index`
/// and `using`, with the empty selector, position 0 and the strategy `css` for those
/// that are missing or of another type.
pub open spec fn element_ref_of(elem: JsonValue) -> ElementRefView {
    ElementRefView {
        selector: elem.str_or("selector"@, ""@),
        index: elem.u64_or("index"@, 0),
        using: elem.str_or("using"@, "css"@),
    }
}

/// The id of the first entry of `table` that stands for `r`.
pub open spec fn id_of(table: ElementTable, r: ElementRefView) -> Option<Seq<char>>
    decreases table.len(),
{
    if table.len() == 0 {
        None
    } else if table[0].1 == r {
        Some(table[0].0)
    } else {
        id_of(table.drop_first(), r)
    }
}

/// Whether no two entries of `table` stand for the same reference.
pub open spec fn distinct_refs(table: ElementTable) -> bool {
    forall|i: int, j: int|
        0 <= i < j < table.len() ==> (#[trigger] table[i]).1 != (#[trigger] table[j]).1
}

/// What storing the reference `r` does to `table`, and the id it answers with. A
/// reference that the table holds keeps its id, and the table stays as it is. A new
/// reference enters at the end under `candidate`, unless that id is taken: then the
/// table stays as it is and there is no answer.
pub open spec fn stored(table: ElementTable, r: ElementRefView, candidate: Seq<char>) -> (
    ElementTable,
    Option<Seq<char>>,
) {
    match id_of(table, r) {
        Some(id) => (table, Some(id)),
        None => if has_key(table, candidate) {
            (table, None)
        } else {
            (table.push((candidate, r)), Some(candidate))
        },
    }
}

/// What storing the references `refs` one after the other does to `table`, each
/// under the candidate of its position, and the ids it answers with. It stops at the
/// first reference that is new and finds its candidate taken or missing.
pub open spec fn stored_all(
    table: ElementTable,
    refs: Seq<ElementRefView>,
    candidates: Seq<Seq<char>>,
) -> (ElementTable, Option<Seq<Seq<char>>>)
    decreases refs.len(),
{
    if refs.len() == 0 {
        (table, Some(Seq::empty()))
    } else {
        let (before, ids) = stored_all(table, refs.drop_last(), candidates);
        match ids {
            None => (before, None),
            Some(ids) => if refs.len() <= candidates.len() {
                let (after, id) = stored(before, refs.last(), candidates[refs.len() - 1]);
                match id {
                    None => (after, None),
                    Some(id) => (after, Some(ids.push(id))),
                }
            } else {
                match id_of(before, refs.last()) {
                    Some(id) => (before, Some(ids.push(id))),
                    None => (before, None),
                }
            },
        }
    }
}

/// The view of an optional string.
pub open spec fn id_view(id: Option<String>) -> Option<Seq<char>> {
    match id {
        Some(id) => Some(id@),
        None => None,
    }
}

/// `id_of` gives the id of an entry exactly where the reference occurs.
proof fn lemma_id_of(table: ElementTable, r: ElementRefView)
    ensures
        id_of(table, r) matches Some(id) ==> exists|i: int|
            0 <= i < table.len() && #[trigger] table[i] == (id, r),
        id_of(table, r) is None ==> forall|i: int| 0 <= i < table.len() ==> (#[trigger] table[i]).1 != r,
    decreases table.len(),
{
    if table.len() > 0 {
        let rest = table.drop_first();
        lemma_id_of(rest, r);
        if table[0].1 == r {
            assert(table[0] == (table[0].0, r));
        } else {
            if id_of(table, r) is Some {
                let id = id_of(table, r)->0;
                let i = choose|i: int| 0 <= i < rest.len() && #[trigger] rest[i] == (id, r);
                assert(table[i + 1] == rest[i]);
            } else {
                assert forall|i: int| 0 <= i < table.len() implies (#[trigger] table[i]).1 != r by {
                    if i > 0 {
                        assert(rest[i - 1] == table[i]);
                    }
                }
            }
        }
    }
}

/// Where references are distinct, an entry's reference leads back to its id.
proof fn lemma_id_of_at(table: ElementTable, i: int)
    requires
        distinct_refs(table),
        0 <= i < table.len(),
    ensures
        id_of(table, table[i].1) == Some(table[i].0),
    decreases table.len(),
{
    if i > 0 {
        let rest = table.drop_first();
        assert forall|a: int, b: int| 0 <= a < b < rest.len() implies (#[trigger] rest[a]).1 != (
        #[trigger] rest[b]).1 by {
            assert(rest[a] == table[a + 1]);
            assert(rest[b] == table[b + 1]);
        }
        assert(rest[i - 1] == table[i]);
        lemma_id_of_at(rest, i - 1);
        assert(table[0].1 != table[i].1);
    }
}

/// Storing keeps a table in order: no id twice, no reference twice.
proof fn lemma_stored_keeps_order(table: ElementTable, r: ElementRefView, candidate: Seq<char>)
    requires
        distinct_keys(table),
        distinct_refs(table),
    ensures
        distinct_keys(stored(table, r, candidate).0),
        distinct_refs(stored(table, r, candidate).0),
{
    let after = stored(table, r, candidate).0;
    lemma_id_of(table, r);
    if id_of(table, r) is None && !has_key(table, candidate) {
        assert forall|i: int, j: int| 0 <= i < j < after.len() implies (#[trigger] after[i]).0 != (
        #[trigger] after[j]).0 by {
            assert(after[i] == table[i]);
            if j < table.len() {
                assert(after[j] == table[j]);
            }
        }
        assert forall|i: int, j: int| 0 <= i < j < after.len() implies (#[trigger] after[i]).1 != (
        #[trigger] after[j]).1 by {
            assert(after[i] == table[i]);
            if j < table.len() {
                assert(after[j] == table[j]);
            }
        }
    }
}

/// An id that storing answers with resolves, from then on, to the reference that was
/// stored; and every id that resolved before resolves to what it did.
pub proof fn law_stored_ids_resolve(
    table: ElementTable,
    r: ElementRefView,
    candidate: Seq<char>,
    earlier: Seq<char>,
)
    requires
        distinct_keys(table),
    ensures
        stored(table, r, candidate).1 matches Some(id) ==> find(stored(table, r, candidate).0, id)
            == Some(r),
        find(table, earlier) is Some ==> find(stored(table, r, candidate).0, earlier) == find(
            table,
            earlier,
        ),
{
    lemma_id_of(table, r);
    lemma_find(table, candidate);
    lemma_find_push(table, candidate, r, candidate);
    lemma_find_push(table, candidate, r, earlier);
    if id_of(table, r) is Some {
        let id = id_of(table, r)->0;
        let i = choose|i: int| 0 <= i < table.len() && #[trigger] table[i] == (id, r);
        lemma_find_at(table, i);
    }
}

/// Storing one reference twice answers with one id, whatever the candidates, and the
/// second time leaves the table as it is.
pub proof fn law_same_reference_same_id(
    table: ElementTable,
    r: ElementRefView,
    first: Seq<char>,
    second: Seq<char>,
)
    ensures
        stored(table, r, first).1 is Some ==> stored(stored(table, r, first).0, r, second)
            == stored(table, r, first),
{
    let after = stored(table, r, first).0;
    if id_of(table, r) is None && !has_key(table, first) {
        lemma_id_of(table, r);
        lemma_id_of_pushed(table, first, r);
    }
}

/// A reference that enters at the end of a table that did not hold it is found under
/// the id it entered with.
proof fn lemma_id_of_pushed(table: ElementTable, id: Seq<char>, r: ElementRefView)
    requires
        id_of(table, r) is None,
    ensures
        id_of(table.push((id, r)), r) == Some(id),
    decreases table.len(),
{
    let longer = table.push((id, r));
    if table.len() == 0 {
        assert(longer[0] == (id, r));
    } else {
        assert(longer[0] == table[0]);
        assert(longer.drop_first() =~= table.drop_first().push((id, r)));
        lemma_id_of_pushed(table.drop_first(), id, r);
    }
}

/// A reference that an id resolves to is stored under that very id: to find a known
/// element again never gives it another id, nor changes the table.
pub proof fn law_known_element_keeps_id(table: ElementTable, id: Seq<char>, candidate: Seq<char>)
    requires
        distinct_keys(table),
        distinct_refs(table),
        find(table, id) is Some,
    ensures
        stored(table, find(table, id)->0, candidate) == (table, Some(id)),
{
    lemma_find(table, id);
    let r = find(table, id)->0;
    let i = choose|i: int| 0 <= i < table.len() && #[trigger] table[i] == (id, r);
    lemma_id_of_at(table, i);
}

/// One session of the public server.
pub struct Session {
    plugin_url: String,
    elements: Registry<ElementRef>,
    shadows: Registry<ShadowRef>,
    timeouts: Timeouts,
}

/// What a `Session` stands for.
pub ghost struct SessionView {
    pub plugin_url: Seq<char>,
    pub elements: ElementTable,
    pub shadows: ShadowTable,
    pub timeouts: Timeouts,
}

impl View for Session {
    type V = SessionView;

    closed spec fn view(&self) -> SessionView {
        SessionView {
            plugin_url: self.plugin_url@,
            elements: Seq::new(
                self.elements@.len(),
                |i: int| (self.elements@[i].0, self.elements@[i].1@),
            ),
            shadows: Seq::new(
                self.shadows@.len(),
                |i: int| (self.shadows@[i].0, self.shadows@[i].1@),
            ),
            timeouts: self.timeouts,
        }
    }
}

impl SessionView {
    /// Whether the tables are as the session's operations keep them.
    pub open spec fn wf(self) -> bool {
        &&& distinct_keys(self.elements)
        &&& distinct_refs(self.elements)
        &&& distinct_keys(self.shadows)
    }
}

/// The address of the embedded server that listens on `port` of this machine.
pub open spec fn plugin_url_spec(port: u16) -> Seq<char> {
    "http://127.0.0.1:"@ + crate::text::decimal_digits(port as nat)
}

/// The message that tells of a shadow root that the session does not know.
pub open spec fn no_shadow_message(id: Seq<char>) -> Seq<char> {
    "Shadow root "@ + id + " not found"@
}

/// The document that shows the timeouts `t`.
pub open spec fn timeouts_document(t: Timeouts) -> JsonValue {
    JsonValue::Object(
        seq![
            ("script"@, JsonValue::Number(NumberValue::Unsigned(t.script))),
            ("pageLoad"@, JsonValue::Number(NumberValue::Unsigned(t.page_load))),
            ("implicit"@, JsonValue::Number(NumberValue::Unsigned(t.implicit))),
        ],
    )
}

/// The timeouts `t` after the request `body`: each of the members `script`,
/// `pageLoad` and `implicit` that holds a whole number sets its timeout; the others
/// stay.
pub open spec fn timeouts_after(t: Timeouts, body: JsonValue) -> Timeouts {
    Timeouts {
        script: body.u64_or("script"@, t.script),
        page_load: body.u64_or("pageLoad"@, t.page_load),
        implicit: body.u64_or("implicit"@, t.implicit),
    }
}

/// Timeouts that were set are shown as they were set.
pub proof fn law_timeouts_round_trip(t: Timeouts, body: JsonValue)
    requires
        body.u64_at("script"@) is Some,
        body.u64_at("pageLoad"@) is Some,
        body.u64_at("implicit"@) is Some,
    ensures
        timeouts_document(timeouts_after(t, body)) == JsonValue::Object(
            seq![
                ("script"@, JsonValue::Number(NumberValue::Unsigned(body.u64_at("script"@)->0))),
                ("pageLoad"@, JsonValue::Number(NumberValue::Unsigned(body.u64_at("pageLoad"@)->0))),
                ("implicit"@, JsonValue::Number(NumberValue::Unsigned(body.u64_at("implicit"@)->0))),
            ],
        ),
{
}

proof fn lemma_elements_find(session: &Session, id: Seq<char>)
    ensures
        find(session@.elements, id) == match find(session.elements@, id) {
            Some(e) => Some(e@),
            None => None,
        },
{
    lemma_find_mapped(session.elements@, session@.elements, |e: ElementRef| e@, id);
}

impl Session {
    /// What a new session for the embedded server on `port` stands for: nothing
    /// handed out yet, the timeouts at their defaults.
    pub open spec fn new_spec(port: u16) -> SessionView {
        SessionView {
            plugin_url: plugin_url_spec(port),
            elements: Seq::empty(),
            shadows: Seq::empty(),
            timeouts: Timeouts { script: 30000, page_load: 300000, implicit: 0 },
        }
    }

    /// A session whose embedded server listens on `port`.
    pub fn new(port: u16) -> (session: Session)
        ensures
            session@.wf(),
            session@ == Session::new_spec(port),
    {
        let mut plugin_url = String::from_str("http://127.0.0.1:");
        plugin_url.append(crate::text::decimal(port as u64).as_str());
        let session = Session {
            plugin_url,
            elements: Registry::new(),
            shadows: Registry::new(),
            timeouts: Timeouts::default(),
        };
        assert(session@.elements =~= Seq::empty());
        assert(session@.shadows =~= Seq::empty());
        session
    }

    /// The address of the session's embedded server.
    pub fn plugin_url(&self) -> (url: &str)
        ensures
            url@ == self@.plugin_url,
    {
        self.plugin_url.as_str()
    }

    /// The timeouts of the session.
    pub fn timeouts(&self) -> (t: Timeouts)
        ensures
            t == self@.timeouts,
    {
        self.timeouts
    }

    /// The number of element ids handed out.
    pub fn element_count(&self) -> (n: usize)
        ensures
            n == self@.elements.len(),
    {
        self.elements.len()
    }

    /// The shadow reference that `id` stands for.
    pub fn resolve_shadow(&self, id: &str) -> (found: Result<&ShadowRef, W3cError>)
        ensures
            match found {
                Ok(s) => find(self@.shadows, id@) == Some(s@),
                Err(e) => find(self@.shadows, id@) is None && e@ == failure(
                    ErrorKind::NoSuchShadowRoot,
                    no_shadow_message(id@),
                ),
            },
    {
        proof {
            lemma_find_mapped(self.shadows@, self@.shadows, |s: ShadowRef| s@, id@);
        }
        match self.shadows.get(id) {
            Some(s) => Ok(s),
            None => {
                let mut message = String::from_str("Shadow root ");
                message.append(id);
                message.append(" not found");
                Err(W3cError { kind: ErrorKind::NoSuchShadowRoot, message })
            },
        }
    }

    /// Stores the reference that `elem` describes, with `candidate` as the id for a
    /// reference that is new.
    pub fn store_element_as(&mut self, elem: &Json, candidate: String) -> (id: Option<String>)
        requires
            old(self)@.wf(),
        ensures
            final(self)@.wf(),
            (final(self)@.elements, id_view(id)) == stored(
                old(self)@.elements,
                element_ref_of(elem@),
                candidate@,
            ),
            final(self)@.plugin_url == old(self)@.plugin_url,
            final(self)@.shadows == old(self)@.shadows,
            final(self)@.timeouts == old(self)@.timeouts,
    {
        let selector = elem.str_or("selector", "");
        let index = elem.u64_or("index", 0);
        let using = elem.str_or("using", "css");
        let ghost r = element_ref_of(elem@);
        let ghost table = self@.elements;
        let mut i: usize = 0;
        assert(table.skip(0) =~= table);
        while i < self.elements.len()
            invariant
                i <= self.elements@.len(),
                table == self@.elements,
                *self == *old(self),
                old(self)@.wf(),
                r == element_ref_of(elem@),
                r == (ElementRefView { selector: selector@, index, using: using@ }),
                id_of(table.skip(i as int), r) == id_of(table, r),
            decreases self.elements@.len() - i,
        {
            let ghost rest = table.skip(i as int);
            assert(rest[0] == table[i as int]);
            assert(rest.drop_first() =~= table.skip(i + 1));
            let e = self.elements.value_at(i);
            if e.selector == selector && e.index == index && e.using == using {
                let id = String::from_str(self.elements.key_at(i));
                assert(e@ == r);
                assert(table[i as int] == (self.elements@[i as int].0, e@));
                assert(id_of(rest, r) == Some(id@));
                return Some(id);
            }
            i += 1;
        }
        assert(table.skip(i as int).len() == 0);
        let ghost before = self.elements@;
        proof {
            lemma_same_keys(before, table, candidate@);
            lemma_stored_keeps_order(table, r, candidate@);
        }
        let ghost wanted = candidate@;
        let id = candidate.clone();
        let refused = self.elements.insert(candidate, ElementRef { selector, index, using });
        match refused {
            Some(_) => {
                assert(self@.elements =~= table);
                None
            },
            None => {
                assert(self@.elements =~= table.push((wanted, r)));
                Some(id)
            },
        }
    }

    /// The id of the reference that `elem` describes, where the session holds it.
    pub fn existing_element(&self, elem: &Json) -> (id: Option<String>)
        ensures
            id_view(id) == id_of(self@.elements, element_ref_of(elem@)),
    {
        let selector = elem.str_or("selector", "");
        let index = elem.u64_or("index", 0);
        let using = elem.str_or("using", "css");
        let ghost r = element_ref_of(elem@);
        let ghost table = self@.elements;
        let mut i: usize = 0;
        assert(table.skip(0) =~= table);
        while i < self.elements.len()
            invariant
                i <= self.elements@.len(),
                table == self@.elements,
                r == element_ref_of(elem@),
                r == (ElementRefView { selector: selector@, index, using: using@ }),
                id_of(table.skip(i as int), r) == id_of(table, r),
            decreases self.elements@.len() - i,
        {
            let ghost rest = table.skip(i as int);
            assert(rest[0] == table[i as int]);
            assert(rest.drop_first() =~= table.skip(i + 1));
            let e = self.elements.value_at(i);
            if e.selector == selector && e.index == index && e.using == using {
                let id = String::from_str(self.elements.key_at(i));
                assert(e@ == r);
                assert(table[i as int] == (self.elements@[i as int].0, e@));
                assert(id_of(rest, r) == Some(id@));
                return Some(id);
            }
            i += 1;
        }
        assert(table.skip(i as int).len() == 0);
        None
    }

    /// Stores the reference of the element `eid` as the host of a shadow root under
    /// `candidate`. An element that the session does not know is refused; where the
    /// id is taken the table stays as it is and there is no answer.
    pub fn store_shadow_for(&mut self, eid: &str, candidate: String) -> (id: Result<
        Option<String>,
        W3cError,
    >)
        requires
            old(self)@.wf(),
        ensures
            final(self)@.wf(),
            final(self)@.plugin_url == old(self)@.plugin_url,
            final(self)@.elements == old(self)@.elements,
            final(self)@.timeouts == old(self)@.timeouts,
            match id {
                Err(e) => find(old(self)@.elements, eid@) is None && e@ == failure(
                    ErrorKind::NoSuchElement,
                    no_element_message(eid@),
                ) && final(self)@.shadows == old(self)@.shadows,
                Ok(None) => find(old(self)@.elements, eid@) is Some && has_key(
                    old(self)@.shadows,
                    candidate@,
                ) && final(self)@.shadows == old(self)@.shadows,
                Ok(Some(id)) => find(old(self)@.elements, eid@) is Some && !has_key(
                    old(self)@.shadows,
                    candidate@,
                ) && id@ == candidate@ && final(self)@.shadows == old(self)@.shadows.push(
                    (
                        candidate@,
                        ShadowRefView {
                            host_selector: find(old(self)@.elements, eid@)->0.selector,
                            host_index: find(old(self)@.elements, eid@)->0.index,
                            host_using: find(old(self)@.elements, eid@)->0.using,
                        },
                    ),
                ),
            },
    {
        let host = match resolve_element(self, eid) {
            Ok(e) => ElementRef {
                selector: e.selector.clone(),
                index: e.index,
                using: e.using.clone(),
            },
            Err(e) => {
                return Err(e);
            },
        };
        Ok(self.store_shadow_as(&host, candidate))
    }

    /// Stores the reference of a shadow root's host under `candidate`. Where that id
    /// is taken the table stays as it is and there is no answer.
    pub fn store_shadow_as(&mut self, host: &ElementRef, candidate: String) -> (id: Option<String>)
        requires
            old(self)@.wf(),
        ensures
            final(self)@.wf(),
            final(self)@.plugin_url == old(self)@.plugin_url,
            final(self)@.elements == old(self)@.elements,
            final(self)@.timeouts == old(self)@.timeouts,
            has_key(old(self)@.shadows, candidate@) ==> id is None && final(self)@.shadows == old(self)@.shadows,
            !has_key(old(self)@.shadows, candidate@) ==> id_view(id) == Some(candidate@) && final(self)@.shadows == old(self)@.shadows.push(
                (
                    candidate@,
                    ShadowRefView {
                        host_selector: host@.selector,
                        host_index: host@.index,
                        host_using: host@.using,
                    },
                ),
            ),
    {
        let ghost table = self@.shadows;
        let ghost before = self.shadows@;
        let ghost wanted = candidate@;
        let shadow = ShadowRef {
            host_selector: host.selector.clone(),
            host_index: host.index,
            host_using: host.using.clone(),
        };
        proof {
            lemma_same_keys(before, table, candidate@);
        }
        let id = candidate.clone();
        let ghost s = shadow@;
        let refused = self.shadows.insert(candidate, shadow);
        proof {
            let after = self@.shadows;
            let raw = self.shadows@;
            lemma_same_keys(raw, after, wanted);
            assert(self@.elements =~= old(self)@.elements);
        }
        match refused {
            Some(_) => {
                assert(self@.shadows =~= table);
                None
            },
            None => {
                assert(self@.shadows =~= table.push((wanted, s)));
                Some(id)
            },
        }
    }

    /// Sets the timeouts that the request `body` names.
    pub fn set_timeouts(&mut self, body: &Json)
        ensures
            final(self)@.timeouts == timeouts_after(old(self)@.timeouts, body@),
            final(self)@.plugin_url == old(self)@.plugin_url,
            final(self)@.elements == old(self)@.elements,
            final(self)@.shadows == old(self)@.shadows,
    {
        self.timeouts = Timeouts {
            script: body.u64_or("script", self.timeouts.script),
            page_load: body.u64_or("pageLoad", self.timeouts.page_load),
            implicit: body.u64_or("implicit", self.timeouts.implicit),
        };
    }

    /// The document that shows the timeouts of the session.
    pub fn get_timeouts(&self) -> (out: Json)
        ensures
            out@ == timeouts_document(self@.timeouts),
    {
        let mut entries = no_entries();
        put(&mut entries, "script", Json::unsigned(self.timeouts.script));
        put(&mut entries, "pageLoad", Json::unsigned(self.timeouts.page_load));
        put(&mut entries, "implicit", Json::unsigned(self.timeouts.implicit));
        assert(entries_view(entries@) =~= timeouts_document(self@.timeouts)->Object_0);
        Json::object(entries)
    }
}

/// The reference that the element id `eid` stands for in `session`.
pub fn resolve_element<'a>(session: &'a Session, eid: &str) -> (found: Result<
    &'a ElementRef,
    W3cError,
>)
    ensures
        match found {
            Ok(e) => find(session@.elements, eid@) == Some(e@),
            Err(e) => find(session@.elements, eid@) is None && e@ == failure(
                ErrorKind::NoSuchElement,
                no_element_message(eid@),
            ),
        },
{
    proof {
        lemma_elements_find(session, eid@);
    }
    match session.elements.get(eid) {
        Some(e) => Ok(e),
        None => Err(W3cError::no_element(eid)),
    }
}

/// Stores the reference that `elem` describes and answers with its id. A reference
/// that the session holds keeps its id. A new one gets a fresh random id; should
/// that id be taken, nothing is stored and there is no answer.
pub fn store_element(session: &mut Session, elem: &Json) -> (id: Option<String>)
    requires
        old(session)@.wf(),
    ensures
        final(session)@.wf(),
        exists|candidate: Seq<char>|
            (final(session)@.elements, id_view(id)) == #[trigger] stored(
                old(session)@.elements,
                element_ref_of(elem@),
                candidate,
            ),
        final(session)@.plugin_url == old(session)@.plugin_url,
        final(session)@.shadows == old(session)@.shadows,
        final(session)@.timeouts == old(session)@.timeouts,
{
    let candidate = fresh_id();
    let ghost c = candidate@;
    let id = session.store_element_as(elem, candidate);
    assert((session@.elements, id_view(id)) == stored(
        old(session)@.elements,
        element_ref_of(elem@),
        c,
    ));
    id
}

/// The failure of a command for a session that is not there.
pub open spec fn no_session() -> crate::error::Failure {
    failure(ErrorKind::InvalidSessionId, "No active session"@)
}

/// The session `sid` of `sessions`. A session is known from the moment it enters
/// the table to the moment it is taken out.
pub fn get_session<'a, T>(sessions: &'a Registry<T>, sid: &str) -> (found: Result<&'a T, W3cError>)
    ensures
        match found {
            Ok(session) => find(sessions@, sid@) == Some(*session),
            Err(e) => find(sessions@, sid@) is None && e@ == no_session(),
        },
{
    match sessions.get(sid) {
        Some(session) => Ok(session),
        None => Err(W3cError::no_session()),
    }
}

/// Takes the session `sid` out of `sessions`: to change it and put it back, or to
/// end it.
pub fn take_session<T>(sessions: &mut Registry<T>, sid: &str) -> (taken: Result<T, W3cError>)
    requires
        old(sessions).wf(),
    ensures
        final(sessions).wf(),
        !has_key(final(sessions)@, sid@),
        forall|other: Seq<char>|
            other != sid@ ==> find(final(sessions)@, other) == find(old(sessions)@, other),
        match taken {
            Ok(session) => find(old(sessions)@, sid@) == Some(session),
            Err(e) => find(old(sessions)@, sid@) is None && e@ == no_session() && final(sessions)@
                == old(sessions)@,
        },
{
    match sessions.remove(sid) {
        Some(session) => Ok(session),
        None => Err(W3cError::no_session()),
    }
}

/// The one session of a server that holds at most one, if `sid` is its id.
pub fn check_session<'a, T>(session: &'a Option<(String, T)>, sid: &str) -> (found: Result<
    &'a T,
    W3cError,
>)
    ensures
        match found {
            Ok(s) => session matches Some(held) && held.0@ == sid@ && *s == held.1,
            Err(e) => e@ == no_session() && !(session matches Some(held) && held.0@ == sid@),
        },
{
    match session {
        Some(held) => {
            if crate::text::same_text(held.0.as_str(), sid) {
                Ok(&held.1)
            } else {
                Err(W3cError::no_session())
            }
        },
        None => Err(W3cError::no_session()),
    }
}

} // verus!
