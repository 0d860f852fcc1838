//! Finding elements: how a locator of the protocol is put to the embedded server,
//! and how the references that come back get their ids.

use vstd::prelude::*;
use crate::error::{failure, no_element_message, ErrorKind, Failure, W3cError};
use crate::json::{entries_view, items_view, no_entries, put, Json, JsonValue, NumberValue};
use crate::outside::fresh_id;
use crate::plan::{element_body, element_document, element_reference, empty_body, empty_object, object1, outcome_view, post, request, shadow_reference, AgentRequest, AgentRequestView, W3C_ELEMENT_KEY, W3C_SHADOW_KEY};
use crate::registry::{distinct_keys, find, has_key};
use crate::session::{element_ref_of, law_stored_ids_resolve, resolve_element, stored, stored_all, ElementRefView, ElementTable, Session, SessionView, ShadowRefView, ShadowTable};
use crate::text::{same_text, views};

verus! {

/// The strategy and the selector by which the embedded server looks for what the
/// protocol's strategy `strategy` looks for with `value`. A CSS selector, a tag name
/// and an XPath expression go as they are; a link text becomes the XPath expression
/// for the anchors of exactly that text, white space normalized, and a partial link
/// text that for the anchors whose text holds it. There is no other strategy.
pub open spec fn rewritten(strategy: Seq<char>, value: Seq<char>) -> Option<
    (Seq<char>, Seq<char>),
> {
    if strategy == "css selector"@ {
        Some(("css"@, value))
    } else if strategy == "tag name"@ {
        Some(("css"@, value))
    } else if strategy == "xpath"@ {
        Some(("xpath"@, value))
    } else if strategy == "link text"@ {
        Some(("xpath"@, "//a[normalize-space()='"@ + value + "']"@))
    } else if strategy == "partial link text"@ {
        Some(("xpath"@, "//a[contains(.,'"@ + value + "')]"@))
    } else {
        None
    }
}

/// The locator that the request `body` holds, as the embedded server takes it. A
/// body without a string `using`, without a string `value`, or with a strategy that
/// is not known is refused, in this order.
pub open spec fn locator(body: JsonValue) -> Result<(Seq<char>, Seq<char>), Failure> {
    match body.str_at("using"@) {
        None => Err(failure(ErrorKind::InvalidArgument, "Missing 'using'"@)),
        Some(strategy) => match body.str_at("value"@) {
            None => Err(failure(ErrorKind::InvalidArgument, "Missing 'value'"@)),
            Some(value) => match rewritten(strategy, value) {
                Some(found) => Ok(found),
                None => Err(
                    failure(
                        ErrorKind::InvalidArgument,
                        "Unsupported locator strategy: "@ + strategy,
                    ),
                ),
            },
        },
    }
}

/// The view of a result.
pub open spec fn locator_view(r: Result<(String, String), W3cError>) -> Result<
    (Seq<char>, Seq<char>),
    Failure,
> {
    match r {
        Ok(l) => Ok((l.0@, l.1@)),
        Err(e) => Err(e@),
    }
}

/// Reads the locator of the request `body` and puts it as the embedded server takes
/// it.
pub fn extract_locator(body: &Json) -> (found: Result<(String, String), W3cError>)
    ensures
        locator_view(found) == locator(body@),
{
    let strategy = match body.str_at("using") {
        Some(s) => s,
        None => {
            return Err(W3cError::bad_request("Missing 'using'"));
        },
    };
    let value = match body.str_at("value") {
        Some(v) => v,
        None => {
            return Err(W3cError::bad_request("Missing 'value'"));
        },
    };
    if same_text(strategy, "css selector") {
        Ok((String::from_str("css"), String::from_str(value)))
    } else if same_text(strategy, "tag name") {
        Ok((String::from_str("css"), String::from_str(value)))
    } else if same_text(strategy, "xpath") {
        Ok((String::from_str("xpath"), String::from_str(value)))
    } else if same_text(strategy, "link text") {
        let mut xpath = String::from_str("//a[normalize-space()='");
        xpath.append(value);
        xpath.append("']");
        Ok((String::from_str("xpath"), xpath))
    } else if same_text(strategy, "partial link text") {
        let mut xpath = String::from_str("//a[contains(.,'");
        xpath.append(value);
        xpath.append("')]");
        Ok((String::from_str("xpath"), xpath))
    } else {
        let mut message = String::from_str("Unsupported locator strategy: ");
        message.append(strategy);
        Err(W3cError { kind: ErrorKind::InvalidArgument, message })
    }
}

/// Where a search looks.
#[derive(Clone, Copy, Debug, PartialEq, Eq, Structural)]
pub enum Scope {
    /// In the whole document.
    Document,
    /// In a shadow tree.
    Shadow,
    /// Below an element.
    Element,
}

/// A search as it is put to the embedded server.
#[derive(Debug)]
pub struct Find {
    pub request: AgentRequest,
    pub scope: Scope,
    pub using: String,
    pub value: String,
}

/// What a `Find` stands for.
pub ghost struct FindView {
    pub request: AgentRequestView,
    pub scope: Scope,
    pub using: Seq<char>,
    pub value: Seq<char>,
}

impl View for Find {
    type V = FindView;

    open spec fn view(&self) -> FindView {
        FindView {
            request: self.request@,
            scope: self.scope,
            using: self.using@,
            value: self.value@,
        }
    }
}

/// The view of a result.
pub open spec fn find_result(r: Result<Find, W3cError>) -> Result<FindView, Failure> {
    match r {
        Ok(f) => Ok(f@),
        Err(e) => Err(e@),
    }
}

/// The search of the whole document for what the request `body` locates.
pub open spec fn document_search(body: JsonValue) -> Result<FindView, Failure> {
    match locator(body) {
        Ok((using, value)) => Ok(
            FindView {
                request: request(
                    "/element/find"@,
                    JsonValue::Object(
                        seq![("using"@, JsonValue::Str(using)), ("value"@, JsonValue::Str(value))],
                    ),
                ),
                scope: Scope::Document,
                using,
                value,
            },
        ),
        Err(f) => Err(f),
    }
}

/// The message that tells of a shadow root that the session does not know.
pub open spec fn no_shadow_message(id: Seq<char>) -> Seq<char> {
    crate::session::no_shadow_message(id)
}

/// The search of the shadow tree `shadow_id` of `shadows` for what the request
/// `body` locates. A shadow root that the session does not know is refused before
/// the locator is read.
pub open spec fn shadow_search(shadows: ShadowTable, shadow_id: Seq<char>, body: JsonValue) -> Result<
    FindView,
    Failure,
> {
    match find(shadows, shadow_id) {
        None => Err(failure(ErrorKind::NoSuchShadowRoot, no_shadow_message(shadow_id))),
        Some(host) => match locator(body) {
            Ok((using, value)) => Ok(
                FindView {
                    request: request(
                        "/shadow/find"@,
                        JsonValue::Object(
                            seq![
                                ("host_selector"@, JsonValue::Str(host.host_selector)),
                                (
                                    "host_index"@,
                                    JsonValue::Number(NumberValue::Unsigned(host.host_index)),
                                ),
                                ("host_using"@, JsonValue::Str(host.host_using)),
                                ("using"@, JsonValue::Str(using)),
                                ("value"@, JsonValue::Str(value)),
                            ],
                        ),
                    ),
                    scope: Scope::Shadow,
                    using,
                    value,
                },
            ),
            Err(f) => Err(f),
        },
    }
}

/// The search below the element `eid` of `table` for what the request `body`
/// locates. An element that the session does not know is refused before the locator
/// is read.
pub open spec fn element_search(table: ElementTable, eid: Seq<char>, body: JsonValue) -> Result<
    FindView,
    Failure,
> {
    match find(table, eid) {
        None => Err(failure(ErrorKind::NoSuchElement, no_element_message(eid))),
        Some(parent) => match locator(body) {
            Ok((using, value)) => Ok(
                FindView {
                    request: request(
                        "/element/find-from"@,
                        JsonValue::Object(
                            seq![
                                ("parent_selector"@, JsonValue::Str(parent.selector)),
                                (
                                    "parent_index"@,
                                    JsonValue::Number(NumberValue::Unsigned(parent.index)),
                                ),
                                ("parent_using"@, JsonValue::Str(parent.using)),
                                ("using"@, JsonValue::Str(using)),
                                ("value"@, JsonValue::Str(value)),
                            ],
                        ),
                    ),
                    scope: Scope::Element,
                    using,
                    value,
                },
            ),
            Err(f) => Err(f),
        },
    }
}

fn search_document(body: &Json) -> (found: Result<Find, W3cError>)
    ensures
        find_result(found) == document_search(body@),
{
    match extract_locator(body) {
        Ok((using, value)) => {
            let mut entries = no_entries();
            put(&mut entries, "using", Json::text(using.as_str()));
            put(&mut entries, "value", Json::text(value.as_str()));
            assert(entries_view(entries@) =~= seq![
                ("using"@, JsonValue::Str(using@)),
                ("value"@, JsonValue::Str(value@)),
            ]);
            Ok(
                Find {
                    request: post("/element/find", Json::object(entries)),
                    scope: Scope::Document,
                    using,
                    value,
                },
            )
        },
        Err(e) => Err(e),
    }
}

fn search_shadow(session: &Session, shadow_id: &str, body: &Json) -> (found: Result<Find, W3cError>)
    ensures
        find_result(found) == shadow_search(session@.shadows, shadow_id@, body@),
{
    let host = match session.resolve_shadow(shadow_id) {
        Ok(host) => host,
        Err(e) => {
            return Err(e);
        },
    };
    match extract_locator(body) {
        Ok((using, value)) => {
            let mut entries = no_entries();
            put(&mut entries, "host_selector", Json::text(host.host_selector.as_str()));
            put(&mut entries, "host_index", Json::unsigned(host.host_index));
            put(&mut entries, "host_using", Json::text(host.host_using.as_str()));
            put(&mut entries, "using", Json::text(using.as_str()));
            put(&mut entries, "value", Json::text(value.as_str()));
            assert(entries_view(entries@) =~= seq![
                ("host_selector"@, JsonValue::Str(host@.host_selector)),
                ("host_index"@, JsonValue::Number(NumberValue::Unsigned(host@.host_index))),
                ("host_using"@, JsonValue::Str(host@.host_using)),
                ("using"@, JsonValue::Str(using@)),
                ("value"@, JsonValue::Str(value@)),
            ]);
            Ok(
                Find {
                    request: post("/shadow/find", Json::object(entries)),
                    scope: Scope::Shadow,
                    using,
                    value,
                },
            )
        },
        Err(e) => Err(e),
    }
}

fn search_element(session: &Session, eid: &str, body: &Json) -> (found: Result<Find, W3cError>)
    ensures
        find_result(found) == element_search(session@.elements, eid@, body@),
{
    let parent = match resolve_element(session, eid) {
        Ok(parent) => parent,
        Err(e) => {
            return Err(e);
        },
    };
    match extract_locator(body) {
        Ok((using, value)) => {
            let mut entries = no_entries();
            put(&mut entries, "parent_selector", Json::text(parent.selector.as_str()));
            put(&mut entries, "parent_index", Json::unsigned(parent.index));
            put(&mut entries, "parent_using", Json::text(parent.using.as_str()));
            put(&mut entries, "using", Json::text(using.as_str()));
            put(&mut entries, "value", Json::text(value.as_str()));
            assert(entries_view(entries@) =~= seq![
                ("parent_selector"@, JsonValue::Str(parent@.selector)),
                ("parent_index"@, JsonValue::Number(NumberValue::Unsigned(parent@.index))),
                ("parent_using"@, JsonValue::Str(parent@.using)),
                ("using"@, JsonValue::Str(using@)),
                ("value"@, JsonValue::Str(value@)),
            ]);
            Ok(
                Find {
                    request: post("/element/find-from", Json::object(entries)),
                    scope: Scope::Element,
                    using,
                    value,
                },
            )
        },
        Err(e) => Err(e),
    }
}

/// The search for the first element in the document that `body` locates.
pub fn find_element(body: &Json) -> (found: Result<Find, W3cError>)
    ensures
        find_result(found) == document_search(body@),
{
    search_document(body)
}

/// The search for all elements in the document that `body` locates.
pub fn find_elements(body: &Json) -> (found: Result<Find, W3cError>)
    ensures
        find_result(found) == document_search(body@),
{
    search_document(body)
}

/// The search for the first element in a shadow tree that `body` locates.
pub fn find_in_shadow(session: &Session, shadow_id: &str, body: &Json) -> (found: Result<
    Find,
    W3cError,
>)
    ensures
        find_result(found) == shadow_search(session@.shadows, shadow_id@, body@),
{
    search_shadow(session, shadow_id, body)
}

/// The search for all elements in a shadow tree that `body` locates.
pub fn find_all_in_shadow(session: &Session, shadow_id: &str, body: &Json) -> (found: Result<
    Find,
    W3cError,
>)
    ensures
        find_result(found) == shadow_search(session@.shadows, shadow_id@, body@),
{
    search_shadow(session, shadow_id, body)
}

/// The search for the first element below an element that `body` locates.
pub fn find_element_from_element(session: &Session, eid: &str, body: &Json) -> (found: Result<
    Find,
    W3cError,
>)
    ensures
        find_result(found) == element_search(session@.elements, eid@, body@),
{
    search_element(session, eid, body)
}

/// The search for all elements below an element that `body` locates.
pub fn find_elements_from_element(session: &Session, eid: &str, body: &Json) -> (found: Result<
    Find,
    W3cError,
>)
    ensures
        find_result(found) == element_search(session@.elements, eid@, body@),
{
    search_element(session, eid, body)
}

/// The message of a search for one element that found none.
pub open spec fn none_found_message(scope: Scope, using: Seq<char>, value: Seq<char>) -> Seq<char> {
    match scope {
        Scope::Document => "No element found with "@ + using + ": "@ + value,
        Scope::Shadow => "No element found in shadow with "@ + using + ": "@ + value,
        Scope::Element => "No child element found with "@ + using + ": "@ + value,
    }
}

/// The failure of a reference that found the id meant for it in use.
pub open spec fn id_taken() -> Failure {
    failure(ErrorKind::UnknownError, "could not allocate a fresh identifier"@)
}

/// What the reply `result` to a search for one element does to `table`, and the
/// answer. The first of the references that the reply lists in its member
/// `elements` is stored, with `candidate` as the id for a reference that is new,
/// and its id is the answer. A reply that lists none is the failure of an element
/// that is not there.
pub open spec fn first_found_spec(
    table: ElementTable,
    search: FindView,
    result: JsonValue,
    candidate: Seq<char>,
) -> (ElementTable, Result<JsonValue, Failure>) {
    match result.array_at("elements"@) {
        Some(items) => if items.len() > 0 {
            match stored(table, element_ref_of(items[0]), candidate).1 {
                Some(id) => (
                    stored(table, element_ref_of(items[0]), candidate).0,
                    Ok(element_reference(id)),
                ),
                None => (table, Err(id_taken())),
            }
        } else {
            (
                table,
                Err(
                    failure(
                        ErrorKind::NoSuchElement,
                        none_found_message(search.scope, search.using, search.value),
                    ),
                ),
            )
        },
        None => (
            table,
            Err(
                failure(
                    ErrorKind::NoSuchElement,
                    none_found_message(search.scope, search.using, search.value),
                ),
            ),
        ),
    }
}

/// A search whose reply lists an element answers, where the candidate is free, with
/// the reference of an id, and from then on that id resolves to the first element
/// listed.
pub proof fn law_first_find_answers(
    table: ElementTable,
    search: FindView,
    result: JsonValue,
    candidate: Seq<char>,
)
    requires
        distinct_keys(table),
        !has_key(table, candidate),
        result.array_at("elements"@) is Some,
        result.array_at("elements"@)->0.len() > 0,
    ensures
        first_found_spec(table, search, result, candidate).1 is Ok,
        exists|id: Seq<char>|
            first_found_spec(table, search, result, candidate).1 == Ok::<JsonValue, Failure>(
                #[trigger] element_reference(id),
            ) && find(first_found_spec(table, search, result, candidate).0, id) == Some(
                element_ref_of(result.array_at("elements"@)->0[0]),
            ),
{
    let r = element_ref_of(result.array_at("elements"@)->0[0]);
    law_stored_ids_resolve(table, r, candidate, candidate);
    let id = stored(table, r, candidate).1->0;
    assert(first_found_spec(table, search, result, candidate).1 == Ok::<JsonValue, Failure>(
        element_reference(id),
    ));
}

/// The references that the reply `result` lists in its member `elements`; none
/// where it has no such array.
pub open spec fn listed(result: JsonValue) -> Seq<ElementRefView> {
    match result.array_at("elements"@) {
        Some(items) => Seq::new(items.len(), |i: int| element_ref_of(items[i])),
        None => Seq::empty(),
    }
}

/// What the reply `result` to a search for all elements does to `table`, and the
/// answer. The references that the reply lists are stored in their order, each with
/// the candidate of its position as the id for a reference that is new, and the
/// list of their ids is the answer.
pub open spec fn all_found_spec(table: ElementTable, result: JsonValue, candidates: Seq<Seq<char>>) -> (
    ElementTable,
    Result<JsonValue, Failure>,
) {
    let (after, ids) = stored_all(table, listed(result), candidates);
    match ids {
        Some(ids) => (
            after,
            Ok(JsonValue::Array(Seq::new(ids.len(), |i: int| element_reference(ids[i])))),
        ),
        None => (after, Err(id_taken())),
    }
}

fn none_found(search: &Find) -> (e: W3cError)
    ensures
        e@ == failure(
            ErrorKind::NoSuchElement,
            none_found_message(search@.scope, search@.using, search@.value),
        ),
{
    let mut message = match search.scope {
        Scope::Document => String::from_str("No element found with "),
        Scope::Shadow => String::from_str("No element found in shadow with "),
        Scope::Element => String::from_str("No child element found with "),
    };
    message.append(search.using.as_str());
    message.append(": ");
    message.append(search.value.as_str());
    W3cError { kind: ErrorKind::NoSuchElement, message }
}

fn taken() -> (e: W3cError)
    ensures
        e@ == id_taken(),
{
    W3cError::unknown("could not allocate a fresh identifier")
}

/// Answers a search for one element from the reply `result`, with `candidate` as the
/// id for a reference that is new.
pub fn first_found_as(session: &mut Session, search: &Find, result: &Json, candidate: String) -> (r:
    Result<Json, W3cError>)
    requires
        old(session)@.wf(),
    ensures
        final(session)@.wf(),
        (final(session)@.elements, outcome_view(r)) == first_found_spec(
            old(session)@.elements,
            search@,
            result@,
            candidate@,
        ),
        final(session)@.plugin_url == old(session)@.plugin_url,
        final(session)@.shadows == old(session)@.shadows,
        final(session)@.timeouts == old(session)@.timeouts,
{
    let items = match result.array_at("elements") {
        Some(items) => items,
        None => {
            return Err(none_found(search));
        },
    };
    if items.len() == 0 {
        return Err(none_found(search));
    }
    assert(items_view(items@)[0] == items@[0]@);
    match session.store_element_as(&items[0], candidate) {
        Some(id) => Ok(object1(W3C_ELEMENT_KEY, Json::Str(id))),
        None => Err(taken()),
    }
}

/// Answers a search for one element from the reply `result`. A reference that is
/// new gets a fresh random id.
pub fn first_found(session: &mut Session, search: &Find, result: &Json) -> (r: Result<Json, W3cError>)
    requires
        old(session)@.wf(),
    ensures
        final(session)@.wf(),
        exists|candidate: Seq<char>|
            (final(session)@.elements, outcome_view(r)) == #[trigger] first_found_spec(
                old(session)@.elements,
                search@,
                result@,
                candidate,
            ),
        final(session)@.plugin_url == old(session)@.plugin_url,
        final(session)@.shadows == old(session)@.shadows,
        final(session)@.timeouts == old(session)@.timeouts,
{
    let candidate = fresh_id();
    let ghost c = candidate@;
    let r = first_found_as(session, search, result, candidate);
    assert((session@.elements, outcome_view(r)) == first_found_spec(
        old(session)@.elements,
        search@,
        result@,
        c,
    ));
    r
}

/// Answers a search for all elements from the reply `result`, with the candidate of
/// its position as the id for a reference that is new.
pub fn all_found_as(session: &mut Session, result: &Json, candidates: &Vec<String>) -> (r: Result<
    Json,
    W3cError,
>)
    requires
        old(session)@.wf(),
    ensures
        final(session)@.wf(),
        (final(session)@.elements, outcome_view(r)) == all_found_spec(
            old(session)@.elements,
            result@,
            views(candidates@),
        ),
        final(session)@.plugin_url == old(session)@.plugin_url,
        final(session)@.shadows == old(session)@.shadows,
        final(session)@.timeouts == old(session)@.timeouts,
{
    let ghost start = session@.elements;
    let ghost refs = listed(result@);
    let ghost cands = views(candidates@);
    let mut out: Vec<Json> = Vec::new();
    let items = match result.array_at("elements") {
        Some(items) => items,
        None => {
            assert(items_view(out@) =~= Seq::new(
                0nat,
                |i: int| element_reference(Seq::<Seq<char>>::empty()[i]),
            ));
            return Ok(Json::array(out));
        },
    };
    let ghost mut ids: Seq<Seq<char>> = Seq::empty();
    let mut i: usize = 0;
    assert(refs.take(0) =~= Seq::<ElementRefView>::empty());
    while i < items.len()
        invariant
            i <= items.len(),
            session@.wf(),
            start == old(session)@.elements,
            result@.array_at("elements"@) == Some(items_view(items@)),
            refs == listed(result@),
            refs.len() == items@.len(),
            forall|k: int| 0 <= k < items@.len() ==> refs[k] == element_ref_of(items@[k]@),
            cands == views(candidates@),
            stored_all(start, refs.take(i as int), cands) == (session@.elements, Some(ids)),
            ids.len() == i,
            out@.len() == i,
            forall|k: int| 0 <= k < i ==> (#[trigger] out@[k])@ == element_reference(ids[k]),
            session@.plugin_url == old(session)@.plugin_url,
            session@.shadows == old(session)@.shadows,
            session@.timeouts == old(session)@.timeouts,
        decreases items.len() - i,
    {
        let ghost longer = refs.take(i + 1);
        let ghost before = session@.elements;
        proof {
            assert(longer.drop_last() =~= refs.take(i as int));
            assert(longer.last() == element_ref_of(items@[i as int]@));
        }
        let stored_id = if i < candidates.len() {
            session.store_element_as(&items[i], candidates[i].clone())
        } else {
            session.existing_element(&items[i])
        };
        match stored_id {
            Some(id) => {
                proof {
                    assert(stored_all(start, longer.drop_last(), cands) == (before, Some(ids)));
                    assert(cands.len() == candidates@.len());
                    if i < candidates@.len() {
                        assert(cands[i as int] == candidates@[i as int]@);
                    }
                    ids = ids.push(id@);
                    assert(stored_all(start, longer, cands) == (session@.elements, Some(ids)));
                }
                out.push(object1(W3C_ELEMENT_KEY, Json::Str(id)));
            },
            None => {
                proof {
                    assert(stored_all(start, longer.drop_last(), cands) == (before, Some(ids)));
                    assert(cands.len() == candidates@.len());
                    if i < candidates@.len() {
                        assert(cands[i as int] == candidates@[i as int]@);
                    }
                    assert(stored_all(start, longer, cands) == (session@.elements, None::<Seq<Seq<char>>>));
                    lemma_stored_all_stops(start, refs, cands, i + 1);
                    assert(refs.take(refs.len() as int) =~= refs);
                }
                return Err(taken());
            },
        }
        i += 1;
    }
    proof {
        assert(refs.take(i as int) =~= refs);
        assert(items_view(out@) =~= Seq::new(ids.len(), |k: int| element_reference(ids[k])));
    }
    Ok(Json::array(out))
}

/// Once storing has stopped at a reference, it has stopped for every longer list
/// that begins alike, with the table as it was then.
proof fn lemma_stored_all_stops(
    table: ElementTable,
    refs: Seq<ElementRefView>,
    candidates: Seq<Seq<char>>,
    n: int,
)
    requires
        0 <= n <= refs.len(),
        stored_all(table, refs.take(n), candidates).1 is None,
    ensures
        stored_all(table, refs, candidates) == stored_all(table, refs.take(n), candidates),
    decreases refs.len() - n,
{
    if n < refs.len() {
        let longer = refs.take(n + 1);
        assert(longer.drop_last() =~= refs.take(n));
        lemma_stored_all_stops(table, refs, candidates, n + 1);
    } else {
        assert(refs.take(n) =~= refs);
    }
}

/// As many fresh random ids as `n`.
pub fn fresh_ids(n: usize) -> (ids: Vec<String>)
    ensures
        ids@.len() == n,
{
    let mut ids: Vec<String> = Vec::new();
    let mut i: usize = 0;
    while i < n
        invariant
            i <= n,
            ids@.len() == i,
        decreases n - i,
    {
        ids.push(fresh_id());
        i += 1;
    }
    ids
}

/// Answers a search for all elements from the reply `result`. Each reference that
/// is new gets a fresh random id: there is one candidate for each reference listed.
pub fn all_found(session: &mut Session, result: &Json) -> (r: Result<Json, W3cError>)
    requires
        old(session)@.wf(),
    ensures
        final(session)@.wf(),
        exists|candidates: Seq<Seq<char>>|
            candidates.len() == listed(result@).len() && (
            final(session)@.elements,
            outcome_view(r),
        ) == #[trigger] all_found_spec(old(session)@.elements, result@, candidates),
        final(session)@.plugin_url == old(session)@.plugin_url,
        final(session)@.shadows == old(session)@.shadows,
        final(session)@.timeouts == old(session)@.timeouts,
{
    let n = match result.array_at("elements") {
        Some(items) => items.len(),
        None => 0,
    };
    let candidates = fresh_ids(n);
    let r = all_found_as(session, result, &candidates);
    assert(views(candidates@).len() == listed(result@).len());
    assert((session@.elements, outcome_view(r)) == all_found_spec(
        old(session)@.elements,
        result@,
        views(candidates@),
    ));
    r
}

/// The request that asks whether the element `eid` has a shadow root.
pub fn get_shadow_root(session: &Session, eid: &str) -> (r: Result<AgentRequest, W3cError>)
    ensures
        match r {
            Ok(req) => find(session@.elements, eid@) is Some && req@ == request(
                "/element/shadow"@,
                element_document(find(session@.elements, eid@)->0),
            ),
            Err(e) => find(session@.elements, eid@) is None && e@ == failure(
                ErrorKind::NoSuchElement,
                no_element_message(eid@),
            ),
        },
{
    match resolve_element(session, eid) {
        Ok(e) => Ok(post("/element/shadow", element_body(e))),
        Err(e) => Err(e),
    }
}

/// The message that tells of an element without a shadow root.
pub open spec fn no_shadow_root_message(eid: Seq<char>) -> Seq<char> {
    "Element "@ + eid + " does not have a shadow root"@
}

/// What the reply `result` to the question for the shadow root of the element `eid`
/// does to the shadow table, and the answer. Where the reply says in its member
/// `hasShadow` that there is one, the element's reference enters the table under
/// `candidate`, which is the answer; an id that is taken is a failure. Any other
/// reply is the failure of a shadow root that is not there.
pub open spec fn shadow_root_spec(
    session: SessionView,
    eid: Seq<char>,
    result: JsonValue,
    candidate: Seq<char>,
) -> (ShadowTable, Result<JsonValue, Failure>) {
    if result.get("hasShadow"@) != Some(JsonValue::Bool(true)) {
        (
            session.shadows,
            Err(failure(ErrorKind::NoSuchShadowRoot, no_shadow_root_message(eid))),
        )
    } else {
        match find(session.elements, eid) {
            None => (
                session.shadows,
                Err(failure(ErrorKind::NoSuchElement, no_element_message(eid))),
            ),
            Some(host) => if has_key(session.shadows, candidate) {
                (session.shadows, Err(id_taken()))
            } else {
                (
                    session.shadows.push(
                        (
                            candidate,
                            ShadowRefView {
                                host_selector: host.selector,
                                host_index: host.index,
                                host_using: host.using,
                            },
                        ),
                    ),
                    Ok(shadow_reference(candidate)),
                )
            },
        }
    }
}

/// Answers the question for the shadow root of the element `eid` from the reply
/// `result`, with `candidate` as the id of the shadow root.
pub fn shadow_root_found_as(session: &mut Session, eid: &str, result: &Json, candidate: String) -> (r:
    Result<Json, W3cError>)
    requires
        old(session)@.wf(),
    ensures
        final(session)@.wf(),
        (final(session)@.shadows, outcome_view(r)) == shadow_root_spec(
            old(session)@,
            eid@,
            result@,
            candidate@,
        ),
        final(session)@.plugin_url == old(session)@.plugin_url,
        final(session)@.elements == old(session)@.elements,
        final(session)@.timeouts == old(session)@.timeouts,
{
    let present = match result.get("hasShadow") {
        Some(Json::Bool(true)) => true,
        _ => false,
    };
    if !present {
        let mut message = String::from_str("Element ");
        message.append(eid);
        message.append(" does not have a shadow root");
        return Err(W3cError { kind: ErrorKind::NoSuchShadowRoot, message });
    }
    match session.store_shadow_for(eid, candidate) {
        Ok(Some(id)) => Ok(object1(W3C_SHADOW_KEY, Json::Str(id))),
        Ok(None) => Err(taken()),
        Err(e) => Err(e),
    }
}

/// Answers the question for the shadow root of the element `eid` from the reply
/// `result`. The shadow root gets a fresh random id.
pub fn shadow_root_found(session: &mut Session, eid: &str, result: &Json) -> (r: Result<Json, W3cError>)
    requires
        old(session)@.wf(),
    ensures
        final(session)@.wf(),
        exists|candidate: Seq<char>|
            (final(session)@.shadows, outcome_view(r)) == #[trigger] shadow_root_spec(
                old(session)@,
                eid@,
                result@,
                candidate,
            ),
        final(session)@.plugin_url == old(session)@.plugin_url,
        final(session)@.elements == old(session)@.elements,
        final(session)@.timeouts == old(session)@.timeouts,
{
    let candidate = fresh_id();
    let ghost c = candidate@;
    let r = shadow_root_found_as(session, eid, result, candidate);
    assert((session@.shadows, outcome_view(r)) == shadow_root_spec(old(session)@, eid@, result@, c));
    r
}

/// The request for the element that has the focus.
pub fn get_active_element() -> (r: AgentRequest)
    ensures
        r@ == request("/element/active"@, empty_object()),
{
    post("/element/active", empty_body())
}

/// What the reply `result` to the question for the focused element does to
/// `table`, and the answer. The reference in the member `element` of the reply is
/// stored, with `candidate` as the id for a reference that is new, and its id is the
/// answer. A reply without that member, or with null for it, is the failure of an
/// element that is not there.
pub open spec fn active_element_spec(table: ElementTable, result: JsonValue, candidate: Seq<char>) -> (
    ElementTable,
    Result<JsonValue, Failure>,
) {
    let element = result.field_or("element"@, JsonValue::Null);
    if element.is_null() {
        (table, Err(failure(ErrorKind::NoSuchElement, "No element is focused"@)))
    } else {
        match stored(table, element_ref_of(element), candidate).1 {
            Some(id) => (stored(table, element_ref_of(element), candidate).0, Ok(element_reference(id))),
            None => (table, Err(id_taken())),
        }
    }
}

/// Answers the question for the focused element from the reply `result`, with
/// `candidate` as the id for a reference that is new.
pub fn active_element_found_as(session: &mut Session, result: &Json, candidate: String) -> (r: Result<
    Json,
    W3cError,
>)
    requires
        old(session)@.wf(),
    ensures
        final(session)@.wf(),
        (final(session)@.elements, outcome_view(r)) == active_element_spec(
            old(session)@.elements,
            result@,
            candidate@,
        ),
        final(session)@.plugin_url == old(session)@.plugin_url,
        final(session)@.shadows == old(session)@.shadows,
        final(session)@.timeouts == old(session)@.timeouts,
{
    let element = match result.get("element") {
        Some(element) => element,
        None => {
            return Err(W3cError::new(ErrorKind::NoSuchElement, "No element is focused"));
        },
    };
    if element.is_null() {
        return Err(W3cError::new(ErrorKind::NoSuchElement, "No element is focused"));
    }
    match session.store_element_as(element, candidate) {
        Some(id) => Ok(object1(W3C_ELEMENT_KEY, Json::Str(id))),
        None => Err(taken()),
    }
}

/// Answers the question for the focused element from the reply `result`. A
/// reference that is new gets a fresh random id.
pub fn active_element_found(session: &mut Session, result: &Json) -> (r: Result<Json, W3cError>)
    requires
        old(session)@.wf(),
    ensures
        final(session)@.wf(),
        exists|candidate: Seq<char>|
            (final(session)@.elements, outcome_view(r)) == #[trigger] active_element_spec(
                old(session)@.elements,
                result@,
                candidate,
            ),
        final(session)@.plugin_url == old(session)@.plugin_url,
        final(session)@.shadows == old(session)@.shadows,
        final(session)@.timeouts == old(session)@.timeouts,
{
    let candidate = fresh_id();
    let ghost c = candidate@;
    let r = active_element_found_as(session, result, candidate);
    assert((session@.elements, outcome_view(r)) == active_element_spec(
        old(session)@.elements,
        result@,
        c,
    ));
    r
}

} // verus!
