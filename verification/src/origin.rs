//! Input actions on the public server. A pointer move may name an element by its id
//! as the place to start from; the embedded server knows no ids, so each such id is
//! replaced by the reference it stands for before the actions are handed on.

use vstd::prelude::*;
use crate::json::{entries_view, items_view, lemma_object_view, Json, JsonValue};
use crate::plan::{
    element_body, element_document, object1, object_of, one, single, Answer, AnswerView, Plan,
    Recovery, RecoveryView, W3C_ELEMENT_KEY,
};
use crate::registry::find;
use crate::session::{resolve_element, ElementTable, Session};

verus! {

/// `entries` with the value of the first entry under `key` replaced by `new`.
pub open spec fn replace_first(
    entries: Seq<(Seq<char>, JsonValue)>,
    key: Seq<char>,
    new: JsonValue,
) -> Seq<(Seq<char>, JsonValue)>
    decreases entries.len(),
{
    if entries.len() == 0 {
        entries
    } else if entries[0].0 == key {
        seq![(key, new)] + entries.drop_first()
    } else {
        seq![entries[0]] + replace_first(entries.drop_first(), key, new)
    }
}

/// The object `v` with its member `key` replaced by `new`. An object without that
/// member, and a document that is no object, stays as it is.
pub open spec fn replaced(v: JsonValue, key: Seq<char>, new: JsonValue) -> JsonValue {
    match v {
        JsonValue::Object(entries) => JsonValue::Object(replace_first(entries, key, new)),
        _ => v,
    }
}

/// The origin that takes the place of the origin of `action`: where the origin
/// names, under the protocol's key for elements, an id that `table` knows, it is
/// the reference of that element under the same key.
pub open spec fn resolved_origin(table: ElementTable, action: JsonValue) -> Option<JsonValue> {
    match action.get("origin"@) {
        Some(origin) => match origin.str_at(W3C_ELEMENT_KEY@) {
            Some(eid) => match find(table, eid) {
                Some(r) => Some(object_of(W3C_ELEMENT_KEY@, element_document(r))),
                None => None,
            },
            None => None,
        },
        None => None,
    }
}

/// The action `action` as it is handed on.
pub open spec fn resolved_action(table: ElementTable, action: JsonValue) -> JsonValue {
    match resolved_origin(table, action) {
        Some(origin) => replaced(action, "origin"@, origin),
        None => action,
    }
}

/// The input source `sequence` as it is handed on: each of its actions resolved.
pub open spec fn resolved_sequence(table: ElementTable, sequence: JsonValue) -> JsonValue {
    match sequence.array_at("actions"@) {
        Some(actions) => replaced(
            sequence,
            "actions"@,
            JsonValue::Array(Seq::new(actions.len(), |i: int| resolved_action(table, actions[i]))),
        ),
        None => sequence,
    }
}

/// The request `body` as it is handed on: each of its input sources resolved.
pub open spec fn resolved_body(table: ElementTable, body: JsonValue) -> JsonValue {
    match body.array_at("actions"@) {
        Some(sequences) => replaced(
            body,
            "actions"@,
            JsonValue::Array(
                Seq::new(sequences.len(), |i: int| resolved_sequence(table, sequences[i])),
            ),
        ),
        None => body,
    }
}

proof fn lemma_replace_at(entries: Seq<(Seq<char>, JsonValue)>, key: Seq<char>, new: JsonValue, p: int)
    requires
        0 <= p < entries.len(),
        entries[p].0 == key,
        forall|j: int| 0 <= j < p ==> (#[trigger] entries[j]).0 != key,
    ensures
        replace_first(entries, key, new) == entries.take(p).push((key, new)) + entries.skip(p + 1),
    decreases p,
{
    if p == 0 {
        assert(entries.take(0).push((key, new)) =~= seq![(key, new)]);
        assert(entries.skip(1) =~= entries.drop_first());
    } else {
        let rest = entries.drop_first();
        assert(entries[0].0 != key);
        assert forall|j: int| 0 <= j < p - 1 implies (#[trigger] rest[j]).0 != key by {
            assert(rest[j] == entries[j + 1]);
        }
        assert(rest[p - 1] == entries[p]);
        lemma_replace_at(rest, key, new, p - 1);
        assert(seq![entries[0]] + (rest.take(p - 1).push((key, new)) + rest.skip(p)) =~= entries.take(
            p,
        ).push((key, new)) + entries.skip(p + 1));
    }
}

proof fn lemma_replace_none(entries: Seq<(Seq<char>, JsonValue)>, key: Seq<char>, new: JsonValue)
    requires
        forall|j: int| 0 <= j < entries.len() ==> (#[trigger] entries[j]).0 != key,
    ensures
        replace_first(entries, key, new) == entries,
    decreases entries.len(),
{
    if entries.len() > 0 {
        let rest = entries.drop_first();
        assert(entries[0].0 != key);
        assert forall|j: int| 0 <= j < rest.len() implies (#[trigger] rest[j]).0 != key by {
            assert(rest[j] == entries[j + 1]);
        }
        lemma_replace_none(rest, key, new);
        assert(seq![entries[0]] + rest =~= entries);
    }
}

/// The object `v` with its member `key` replaced by `new`.
pub fn with_member(v: &Json, key: &str, new: Json) -> (out: Json)
    ensures
        out@ == replaced(v@, key@, new@),
{
    let entries = match v {
        Json::Object(entries) => entries,
        _ => {
            return v.copy();
        },
    };
    proof {
        lemma_object_view(*entries);
    }
    let ghost all = entries_view(entries@);
    let wanted = String::from_str(key);
    let mut p: usize = 0;
    while p < entries.len() && entries[p].0 != wanted
        invariant
            p <= entries.len(),
            wanted@ == key@,
            all == entries_view(entries@),
            forall|j: int| 0 <= j < p ==> (#[trigger] all[j]).0 != key@,
        decreases entries.len() - p,
    {
        assert(all[p as int].0 == entries@[p as int].0@);
        p += 1;
    }
    if p == entries.len() {
        proof {
            lemma_replace_none(all, key@, new@);
        }
        return v.copy();
    }
    assert(all[p as int].0 == entries@[p as int].0@);
    let mut out: Vec<(String, Json)> = Vec::new();
    let mut i: usize = 0;
    while i < p
        invariant
            i <= p < entries.len(),
            all == entries_view(entries@),
            entries_view(out@) == all.take(i as int),
        decreases p - i,
    {
        let ghost before = entries_view(out@);
        out.push((entries[i].0.clone(), entries[i].1.copy()));
        assert(all[i as int] == (entries@[i as int].0@, entries@[i as int].1@));
        assert(entries_view(out@) =~= before.push(all[i as int]));
        assert(entries_view(out@) =~= all.take(i + 1));
        i += 1;
    }
    out.push((wanted, new));
    assert(entries_view(out@) =~= all.take(p as int).push((key@, new@)));
    let mut k: usize = p + 1;
    let ghost head = all.take(p as int).push((key@, new@));
    assert(all.subrange(p + 1, p + 1) =~= Seq::empty());
    assert(head + all.subrange(p + 1, p + 1) =~= head);
    while k < entries.len()
        invariant
            p < k <= entries.len(),
            all == entries_view(entries@),
            head == all.take(p as int).push((key@, new@)),
            entries_view(out@) == head + all.subrange(p + 1, k as int),
        decreases entries.len() - k,
    {
        let ghost before = entries_view(out@);
        out.push((entries[k].0.clone(), entries[k].1.copy()));
        assert(all[k as int] == (entries@[k as int].0@, entries@[k as int].1@));
        assert(entries_view(out@) =~= before.push(all[k as int]));
        assert(entries_view(out@) =~= head + all.subrange(p + 1, k + 1));
        k += 1;
    }
    proof {
        assert(all.subrange(p + 1, k as int) =~= all.skip(p + 1));
        lemma_replace_at(all, key@, new@, p as int);
    }
    Json::object(out)
}

/// The origin that takes the place of the origin of `action`.
pub fn origin_for(session: &Session, action: &Json) -> (origin: Option<Json>)
    ensures
        match origin {
            Some(o) => resolved_origin(session@.elements, action@) == Some(o@),
            None => resolved_origin(session@.elements, action@) is None,
        },
{
    match action.get("origin") {
        Some(origin) => match origin.str_at(W3C_ELEMENT_KEY) {
            Some(eid) => match resolve_element(session, eid) {
                Ok(e) => Some(object1(W3C_ELEMENT_KEY, element_body(e))),
                Err(_) => None,
            },
            None => None,
        },
        None => None,
    }
}

/// The action `action` as it is handed on.
pub fn resolve_action(session: &Session, action: &Json) -> (out: Json)
    ensures
        out@ == resolved_action(session@.elements, action@),
{
    match origin_for(session, action) {
        Some(origin) => with_member(action, "origin", origin),
        None => action.copy(),
    }
}

/// The input source `sequence` as it is handed on.
pub fn resolve_sequence(session: &Session, sequence: &Json) -> (out: Json)
    ensures
        out@ == resolved_sequence(session@.elements, sequence@),
{
    match sequence.array_at("actions") {
        Some(actions) => {
            let ghost table = session@.elements;
            let ghost all = items_view(actions@);
            let mut out: Vec<Json> = Vec::new();
            let mut i: usize = 0;
            while i < actions.len()
                invariant
                    i <= actions.len(),
                    table == session@.elements,
                    all == items_view(actions@),
                    out@.len() == i,
                    forall|k: int| 0 <= k < i ==> (#[trigger] out@[k])@ == resolved_action(table, all[k]),
                decreases actions.len() - i,
            {
                out.push(resolve_action(session, &actions[i]));
                i += 1;
            }
            assert(items_view(out@) =~= Seq::new(all.len(), |i: int| resolved_action(table, all[i])));
            with_member(sequence, "actions", Json::array(out))
        },
        None => sequence.copy(),
    }
}

/// The request `body` as it is handed on.
pub fn resolve_body(session: &Session, body: &Json) -> (out: Json)
    ensures
        out@ == resolved_body(session@.elements, body@),
{
    match body.array_at("actions") {
        Some(sequences) => {
            let ghost table = session@.elements;
            let ghost all = items_view(sequences@);
            let mut out: Vec<Json> = Vec::new();
            let mut i: usize = 0;
            while i < sequences.len()
                invariant
                    i <= sequences.len(),
                    table == session@.elements,
                    all == items_view(sequences@),
                    out@.len() == i,
                    forall|k: int|
                        0 <= k < i ==> (#[trigger] out@[k])@ == resolved_sequence(table, all[k]),
                decreases sequences.len() - i,
            {
                out.push(resolve_sequence(session, &sequences[i]));
                i += 1;
            }
            assert(items_view(out@) =~= Seq::new(
                all.len(),
                |i: int| resolved_sequence(table, all[i]),
            ));
            with_member(body, "actions", Json::array(out))
        },
        None => body.copy(),
    }
}

/// Performs the actions of `body`, with each element named as the place to start
/// from resolved to its reference.
pub fn perform_actions(session: &Session, body: &Json) -> (plan: Plan)
    ensures
        plan@ == one(
            "/actions/perform"@,
            resolved_body(session@.elements, body@),
            AnswerView::Null,
            RecoveryView::Propagate,
        ),
{
    single("/actions/perform", resolve_body(session, body), Answer::Null, Recovery::Propagate)
}

} // verus!
