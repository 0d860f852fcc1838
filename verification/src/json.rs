//! JSON documents as plain values.

use vstd::prelude::*;

verus! {

/// A JSON number. A number that is no integer of 64 bits is held as its decimal text.
#[derive(Debug, PartialEq)]
pub enum Number {
    /// A whole number that is not negative.
    Unsigned(u64),
    /// A whole number below zero.
    Negative(i64),
    /// Any other number, as the decimal text that a script can read.
    Real(String),
}

/// A JSON document. The entries of an object keep the order they were given in.
#[derive(Debug, PartialEq)]
pub enum Json {
    Null,
    Bool(bool),
    Number(Number),
    Str(String),
    Array(Vec<Json>),
    Object(Vec<(String, Json)>),
}

/// What a `Number` stands for.
pub ghost enum NumberValue {
    Unsigned(u64),
    Negative(i64),
    Real(Seq<char>),
}

/// What a `Json` stands for.
pub ghost enum JsonValue {
    Null,
    Bool(bool),
    Number(NumberValue),
    Str(Seq<char>),
    Array(Seq<JsonValue>),
    Object(Seq<(Seq<char>, JsonValue)>),
}

impl View for Number {
    type V = NumberValue;

    open spec fn view(&self) -> NumberValue {
        match self {
            Number::Unsigned(n) => NumberValue::Unsigned(*n),
            Number::Negative(n) => NumberValue::Negative(*n),
            Number::Real(text) => NumberValue::Real(text@),
        }
    }
}

impl View for Json {
    type V = JsonValue;

    open spec fn view(&self) -> JsonValue
        decreases self,
    {
        match self {
            Json::Null => JsonValue::Null,
            Json::Bool(b) => JsonValue::Bool(*b),
            Json::Number(n) => JsonValue::Number(n@),
            Json::Str(s) => JsonValue::Str(s@),
            Json::Array(items) => JsonValue::Array(
                Seq::new(
                    items.len() as nat,
                    |i: int|
                        if 0 <= i < items.len() {
                            items[i].view()
                        } else {
                            JsonValue::Null
                        },
                ),
            ),
            Json::Object(entries) => JsonValue::Object(
                Seq::new(
                    entries.len() as nat,
                    |i: int|
                        if 0 <= i < entries.len() {
                            (entries[i].0@, entries[i].1.view())
                        } else {
                            (Seq::empty(), JsonValue::Null)
                        },
                ),
            ),
        }
    }
}


/// The views of the documents of `items`, in their order.
pub open spec fn items_view(items: Seq<Json>) -> Seq<JsonValue> {
    Seq::new(items.len(), |i: int| items[i]@)
}

/// The views of the entries of `entries`, in their order.
pub open spec fn entries_view(entries: Seq<(String, Json)>) -> Seq<(Seq<char>, JsonValue)> {
    Seq::new(entries.len(), |i: int| (entries[i].0@, entries[i].1@))
}

/// The view of an optional string slice.
pub open spec fn text_of(s: Option<&str>) -> Option<Seq<char>> {
    match s {
        Some(s) => Some(s@),
        None => None,
    }
}

/// The view of an optional document.
pub open spec fn value_of(j: Option<&Json>) -> Option<JsonValue> {
    match j {
        Some(j) => Some(j@),
        None => None,
    }
}

/// The value of the first of `entries` whose key is `key`.
pub open spec fn lookup(entries: Seq<(Seq<char>, JsonValue)>, key: Seq<char>) -> Option<
    JsonValue,
>
    decreases entries.len(),
{
    if entries.len() == 0 {
        None
    } else if entries[0].0 == key {
        Some(entries[0].1)
    } else {
        lookup(entries.drop_first(), key)
    }
}

impl JsonValue {
    /// The member `key` of an object; nothing of any other document.
    pub open spec fn get(self, key: Seq<char>) -> Option<JsonValue> {
        match self {
            JsonValue::Object(entries) => lookup(entries, key),
            _ => None,
        }
    }

    pub open spec fn as_str(self) -> Option<Seq<char>> {
        match self {
            JsonValue::Str(s) => Some(s),
            _ => None,
        }
    }

    /// The number, where it is a whole number that is not negative.
    pub open spec fn as_u64(self) -> Option<u64> {
        match self {
            JsonValue::Number(NumberValue::Unsigned(n)) => Some(n),
            _ => None,
        }
    }

    pub open spec fn as_bool(self) -> Option<bool> {
        match self {
            JsonValue::Bool(b) => Some(b),
            _ => None,
        }
    }

    pub open spec fn as_array(self) -> Option<Seq<JsonValue>> {
        match self {
            JsonValue::Array(items) => Some(items),
            _ => None,
        }
    }

    pub open spec fn as_object(self) -> Option<Seq<(Seq<char>, JsonValue)>> {
        match self {
            JsonValue::Object(entries) => Some(entries),
            _ => None,
        }
    }

    pub open spec fn is_null(self) -> bool {
        self is Null
    }

    /// The string that the member `key` holds.
    pub open spec fn str_at(self, key: Seq<char>) -> Option<Seq<char>> {
        match self.get(key) {
            Some(v) => v.as_str(),
            None => None,
        }
    }

    /// The whole number that the member `key` holds.
    pub open spec fn u64_at(self, key: Seq<char>) -> Option<u64> {
        match self.get(key) {
            Some(v) => v.as_u64(),
            None => None,
        }
    }

    /// The items of the array that the member `key` holds.
    pub open spec fn array_at(self, key: Seq<char>) -> Option<Seq<JsonValue>> {
        match self.get(key) {
            Some(v) => v.as_array(),
            None => None,
        }
    }

    /// The string that the member `key` holds, or `default` where it holds none.
    pub open spec fn str_or(self, key: Seq<char>, default: Seq<char>) -> Seq<char> {
        match self.str_at(key) {
            Some(s) => s,
            None => default,
        }
    }

    /// The whole number that the member `key` holds, or `default` where it holds none.
    pub open spec fn u64_or(self, key: Seq<char>, default: u64) -> u64 {
        match self.u64_at(key) {
            Some(n) => n,
            None => default,
        }
    }

    /// The member `key`, or `default` where there is none.
    pub open spec fn field_or(self, key: Seq<char>, default: JsonValue) -> JsonValue {
        match self.get(key) {
            Some(v) => v,
            None => default,
        }
    }
}

/// An array is viewed item by item.
pub proof fn lemma_array_view(items: Vec<Json>)
    ensures
        Json::Array(items)@ == JsonValue::Array(items_view(items@)),
{
    broadcast use vstd::std_specs::vec::group_vec_axioms;

    let j = Json::Array(items);
    reveal_with_fuel(<Json as View>::view, 2);
    assert(j@ is Array);
    assert(j@->Array_0.len() == items@.len());
    assert forall|i: int| 0 <= i < items@.len() implies j@->Array_0[i] == items@[i]@ by {}
    assert(j@->Array_0 =~= items_view(items@));
}

/// An object is viewed entry by entry.
pub proof fn lemma_object_view(entries: Vec<(String, Json)>)
    ensures
        Json::Object(entries)@ == JsonValue::Object(entries_view(entries@)),
{
    broadcast use vstd::std_specs::vec::group_vec_axioms;

    let j = Json::Object(entries);
    reveal_with_fuel(<Json as View>::view, 2);
    assert(j@ is Object);
    assert(j@->Object_0.len() == entries@.len());
    assert forall|i: int| 0 <= i < entries@.len() implies j@->Object_0[i] == (
        entries@[i].0@,
        entries@[i].1@,
    ) by {}
    assert(j@->Object_0 =~= entries_view(entries@));
}

impl Number {
    /// A copy of this number.
    pub fn copy(&self) -> (out: Number)
        ensures
            out@ == self@,
    {
        match self {
            Number::Unsigned(n) => Number::Unsigned(*n),
            Number::Negative(n) => Number::Negative(*n),
            Number::Real(text) => Number::Real(text.clone()),
        }
    }
}

impl Json {
    /// The string `s` as a document.
    pub fn text(s: &str) -> (out: Json)
        ensures
            out@ == JsonValue::Str(s@),
    {
        Json::Str(String::from_str(s))
    }

    /// The whole number `n` as a document.
    pub fn unsigned(n: u64) -> (out: Json)
        ensures
            out@ == JsonValue::Number(NumberValue::Unsigned(n)),
    {
        Json::Number(Number::Unsigned(n))
    }

    /// The array of `items`.
    pub fn array(items: Vec<Json>) -> (out: Json)
        ensures
            out@ == JsonValue::Array(items_view(items@)),
    {
        proof {
            lemma_array_view(items);
        }
        Json::Array(items)
    }

    /// The object of `entries`.
    pub fn object(entries: Vec<(String, Json)>) -> (out: Json)
        ensures
            out@ == JsonValue::Object(entries_view(entries@)),
    {
        proof {
            lemma_object_view(entries);
        }
        Json::Object(entries)
    }

    /// The object without entries.
    pub fn empty_object() -> (out: Json)
        ensures
            out@ == JsonValue::Object(Seq::empty()),
    {
        let entries: Vec<(String, Json)> = Vec::new();
        assert(entries_view(entries@) =~= Seq::empty());
        Json::object(entries)
    }

    pub fn is_null(&self) -> (r: bool)
        ensures
            r == self@.is_null(),
    {
        match self {
            Json::Null => true,
            _ => false,
        }
    }

    pub fn as_str(&self) -> (r: Option<&str>)
        ensures
            text_of(r) == self@.as_str(),
    {
        match self {
            Json::Str(s) => Some(s.as_str()),
            _ => None,
        }
    }

    pub fn as_u64(&self) -> (r: Option<u64>)
        ensures
            r == self@.as_u64(),
    {
        match self {
            Json::Number(Number::Unsigned(n)) => Some(*n),
            _ => None,
        }
    }

    pub fn as_bool(&self) -> (r: Option<bool>)
        ensures
            r == self@.as_bool(),
    {
        match self {
            Json::Bool(b) => Some(*b),
            _ => None,
        }
    }

    pub fn as_array(&self) -> (r: Option<&Vec<Json>>)
        ensures
            match r {
                Some(items) => self@.as_array() == Some(items_view(items@)),
                None => self@.as_array() is None,
            },
    {
        match self {
            Json::Array(items) => {
                proof {
                    lemma_array_view(*items);
                }
                Some(items)
            },
            _ => None,
        }
    }

    pub fn as_object(&self) -> (r: Option<&Vec<(String, Json)>>)
        ensures
            match r {
                Some(entries) => self@.as_object() == Some(entries_view(entries@)),
                None => self@.as_object() is None,
            },
    {
        match self {
            Json::Object(entries) => {
                proof {
                    lemma_object_view(*entries);
                }
                Some(entries)
            },
            _ => None,
        }
    }

    /// The member `key` of an object.
    pub fn get(&self, key: &str) -> (r: Option<&Json>)
        ensures
            value_of(r) == self@.get(key@),
    {
        match self {
            Json::Object(entries) => {
                proof {
                    lemma_object_view(*entries);
                }
                let wanted = String::from_str(key);
                let ghost all = entries_view(entries@);
                let mut i: usize = 0;
                assert(all.skip(0) =~= all);
                while i < entries.len()
                    invariant
                        i <= entries.len(),
                        wanted@ == key@,
                        all == entries_view(entries@),
                        self@ == JsonValue::Object(all),
                        lookup(all.skip(i as int), key@) == lookup(all, key@),
                    decreases entries.len() - i,
                {
                    let ghost rest = all.skip(i as int);
                    assert(rest[0] == all[i as int]);
                    assert(rest.drop_first() =~= all.skip(i + 1));
                    if entries[i].0 == wanted {
                        return Some(&entries[i].1);
                    }
                    i += 1;
                }
                assert(all.skip(i as int).len() == 0);
                None
            },
            _ => None,
        }
    }

    /// The string that the member `key` holds.
    pub fn str_at(&self, key: &str) -> (r: Option<&str>)
        ensures
            text_of(r) == self@.str_at(key@),
    {
        match self.get(key) {
            Some(v) => v.as_str(),
            None => None,
        }
    }

    /// The whole number that the member `key` holds.
    pub fn u64_at(&self, key: &str) -> (r: Option<u64>)
        ensures
            r == self@.u64_at(key@),
    {
        match self.get(key) {
            Some(v) => v.as_u64(),
            None => None,
        }
    }

    /// The string that the member `key` holds, or `default` where it holds none.
    pub fn str_or(&self, key: &str, default: &str) -> (r: String)
        ensures
            r@ == self@.str_or(key@, default@),
    {
        match self.str_at(key) {
            Some(s) => String::from_str(s),
            None => String::from_str(default),
        }
    }

    /// The whole number that the member `key` holds, or `default` where it holds none.
    pub fn u64_or(&self, key: &str, default: u64) -> (r: u64)
        ensures
            r == self@.u64_or(key@, default),
    {
        match self.u64_at(key) {
            Some(n) => n,
            None => default,
        }
    }

    /// The items of the array that the member `key` holds.
    pub fn array_at(&self, key: &str) -> (r: Option<&Vec<Json>>)
        ensures
            match r {
                Some(items) => self@.array_at(key@) == Some(items_view(items@)),
                None => self@.array_at(key@) is None,
            },
    {
        match self.get(key) {
            Some(v) => v.as_array(),
            None => None,
        }
    }

    /// A copy of this document.
    #[verifier::loop_isolation(false)]
    pub fn copy(&self) -> (out: Json)
        ensures
            out@ == self@,
        decreases self,
    {
        match self {
            Json::Null => Json::Null,
            Json::Bool(b) => Json::Bool(*b),
            Json::Number(n) => Json::Number(n.copy()),
            Json::Str(s) => Json::Str(s.clone()),
            Json::Array(items) => {
                let mut out: Vec<Json> = Vec::new();
                let mut i: usize = 0;
                while i < items.len()
                    invariant
                        i <= items.len(),
                        out.len() == i,
                        forall|j: int| 0 <= j < i ==> out[j]@ == items[j]@,
                    decreases items.len() - i,
                {
                    out.push(items[i].copy());
                    i += 1;
                }
                proof {
                    lemma_array_view(*items);
                    assert(items_view(out@) =~= items_view(items@));
                }
                Json::array(out)
            },
            Json::Object(entries) => {
                let mut out: Vec<(String, Json)> = Vec::new();
                let mut i: usize = 0;
                while i < entries.len()
                    invariant
                        i <= entries.len(),
                        out.len() == i,
                        forall|j: int|
                            0 <= j < i ==> out[j].0@ == entries[j].0@ && out[j].1@ == entries[j].1@,
                    decreases entries.len() - i,
                {
                    out.push((entries[i].0.clone(), entries[i].1.copy()));
                    i += 1;
                }
                proof {
                    lemma_object_view(*entries);
                    assert(entries_view(out@) =~= entries_view(entries@));
                }
                Json::object(out)
            },
        }
    }

    /// A copy of the member `key`, or `default` where there is none.
    pub fn field_or(&self, key: &str, default: Json) -> (out: Json)
        ensures
            out@ == self@.field_or(key@, default@),
    {
        match self.get(key) {
            Some(v) => v.copy(),
            None => default,
        }
    }
}

/// No entries yet.
pub fn no_entries() -> (entries: Vec<(String, Json)>)
    ensures
        entries_view(entries@) == Seq::<(Seq<char>, JsonValue)>::empty(),
{
    let entries: Vec<(String, Json)> = Vec::new();
    assert(entries_view(entries@) =~= Seq::<(Seq<char>, JsonValue)>::empty());
    entries
}

/// Adds the entry `key`: `value` at the end of `entries`.
pub fn put(entries: &mut Vec<(String, Json)>, key: &str, value: Json)
    ensures
        entries_view(final(entries)@) == entries_view(old(entries)@).push((key@, value@)),
{
    entries.push((String::from_str(key), value));
    assert(entries_view(entries@) =~= entries_view(old(entries)@).push((key@, value@)));
}

} // verus!
