//! A table of values under text keys, each key held once.

use vstd::prelude::*;

verus! {

/// The value of the first of `entries` whose key is `key`.
pub open spec fn find<T>(entries: Seq<(Seq<char>, T)>, key: Seq<char>) -> Option<T>
    decreases entries.len(),
{
    if entries.len() == 0 {
        None
    } else if entries[0].0 == key {
        Some(entries[0].1)
    } else {
        find(entries.drop_first(), key)
    }
}

/// Whether one of `entries` has the key `key`.
pub open spec fn has_key<T>(entries: Seq<(Seq<char>, T)>, key: Seq<char>) -> bool {
    exists|i: int| 0 <= i < entries.len() && (#[trigger] entries[i]).0 == key
}

/// Whether no two of `entries` share a key.
pub open spec fn distinct_keys<T>(entries: Seq<(Seq<char>, T)>) -> bool {
    forall|i: int, j: int|
        0 <= i < j < entries.len() ==> (#[trigger] entries[i]).0 != (#[trigger] entries[j]).0
}

/// `find` gives the value of an entry exactly where the key occurs.
pub proof fn lemma_find<T>(entries: Seq<(Seq<char>, T)>, key: Seq<char>)
    ensures
        find(entries, key) is Some <==> has_key(entries, key),
        find(entries, key) matches Some(v) ==> exists|i: int|
            0 <= i < entries.len() && #[trigger] entries[i] == (key, v),
    decreases entries.len(),
{
    if entries.len() > 0 {
        let rest = entries.drop_first();
        lemma_find(rest, key);
        if entries[0].0 == key {
            assert(entries[0] == (key, entries[0].1));
        } else {
            if has_key(rest, key) {
                let i = choose|i: int| 0 <= i < rest.len() && (#[trigger] rest[i]).0 == key;
                assert(entries[i + 1] == rest[i]);
            }
            if has_key(entries, key) {
                let i = choose|i: int| 0 <= i < entries.len() && (#[trigger] entries[i]).0 == key;
                assert(rest[i - 1] == entries[i]);
            }
            if find(entries, key) is Some {
                let v = find(entries, key)->0;
                let i = choose|i: int| 0 <= i < rest.len() && #[trigger] rest[i] == (key, v);
                assert(entries[i + 1] == rest[i]);
            }
        }
    }
}

/// Where keys are distinct, the entry at a position is the one that its key finds.
pub proof fn lemma_find_at<T>(entries: Seq<(Seq<char>, T)>, i: int)
    requires
        distinct_keys(entries),
        0 <= i < entries.len(),
    ensures
        find(entries, entries[i].0) == Some(entries[i].1),
    decreases entries.len(),
{
    if i > 0 {
        let rest = entries.drop_first();
        assert forall|a: int, b: int| 0 <= a < b < rest.len() implies (#[trigger] rest[a]).0 != (
        #[trigger] rest[b]).0 by {
            assert(rest[a] == entries[a + 1]);
            assert(rest[b] == entries[b + 1]);
        }
        assert(rest[i - 1] == entries[i]);
        lemma_find_at(rest, i - 1);
        assert(entries[0].0 != entries[i].0);
    }
}

/// An entry put at the end under a new key is found, and every other key finds what
/// it found before.
pub proof fn lemma_find_push<T>(entries: Seq<(Seq<char>, T)>, key: Seq<char>, value: T, other: Seq<char>)
    ensures
        find(entries.push((key, value)), other) == if find(entries, other) is Some {
            find(entries, other)
        } else if other == key {
            Some(value)
        } else {
            None
        },
    decreases entries.len(),
{
    let longer = entries.push((key, value));
    if entries.len() == 0 {
        assert(longer.drop_first() =~= Seq::empty());
    } else {
        assert(longer[0] == entries[0]);
        assert(longer.drop_first() =~= entries.drop_first().push((key, value)));
        lemma_find_push(entries.drop_first(), key, value, other);
    }
}

/// Whether `a` and `b` have the same keys at the same places.
pub open spec fn same_keys<A, B>(a: Seq<(Seq<char>, A)>, b: Seq<(Seq<char>, B)>) -> bool {
    a.len() == b.len() && forall|i: int| 0 <= i < a.len() ==> (#[trigger] a[i]).0 == b[i].0
}

/// Tables with the same keys at the same places hold the same keys, and hold each
/// once or not together.
pub proof fn lemma_same_keys<A, B>(a: Seq<(Seq<char>, A)>, b: Seq<(Seq<char>, B)>, key: Seq<char>)
    requires
        same_keys(a, b),
    ensures
        has_key(a, key) == has_key(b, key),
        distinct_keys(a) == distinct_keys(b),
{
    if has_key(a, key) {
        let k = choose|k: int| 0 <= k < a.len() && (#[trigger] a[k]).0 == key;
        assert(b[k].0 == key);
    }
    if has_key(b, key) {
        let k = choose|k: int| 0 <= k < b.len() && (#[trigger] b[k]).0 == key;
        assert(a[k].0 == key);
    }
    if distinct_keys(a) {
        assert forall|i: int, j: int| 0 <= i < j < b.len() implies (#[trigger] b[i]).0 != (
        #[trigger] b[j]).0 by {
            assert(a[i].0 == b[i].0);
            assert(a[j].0 == b[j].0);
        }
    }
    if distinct_keys(b) {
        assert forall|i: int, j: int| 0 <= i < j < a.len() implies (#[trigger] a[i]).0 != (
        #[trigger] a[j]).0 by {
            assert(a[i].0 == b[i].0);
            assert(a[j].0 == b[j].0);
        }
    }
}

/// Where `viewed` holds, key by key, what `f` makes of the values of `raw`, a key
/// finds in `viewed` what `f` makes of what it finds in `raw`.
pub proof fn lemma_find_mapped<A, B>(
    raw: Seq<(Seq<char>, A)>,
    viewed: Seq<(Seq<char>, B)>,
    f: spec_fn(A) -> B,
    key: Seq<char>,
)
    requires
        viewed.len() == raw.len(),
        forall|i: int| 0 <= i < raw.len() ==> #[trigger] viewed[i] == (raw[i].0, f(raw[i].1)),
    ensures
        find(viewed, key) == match find(raw, key) {
            Some(a) => Some(f(a)),
            None => None,
        },
    decreases raw.len(),
{
    if raw.len() > 0 {
        assert(viewed[0] == (raw[0].0, f(raw[0].1)));
        let r = raw.drop_first();
        let v = viewed.drop_first();
        assert forall|i: int| 0 <= i < r.len() implies #[trigger] v[i] == (r[i].0, f(r[i].1)) by {
            assert(v[i] == viewed[i + 1]);
        }
        lemma_find_mapped(r, v, f, key);
    }
}

/// A table of values under text keys.
pub struct Registry<T> {
    entries: Vec<(String, T)>,
}

impl<T> View for Registry<T> {
    type V = Seq<(Seq<char>, T)>;

    closed spec fn view(&self) -> Seq<(Seq<char>, T)> {
        Seq::new(self.entries@.len(), |i: int| (self.entries@[i].0@, self.entries@[i].1))
    }
}

impl<T> Registry<T> {
    /// Whether the table is as its operations keep it: no key is held twice.
    pub open spec fn wf(&self) -> bool {
        distinct_keys(self@)
    }

    /// The table without entries.
    pub fn new() -> (table: Registry<T>)
        ensures
            table@ == Seq::<(Seq<char>, T)>::empty(),
            table.wf(),
    {
        let table = Registry { entries: Vec::new() };
        assert(table@ =~= Seq::<(Seq<char>, T)>::empty());
        table
    }

    /// The number of entries.
    pub fn len(&self) -> (n: usize)
        ensures
            n == self@.len(),
    {
        self.entries.len()
    }

    /// The key of the entry at position `i`.
    pub fn key_at(&self, i: usize) -> (key: &str)
        requires
            i < self@.len(),
        ensures
            key@ == self@[i as int].0,
    {
        self.entries[i].0.as_str()
    }

    /// The value of the entry at position `i`.
    pub fn value_at(&self, i: usize) -> (value: &T)
        requires
            i < self@.len(),
        ensures
            *value == self@[i as int].1,
    {
        &self.entries[i].1
    }

    /// The position of the entry under `key`.
    pub fn position(&self, key: &str) -> (at: Option<usize>)
        ensures
            match at {
                Some(i) => i < self@.len() && self@[i as int].0 == key@ && find(self@, key@) == Some(
                    self@[i as int].1,
                ) && forall|j: int| 0 <= j < i ==> (#[trigger] self@[j]).0 != key@,
                None => find(self@, key@) is None && !has_key(self@, key@),
            },
    {
        let wanted = String::from_str(key);
        let mut i: usize = 0;
        assert(self@.skip(0) =~= self@);
        while i < self.entries.len()
            invariant
                i <= self.entries.len(),
                wanted@ == key@,
                find(self@.skip(i as int), key@) == find(self@, key@),
                forall|j: int| 0 <= j < i ==> (#[trigger] self@[j]).0 != key@,
            decreases self.entries.len() - i,
        {
            let ghost rest = self@.skip(i as int);
            assert(rest[0] == self@[i as int]);
            assert(rest.drop_first() =~= self@.skip(i + 1));
            if self.entries[i].0 == wanted {
                return Some(i);
            }
            i += 1;
        }
        proof {
            assert(self@.skip(i as int).len() == 0);
            lemma_find(self@, key@);
        }
        None
    }

    /// Whether an entry stands under `key`.
    pub fn contains(&self, key: &str) -> (held: bool)
        ensures
            held == has_key(self@, key@),
            held == find(self@, key@).is_some(),
    {
        proof {
            lemma_find(self@, key@);
        }
        self.position(key).is_some()
    }

    /// The value under `key`.
    pub fn get(&self, key: &str) -> (value: Option<&T>)
        ensures
            match value {
                Some(v) => find(self@, key@) == Some(*v),
                None => find(self@, key@) is None,
            },
    {
        match self.position(key) {
            Some(i) => Some(&self.entries[i].1),
            None => None,
        }
    }

    /// Puts `value` under `key` where the key is free, and hands it back where the
    /// key is taken: an entry is never written over.
    pub fn insert(&mut self, key: String, value: T) -> (refused: Option<T>)
        requires
            old(self).wf(),
        ensures
            final(self).wf(),
            has_key(old(self)@, key@) ==> refused == Some(value) && final(self)@ == old(self)@,
            !has_key(old(self)@, key@) ==> refused is None && final(self)@ == old(self)@.push(
                (key@, value),
            ),
    {
        if self.contains(key.as_str()) {
            return Some(value);
        }
        let ghost before = self@;
        self.entries.push((key, value));
        proof {
            assert(self@ =~= before.push((key@, value)));
            assert forall|i: int, j: int| 0 <= i < j < self@.len() implies (#[trigger] self@[i]).0
                != (#[trigger] self@[j]).0 by {
                if j == before.len() {
                    assert(self@[i] == before[i]);
                } else {
                    assert(self@[i] == before[i]);
                    assert(self@[j] == before[j]);
                }
            }
        }
        None
    }

    /// Takes the entry under `key` out of the table.
    pub fn remove(&mut self, key: &str) -> (value: Option<T>)
        requires
            old(self).wf(),
        ensures
            final(self).wf(),
            value == find(old(self)@, key@),
            !has_key(final(self)@, key@),
            forall|other: Seq<char>|
                other != key@ ==> find(final(self)@, other) == find(old(self)@, other),
            value is None ==> final(self)@ == old(self)@,
            value is Some ==> final(self)@.len() == old(self)@.len() - 1,
    {
        let ghost before = self@;
        match self.position(key) {
            Some(i) => {
                let entry = self.entries.remove(i);
                proof {
                    let after = self@;
                    assert(after =~= before.remove(i as int));
                    assert forall|a: int, b: int| 0 <= a < b < after.len() implies (
                    #[trigger] after[a]).0 != (#[trigger] after[b]).0 by {
                        let a0 = if a < i { a } else { a + 1 };
                        let b0 = if b < i { b } else { b + 1 };
                        assert(after[a] == before[a0]);
                        assert(after[b] == before[b0]);
                    }
                    if has_key(after, key@) {
                        let a = choose|a: int| 0 <= a < after.len() && (#[trigger] after[a]).0 == key@;
                        let a0 = if a < i { a } else { a + 1 };
                        assert(after[a] == before[a0]);
                        assert(before[a0].0 == before[i as int].0);
                    }
                    assert forall|other: Seq<char>| other != key@ implies find(after, other)
                        == find(before, other) by {
                        lemma_find_removed(before, i as int, other);
                    }
                }
                Some(entry.1)
            },
            None => None,
        }
    }
}

/// Taking an entry out leaves what every other key finds.
proof fn lemma_find_removed<T>(entries: Seq<(Seq<char>, T)>, i: int, other: Seq<char>)
    requires
        0 <= i < entries.len(),
        entries[i].0 != other,
    ensures
        find(entries.remove(i), other) == find(entries, other),
    decreases entries.len(),
{
    let shorter = entries.remove(i);
    if i == 0 {
        assert(shorter =~= entries.drop_first());
    } else {
        assert(shorter[0] == entries[0]);
        assert(shorter.drop_first() =~= entries.drop_first().remove(i - 1));
        assert(entries.drop_first()[i - 1] == entries[i]);
        lemma_find_removed(entries.drop_first(), i - 1, other);
    }
}

} // verus!
