//! A map keyed by strings that remembers the order in which keys were added.
//!
//! Its model is a sequence of `(key, value)` pairs in which no key occurs
//! twice. Looking a key up finds the pair that holds it; inserting replaces
//! the value of an existing key in place, or adds a pair at the end.

use vstd::prelude::*;

verus! {

/// The value of the first pair with the given key.
pub open spec fn lookup_in<V>(pairs: Seq<(Seq<char>, V)>, key: Seq<char>) -> Option<V>
    decreases pairs.len(),
{
    if pairs.len() == 0 {
        None
    } else if pairs[0].0 == key {
        Some(pairs[0].1)
    } else {
        lookup_in(pairs.drop_first(), key)
    }
}

/// No key occurs in two pairs.
pub open spec fn distinct_keys<V>(pairs: Seq<(Seq<char>, V)>) -> bool {
    forall|i: int, j: int| 0 <= i < j < pairs.len() ==> (#[trigger] pairs[i]).0 != (#[trigger] pairs[j]).0
}

/// The index of the first pair with the given key, or the number of pairs.
pub open spec fn position_of<V>(pairs: Seq<(Seq<char>, V)>, key: Seq<char>) -> int
    decreases pairs.len(),
{
    if pairs.len() == 0 {
        0
    } else if pairs[0].0 == key {
        0
    } else {
        1 + position_of(pairs.drop_first(), key)
    }
}

/// The pairs after `key` has been given `value`: replaced where the key
/// stands, added at the end where it is new.
pub open spec fn upsert<V>(pairs: Seq<(Seq<char>, V)>, key: Seq<char>, value: V) -> Seq<(Seq<char>, V)> {
    let at = position_of(pairs, key);
    if at < pairs.len() {
        pairs.update(at, (key, value))
    } else {
        pairs.push((key, value))
    }
}

/// `position_of` is in range, points at the key when it is present, and no
/// earlier pair holds the key.
pub proof fn lemma_position_of<V>(pairs: Seq<(Seq<char>, V)>, key: Seq<char>)
    ensures
        0 <= position_of(pairs, key) <= pairs.len(),
        position_of(pairs, key) < pairs.len() ==> pairs[position_of(pairs, key)].0 == key,
        forall|j: int| 0 <= j < position_of(pairs, key) ==> (#[trigger] pairs[j]).0 != key,
        lookup_in(pairs, key) == if position_of(pairs, key) < pairs.len() {
            Some(pairs[position_of(pairs, key)].1)
        } else {
            None
        },
    decreases pairs.len(),
{
    if pairs.len() == 0 {
    } else if pairs[0].0 == key {
    } else {
        let rest = pairs.drop_first();
        lemma_position_of(rest, key);
        assert forall|j: int| 0 <= j < position_of(pairs, key) implies (#[trigger] pairs[j]).0
            != key by {
            if j > 0 {
                assert(pairs[j] == rest[j - 1]);
            }
        }
        if position_of(rest, key) < rest.len() {
            assert(pairs[position_of(pairs, key)] == rest[position_of(rest, key)]);
        }
    }
}

/// A pair whose key no earlier pair holds is the one that lookup finds.
pub proof fn lemma_lookup_at<V>(pairs: Seq<(Seq<char>, V)>, i: int)
    requires
        0 <= i < pairs.len(),
        forall|j: int| 0 <= j < i ==> (#[trigger] pairs[j]).0 != pairs[i].0,
    ensures
        lookup_in(pairs, pairs[i].0) == Some(pairs[i].1),
        position_of(pairs, pairs[i].0) == i,
    decreases i,
{
    if i > 0 {
        let rest = pairs.drop_first();
        assert(pairs[0].0 != pairs[i].0);
        assert(rest[i - 1] == pairs[i]);
        assert forall|j: int| 0 <= j < i - 1 implies (#[trigger] rest[j]).0 != rest[i - 1].0 by {
            assert(rest[j] == pairs[j + 1]);
        }
        lemma_lookup_at(rest, i - 1);
    }
}

/// A key that no pair holds is not found.
pub proof fn lemma_lookup_absent<V>(pairs: Seq<(Seq<char>, V)>, key: Seq<char>)
    requires
        forall|j: int| 0 <= j < pairs.len() ==> (#[trigger] pairs[j]).0 != key,
    ensures
        lookup_in(pairs, key) is None,
        position_of(pairs, key) == pairs.len(),
    decreases pairs.len(),
{
    if pairs.len() > 0 {
        let rest = pairs.drop_first();
        assert(pairs[0].0 != key);
        assert forall|j: int| 0 <= j < rest.len() implies (#[trigger] rest[j]).0 != key by {
            assert(rest[j] == pairs[j + 1]);
        }
        lemma_lookup_absent(rest, key);
    }
}

/// After `upsert`, the key maps to the new value, every other key maps to
/// what it did before, and keys stay distinct.
pub proof fn lemma_upsert<V>(pairs: Seq<(Seq<char>, V)>, key: Seq<char>, value: V)
    requires
        distinct_keys(pairs),
    ensures
        distinct_keys(upsert(pairs, key, value)),
        lookup_in(upsert(pairs, key, value), key) == Some(value),
        forall|other: Seq<char>|
            other != key ==> lookup_in(upsert(pairs, key, value), other) == lookup_in(
                pairs,
                other,
            ),
{
    let after = upsert(pairs, key, value);
    let at = position_of(pairs, key);
    lemma_position_of(pairs, key);
    if at < pairs.len() {
        assert forall|i: int, j: int| 0 <= i < j < after.len() implies (#[trigger] after[i]).0 != (
        #[trigger] after[j]).0 by {
            assert(after[i].0 == pairs[i].0);
            assert(after[j].0 == pairs[j].0);
        }
    } else {
        assert forall|i: int, j: int| 0 <= i < j < after.len() implies (#[trigger] after[i]).0 != (
        #[trigger] after[j]).0 by {
            assert(after[i] == pairs[i]);
            if j < pairs.len() {
                assert(after[j] == pairs[j]);
            }
        }
    }
    assert(after[at] == (key, value));
    assert forall|j: int| 0 <= j < at implies (#[trigger] after[j]).0 != after[at].0 by {
        assert(after[j] == pairs[j]);
    }
    lemma_lookup_at(after, at);
    assert forall|other: Seq<char>| other != key implies lookup_in(after, other) == lookup_in(
        pairs,
        other,
    ) by {
        lemma_position_of(pairs, other);
        let p = position_of(pairs, other);
        if p < pairs.len() {
            assert(p != at);
            assert(after[p] == pairs[p]);
            assert forall|j: int| 0 <= j < p implies (#[trigger] after[j]).0 != after[p].0 by {
                if j == at {
                } else {
                    assert(after[j] == pairs[j]);
                }
            }
            lemma_lookup_at(after, p);
        } else {
            assert forall|j: int| 0 <= j < after.len() implies (#[trigger] after[j]).0
                != other by {
                if j < pairs.len() && j != at {
                    assert(after[j] == pairs[j]);
                }
            }
            lemma_lookup_absent(after, other);
        }
    }
}

/// The pairs of a map of texts, with the texts as their characters.
pub open spec fn text_pairs(pairs: Seq<(Seq<char>, String)>) -> Seq<(Seq<char>, Seq<char>)> {
    Seq::new(pairs.len(), |i: int| (pairs[i].0, pairs[i].1@))
}

/// Looking a key up commutes with taking characters.
pub proof fn lemma_lookup_text(pairs: Seq<(Seq<char>, String)>, key: Seq<char>)
    ensures
        lookup_in(text_pairs(pairs), key) == match lookup_in(pairs, key) {
            Some(text) => Some(text@),
            None => None,
        },
    decreases pairs.len(),
{
    if pairs.len() > 0 {
        assert(text_pairs(pairs)[0] == (pairs[0].0, pairs[0].1@));
        if pairs[0].0 != key {
            lemma_lookup_text(pairs.drop_first(), key);
            assert(text_pairs(pairs).drop_first() =~= text_pairs(pairs.drop_first()));
        }
    }
}

/// A key stands at the same place before and after taking characters.
pub proof fn lemma_position_of_text(pairs: Seq<(Seq<char>, String)>, key: Seq<char>)
    ensures
        position_of(text_pairs(pairs), key) == position_of(pairs, key),
    decreases pairs.len(),
{
    if pairs.len() > 0 {
        assert(text_pairs(pairs)[0].0 == pairs[0].0);
        if pairs[0].0 != key {
            lemma_position_of_text(pairs.drop_first(), key);
            assert(text_pairs(pairs).drop_first() =~= text_pairs(pairs.drop_first()));
        }
    }
}

/// Taking characters commutes with giving a key a value.
pub proof fn lemma_upsert_text(pairs: Seq<(Seq<char>, String)>, key: Seq<char>, value: String)
    ensures
        text_pairs(upsert(pairs, key, value)) == upsert(text_pairs(pairs), key, value@),
{
    lemma_position_of_text(pairs, key);
    lemma_position_of(pairs, key);
    assert(text_pairs(upsert(pairs, key, value)) =~= upsert(text_pairs(pairs), key, value@));
}

/// A map from strings to values of type `V`, in insertion order.
pub struct NameMap<V> {
    entries: Vec<(String, V)>,
}

impl<V> NameMap<V> {
    /// The pairs of the map, in the order in which their keys were added.
    pub closed spec fn pairs(&self) -> Seq<(Seq<char>, V)> {
        Seq::new(self.entries@.len(), |i: int| (self.entries@[i].0@, self.entries@[i].1))
    }

    #[verifier::type_invariant]
    spec fn keys_are_distinct(&self) -> bool {
        distinct_keys(self.pairs())
    }

    /// The value stored under `key`.
    pub open spec fn lookup(&self, key: Seq<char>) -> Option<V> {
        lookup_in(self.pairs(), key)
    }

    /// A map without keys.
    pub fn new() -> (m: Self)
        ensures
            m.pairs() == Seq::<(Seq<char>, V)>::empty(),
    {
        let m = NameMap { entries: Vec::new() };
        assert(m.pairs() =~= Seq::<(Seq<char>, V)>::empty());
        m
    }

    /// The number of keys.
    pub fn len(&self) -> (n: usize)
        ensures
            n == self.pairs().len(),
            distinct_keys(self.pairs()),
    {
        proof {
            use_type_invariant(self);
        }
        self.entries.len()
    }

    /// Whether the map has no keys.
    pub fn is_empty(&self) -> (r: bool)
        ensures
            r == (self.pairs().len() == 0),
    {
        self.entries.len() == 0
    }

    /// The key of the pair at `index`.
    pub fn key_at(&self, index: usize) -> (key: &String)
        requires
            index < self.pairs().len(),
        ensures
            key@ == self.pairs()[index as int].0,
    {
        &self.entries[index].0
    }

    /// The value of the pair at `index`.
    pub fn value_at(&self, index: usize) -> (value: &V)
        requires
            index < self.pairs().len(),
        ensures
            *value == self.pairs()[index as int].1,
    {
        &self.entries[index].1
    }

    /// The keys, in order.
    pub fn keys(&self) -> (keys: Vec<String>)
        ensures
            keys@.len() == self.pairs().len(),
            forall|i: int| 0 <= i < keys@.len() ==> (#[trigger] keys@[i])@ == self.pairs()[i].0,
    {
        let mut keys: Vec<String> = Vec::new();
        let mut i: usize = 0;
        while i < self.entries.len()
            invariant
                i <= self.entries@.len(),
                keys@.len() == i,
                forall|j: int| 0 <= j < i ==> (#[trigger] keys@[j])@ == self.pairs()[j].0,
            decreases self.entries@.len() - i,
        {
            keys.push(self.entries[i].0.clone());
            i += 1;
        }
        keys
    }

    /// The index of the pair with the given key.
    fn position(&self, key: &String) -> (at: usize)
        ensures
            at == position_of(self.pairs(), key@),
            at <= self.pairs().len(),
    {
        let mut i: usize = 0;
        while i < self.entries.len()
            invariant
                i <= self.entries@.len(),
                forall|j: int| 0 <= j < i ==> (#[trigger] self.pairs()[j]).0 != key@,
            decreases self.entries@.len() - i,
        {
            if self.entries[i].0 == *key {
                proof {
                    assert(self.pairs()[i as int].0 == key@);
                    lemma_lookup_at(self.pairs(), i as int);
                }
                return i;
            }
            i += 1;
        }
        proof {
            lemma_lookup_absent(self.pairs(), key@);
        }
        i
    }

    /// The value stored under `key`, if any.
    pub fn get(&self, key: &str) -> (value: Option<&V>)
        ensures
            match value {
                Some(v) => self.lookup(key@) == Some(*v),
                None => self.lookup(key@) is None,
            },
    {
        let owned = String::from_str(key);
        let at = self.position(&owned);
        proof {
            lemma_position_of(self.pairs(), key@);
        }
        if at < self.entries.len() {
            Some(&self.entries[at].1)
        } else {
            None
        }
    }

    /// Whether a value is stored under `key`.
    pub fn contains_key(&self, key: &str) -> (r: bool)
        ensures
            r == self.lookup(key@).is_some(),
    {
        self.get(key).is_some()
    }

    /// Stores `value` under `key`. An existing key keeps its place in the
    /// order; a new key goes to the end.
    pub fn insert(&mut self, key: String, value: V)
        ensures
            final(self).pairs() == upsert(old(self).pairs(), key@, value),
            final(self).lookup(key@) == Some(value),
            forall|other: Seq<char>|
                other != key@ ==> final(self).lookup(other) == old(self).lookup(other),
    {
        proof {
            use_type_invariant(&*self);
            lemma_upsert(self.pairs(), key@, value);
        }
        let ghost before = self.pairs();
        let at = self.position(&key);
        let mut entries: Vec<(String, V)> = Vec::new();
        core::mem::swap(&mut self.entries, &mut entries);
        if at < entries.len() {
            entries.set(at, (key, value));
        } else {
            entries.push((key, value));
        }
        assert(Seq::new(entries@.len(), |i: int| (entries@[i].0@, entries@[i].1)) =~= upsert(
            before,
            key@,
            value,
        ));
        core::mem::swap(&mut self.entries, &mut entries);
    }
}

} // verus!
