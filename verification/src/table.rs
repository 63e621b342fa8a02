//! A map from keys to values, kept as a list of entries with distinct keys.

use crate::text::ByteString;
use vstd::prelude::*;

verus! {

/// A key that can be compared with another by what it stands for.
pub trait Key: View + Sized {
    fn same_key(&self, other: &Self) -> (same: bool)
        ensures
            same == (self@ == other@),
    ;
}

impl Key for ByteString {
    fn same_key(&self, other: &Self) -> (same: bool) {
        self.same_as(other)
    }
}

/// No two entries have the same key.
pub open spec fn distinct_keys<K: Key, V>(entries: Seq<(K, V)>) -> bool {
    forall|i: int, j: int|
        0 <= i < j < entries.len() ==> (#[trigger] entries[i]).0@ != (#[trigger] entries[j]).0@
}

/// The map that a list of entries stands for.
pub open spec fn contents<K: Key, V>(entries: Seq<(K, V)>) -> Map<K::V, V>
    decreases entries.len(),
{
    if entries.len() == 0 {
        Map::empty()
    } else {
        contents(entries.drop_last()).insert(entries.last().0@, entries.last().1)
    }
}

/// With distinct keys, the map holds the entries and nothing else.
proof fn lemma_contents<K: Key, V>(entries: Seq<(K, V)>)
    requires
        distinct_keys(entries),
    ensures
        contents(entries).dom().finite(),
        forall|i: int|
            0 <= i < entries.len() ==> contents(entries).contains_key(
                (#[trigger] entries[i]).0@,
            ) && contents(entries)[entries[i].0@] == entries[i].1,
        forall|k: K::V|
            contents(entries).contains_key(k) ==> exists|i: int|
                0 <= i < entries.len() && (#[trigger] entries[i]).0@ == k,
    decreases entries.len(),
{
    if entries.len() > 0 {
        let rest = entries.drop_last();
        assert forall|i: int, j: int| 0 <= i < j < rest.len() implies (#[trigger] rest[i]).0@ != (
        #[trigger] rest[j]).0@ by {
            assert(entries[i].0@ != entries[j].0@);
        }
        lemma_contents(rest);
        assert forall|i: int| 0 <= i < entries.len() implies contents(entries).contains_key(
            (#[trigger] entries[i]).0@,
        ) && contents(entries)[entries[i].0@] == entries[i].1 by {
            if i < rest.len() {
                assert(rest[i] == entries[i]);
                assert(entries[i].0@ != entries[entries.len() - 1].0@);
            }
        }
        assert forall|k: K::V| contents(entries).contains_key(k) implies exists|i: int|
            0 <= i < entries.len() && (#[trigger] entries[i]).0@ == k by {
            if k == entries.last().0@ {
                assert(entries[entries.len() - 1].0@ == k);
            } else {
                let i = choose|i: int| 0 <= i < rest.len() && (#[trigger] rest[i]).0@ == k;
                assert(entries[i].0@ == k);
            }
        }
    }
}

/// A finite map. An absent key has no value.
pub struct Table<K: Key, V> {
    entries: Vec<(K, V)>,
}

impl<K: Key, V> View for Table<K, V> {
    type V = Map<K::V, V>;

    closed spec fn view(&self) -> Map<K::V, V> {
        contents(self.entries@)
    }
}

impl<K: Key, V> Table<K, V> {
    #[verifier::type_invariant]
    spec fn keys_are_distinct(&self) -> bool {
        distinct_keys(self.entries@)
    }

    /// The empty table.
    pub fn new() -> (table: Self)
        ensures
            table@ == Map::<K::V, V>::empty(),
    {
        Table { entries: Vec::new() }
    }

    /// The position of the entry with this key.
    fn position(&self, key: &K) -> (at: Option<usize>)
        ensures
            match at {
                Some(i) => i < self.entries.len() && self.entries[i as int].0@ == key@,
                None => forall|i: int|
                    0 <= i < self.entries.len() ==> (#[trigger] self.entries[i]).0@ != key@,
            },
    {
        let mut i: usize = 0;
        while i < self.entries.len()
            invariant
                i <= self.entries.len(),
                forall|j: int| 0 <= j < i ==> (#[trigger] self.entries[j]).0@ != key@,
            decreases self.entries.len() - i,
        {
            if self.entries[i].0.same_key(key) {
                return Some(i);
            }
            i = i + 1;
        }
        None
    }

    /// The value under this key.
    pub fn get(&self, key: &K) -> (value: Option<&V>)
        ensures
            value is Some <==> self@.contains_key(key@),
            value matches Some(v) ==> *v == self@[key@],
    {
        proof {
            use_type_invariant(self);
            lemma_contents(self.entries@);
        }
        match self.position(key) {
            Some(i) => {
                assert(self.entries@[i as int].0@ == key@);
                Some(&self.entries[i].1)
            },
            None => None,
        }
    }

    /// Puts `value` under this key, in place of what was there.
    pub fn insert(&mut self, key: K, value: V)
        ensures
            final(self)@ == old(self)@.insert(key@, value),
    {
        proof {
            use_type_invariant(&*self);
            lemma_contents(self.entries@);
        }
        let at = self.position(&key);
        let mut entries: Vec<(K, V)> = Vec::new();
        std::mem::swap(&mut entries, &mut self.entries);
        let ghost before = entries@;
        let ghost k = key@;
        match at {
            Some(i) => {
                entries.set(i, (key, value));
                assert(distinct_keys(entries@)) by {
                    assert forall|a: int, b: int| 0 <= a < b < entries.len() implies (
                    #[trigger] entries@[a]).0@ != (#[trigger] entries@[b]).0@ by {
                        assert(before[a].0@ != before[b].0@);
                    }
                }
            },
            None => {
                entries.push((key, value));
                assert(distinct_keys(entries@)) by {
                    assert forall|a: int, b: int| 0 <= a < b < entries.len() implies (
                    #[trigger] entries@[a]).0@ != (#[trigger] entries@[b]).0@ by {
                        if b < before.len() {
                            assert(before[a].0@ != before[b].0@);
                        } else {
                            assert(before[a].0@ != k);
                        }
                    }
                }
            },
        }
        proof {
            lemma_contents(entries@);
            let after = contents(entries@);
            let expected = contents(before).insert(k, value);
            assert forall|x: K::V| after.contains_key(x) <==> expected.contains_key(x) by {
                if after.contains_key(x) {
                    let i = choose|i: int|
                        0 <= i < entries.len() && (#[trigger] entries@[i]).0@ == x;
                    if x != k {
                        assert(before[i].0@ == x);
                    }
                }
                if expected.contains_key(x) && x != k {
                    let i = choose|i: int|
                        0 <= i < before.len() && (#[trigger] before[i]).0@ == x;
                    assert(entries@[i].0@ == x);
                }
                if x == k {
                    match at {
                        Some(i) => {
                            assert(entries@[i as int].0@ == k);
                        },
                        None => {
                            assert(entries@[before.len() as int].0@ == k);
                        },
                    }
                }
            }
            assert forall|x: K::V| after.contains_key(x) implies after[x] == expected[x] by {
                let i = choose|i: int| 0 <= i < entries.len() && (#[trigger] entries@[i]).0@ == x;
                assert(after[x] == entries@[i].1);
                if x != k {
                    assert(before[i].0@ == x);
                    assert(contents(before)[x] == before[i].1);
                } else {
                    match at {
                        Some(j) => {
                            assert(entries@[j as int].0@ == k);
                        },
                        None => {
                            assert(entries@[before.len() as int].0@ == k);
                        },
                    }
                }
            }
            assert(after =~= expected);
        }
        self.entries = entries;
    }

    /// Takes the value under this key out of the table.
    pub fn remove(&mut self, key: &K) -> (value: Option<V>)
        ensures
            final(self)@ == old(self)@.remove(key@),
            value is Some <==> old(self)@.contains_key(key@),
            value matches Some(v) ==> v == old(self)@[key@],
    {
        proof {
            use_type_invariant(&*self);
            lemma_contents(self.entries@);
        }
        let at = self.position(key);
        match at {
            None => {
                assert(self@ =~= self@.remove(key@));
                None
            },
            Some(i) => {
                let mut entries: Vec<(K, V)> = Vec::new();
                std::mem::swap(&mut entries, &mut self.entries);
                let ghost before = entries@;
                let entry = entries.remove(i);
                assert(entries@ == before.remove(i as int));
                proof {
                    let after = entries@;
                    assert forall|a: int| 0 <= a < after.len() implies #[trigger] after[a]
                        == before[if a < i { a } else { a + 1 }] by {}
                    assert forall|a: int, b: int| 0 <= a < b < after.len() implies (
                    #[trigger] after[a]).0@ != (#[trigger] after[b]).0@ by {
                        assert(before[if a < i { a } else { a + 1 }].0@ != before[if b < i {
                            b
                        } else {
                            b + 1
                        }].0@);
                    }
                    lemma_contents(after);
                    assert(before[i as int].0@ == key@);
                    let expected = contents(before).remove(key@);
                    assert forall|x: K::V|
                        contents(after).contains_key(x) <==> expected.contains_key(x) by {
                        if contents(after).contains_key(x) {
                            let a = choose|a: int|
                                0 <= a < after.len() && (#[trigger] after[a]).0@ == x;
                            let b = if a < i { a } else { a + 1 };
                            assert(before[b].0@ == x);
                            if b < i {
                                assert(before[b].0@ != before[i as int].0@);
                            } else {
                                assert(before[i as int].0@ != before[b].0@);
                            }
                        }
                        if expected.contains_key(x) {
                            let b = choose|b: int|
                                0 <= b < before.len() && (#[trigger] before[b]).0@ == x;
                            let a = if b < i { b } else { b - 1 };
                            assert(after[a].0@ == x);
                        }
                    }
                    assert forall|x: K::V| contents(after).contains_key(x) implies contents(
                        after,
                    )[x] == expected[x] by {
                        let a = choose|a: int|
                            0 <= a < after.len() && (#[trigger] after[a]).0@ == x;
                        let b = if a < i { a } else { a + 1 };
                        assert(before[b].0@ == x);
                        assert(contents(before)[x] == before[b].1);
                    }
                    assert(contents(after) =~= expected);
                }
                self.entries = entries;
                Some(entry.1)
            },
        }
    }
}

} // verus!
