//! A small map from identifiers to values, kept as a list without repeated
//! keys.

use vstd::prelude::*;
use crate::clock::{elapsed, elapsed_since};

verus! {

/// Whether one of the entries has the key.
pub open spec fn has_key<V>(entries: Seq<(String, V)>, key: Seq<char>) -> bool {
    exists|i: int| 0 <= i < entries.len() && (#[trigger] entries[i]).0@ == key
}

/// The position of an entry with the key, where there is one.
pub open spec fn position_of<V>(entries: Seq<(String, V)>, key: Seq<char>) -> int {
    choose|i: int| 0 <= i < entries.len() && (#[trigger] entries[i]).0@ == key
}

/// The map that a list of entries stands for.
pub open spec fn entries_map<V>(entries: Seq<(String, V)>) -> Map<Seq<char>, V> {
    Map::new(
        |key: Seq<char>| has_key(entries, key),
        |key: Seq<char>| entries[position_of(entries, key)].1,
    )
}

/// No key occurs twice.
pub open spec fn distinct_keys<V>(entries: Seq<(String, V)>) -> bool {
    forall|i: int, j: int|
        0 <= i < j < entries.len() ==> (#[trigger] entries[i]).0@ != (#[trigger] entries[j]).0@
}

/// In a list without repeated keys, the entry at `i` is what the map holds
/// for its key.
proof fn lemma_entry_is_mapped<V>(entries: Seq<(String, V)>, i: int)
    requires
        distinct_keys(entries),
        0 <= i < entries.len(),
    ensures
        entries_map(entries).contains_key(entries[i].0@),
        entries_map(entries)[entries[i].0@] == entries[i].1,
{
    let key = entries[i].0@;
    let p = position_of(entries, key);
    assert(0 <= p < entries.len() && entries[p].0@ == key);
    if p < i {
        assert(entries[p].0@ != entries[i].0@);
    } else if i < p {
        assert(entries[i].0@ != entries[p].0@);
    }
}

/// Adding an entry with a new key adds it to the map.
proof fn lemma_push_entry<V>(entries: Seq<(String, V)>, key: String, value: V)
    requires
        distinct_keys(entries),
        !has_key(entries, key@),
    ensures
        distinct_keys(entries.push((key, value))),
        entries_map(entries.push((key, value))) == entries_map(entries).insert(key@, value),
{
    let longer = entries.push((key, value));
    assert forall|i: int, j: int| 0 <= i < j < longer.len() implies (#[trigger] longer[i]).0@ != (
    #[trigger] longer[j]).0@ by {
        assert(longer[i] == entries[i]);
        if j < entries.len() {
            assert(longer[j] == entries[j]);
        }
    }
    let target = entries_map(entries).insert(key@, value);
    assert forall|k: Seq<char>| entries_map(longer).contains_key(k) <==> target.contains_key(
        k,
    ) by {
        if has_key(longer, k) {
            let p = position_of(longer, k);
            if p < entries.len() {
                assert(entries[p] == longer[p]);
            }
        }
        if has_key(entries, k) {
            let p = position_of(entries, k);
            assert(longer[p] == entries[p]);
        }
        if k == key@ {
            assert(longer[entries.len() as int].0@ == k);
        }
    }
    assert forall|k: Seq<char>| target.contains_key(k) implies entries_map(longer)[k] == target[k] by {
        if k == key@ {
            lemma_entry_is_mapped(longer, entries.len() as int);
        } else {
            let p = position_of(entries, k);
            assert(longer[p] == entries[p]);
            lemma_entry_is_mapped(longer, p);
            lemma_entry_is_mapped(entries, p);
        }
    }
    assert(entries_map(longer) =~= target);
}

/// Replacing the value of the entry at `i` replaces it in the map.
proof fn lemma_update_entry<V>(entries: Seq<(String, V)>, i: int, key: String, value: V)
    requires
        distinct_keys(entries),
        0 <= i < entries.len(),
        entries[i].0@ == key@,
    ensures
        distinct_keys(entries.update(i, (key, value))),
        entries_map(entries.update(i, (key, value))) == entries_map(entries).insert(key@, value),
{
    let changed = entries.update(i, (key, value));
    assert forall|a: int, b: int| 0 <= a < b < changed.len() implies (#[trigger] changed[a]).0@ != (
    #[trigger] changed[b]).0@ by {
        assert(changed[a].0@ == entries[a].0@);
        assert(changed[b].0@ == entries[b].0@);
    }
    let target = entries_map(entries).insert(key@, value);
    assert forall|k: Seq<char>| entries_map(changed).contains_key(k) <==> target.contains_key(
        k,
    ) by {
        if has_key(changed, k) {
            let p = position_of(changed, k);
            assert(entries[p].0@ == changed[p].0@);
        }
        if has_key(entries, k) {
            let p = position_of(entries, k);
            assert(changed[p].0@ == entries[p].0@);
        }
        if k == key@ {
            assert(changed[i].0@ == k);
        }
    }
    assert forall|k: Seq<char>| target.contains_key(k) implies entries_map(changed)[k] == target[k] by {
        if k == key@ {
            lemma_entry_is_mapped(changed, i);
        } else {
            let p = position_of(entries, k);
            assert(changed[p] == entries[p]);
            lemma_entry_is_mapped(changed, p);
            lemma_entry_is_mapped(entries, p);
        }
    }
    assert(entries_map(changed) =~= target);
}

/// Taking out the entry at `i` takes its key out of the map.
proof fn lemma_remove_entry<V>(entries: Seq<(String, V)>, i: int)
    requires
        distinct_keys(entries),
        0 <= i < entries.len(),
    ensures
        distinct_keys(entries.remove(i)),
        entries_map(entries.remove(i)) == entries_map(entries).remove(entries[i].0@),
{
    let shorter = entries.remove(i);
    let key = entries[i].0@;
    assert forall|a: int, b: int| 0 <= a < b < shorter.len() implies (#[trigger] shorter[a]).0@ != (
    #[trigger] shorter[b]).0@ by {
        let a0 = if a < i { a } else { a + 1 };
        let b0 = if b < i { b } else { b + 1 };
        assert(shorter[a] == entries[a0]);
        assert(shorter[b] == entries[b0]);
    }
    let target = entries_map(entries).remove(key);
    assert forall|k: Seq<char>| entries_map(shorter).contains_key(k) <==> target.contains_key(
        k,
    ) by {
        if has_key(shorter, k) {
            let p = position_of(shorter, k);
            let p0 = if p < i { p } else { p + 1 };
            assert(shorter[p] == entries[p0]);
            if p0 < i {
                assert(entries[p0].0@ != entries[i].0@);
            } else {
                assert(entries[i].0@ != entries[p0].0@);
            }
        }
        if has_key(entries, k) && k != key {
            let p = position_of(entries, k);
            let q = if p < i { p } else { p - 1 };
            assert(shorter[q] == entries[p]);
        }
    }
    assert forall|k: Seq<char>| target.contains_key(k) implies entries_map(shorter)[k] == target[k] by {
        let p = position_of(entries, k);
        let q = if p < i { p } else { p - 1 };
        assert(shorter[q] == entries[p]);
        lemma_entry_is_mapped(shorter, q);
        lemma_entry_is_mapped(entries, p);
    }
    assert(entries_map(shorter) =~= target);
}

/// A map from identifiers to values.
pub struct KeyedList<V> {
    entries: Vec<(String, V)>,
}

impl<V> View for KeyedList<V> {
    type V = Map<Seq<char>, V>;

    closed spec fn view(&self) -> Map<Seq<char>, V> {
        entries_map(self.entries@)
    }
}

impl<V> KeyedList<V> {
    #[verifier::type_invariant]
    spec fn keys_are_distinct(self) -> bool {
        distinct_keys(self.entries@)
    }

    /// A map without entries.
    pub fn new() -> (list: Self)
        ensures
            list@ == Map::<Seq<char>, V>::empty(),
    {
        let list = KeyedList { entries: Vec::new() };
        assert(list@ =~= Map::<Seq<char>, V>::empty());
        list
    }

    /// Moves the entries out and leaves the list empty.
    fn take_entries(&mut self) -> (entries: Vec<(String, V)>)
        ensures
            entries == old(self).entries,
            distinct_keys(entries@),
            final(self).entries@.len() == 0,
    {
        proof {
            use_type_invariant(&*self);
        }
        let mut entries: Vec<(String, V)> = Vec::new();
        core::mem::swap(&mut self.entries, &mut entries);
        entries
    }

    /// Where the key stands in the list.
    fn find(&self, key: &String) -> (position: Option<usize>)
        ensures
            match position {
                Some(i) => i < self.entries.len() && self.entries@[i as int].0@ == key@,
                None => !has_key(self.entries@, key@),
            },
    {
        let mut i: usize = 0;
        while i < self.entries.len()
            invariant
                i <= self.entries.len(),
                forall|j: int| 0 <= j < i ==> (#[trigger] self.entries@[j]).0@ != key@,
            decreases self.entries.len() - i,
        {
            if self.entries[i].0 == *key {
                return Some(i);
            }
            i = i + 1;
        }
        None
    }

    /// Whether the map has an entry for `key`.
    pub fn contains_key(&self, key: &str) -> (present: bool)
        ensures
            present == self@.contains_key(key@),
    {
        let owned = key.to_string();
        self.find(&owned).is_some()
    }

    /// The value that the map holds for `key`.
    pub fn get(&self, key: &str) -> (value: Option<&V>)
        ensures
            match value {
                Some(v) => self@.contains_key(key@) && *v == self@[key@],
                None => !self@.contains_key(key@),
            },
    {
        let owned = key.to_string();
        match self.find(&owned) {
            Some(i) => {
                proof {
                    use_type_invariant(self);
                    lemma_entry_is_mapped(self.entries@, i as int);
                }
                Some(&self.entries[i].1)
            },
            None => None,
        }
    }

    /// Sets the value for `key`, in place of the one it had, if any.
    pub fn insert(&mut self, key: String, value: V)
        ensures
            final(self)@ == old(self)@.insert(key@, value),
    {
        proof {
            use_type_invariant(&*self);
        }
        let position = self.find(&key);
        let mut entries = self.take_entries();
        match position {
            Some(i) => {
                proof {
                    lemma_update_entry(entries@, i as int, key, value);
                }
                entries.set(i, (key, value));
            },
            None => {
                proof {
                    lemma_push_entry(entries@, key, value);
                }
                entries.push((key, value));
            },
        }
        self.entries = entries;
    }

    /// Takes out the entry for `key`, if there is one.
    pub fn remove(&mut self, key: &str)
        ensures
            final(self)@ == old(self)@.remove(key@),
    {
        proof {
            use_type_invariant(&*self);
        }
        let owned = key.to_string();
        match self.find(&owned) {
            Some(i) => {
                let mut entries = self.take_entries();
                proof {
                    lemma_remove_entry(entries@, i as int);
                }
                entries.remove(i);
                self.entries = entries;
            },
            None => {
                assert(old(self)@.remove(key@) =~= old(self)@);
            },
        }
    }
}

/// The marks that are no older than `ttl` at `now`.
pub open spec fn marks_within(marks: Map<Seq<char>, u64>, now: u64, ttl: u64) -> Map<
    Seq<char>,
    u64,
> {
    Map::new(
        |key: Seq<char>| marks.contains_key(key) && elapsed(now, marks[key]) <= ttl,
        |key: Seq<char>| marks[key],
    )
}

impl KeyedList<u64> {
    /// Keeps the entries whose time lies no more than `ttl` before `now`,
    /// and drops those that are older.
    pub fn retain_within(&mut self, now: u64, ttl: u64)
        ensures
            final(self)@ == marks_within(old(self)@, now, ttl),
    {
        let entries = self.take_entries();
        let mut kept: Vec<(String, u64)> = Vec::new();
        let mut i: usize = 0;
        assert(entries_map(entries@.take(0)) =~= Map::<Seq<char>, u64>::empty());
        assert(entries_map(kept@) =~= marks_within(entries_map(entries@.take(0)), now, ttl));
        while i < entries.len()
            invariant
                i <= entries.len(),
                distinct_keys(entries@),
                distinct_keys(kept@),
                entries_map(kept@) == marks_within(entries_map(entries@.take(i as int)), now, ttl),
            decreases entries.len() - i,
        {
            let ghost seen = entries@.take(i as int);
            let ghost key = entries@[i as int].0;
            let time = entries[i].1;
            proof {
                assert(entries@.take(i + 1) =~= seen.push((key, time)));
                assert(distinct_keys(seen)) by {
                    assert forall|a: int, b: int| 0 <= a < b < seen.len() implies (
                    #[trigger] seen[a]).0@ != (#[trigger] seen[b]).0@ by {
                        assert(seen[a] == entries@[a]);
                        assert(seen[b] == entries@[b]);
                    }
                }
                assert(!has_key(seen, key@)) by {
                    if has_key(seen, key@) {
                        let p = position_of(seen, key@);
                        assert(seen[p] == entries@[p]);
                        assert(entries@[p].0@ != entries@[i as int].0@);
                    }
                }
                lemma_push_entry(seen, key, time);
            }
            if elapsed_since(now, time) <= ttl {
                let copy = entries[i].0.clone();
                proof {
                    assert(!has_key(kept@, copy@)) by {
                        if has_key(kept@, copy@) {
                            assert(entries_map(kept@).contains_key(copy@));
                            assert(entries_map(seen).contains_key(key@));
                        }
                    }
                    lemma_push_entry(kept@, copy, time);
                    assert(entries_map(kept@).insert(copy@, time) =~= marks_within(
                        entries_map(seen).insert(key@, time),
                        now,
                        ttl,
                    ));
                }
                kept.push((copy, time));
            } else {
                proof {
                    assert(entries_map(kept@) =~= marks_within(
                        entries_map(seen).insert(key@, time),
                        now,
                        ttl,
                    ));
                }
            }
            i = i + 1;
        }
        assert(entries@.take(entries.len() as int) =~= entries@);
        self.entries = kept;
    }
}

} // verus!
