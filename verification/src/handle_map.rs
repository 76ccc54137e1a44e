//! A small map keyed by element handles.
//!
//! DOM elements cannot serve as map keys directly, so the adapter assigns
//! each element a stable integer handle at attachment time and every
//! registry of the library is keyed by that handle. The map is a plain
//! association list whose view is a mathematical map.

use vstd::prelude::*;

verus! {

/// A map from element handles to values, backed by an association list
/// with pairwise distinct keys.
pub struct HandleMap<V> {
    /// The recorded entries; each key occurs at most once.
    pub entries: Vec<(u64, V)>,
}

/// The mathematical map an entry list stands for; a later entry for the
/// same key would win, but well-formed lists hold each key once.
pub open spec fn spec_entries_map<V>(s: Seq<(u64, V)>) -> Map<u64, V>
    decreases s.len(),
{
    if s.len() == 0 {
        Map::<u64, V>::empty()
    } else {
        spec_entries_map(s.drop_last()).insert(s.last().0, s.last().1)
    }
}

/// The keys of an entry list are pairwise distinct.
pub open spec fn spec_distinct_keys<V>(s: Seq<(u64, V)>) -> bool {
    forall|i: int, j: int| 0 <= i < j < s.len() ==> (#[trigger] s[i]).0 != (#[trigger] s[j]).0
}

/// With distinct keys, the map of an entry list contains exactly the
/// listed keys, maps each to the listed value, and has as many keys as
/// entries.
pub proof fn lemma_entries_map<V>(s: Seq<(u64, V)>)
    requires
        spec_distinct_keys(s),
    ensures
        forall|k: u64| #[trigger]
            spec_entries_map(s).contains_key(k) ==> exists|i: int|
                0 <= i < s.len() && (#[trigger] s[i]).0 == k,
        forall|i: int|
            0 <= i < s.len() ==> spec_entries_map(s).contains_key((#[trigger] s[i]).0)
                && spec_entries_map(s)[s[i].0] == s[i].1,
        spec_entries_map(s).dom().finite(),
        spec_entries_map(s).dom().len() == s.len(),
    decreases s.len(),
{
    if s.len() == 0 {
    } else {
        let prefix = s.drop_last();
        assert forall|i: int, j: int|
            0 <= i < j < prefix.len() implies (#[trigger] prefix[i]).0 != (
        #[trigger] prefix[j]).0 by {
            assert(prefix[i] == s[i]);
            assert(prefix[j] == s[j]);
        }
        lemma_entries_map(prefix);
        assert forall|i: int|
            0 <= i < s.len() implies spec_entries_map(s).contains_key((#[trigger] s[i]).0)
            && spec_entries_map(s)[s[i].0] == s[i].1 by {
            if i < s.len() - 1 {
                assert(prefix[i] == s[i]);
                assert(s[i].0 != s.last().0);
            }
        }
        assert(!spec_entries_map(prefix).contains_key(s.last().0)) by {
            if spec_entries_map(prefix).contains_key(s.last().0) {
                let i = choose|i: int| 0 <= i < prefix.len() && (#[trigger] prefix[i]).0
                    == s.last().0;
                assert(s[i] == prefix[i]);
            }
        }
        assert(spec_entries_map(s).dom() =~= spec_entries_map(prefix).dom().insert(s.last().0));
        vstd::set::axiom_set_insert_len(spec_entries_map(prefix).dom(), s.last().0);
    }
}

impl<V> View for HandleMap<V> {
    type V = Map<u64, V>;

    open spec fn view(&self) -> Map<u64, V> {
        spec_entries_map(self.entries@)
    }
}

impl<V> HandleMap<V> {
    /// Each key occurs at most once.
    pub open spec fn wf(&self) -> bool {
        spec_distinct_keys(self.entries@)
    }

    /// An empty map.
    pub fn new() -> (r: HandleMap<V>)
        ensures
            r.wf(),
            r@ == Map::<u64, V>::empty(),
            r.entries@.len() == 0,
    {
        HandleMap { entries: Vec::new() }
    }

    /// The index of `key` in the entry list, if it is present.
    fn find(&self, key: u64) -> (r: Option<usize>)
        ensures
            match r {
                Some(index) => 0 <= index < self.entries@.len() && self.entries@[index as int].0
                    == key,
                None => forall|i: int|
                    0 <= i < self.entries@.len() ==> (#[trigger] self.entries@[i]).0 != key,
            },
    {
        let mut index: usize = 0;
        while index < self.entries.len()
            invariant
                index <= self.entries@.len(),
                forall|i: int| 0 <= i < index ==> (#[trigger] self.entries@[i]).0 != key,
            decreases self.entries@.len() - index,
        {
            if self.entries[index].0 == key {
                return Some(index);
            }
            index += 1;
        }
        None
    }

    /// Whether an entry with this key exists.
    pub fn has(&self, key: u64) -> (r: bool)
        requires
            self.wf(),
        ensures
            r == self@.contains_key(key),
    {
        proof {
            lemma_entries_map(self.entries@);
        }
        self.find(key).is_some()
    }

    /// The value recorded for this key, if any.
    pub fn get(&self, key: u64) -> (r: Option<&V>)
        requires
            self.wf(),
        ensures
            match r {
                Some(value) => self@.contains_key(key) && *value == self@[key],
                None => !self@.contains_key(key),
            },
    {
        proof {
            lemma_entries_map(self.entries@);
        }
        match self.find(key) {
            Some(index) => Some(&self.entries[index].1),
            None => None,
        }
    }

    /// Adds or updates the entry for this key.
    pub fn set(&mut self, key: u64, value: V) -> (replaced: bool)
        requires
            old(self).wf(),
        ensures
            final(self).wf(),
            final(self)@ == old(self)@.insert(key, value),
            replaced == old(self)@.contains_key(key),
    {
        proof {
            lemma_entries_map(self.entries@);
        }
        match self.find(key) {
            Some(index) => {
                let ghost before = self.entries@;
                self.entries[index] = (key, value);
                proof {
                    assert forall|i: int, j: int|
                        0 <= i < j < self.entries@.len() implies (#[trigger] self.entries@[i]).0
                        != (#[trigger] self.entries@[j]).0 by {
                        assert(before[i].0 != before[j].0);
                    }
                    lemma_entries_map(self.entries@);
                    assert(self@ =~= old(self)@.insert(key, value)) by {
                        assert forall|k: u64| #[trigger]
                            self@.contains_key(k) implies old(self)@.insert(
                            key,
                            value,
                        ).contains_key(k) && self@[k] == old(self)@.insert(key, value)[k] by {
                            let i = choose|i: int|
                                0 <= i < self.entries@.len() && (#[trigger] self.entries@[i]).0
                                    == k;
                            if i != index {
                                assert(self.entries@[i] == before[i]);
                            }
                        }
                        assert forall|k: u64| #[trigger]
                            old(self)@.insert(key, value).contains_key(k) implies
                        self@.contains_key(k) by {
                            if k == key {
                                assert(self.entries@[index as int].0 == k);
                            } else {
                                let i = choose|i: int|
                                    0 <= i < before.len() && (#[trigger] before[i]).0 == k;
                                assert(self.entries@[i] == before[i]);
                            }
                        }
                    }
                }
                true
            },
            None => {
                let ghost before = self.entries@;
                self.entries.push((key, value));
                proof {
                    assert(self.entries@.drop_last() =~= before);
                    assert(self@ == spec_entries_map(before).insert(key, value));
                }
                false
            },
        }
    }

    /// Removes the entry for this key; reports whether one existed.
    pub fn delete(&mut self, key: u64) -> (removed: bool)
        requires
            old(self).wf(),
        ensures
            final(self).wf(),
            final(self)@ == old(self)@.remove(key),
            removed == old(self)@.contains_key(key),
    {
        proof {
            lemma_entries_map(self.entries@);
        }
        match self.find(key) {
            Some(index) => {
                let ghost before = self.entries@;
                self.entries.remove(index);
                proof {
                    assert(self.entries@ == before.subrange(0, index as int) + before.subrange(
                        index as int + 1,
                        before.len() as int,
                    ));
                    assert forall|i: int, j: int|
                        0 <= i < j < self.entries@.len() implies (#[trigger] self.entries@[i]).0
                        != (#[trigger] self.entries@[j]).0 by {
                        let i0 = if i < index { i } else { i + 1 };
                        let j0 = if j < index { j } else { j + 1 };
                        assert(self.entries@[i] == before[i0]);
                        assert(self.entries@[j] == before[j0]);
                        assert(before[i0].0 != before[j0].0);
                    }
                    lemma_entries_map(self.entries@);
                    assert(self@ =~= old(self)@.remove(key)) by {
                        assert forall|k: u64| #[trigger]
                            self@.contains_key(k) implies old(self)@.remove(key).contains_key(k)
                            && self@[k] == old(self)@.remove(key)[k] by {
                            let i = choose|i: int|
                                0 <= i < self.entries@.len() && (#[trigger] self.entries@[i]).0
                                    == k;
                            let i0 = if i < index { i } else { i + 1 };
                            assert(self.entries@[i] == before[i0]);
                            assert(before[i0].0 != before[index as int].0 || i0 == index);
                        }
                        assert forall|k: u64| #[trigger]
                            old(self)@.remove(key).contains_key(k) implies self@.contains_key(
                            k,
                        ) by {
                            let i = choose|i: int|
                                0 <= i < before.len() && (#[trigger] before[i]).0 == k;
                            let i1 = if i < index { i } else { i - 1 };
                            assert(self.entries@[i1] == before[i]);
                        }
                    }
                }
                true
            },
            None => {
                proof {
                    assert(self@ =~= old(self)@.remove(key));
                }
                false
            },
        }
    }

    /// Removes the entry for this key and hands its value out.
    pub fn take(&mut self, key: u64) -> (removed: Option<V>)
        requires
            old(self).wf(),
        ensures
            final(self).wf(),
            final(self)@ == old(self)@.remove(key),
            match removed {
                Some(value) => old(self)@.contains_key(key) && value == old(self)@[key],
                None => !old(self)@.contains_key(key),
            },
    {
        proof {
            lemma_entries_map(self.entries@);
        }
        match self.find(key) {
            Some(index) => {
                let ghost before = self.entries@;
                let (_, value) = self.entries.remove(index);
                proof {
                    assert(self.entries@ == before.subrange(0, index as int) + before.subrange(
                        index as int + 1,
                        before.len() as int,
                    ));
                    assert forall|i: int, j: int|
                        0 <= i < j < self.entries@.len() implies (#[trigger] self.entries@[i]).0
                        != (#[trigger] self.entries@[j]).0 by {
                        let i0 = if i < index { i } else { i + 1 };
                        let j0 = if j < index { j } else { j + 1 };
                        assert(self.entries@[i] == before[i0]);
                        assert(self.entries@[j] == before[j0]);
                        assert(before[i0].0 != before[j0].0);
                    }
                    lemma_entries_map(self.entries@);
                    assert(self@ =~= old(self)@.remove(key)) by {
                        assert forall|k: u64| #[trigger]
                            self@.contains_key(k) implies old(self)@.remove(key).contains_key(k)
                            && self@[k] == old(self)@.remove(key)[k] by {
                            let i = choose|i: int|
                                0 <= i < self.entries@.len() && (#[trigger] self.entries@[i]).0
                                    == k;
                            let i0 = if i < index { i } else { i + 1 };
                            assert(self.entries@[i] == before[i0]);
                            assert(before[i0].0 != before[index as int].0 || i0 == index);
                        }
                        assert forall|k: u64| #[trigger]
                            old(self)@.remove(key).contains_key(k) implies self@.contains_key(
                            k,
                        ) by {
                            let i = choose|i: int|
                                0 <= i < before.len() && (#[trigger] before[i]).0 == k;
                            let i1 = if i < index { i } else { i - 1 };
                            assert(self.entries@[i1] == before[i]);
                        }
                    }
                }
                Some(value)
            },
            None => {
                proof {
                    assert(self@ =~= old(self)@.remove(key));
                }
                None
            },
        }
    }

    /// The number of entries.
    pub fn size(&self) -> (r: usize)
        requires
            self.wf(),
        ensures
            r == self.entries@.len(),
            r == self@.dom().len(),
    {
        proof {
            lemma_entries_map(self.entries@);
        }
        self.entries.len()
    }

    /// Whether the map holds no entry.
    pub fn is_empty(&self) -> (r: bool)
        requires
            self.wf(),
        ensures
            r == (self@ == Map::<u64, V>::empty()),
    {
        proof {
            lemma_entries_map(self.entries@);
            if self.entries@.len() == 0 {
                assert(self@ =~= Map::<u64, V>::empty());
            } else {
                assert(self@.contains_key(self.entries@[0].0));
            }
        }
        self.entries.len() == 0
    }

    /// Removes every entry.
    pub fn clear(&mut self)
        ensures
            final(self).wf(),
            final(self)@ == Map::<u64, V>::empty(),
            final(self).entries@.len() == 0,
    {
        self.entries.clear();
        proof {
            assert(self@ =~= Map::<u64, V>::empty());
        }
    }
}

} // verus!
