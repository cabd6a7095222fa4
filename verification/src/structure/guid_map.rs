use crate::structure::guid::GUID;
use vstd::prelude::*;

verus! {

/// Whether an entry under the key `g` is among the entries.
pub open spec fn spec_has_key<V>(e: Seq<(GUID, V)>, g: GUID) -> bool {
    exists|i: int| 0 <= i < e.len() && (#[trigger] e[i]).0 == g
}

/// Position of the entry under the key `g`.
pub open spec fn spec_key_index<V>(e: Seq<(GUID, V)>, g: GUID) -> int {
    choose|i: int| 0 <= i < e.len() && (#[trigger] e[i]).0 == g
}

/// Whether no key occurs twice among the entries.
pub open spec fn spec_distinct_keys<V>(e: Seq<(GUID, V)>) -> bool {
    forall|i: int, j: int|
        0 <= i < e.len() && 0 <= j < e.len() && i != j ==> (#[trigger] e[i]).0 != (
        #[trigger] e[j]).0
}

/// A map from identifiers to records. Each identifier has at most one
/// record.
pub struct GuidMap<V> {
    entries: Vec<(GUID, V)>,
}

impl<V> GuidMap<V> {
    /// The entries of the map: identifiers with their records.
    pub closed spec fn entries(&self) -> Seq<(GUID, V)> {
        self.entries@
    }

    /// The invariant of the map: no identifier has two records.
    pub open spec fn wf(&self) -> bool {
        spec_distinct_keys(self.entries())
    }

    /// Whether the map has a record under `g`.
    pub open spec fn contains_key(&self, g: GUID) -> bool {
        spec_has_key(self.entries(), g)
    }

    /// The record under `g`.
    pub open spec fn value(&self, g: GUID) -> V {
        self.entries()[spec_key_index(self.entries(), g)].1
    }

    /// In a well-formed map an identifier names one position.
    pub proof fn lemma_index_unique(&self, i: int, g: GUID)
        requires
            self.wf(),
            0 <= i < self.entries().len(),
            self.entries()[i].0 == g,
        ensures
            self.contains_key(g),
            spec_key_index(self.entries(), g) == i,
            self.value(g) == self.entries()[i].1,
    {
        let j = spec_key_index(self.entries(), g);
        assert(self.entries()[j].0 == g);
    }

    /// An empty map.
    pub fn new() -> (m: GuidMap<V>)
        ensures
            m.wf(),
            m.entries().len() == 0,
            forall|g: GUID| !m.contains_key(g),
    {
        GuidMap { entries: Vec::new() }
    }

    /// Number of records.
    pub fn len(&self) -> (n: usize)
        ensures
            n == self.entries().len(),
    {
        self.entries.len()
    }

    /// The identifier at position `i`.
    pub fn key_at(&self, i: usize) -> (g: GUID)
        requires
            i < self.entries().len(),
        ensures
            g == self.entries()[i as int].0,
    {
        self.entries[i].0
    }

    /// The record at position `i`.
    pub fn value_at(&self, i: usize) -> (v: &V)
        requires
            i < self.entries().len(),
        ensures
            *v == self.entries()[i as int].1,
    {
        &self.entries[i].1
    }

    /// Position of the record under `g`, if there is one.
    pub fn find(&self, g: GUID) -> (r: Option<usize>)
        requires
            self.wf(),
        ensures
            match r {
                Some(i) => i < self.entries().len() && self.entries()[i as int].0 == g
                    && self.contains_key(g) && self.value(g) == self.entries()[i as int].1,
                None => !self.contains_key(g),
            },
    {
        let mut i: usize = 0;
        while i < self.entries.len()
            invariant
                self.wf(),
                i <= self.entries.len(),
                forall|k: int| 0 <= k < i ==> (#[trigger] self.entries@[k]).0 != g,
            decreases self.entries.len() - i,
        {
            if self.entries[i].0 == g {
                proof {
                    self.lemma_index_unique(i as int, g);
                }
                return Some(i);
            }
            i += 1;
        }
        None
    }

    /// The record under `g`, if there is one.
    pub fn get(&self, g: GUID) -> (r: Option<&V>)
        requires
            self.wf(),
        ensures
            match r {
                Some(v) => self.contains_key(g) && *v == self.value(g),
                None => !self.contains_key(g),
            },
    {
        match self.find(g) {
            Some(i) => Some(&self.entries[i].1),
            None => None,
        }
    }

    /// Puts `v` under `g` and gives back the record that was there.
    pub fn insert(&mut self, g: GUID, v: V) -> (r: Option<V>)
        requires
            old(self).wf(),
        ensures
            final(self).wf(),
            final(self).contains_key(g),
            final(self).value(g) == v,
            forall|k: GUID|
                k != g ==> final(self).contains_key(k) == old(self).contains_key(k) && (old(self).contains_key(k) ==> final(self).value(k) == old(self).value(k)),
            match r {
                Some(before) => old(self).contains_key(g) && before == old(self).value(g)
                    && final(self).entries().len() == old(self).entries().len(),
                None => !old(self).contains_key(g) && final(self).entries().len() == old(self).entries().len() + 1,
            },
    {
        let ghost before = self.entries@;
        let r = self.remove(g);
        let ghost middle = self.entries@;
        let ghost mid = *self;
        self.entries.push((g, v));
        proof {
            let now = self.entries@;
            assert forall|i: int, j: int|
                0 <= i < now.len() && 0 <= j < now.len() && i != j implies (#[trigger] now[i]).0 != (
            #[trigger] now[j]).0 by {
                if i < middle.len() {
                    assert(now[i] == middle[i]);
                }
                if j < middle.len() {
                    assert(now[j] == middle[j]);
                }
            }
            assert(now[middle.len() as int].0 == g);
            self.lemma_index_unique(middle.len() as int, g);
            assert forall|k: GUID| k != g implies final(self).contains_key(k) == old(self).contains_key(k) && (old(self).contains_key(k) ==> final(self).value(k) == old(self).value(k)) by {
                if mid.contains_key(k) {
                    let i = spec_key_index(middle, k);
                    assert(middle[i].0 == k);
                    assert(now[i] == middle[i]);
                    self.lemma_index_unique(i, k);
                }
                if self.contains_key(k) {
                    let i = spec_key_index(now, k);
                    assert(now[i].0 == k);
                    assert(now[i] == middle[i]);
                }
            }
        }
        r
    }

    /// Takes the record under `g` out of the map, if there is one.
    pub fn remove(&mut self, g: GUID) -> (r: Option<V>)
        requires
            old(self).wf(),
        ensures
            final(self).wf(),
            !final(self).contains_key(g),
            forall|k: GUID|
                k != g ==> final(self).contains_key(k) == old(self).contains_key(k) && (old(self).contains_key(k) ==> final(self).value(k) == old(self).value(k)),
            match r {
                Some(before) => old(self).contains_key(g) && before == old(self).value(g)
                    && final(self).entries().len() == old(self).entries().len() - 1,
                None => !old(self).contains_key(g) && final(self).entries() == old(self).entries(),
            },
    {
        match self.find(g) {
            None => None,
            Some(i) => {
                let ghost before = self.entries@;
                let entry = self.entries.remove(i);
                proof {
                    let now = self.entries@;
                    assert forall|a: int| 0 <= a < now.len() implies #[trigger] now[a] == before[if a
                        < i {
                        a
                    } else {
                        a + 1
                    }] by {}
                    assert forall|a: int, b: int|
                        0 <= a < now.len() && 0 <= b < now.len() && a != b implies (
                    #[trigger] now[a]).0 != (#[trigger] now[b]).0 by {
                        let a0 = if a < i {
                            a
                        } else {
                            a + 1
                        };
                        let b0 = if b < i {
                            b
                        } else {
                            b + 1
                        };
                        assert(now[a] == before[a0]);
                        assert(now[b] == before[b0]);
                    }
                    if self.contains_key(g) {
                        let a = spec_key_index(now, g);
                        assert(now[a].0 == g);
                        let a0 = if a < i {
                            a
                        } else {
                            a + 1
                        };
                        assert(now[a] == before[a0]);
                        assert(before[a0].0 == before[i as int].0);
                    }
                    assert forall|k: GUID| k != g implies final(self).contains_key(k) == old(self).contains_key(k) && (old(self).contains_key(k) ==> final(self).value(k)
                        == old(self).value(k)) by {
                        if old(self).contains_key(k) {
                            let j = spec_key_index(before, k);
                            assert(before[j].0 == k);
                            let j1 = if j < i {
                                j
                            } else {
                                j - 1
                            };
                            assert(now[j1] == before[j]);
                            self.lemma_index_unique(j1, k);
                        }
                        if self.contains_key(k) {
                            let a = spec_key_index(now, k);
                            assert(now[a].0 == k);
                            let a0 = if a < i {
                                a
                            } else {
                                a + 1
                            };
                            assert(now[a] == before[a0]);
                        }
                    }
                }
                Some(entry.1)
            },
        }
    }
}

} // verus!
