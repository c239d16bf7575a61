//! The collections used by the message log: a map keyed by message
//! digest that keeps its entries in insertion order, backing both the
//! FIFO pool of pending requests and the batch under decision.

use vstd::prelude::*;

use crate::crypto::Digest;

verus! {

broadcast use crate::crypto::lemma_digest_view_len;

/// Whether `entries` holds the key whose bytes are `d`.
pub open spec fn om_contains<V>(entries: Seq<(Digest, V)>, d: Seq<u8>) -> bool {
    exists|i: int| 0 <= i < entries.len() && entries[i].0@ == d
}

/// The position of the key whose bytes are `d` in `entries`.
pub open spec fn om_index<V>(entries: Seq<(Digest, V)>, d: Seq<u8>) -> int {
    choose|i: int| 0 <= i < entries.len() && entries[i].0@ == d
}

/// The value stored under the key whose bytes are `d` in `entries`.
pub open spec fn om_get<V>(entries: Seq<(Digest, V)>, d: Seq<u8>) -> V {
    entries[om_index(entries, d)].1
}

/// Whether no two entries share a key.
pub open spec fn om_unique<V>(entries: Seq<(Digest, V)>) -> bool {
    forall|i: int, j: int| 0 <= i < j < entries.len() ==> entries[i].0@ != entries[j].0@
}

/// The entries left after removing the one under the key whose bytes
/// are `d`.
pub open spec fn om_removed<V>(entries: Seq<(Digest, V)>, d: Seq<u8>) -> Seq<(Digest, V)> {
    let i = om_index(entries, d);
    entries.subrange(0, i) + entries.subrange(i + 1, entries.len() as int)
}

/// Whether `new_es` is `old_es` with `v` stored under the key whose
/// bytes are `d`: replaced in place when the key was present, appended
/// at the back when it was not.
pub open spec fn om_upserted<V>(
    old_es: Seq<(Digest, V)>,
    new_es: Seq<(Digest, V)>,
    d: Seq<u8>,
    v: V,
) -> bool {
    if om_contains(old_es, d) {
        let i = om_index(old_es, d);
        &&& new_es.len() == old_es.len()
        &&& new_es[i].0@ == d
        &&& new_es[i].1 == v
        &&& forall|j: int| 0 <= j < old_es.len() && j != i ==> new_es[j] == old_es[j]
    } else {
        &&& new_es.len() == old_es.len() + 1
        &&& new_es.last().0@ == d
        &&& new_es.last().1 == v
        &&& new_es.drop_last() == old_es
    }
}

/// A map from message digests to values that remembers the order its
/// keys were first inserted in, as the pool of pending requests must.
pub struct OrderedMap<V> {
    /// The entries, oldest first, with pairwise distinct keys.
    pub entries: Vec<(Digest, V)>,
}

impl<V> OrderedMap<V> {
    /// The well-formedness of the map: no key occurs twice.
    pub open spec fn wf(&self) -> bool {
        om_unique(self.entries@)
    }

    /// Creates an empty map.
    pub fn new() -> (r: Self)
        ensures
            r.entries@.len() == 0,
            r.wf(),
    {
        OrderedMap { entries: Vec::new() }
    }

    /// The number of entries in the map.
    pub fn len(&self) -> (r: usize)
        ensures
            r == self.entries@.len(),
    {
        self.entries.len()
    }

    /// The position of the entry under `key`, if one exists.
    fn position(&self, key: &Digest) -> (r: Option<usize>)
        requires
            self.wf(),
        ensures
            match r {
                Some(i) => i < self.entries@.len() && self.entries@[i as int].0@ == key@
                    && om_contains(self.entries@, key@) && om_index(self.entries@, key@) == i,
                None => !om_contains(self.entries@, key@),
            },
    {
        let mut i: usize = 0;
        while i < self.entries.len()
            invariant
                0 <= i <= self.entries@.len(),
                forall|j: int| 0 <= j < i ==> self.entries@[j].0@ != key@,
                self.wf(),
            decreases self.entries@.len() - i,
        {
            let entry = &self.entries[i];
            if entry.0 == *key {
                proof {
                    let w = om_index(self.entries@, key@);
                    assert(0 <= w < self.entries@.len() && self.entries@[w].0@ == key@);
                    assert(w == i);
                }
                return Some(i);
            }
            i = i + 1;
        }
        None
    }

    /// Whether the map holds an entry under `key`.
    pub fn contains_key(&self, key: &Digest) -> (r: bool)
        requires
            self.wf(),
        ensures
            r == om_contains(self.entries@, key@),
    {
        self.position(key).is_some()
    }

    /// A reference to the value stored under `key`, if one exists.
    pub fn get(&self, key: &Digest) -> (r: Option<&V>)
        requires
            self.wf(),
        ensures
            om_contains(self.entries@, key@) ==> r == Some(&om_get(self.entries@, key@)),
            !om_contains(self.entries@, key@) ==> r is None,
    {
        match self.position(key) {
            Some(i) => {
                let entry = &self.entries[i];
                Some(&entry.1)
            },
            None => None,
        }
    }

    /// Stores `value` under `key`: a fresh key goes to the back of the
    /// map, while a key already present keeps its position and has its
    /// value replaced.
    pub fn insert(&mut self, key: Digest, value: V)
        requires
            old(self).wf(),
        ensures
            final(self).wf(),
            om_contains(old(self).entries@, key@) ==> final(self).entries@
                == old(self).entries@.update(om_index(old(self).entries@, key@), (key, value)),
            !om_contains(old(self).entries@, key@) ==> final(self).entries@
                == old(self).entries@.push((key, value)),
    {
        match self.position(&key) {
            Some(i) => {
                self.entries[i] = (key, value);
                proof {
                    assert forall|x: int, y: int|
                        0 <= x < y < self.entries@.len() implies self.entries@[x].0@
                        != self.entries@[y].0@ by {
                        assert(old(self).entries@[x].0@ != old(self).entries@[y].0@);
                    }
                }
            },
            None => {
                self.entries.push((key, value));
            },
        }
    }

    /// Removes and returns the value stored under `key`, if one exists;
    /// the other entries keep their order.
    pub fn remove(&mut self, key: &Digest) -> (r: Option<V>)
        requires
            old(self).wf(),
        ensures
            final(self).wf(),
            om_contains(old(self).entries@, key@) ==> ({
                let i = om_index(old(self).entries@, key@);
                r == Some(om_get(old(self).entries@, key@)) && final(self).entries@
                    == old(self).entries@.subrange(0, i)
                    + old(self).entries@.subrange(i + 1, old(self).entries@.len() as int)
            }),
            !om_contains(old(self).entries@, key@) ==> r is None && *final(self) == *old(self),
    {
        match self.position(key) {
            Some(i) => {
                let entry = self.entries.remove(i);
                proof {
                    let oe = old(self).entries@;
                    let ii = i as int;
                    assert(self.entries@ =~= oe.subrange(0, ii) + oe.subrange(ii + 1, oe.len() as int));
                    assert forall|x: int, y: int|
                        0 <= x < y < self.entries@.len() implies self.entries@[x].0@
                        != self.entries@[y].0@ by {
                        let ox = if x < ii { x } else { x + 1 };
                        let oy = if y < ii { y } else { y + 1 };
                        assert(self.entries@[x] == oe[ox]);
                        assert(self.entries@[y] == oe[oy]);
                        assert(oe[ox].0@ != oe[oy].0@);
                    }
                }
                Some(entry.1)
            },
            None => None,
        }
    }

    /// Removes and returns the oldest entry, if the map is not empty.
    pub fn pop_front(&mut self) -> (r: Option<(Digest, V)>)
        requires
            old(self).wf(),
        ensures
            final(self).wf(),
            old(self).entries@.len() == 0 ==> r is None && *final(self) == *old(self),
            old(self).entries@.len() > 0 ==> r == Some(old(self).entries@[0])
                && final(self).entries@ == old(self).entries@.skip(1),
    {
        if self.entries.len() == 0 {
            return None;
        }
        let entry = self.entries.remove(0);
        proof {
            assert(self.entries@ =~= old(self).entries@.skip(1));
            assert forall|x: int, y: int|
                0 <= x < y < self.entries@.len() implies self.entries@[x].0@
                != self.entries@[y].0@ by {
                assert(old(self).entries@[x + 1].0@ != old(self).entries@[y + 1].0@);
            }
        }
        Some(entry)
    }

    /// The keys of the first `count` entries, in map order; fewer when
    /// the map is shorter than `count`.
    pub fn front_keys(&self, count: usize) -> (r: Vec<Digest>)
        ensures
            r@.len() == vstd::math::min(count as int, self.entries@.len() as int),
            forall|i: int| 0 <= i < r@.len() ==> r@[i] == self.entries@[i].0,
    {
        let mut r: Vec<Digest> = Vec::new();
        let mut i: usize = 0;
        while i < count && i < self.entries.len()
            invariant
                0 <= i <= count,
                i <= self.entries@.len(),
                r@.len() == i,
                forall|j: int| 0 <= j < i ==> r@[j] == self.entries@[j].0,
            decreases count - i,
        {
            let entry = &self.entries[i];
            r.push(entry.0);
            i = i + 1;
        }
        r
    }
}

} // verus!
