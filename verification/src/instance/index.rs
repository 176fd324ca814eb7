use std::collections::{HashMap, HashSet};
use std::hash::Hash;

use vstd::prelude::*;
use vstd::std_specs::hash::obeys_key_model;
use vstd::std_specs::hash::spec_hash_keys_iter;
use vstd::std_specs::iter::IteratorSpec;

verus! {

broadcast use vstd::std_specs::hash::group_hash_axioms;

/// A slot in an instance buffer.
#[derive(Copy, Clone, PartialEq, Eq, Structural, Debug, Hash)]
pub struct Index {
    pub value: u32,
}

impl Index {
    pub fn new(value: u32) -> (r: Index)
        ensures
            r.value == value,
    {
        Index { value }
    }
}

impl From<u32> for Index {
    fn from(value: u32) -> (r: Index) {
        Index::new(value)
    }
}

impl vstd::std_specs::convert::FromSpecImpl<u32> for Index {
    open spec fn obeys_from_spec() -> bool {
        true
    }

    open spec fn from_spec(value: u32) -> Index {
        Index { value }
    }
}

/// Hands out buffer slots to keys, reusing the slots of removed keys ("holes")
/// before growing the number of slots in use.
pub struct Indexer<Key> {
    pub indices: HashMap<Key, Index>,
    pub count: u32,
    pub max: u32,
    pub holes: HashSet<u32>,
}

impl<Key: Eq + Hash + Copy> Indexer<Key> {
    /// Every slot handed out and not yet released is below `count`, no two keys share
    /// a slot, and the released slots are below `count` and held by no key.
    pub open spec fn wf(&self) -> bool {
        &&& obeys_key_model::<Key>()
        &&& forall|k: Key| #[trigger] self.indices@.contains_key(k) ==> self.indices@[k].value < self.count
        &&& forall|k1: Key, k2: Key|
            #[trigger] self.indices@.contains_key(k1) && #[trigger] self.indices@.contains_key(k2)
                && k1 != k2 ==> self.indices@[k1] != self.indices@[k2]
        &&& forall|h: u32| #[trigger] self.holes@.contains(h) ==> h < self.count
        &&& forall|k: Key| #[trigger] self.indices@.contains_key(k) ==> !self.holes@.contains(
            self.indices@[k].value,
        )
        &&& self.holes@.finite()
    }

    /// An indexer with no slot in use and room for `max` slots.
    pub fn new(max: u32) -> (r: Indexer<Key>)
        requires
            obeys_key_model::<Key>(),
        ensures
            r.wf(),
            r.indices@ == Map::<Key, Index>::empty(),
            r.holes@ == Set::<u32>::empty(),
            r.count == 0,
            r.max == max,
    {
        Indexer { indices: HashMap::new(), count: 0, max, holes: HashSet::new() }
    }

    pub fn max(&self) -> (r: u32)
        ensures
            r == self.max,
    {
        self.max
    }

    pub fn count(&self) -> (r: u32)
        ensures
            r == self.count,
    {
        self.count
    }

    /// Assigns a slot to `key`: a released slot if there is one (which one is not
    /// specified), else a new slot at the end.
    pub fn next(&mut self, key: Key) -> (r: Index)
        requires
            old(self).wf(),
            old(self).holes@.len() == 0 ==> old(self).count < u32::MAX,
        ensures
            final(self).wf(),
            forall|k: Key| #[trigger] old(self).indices@.contains_key(k) && k != key
                ==> old(self).indices@[k] != r,
            final(self).indices@ == old(self).indices@.insert(key, r),
            final(self).max == old(self).max,
            old(self).holes@.len() == 0 ==> {
                &&& r.value == old(self).count
                &&& final(self).count == old(self).count + 1
                &&& final(self).holes@ == old(self).holes@
            },
            old(self).holes@.len() > 0 ==> {
                &&& old(self).holes@.contains(r.value)
                &&& final(self).holes@ == old(self).holes@.remove(r.value)
                &&& final(self).count == old(self).count
            },
    {
        let index = if self.holes.is_empty() {
            self.count = self.count + 1;
            Index::new(self.count - 1)
        } else {
            let mut chosen: Option<u32> = None;
            proof {
                let ghost rem = spec_hash_keys_iter(&self.holes).remaining();
                assert(rem.unref().to_set() == self.holes@);
                assert(rem.len() == self.holes@.len());
            }
            for h in it: self.holes.iter()
                invariant_except_break
                    it.index() == 0,
                    chosen is None,
                invariant
                    it.seq() == spec_hash_keys_iter(&self.holes).remaining(),
                    self.holes@.len() > 0,
                ensures
                    chosen is Some,
                    self.holes@.contains(chosen.unwrap()),
            {
                proof {
                    let ghost rem = spec_hash_keys_iter(&self.holes).remaining();
                    assert(rem.unref()[0] == *h);
                    assert(rem.unref().contains(*h));
                    assert(rem.unref().to_set().contains(*h));
                }
                chosen = Some(*h);
                break;
            }
            let hole = chosen.unwrap();
            self.holes.remove(&hole);
            Index::new(hole)
        };
        self.indices.insert(key, index);
        index
    }

    /// Releases the slot of `key`, returning it, or `None` when `key` has none.
    pub fn remove(&mut self, key: Key) -> (r: Option<Index>)
        requires
            old(self).wf(),
        ensures
            final(self).wf(),
            final(self).count == old(self).count,
            final(self).max == old(self).max,
            match r {
                Some(index) => {
                    &&& old(self).indices@.contains_key(key)
                    &&& old(self).indices@[key] == index
                    &&& final(self).indices@ == old(self).indices@.remove(key)
                    &&& final(self).holes@ == old(self).holes@.insert(index.value)
                },
                None => {
                    &&& !old(self).indices@.contains_key(key)
                    &&& final(self).indices@ == old(self).indices@
                    &&& final(self).holes@ == old(self).holes@
                },
            },
    {
        match self.indices.remove(&key) {
            Some(index) => {
                self.holes.insert(index.value);
                Some(index)
            },
            None => None,
        }
    }

    /// The slot of `key`, if it has one.
    pub fn get_index(&self, key: Key) -> (r: Option<Index>)
        requires
            obeys_key_model::<Key>(),
        ensures
            match r {
                Some(index) => self.indices@.contains_key(key) && self.indices@[key] == index,
                None => !self.indices@.contains_key(key),
            },
    {
        match self.indices.get(&key) {
            Some(index) => Some(*index),
            None => None,
        }
    }

    /// Raises `max` to `count` when more slots are in use than `max`; returns whether it did.
    pub fn should_grow(&mut self) -> (r: bool)
        ensures
            r == (old(self).count > old(self).max),
            final(self).max == if r { old(self).count } else { old(self).max },
            final(self).count == old(self).count,
            final(self).indices@ == old(self).indices@,
            final(self).holes@ == old(self).holes@,
    {
        if self.count > self.max {
            while self.count > self.max
                invariant
                    self.max <= self.count,
                    self.count == old(self).count,
                    self.indices@ == old(self).indices@,
                    self.holes@ == old(self).holes@,
                decreases self.count - self.max,
            {
                self.max = self.max + 1;
            }
            return true;
        }
        false
    }
}

} // verus!
