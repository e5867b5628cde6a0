//! The executor's record of which sequencer blocks it has already executed,
//! keyed by the sequencer block hash.
use vstd::prelude::*;

use crate::types::{bytes_eq, Block, BlockView};

verus! {

/// A map from sequencer block hashes to the execution blocks that executing
/// them produced. Each hash occurs at most once.
pub struct ExecutedBlocks {
    entries: Vec<(Vec<u8>, Block)>,
    contents: Ghost<Map<Seq<u8>, BlockView>>,
}

impl View for ExecutedBlocks {
    type V = Map<Seq<u8>, BlockView>;

    closed spec fn view(&self) -> Map<Seq<u8>, BlockView> {
        self.contents@
    }
}

impl ExecutedBlocks {
    /// The entries hold each key once, and exactly the keys and values of the map.
    pub closed spec fn wf(&self) -> bool {
        &&& forall|i: int, j: int|
            0 <= i < self.entries.len() && 0 <= j < self.entries.len() && i != j
                ==> #[trigger] self.entries@[i].0@ != #[trigger] self.entries@[j].0@
        &&& forall|i: int|
            0 <= i < self.entries.len() ==> {
                &&& self.contents@.contains_key(#[trigger] self.entries@[i].0@)
                &&& self.contents@[self.entries@[i].0@] == self.entries@[i].1@
            }
        &&& forall|k: Seq<u8>|
            #[trigger] self.contents@.contains_key(k) ==> exists|i: int|
                0 <= i < self.entries.len() && #[trigger] self.entries@[i].0@ == k
    }

    /// An empty map.
    pub fn new() -> (m: ExecutedBlocks)
        ensures
            m.wf(),
            m@ == Map::<Seq<u8>, BlockView>::empty(),
    {
        ExecutedBlocks { entries: Vec::new(), contents: Ghost(Map::empty()) }
    }

    /// The position of `key` among the entries, if it is there.
    fn find(&self, key: &Vec<u8>) -> (pos: Option<usize>)
        requires
            self.wf(),
        ensures
            match pos {
                Some(i) => i < self.entries.len() && self.entries@[i as int].0@ == key@,
                None => !self@.contains_key(key@),
            },
    {
        let mut i: usize = 0;
        while i < self.entries.len()
            invariant
                self.wf(),
                i <= self.entries.len(),
                forall|j: int| 0 <= j < i ==> #[trigger] self.entries@[j].0@ != key@,
            decreases self.entries.len() - i,
        {
            if bytes_eq(&self.entries[i].0, key) {
                return Some(i);
            }
            i = i + 1;
        }
        None
    }

    /// The block recorded for `key`, if any.
    pub fn get(&self, key: &Vec<u8>) -> (block: Option<Block>)
        requires
            self.wf(),
        ensures
            match block {
                Some(b) => self@.contains_key(key@) && b@ == self@[key@],
                None => !self@.contains_key(key@),
            },
    {
        match self.find(key) {
            Some(i) => Some(self.entries[i].1.clone()),
            None => None,
        }
    }

    /// Records `block` for `key`, replacing an earlier entry for the same key.
    pub fn insert(&mut self, key: Vec<u8>, block: Block)
        requires
            old(self).wf(),
        ensures
            final(self).wf(),
            final(self)@ == old(self)@.insert(key@, block@),
    {
        let ghost k = key@;
        let ghost v = block@;
        let ghost new_contents = self.contents@.insert(k, v);
        match self.find(&key) {
            Some(i) => {
                self.entries.set(i, (key, block));
                self.contents = Ghost(new_contents);
                assert forall|k2: Seq<u8>| #[trigger] self.contents@.contains_key(k2) implies exists|j: int|
                    0 <= j < self.entries.len() && #[trigger] self.entries@[j].0@ == k2 by {
                    if k2 != k {
                        let j = choose|j: int|
                            0 <= j < old(self).entries.len() && #[trigger] old(self).entries@[j].0@ == k2;
                        assert(self.entries@[j] == old(self).entries@[j]);
                    } else {
                        assert(self.entries@[i as int].0@ == k2);
                    }
                }
            },
            None => {
                self.entries.push((key, block));
                self.contents = Ghost(new_contents);
                assert forall|k2: Seq<u8>| #[trigger] self.contents@.contains_key(k2) implies exists|j: int|
                    0 <= j < self.entries.len() && #[trigger] self.entries@[j].0@ == k2 by {
                    if k2 != k {
                        let j = choose|j: int|
                            0 <= j < old(self).entries.len() && #[trigger] old(self).entries@[j].0@ == k2;
                        assert(self.entries@[j] == old(self).entries@[j]);
                    } else {
                        assert(self.entries@[self.entries.len() - 1].0@ == k2);
                    }
                }
            },
        }
    }

    /// Drops the entry for `key`, if there is one.
    pub fn remove(&mut self, key: &Vec<u8>)
        requires
            old(self).wf(),
        ensures
            final(self).wf(),
            final(self)@ == old(self)@.remove(key@),
    {
        let ghost k = key@;
        let ghost new_contents = self.contents@.remove(k);
        match self.find(key) {
            Some(i) => {
                let _ = self.entries.remove(i);
                self.contents = Ghost(new_contents);
                assert forall|j: int| 0 <= j < self.entries.len() implies {
                    &&& self.contents@.contains_key(#[trigger] self.entries@[j].0@)
                    &&& self.contents@[self.entries@[j].0@] == self.entries@[j].1@
                } by {
                    if j < i {
                        assert(self.entries@[j] == old(self).entries@[j]);
                    } else {
                        assert(self.entries@[j] == old(self).entries@[j + 1]);
                    }
                }
                assert forall|k2: Seq<u8>| #[trigger] self.contents@.contains_key(k2) implies exists|j: int|
                    0 <= j < self.entries.len() && #[trigger] self.entries@[j].0@ == k2 by {
                    let j = choose|j: int|
                        0 <= j < old(self).entries.len() && #[trigger] old(self).entries@[j].0@ == k2;
                    if j < i {
                        assert(self.entries@[j] == old(self).entries@[j]);
                    } else {
                        assert(j != i);
                        assert(self.entries@[j - 1] == old(self).entries@[j]);
                    }
                }
                assert forall|a: int, b: int|
                    0 <= a < self.entries.len() && 0 <= b < self.entries.len() && a != b
                    implies #[trigger] self.entries@[a].0@ != #[trigger] self.entries@[b].0@ by {
                    let oa = if a < i { a } else { a + 1 };
                    let ob = if b < i { b } else { b + 1 };
                    assert(self.entries@[a] == old(self).entries@[oa]);
                    assert(self.entries@[b] == old(self).entries@[ob]);
                }
            },
            None => {
                assert(self.contents@.remove(k) =~= self.contents@);
            },
        }
    }

    /// The number of recorded blocks.
    pub fn len(&self) -> (n: usize)
        requires
            self.wf(),
        ensures
            n == self@.dom().len(),
    {
        proof {
            self.lemma_len();
        }
        self.entries.len()
    }

    /// Whether no block is recorded.
    pub fn is_empty(&self) -> (empty: bool)
        requires
            self.wf(),
        ensures
            empty == (self@ == Map::<Seq<u8>, BlockView>::empty()),
    {
        if self.entries.len() == 0 {
            assert(self@ =~= Map::<Seq<u8>, BlockView>::empty());
            true
        } else {
            assert(self@.contains_key(self.entries@[0].0@));
            false
        }
    }

    /// The map has as many keys as there are entries.
    proof fn lemma_len(&self)
        requires
            self.wf(),
        ensures
            self@.dom().finite(),
            self@.dom().len() == self.entries.len(),
    {
        let keys = Seq::new(self.entries.len() as nat, |i: int| self.entries@[i].0@);
        assert(self@.dom() =~= keys.to_set()) by {
            assert forall|k: Seq<u8>| self@.dom().contains(k) implies keys.to_set().contains(k) by {
                let j = choose|j: int| 0 <= j < self.entries.len() && #[trigger] self.entries@[j].0@ == k;
                assert(keys[j] == k);
            }
            assert forall|k: Seq<u8>| keys.to_set().contains(k) implies self@.dom().contains(k) by {
                let j = choose|j: int| 0 <= j < keys.len() && keys[j] == k;
                assert(self.entries@[j].0@ == k);
            }
        }
        assert(keys.no_duplicates()) by {
            assert forall|a: int, b: int| 0 <= a < keys.len() && 0 <= b < keys.len() && a != b implies keys[a]
                != keys[b] by {
                assert(self.entries@[a].0@ != self.entries@[b].0@);
            }
        }
        keys.unique_seq_to_set();
    }
}

} // verus!
