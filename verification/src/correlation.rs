//! The index from a peer's token to the local channel that it answers.

use vstd::prelude::*;
use crate::light_id::LightId;
use crate::node_id::NodeId;

verus! {

/// A finite map from tokens to local channel identifiers. Tokens are told
/// apart by their bytes; no token is held twice.
#[derive(Debug)]
pub struct CorrelationIndex {
    entries: Vec<(NodeId, LightId)>,
}

impl View for CorrelationIndex {
    type V = Map<Seq<u8>, LightId>;

    closed spec fn view(&self) -> Map<Seq<u8>, LightId> {
        Map::new(
            |t: Seq<u8>| self.position(t).is_some(),
            |t: Seq<u8>| self.entries@[self.position(t).unwrap()].1,
        )
    }
}

impl CorrelationIndex {
    /// Where the token with bytes `t` is held, if it is.
    closed spec fn position(&self, t: Seq<u8>) -> Option<int> {
        if exists|i: int| 0 <= i < self.entries@.len() && (#[trigger] self.entries@[i]).0@ == t {
            Some(choose|i: int| 0 <= i < self.entries@.len() && (#[trigger] self.entries@[i]).0@ == t)
        } else {
            None
        }
    }

    /// No token is held twice.
    pub closed spec fn wf(&self) -> bool {
        forall|i: int, j: int|
            0 <= i < j < self.entries@.len() ==> (#[trigger] self.entries@[i]).0@ != (
            #[trigger] self.entries@[j]).0@
    }

    proof fn lemma_position(&self, i: int)
        requires
            self.wf(),
            0 <= i < self.entries@.len(),
        ensures
            self.position(self.entries@[i].0@) == Some(i),
    {
        let t = self.entries@[i].0@;
        let j = choose|j: int| 0 <= j < self.entries@.len() && (#[trigger] self.entries@[j]).0@ == t;
        assert(j == i) by {
            if j < i {
                assert(self.entries@[j].0@ != self.entries@[i].0@);
            } else if i < j {
                assert(self.entries@[i].0@ != self.entries@[j].0@);
            }
        }
    }

    /// The index that holds nothing.
    pub fn new() -> (r: CorrelationIndex)
        ensures
            r.wf(),
            r@ == Map::<Seq<u8>, LightId>::empty(),
    {
        let r = CorrelationIndex { entries: Vec::new() };
        assert(r@ =~= Map::<Seq<u8>, LightId>::empty());
        r
    }

    /// Where `node_id` is held in the list, or the list's length.
    fn find(&self, node_id: &NodeId) -> (r: usize)
        requires
            self.wf(),
        ensures
            r <= self.entries@.len(),
            r < self.entries@.len() ==> self.position(node_id@) == Some(r as int),
            r == self.entries@.len() ==> self.position(node_id@).is_none(),
    {
        let mut i: usize = 0;
        while i < self.entries.len()
            invariant
                self.wf(),
                i <= self.entries@.len(),
                forall|j: int| 0 <= j < i ==> (#[trigger] self.entries@[j]).0@ != node_id@,
            decreases self.entries.len() - i,
        {
            if self.entries[i].0.same(node_id) {
                proof {
                    self.lemma_position(i as int);
                }
                return i;
            }
            i = i + 1;
        }
        i
    }

    /// The local channel recorded for `node_id`, if one is.
    pub fn get(&self, node_id: &NodeId) -> (r: Option<LightId>)
        requires
            self.wf(),
        ensures
            r == if self@.contains_key(node_id@) {
                Some(self@[node_id@])
            } else {
                None
            },
    {
        let i = self.find(node_id);
        if i < self.entries.len() {
            Some(self.entries[i].1)
        } else {
            None
        }
    }

    /// Records `id` for `node_id`, in place of what was recorded for it before.
    pub fn insert(&mut self, node_id: NodeId, id: LightId)
        requires
            old(self).wf(),
        ensures
            final(self).wf(),
            final(self)@ == old(self)@.insert(node_id@, id),
    {
        let i = self.find(&node_id);
        let ghost t = node_id@;
        let ghost before = *self;
        if i < self.entries.len() {
            self.entries.set(i, (node_id, id));
        } else {
            self.entries.push((node_id, id));
        }
        proof {
            let after = *self;
            let at = if i < before.entries@.len() { i as int } else { before.entries@.len() as int };
            assert(after.entries@[at].0@ == t && after.entries@[at].1 == id);
            assert(forall|j: int|
                0 <= j < before.entries@.len() && j != at ==> after.entries@[j]
                    == #[trigger] before.entries@[j]);
            assert(after.wf()) by {
                assert forall|a: int, b: int| 0 <= a < b < after.entries@.len() implies (
                #[trigger] after.entries@[a]).0@ != (#[trigger] after.entries@[b]).0@ by {
                    if a != at && b != at {
                        assert(before.entries@[a].0@ != before.entries@[b].0@);
                    } else if a == at {
                        if at < before.entries@.len() {
                            before.lemma_position(b);
                        }
                    } else {
                        if at < before.entries@.len() {
                            before.lemma_position(a);
                        } else {
                            assert(before.entries@[a].0@ != t);
                        }
                    }
                }
            }
            assert forall|s: Seq<u8>| #[trigger]
                after@.dom().contains(s) == before@.insert(t, id).dom().contains(s) by {
                if s == t {
                    after.lemma_position(at);
                } else if before.position(s).is_some() {
                    let p = before.position(s).unwrap();
                    assert(after.entries@[p] == before.entries@[p]);
                    after.lemma_position(p);
                } else if after.position(s).is_some() {
                    let p = after.position(s).unwrap();
                    assert(p != at);
                    assert(before.entries@[p].0@ == s);
                }
            }
            assert forall|s: Seq<u8>| #[trigger] after@.dom().contains(s) implies after@[s]
                == before@.insert(t, id)[s] by {
                if s == t {
                    after.lemma_position(at);
                } else {
                    let p = after.position(s).unwrap();
                    assert(p != at);
                    assert(before.entries@[p].0@ == s);
                    before.lemma_position(p);
                }
            }
            assert(after@ =~= before@.insert(t, id));
        }
    }
}

} // verus!
