//! The keys of a table, in ascending order.

use std::collections::BTreeMap;
use vstd::prelude::*;
use vstd::std_specs::btree::{axiom_increasing_seq_meaning, axiom_spec_keys_iter, spec_keys_iter};
use vstd::std_specs::cmp::OrdSpec;
use vstd::std_specs::iter::IteratorSpec;

verus! {

/// Whether `keys` lists exactly the keys of `dom`, each once, smallest first.
pub open spec fn is_ascending_keys(keys: Seq<u32>, dom: Set<u32>) -> bool {
    &&& forall|i: int| 0 <= i < keys.len() ==> dom.contains(#[trigger] keys[i])
    &&& forall|k: u32| dom.contains(k) ==> exists|i: int| 0 <= i < keys.len() && #[trigger] keys[i] == k
    &&& forall|i: int, j: int| 0 <= i < j < keys.len() ==> keys[i] < keys[j]
}

/// The keys of `m`, smallest first.
pub fn keys_in_order<V>(m: &BTreeMap<u32, V>) -> (r: Vec<u32>)
    ensures
        is_ascending_keys(r@, m@.dom()),
{
    let mut out: Vec<u32> = Vec::new();
    let ghost all = spec_keys_iter(m).remaining();
    proof {
        axiom_spec_keys_iter(m);
    }
    for k in it: m.keys()
        invariant
            it.seq() == all,
            out@.len() == it.index(),
            forall|i: int| 0 <= i < out@.len() ==> out@[i] == *all[i],
    {
        out.push(*k);
    }
    proof {
        assert(out@.len() == all.len());
        assert(all.unref().to_set() == m@.dom());
        assert forall|i: int| 0 <= i < out@.len() implies m@.dom().contains(#[trigger] out@[i]) by {
            assert(all.unref()[i] == out@[i]);
            assert(all.unref().to_set().contains(all.unref()[i]));
        }
        assert forall|k: u32| m@.dom().contains(k) implies exists|i: int|
            0 <= i < out@.len() && #[trigger] out@[i] == k by {
            assert(all.unref().to_set().contains(k));
            let i = choose|i: int| 0 <= i < all.unref().len() && all.unref()[i] == k;
            assert(out@[i] == k);
        }
        axiom_increasing_seq_meaning::<&u32>(all);
        assert forall|i: int, j: int| 0 <= i < j < out@.len() implies out@[i] < out@[j] by {
            assert(OrdSpec::cmp_spec(&all[i], &all[j]) is Less);
        }
    }
    out
}

} // verus!
