//! The order in which a map of window ids is walked.

use vstd::prelude::*;
use vstd::std_specs::btree::{axiom_increasing_seq_meaning, increasing_seq};
use vstd::std_specs::cmp::OrdSpec;

verus! {

/// In a sequence of keys in the order of a map's iteration, an earlier key
/// is the smaller one.
pub proof fn lemma_increasing_keys(keys: Seq<u32>, i: int, j: int)
    requires
        increasing_seq(keys),
        0 <= i < j < keys.len(),
    ensures
        keys[i] < keys[j],
{
    axiom_increasing_seq_meaning(keys);
    assert(keys[i].cmp_spec(&keys[j]) is Less);
}

} // verus!
