//! Sequence-number comparisons as the TCP modules name them; they are those of
//! `crate::util::seq`.
use crate::util::seq::{spec_seq_le, spec_seq_lt};
use vstd::prelude::*;

verus! {

/// Sequence-space "less than", with wraparound.
pub fn seq_lt(a: u32, b: u32) -> (r: bool)
    ensures
        r == spec_seq_lt(a, b),
{
    crate::util::seq::seq_lt(a, b)
}

/// Sequence-space "less than or equal", with wraparound.
pub fn seq_le(a: u32, b: u32) -> (r: bool)
    ensures
        r == spec_seq_le(a, b),
{
    crate::util::seq::seq_le(a, b)
}

} // verus!
