//! Comparison of 32-bit TCP sequence numbers modulo 2^32.
use vstd::prelude::*;

verus! {

/// Distance from `b` forward to `a` on the 2^32 circle of sequence numbers,
/// in `0 .. 2^32`.
pub open spec fn seq_distance(a: u32, b: u32) -> int {
    (a - b) % 0x1_0000_0000
}

/// `a + k` on the circle of sequence numbers.
pub open spec fn seq_add(a: u32, k: int) -> u32 {
    ((a + k) % 0x1_0000_0000) as u32
}

/// `a` comes strictly before `b`: `b` lies 1 to 2^31 steps ahead of `a`,
/// which is exactly when `a - b`, taken modulo 2^32, has its top bit set.
pub open spec fn spec_seq_lt(a: u32, b: u32) -> bool {
    seq_distance(a, b) >= 0x8000_0000
}

/// `a` comes before `b` or equals it.
pub open spec fn spec_seq_le(a: u32, b: u32) -> bool {
    seq_distance(a, b) == 0 || seq_distance(a, b) >= 0x8000_0000
}

proof fn lemma_wrapping_sub_is_distance(a: u32, b: u32)
    ensures
        a.wrapping_sub(b) as int == seq_distance(a, b),
{
}

/// Sequence-space "less than", with wraparound: true when `a - b`, as a
/// signed 32-bit number, is negative.
pub fn seq_lt(a: u32, b: u32) -> (r: bool)
    ensures
        r == spec_seq_lt(a, b),
{
    let d: u32 = a.wrapping_sub(b);
    proof {
        lemma_wrapping_sub_is_distance(a, b);
        assert(((d as i32) < 0) == (d >= 0x8000_0000u32)) by (bit_vector);
    }
    (d as i32) < 0
}

/// Sequence-space "less than or equal", with wraparound: true when `a - b`,
/// as a signed 32-bit number, is not positive.
pub fn seq_le(a: u32, b: u32) -> (r: bool)
    ensures
        r == spec_seq_le(a, b),
{
    let d: u32 = a.wrapping_sub(b);
    proof {
        lemma_wrapping_sub_is_distance(a, b);
        assert(((d as i32) <= 0) == (d == 0 || d >= 0x8000_0000u32)) by (bit_vector);
    }
    (d as i32) <= 0
}

/// No sequence number comes strictly before itself.
pub proof fn lemma_seq_lt_irreflexive(a: u32)
    ensures
        !spec_seq_lt(a, a),
        spec_seq_le(a, a),
{
}

/// "Before or equal" is "strictly before" or equality.
pub proof fn lemma_seq_le_iff_lt_or_eq(a: u32, b: u32)
    ensures
        spec_seq_le(a, b) == (spec_seq_lt(a, b) || a == b),
{
}

/// Of two different sequence numbers, one comes strictly before the other.
pub proof fn lemma_seq_lt_total(a: u32, b: u32)
    requires
        a != b,
    ensures
        spec_seq_lt(a, b) || spec_seq_lt(b, a),
{
}

/// Two sequence numbers that are not exactly half the circle apart are not
/// each strictly before the other.
pub proof fn lemma_seq_lt_asymmetric(a: u32, b: u32)
    requires
        seq_distance(a, b) != 0x8000_0000,
    ensures
        !(spec_seq_lt(a, b) && spec_seq_lt(b, a)),
{
}

/// Shifting both sides by the same amount, with wraparound, keeps the order.
pub proof fn lemma_seq_order_shift_invariant(a: u32, b: u32, k: u32)
    ensures
        spec_seq_lt(seq_add(a, k as int), seq_add(b, k as int)) == spec_seq_lt(a, b),
        spec_seq_le(seq_add(a, k as int), seq_add(b, k as int)) == spec_seq_le(a, b),
{
    assert(seq_distance(seq_add(a, k as int), seq_add(b, k as int)) == seq_distance(a, b));
}

/// A number 1 to 2^31 - 1 steps ahead of `a`, with wraparound, comes after
/// `a`, and `a` does not come after it.
pub proof fn lemma_seq_lt_forward(a: u32, k: u32)
    requires
        1 <= k < 0x8000_0000,
    ensures
        spec_seq_lt(a, seq_add(a, k as int)),
        !spec_seq_lt(seq_add(a, k as int), a),
        !spec_seq_le(seq_add(a, k as int), a),
{
}

} // verus!
