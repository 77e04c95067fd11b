//! The part of reading from a stream that computes: handing received bytes
//! over to the caller's buffer.
use vstd::prelude::*;

verus! {

/// Copies `received` to the start of `buf` and returns how many bytes were
/// copied; the rest of `buf` is left as it was.
pub fn read_into(buf: &mut [u8], received: &[u8]) -> (n: usize)
    requires
        received@.len() <= old(buf)@.len(),
    ensures
        n == received@.len(),
        final(buf)@.len() == old(buf)@.len(),
        final(buf)@.subrange(0, n as int) == received@,
        final(buf)@.subrange(n as int, final(buf)@.len() as int) == old(buf)@.subrange(
            n as int,
            old(buf)@.len() as int,
        ),
{
    let n = received.len();
    for i in 0..n
        invariant
            n == received@.len(),
            n <= buf@.len(),
            buf@.len() == old(buf)@.len(),
            forall|j: int| 0 <= j < i ==> buf@[j] == received@[j],
            forall|j: int| i <= j < buf@.len() ==> buf@[j] == old(buf)@[j],
    {
        buf[i] = received[i];
    }
    assert(buf@.subrange(0, n as int) =~= received@);
    assert(buf@.subrange(n as int, buf@.len() as int) =~= old(buf)@.subrange(
        n as int,
        old(buf)@.len() as int,
    ));
    n
}

} // verus!
