//! The receive sequence space of RFC 793, section 3.2.
use vstd::prelude::*;

verus! {

/// What this side knows of the numbers the peer sends.
#[derive(Debug, Copy, Clone, PartialEq, Eq, Structural)]
pub struct RecvSequenceSpace {
    /// receive next
    pub nxt: u32,
    /// receive window
    pub wnd: u16,
    /// receive urgent pointer
    pub up: u16,
    /// initial receive sequence number
    pub irs: u32,
}

impl Default for RecvSequenceSpace {
    /// All numbers zero.
    fn default() -> (r: Self)
        ensures
            r == (RecvSequenceSpace { nxt: 0, wnd: 0, up: 0, irs: 0 }),
    {
        RecvSequenceSpace { nxt: 0, wnd: 0, up: 0, irs: 0 }
    }
}

} // verus!
