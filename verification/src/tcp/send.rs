//! The send sequence space of RFC 793, section 3.2.
use vstd::prelude::*;

verus! {

/// What this side knows of the numbers it sends.
#[derive(Debug, Copy, Clone, PartialEq, Eq, Structural)]
pub struct SendSequenceSpace {
    /// send unacknowledged
    pub una: u32,
    /// send next
    pub nxt: u32,
    /// send window
    pub wnd: u16,
    /// send urgent pointer
    pub up: Option<u16>,
    /// segment sequence number used for last window update
    pub wl1: u32,
    /// segment acknowledgment number used for last window update
    pub wl2: u32,
    /// initial send sequence number
    pub iss: u32,
}

impl Default for SendSequenceSpace {
    /// All numbers zero, no urgent pointer.
    fn default() -> (r: Self)
        ensures
            r == (SendSequenceSpace { una: 0, nxt: 0, wnd: 0, up: None, wl1: 0, wl2: 0, iss: 0 }),
    {
        SendSequenceSpace { una: 0, nxt: 0, wnd: 0, up: None, wl1: 0, wl2: 0, iss: 0 }
    }
}

} // verus!
