//! The states of a connection that this stack reaches.
use vstd::prelude::*;

verus! {

/// Connection state, as in RFC 793's state diagram.
#[derive(Debug, Copy, Clone, PartialEq, Eq, Structural)]
pub enum State {
    Closed,
    Listen,
    SynRcvd,
    Estab,
}

} // verus!
