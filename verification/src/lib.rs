//! A small user-space TCP stack: wrapping sequence-number arithmetic, the
//! receive/send sequence spaces of a connection, the passive-open handshake
//! state machine, and the decoding and encoding of TCP/IPv4 frames exchanged
//! with a TUN device.
pub mod tcp;
pub mod util;
