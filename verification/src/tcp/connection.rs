//! A connection's sequence spaces and the passive-open handshake.
use crate::tcp::header::{Ipv4HeaderInfo, TcpHeaderFields, TcpHeaderInfo};
use crate::tcp::output::{flag, reply_frame, send_syn_ack, syn_ack_header, PacketError, SYN_ACK_WINDOW};
use crate::tcp::recv::RecvSequenceSpace;
use crate::tcp::send::SendSequenceSpace;
use crate::tcp::state::State;
use crate::util::isn::generate_isn;
use crate::util::seq::{seq_add, seq_le, seq_lt, spec_seq_le, spec_seq_lt};
use vstd::prelude::*;

verus! {

/// One TCP connection: its state and its two sequence spaces.
#[derive(Debug, Copy, Clone, PartialEq, Eq, Structural)]
pub struct Connection {
    pub state: State,
    pub send: SendSequenceSpace,
    pub receive: RecvSequenceSpace,
}

/// The connection created when a SYN with header `tcp` arrives and `iss` is
/// the initial send sequence number: SYN-RECEIVED, nothing acknowledged yet,
/// the SYN-ACK's sequence number consumed, a send window of 10; the peer's
/// SYN consumed on the receive side, its window and urgent pointer taken.
pub open spec fn accepted(tcp: TcpHeaderFields, iss: u32) -> Connection {
    Connection {
        state: State::SynRcvd,
        send: SendSequenceSpace {
            iss,
            una: iss,
            nxt: seq_add(iss, 1),
            wnd: 10,
            up: None,
            wl1: 0,
            wl2: 0,
        },
        receive: RecvSequenceSpace {
            nxt: seq_add(tcp.sequence_number, 1),
            wnd: tcp.window_size,
            up: tcp.urgent_pointer,
            irs: tcp.sequence_number,
        },
    }
}

/// Acceptable ACK (RFC 793, section 3.3): SND.UNA < SEG.ACK =< SND.NXT, in
/// sequence space.
pub open spec fn ack_acceptable(snd: SendSequenceSpace, seg_ack: u32) -> bool {
    spec_seq_lt(snd.una, seg_ack) && spec_seq_le(seg_ack, snd.nxt)
}

/// A segment occupies no sequence space: no payload, no SYN, no FIN.
pub open spec fn zero_length(tcp: TcpHeaderFields, data_len: nat) -> bool {
    data_len == 0 && !tcp.syn && !tcp.fin
}

/// SEG.LEN: the payload length (modulo 2^32) plus one for a SYN and one for
/// a FIN, which each consume one number of sequence space.
pub open spec fn segment_length(tcp: TcpHeaderFields, data_len: nat) -> int {
    (data_len % 0x1_0000_0000) + flag(tcp.syn) + flag(tcp.fin)
}

/// `s` lies in the receive window: RCV.NXT =< s < RCV.NXT + RCV.WND.
pub open spec fn in_window(rcv: RecvSequenceSpace, s: u32) -> bool {
    spec_seq_le(rcv.nxt, s) && spec_seq_lt(s, seq_add(rcv.nxt, rcv.wnd as int))
}

/// Segment acceptability (RFC 793, section 3.3):
///
/// | SEG.LEN | RCV.WND | acceptable when                               |
/// |---------|---------|-----------------------------------------------|
/// | 0       | 0       | SEG.SEQ = RCV.NXT                             |
/// | 0       | >0      | SEG.SEQ in the window                         |
/// | >0      | 0       | never                                         |
/// | >0      | >0      | SEG.SEQ or SEG.SEQ + SEG.LEN - 1 in the window |
pub open spec fn segment_acceptable(rcv: RecvSequenceSpace, tcp: TcpHeaderFields, data_len: nat) -> bool {
    let seg_seq = tcp.sequence_number;
    if zero_length(tcp, data_len) {
        if rcv.wnd == 0 {
            seg_seq == rcv.nxt
        } else {
            in_window(rcv, seg_seq)
        }
    } else {
        if rcv.wnd == 0 {
            false
        } else {
            in_window(rcv, seq_add(seg_seq, segment_length(tcp, data_len) - 1)) || in_window(
                rcv,
                seg_seq,
            )
        }
    }
}

/// The connection after a segment with header `tcp` and `data_len` bytes of
/// payload arrives at `c`: a segment whose ACK or sequence number is not
/// acceptable changes nothing; in SYN-RECEIVED, an acceptable segment that
/// carries ACK with the number one past the initial send sequence number
/// establishes the connection and acknowledges the SYN-ACK; nothing else
/// changes.
pub open spec fn after_segment(c: Connection, tcp: TcpHeaderFields, data_len: nat) -> Connection {
    if !ack_acceptable(c.send, tcp.acknowledgment_number) {
        c
    } else if !segment_acceptable(c.receive, tcp, data_len) {
        c
    } else if c.state == State::SynRcvd && tcp.ack && tcp.acknowledgment_number == seq_add(
        c.send.iss,
        1,
    ) {
        established(c)
    } else {
        c
    }
}

/// `c` after its SYN-ACK is acknowledged: ESTABLISHED, with SND.UNA one past
/// the initial send sequence number.
pub open spec fn established(c: Connection) -> Connection {
    Connection {
        state: State::Estab,
        send: SendSequenceSpace { una: seq_add(c.send.iss, 1), ..c.send },
        ..c
    }
}

/// SND.UNA =< SND.NXT in sequence space: nothing beyond what was sent is
/// taken as acknowledged.
pub open spec fn send_space_ordered(c: Connection) -> bool {
    spec_seq_le(c.send.una, c.send.nxt)
}

/// A connection created on a SYN has SND.UNA =< SND.NXT.
pub proof fn lemma_accepted_send_space_ordered(tcp: TcpHeaderFields, iss: u32)
    ensures
        send_space_ordered(accepted(tcp, iss)),
{
}

/// Every segment keeps SND.UNA =< SND.NXT.
pub proof fn lemma_after_segment_keeps_send_space_ordered(
    c: Connection,
    tcp: TcpHeaderFields,
    data_len: nat,
)
    requires
        send_space_ordered(c),
    ensures
        send_space_ordered(after_segment(c, tcp, data_len)),
{
}

/// A segment changes a connection only by completing the handshake: the
/// connection was in SYN-RECEIVED, the segment's ACK and sequence number were
/// acceptable and it carried ACK; the connection is then ESTABLISHED with
/// SND.UNA one past the initial send sequence number, and nothing else moved.
/// A connection in any other state is never changed.
pub proof fn lemma_after_segment_only_completes_handshake(
    c: Connection,
    tcp: TcpHeaderFields,
    data_len: nat,
)
    ensures
        after_segment(c, tcp, data_len) == c || (c.state == State::SynRcvd && ack_acceptable(
            c.send,
            tcp.acknowledgment_number,
        ) && segment_acceptable(c.receive, tcp, data_len) && tcp.ack && after_segment(
            c,
            tcp,
            data_len,
        ) == established(c)),
        c.state != State::SynRcvd ==> after_segment(c, tcp, data_len) == c,
{
}

/// The three-way handshake: after a SYN with header `syn` creates a
/// connection with initial send sequence number `iss`, a segment that
/// carries ACK of `iss + 1` at sequence number one past the SYN's, without
/// SYN or FIN, and with a payload only if the peer's window is open,
/// establishes the connection.
pub proof fn lemma_handshake_completes(
    syn: TcpHeaderFields,
    iss: u32,
    ack: TcpHeaderFields,
    data_len: nat,
)
    requires
        syn.syn,
        ack.ack,
        !ack.syn,
        !ack.fin,
        ack.acknowledgment_number == seq_add(iss, 1),
        ack.sequence_number == seq_add(syn.sequence_number, 1),
        data_len == 0 || syn.window_size > 0,
    ensures
        after_segment(accepted(syn, iss), ack, data_len) == established(accepted(syn, iss)),
        established(accepted(syn, iss)).send.una == seq_add(iss, 1),
{
    let c = accepted(syn, iss);
    assert(ack_acceptable(c.send, ack.acknowledgment_number));
    if syn.window_size > 0 {
        assert(in_window(c.receive, ack.sequence_number));
    }
    assert(segment_acceptable(c.receive, ack, data_len));
}

/// Acceptable ACK: SND.UNA < SEG.ACK =< SND.NXT, with wraparound.
pub fn is_ack_acceptable(snd: &SendSequenceSpace, seg_ack: u32) -> (r: bool)
    ensures
        r == ack_acceptable(*snd, seg_ack),
{
    seq_lt(snd.una, seg_ack) && seq_le(seg_ack, snd.nxt)
}

proof fn lemma_wrapping_last(seg_seq: u32, seg_len: u32, len: int)
    requires
        seg_len == len % 0x1_0000_0000,
    ensures
        seg_seq.wrapping_add(seg_len).wrapping_sub(1) == seq_add(seg_seq, len - 1),
{
    assert((seg_seq + len - 1) % 0x1_0000_0000 == (seg_seq + seg_len - 1) % 0x1_0000_0000) by {
        vstd::arithmetic::div_mod::lemma_mod_add_multiples_vanish(0, 0x1_0000_0000);
        assert(len == seg_len + 0x1_0000_0000 * (len / 0x1_0000_0000)) by {
            vstd::arithmetic::div_mod::lemma_fundamental_div_mod(len, 0x1_0000_0000);
        }
        vstd::arithmetic::div_mod::lemma_mod_multiples_vanish(
            len / 0x1_0000_0000,
            seg_seq + seg_len - 1,
            0x1_0000_0000,
        );
    }
}

/// Segment acceptability, as the table of `segment_acceptable` gives it, of a
/// segment with header `tcp` and `data_len` bytes of payload.
pub fn is_segment_acceptable(rcv: &RecvSequenceSpace, tcp: &TcpHeaderFields, data_len: usize) -> (r: bool)
    ensures
        r == segment_acceptable(*rcv, *tcp, data_len as nat),
{
    let seg_seq = tcp.sequence_number;
    let wnd_end = rcv.nxt.wrapping_add(rcv.wnd as u32);
    if data_len == 0 && !tcp.syn && !tcp.fin {
        if rcv.wnd == 0 {
            // SEG.LEN = 0, RCV.WND = 0: only the next expected number.
            seg_seq == rcv.nxt
        } else {
            // SEG.LEN = 0, RCV.WND > 0: the number must lie in the window.
            seq_le(rcv.nxt, seg_seq) && seq_lt(seg_seq, wnd_end)
        }
    } else if rcv.wnd == 0 {
        // SEG.LEN > 0, RCV.WND = 0: nothing is acceptable.
        false
    } else {
        // SEG.LEN > 0, RCV.WND > 0: the first or the last number of the
        // segment must lie in the window.
        let syn_len: u32 = if tcp.syn { 1 } else { 0 };
        let fin_len: u32 = if tcp.fin { 1 } else { 0 };
        let payload_len: u64 = (data_len as u64) % 0x1_0000_0000;
        let seg_len: u32 = (payload_len as u32).wrapping_add(syn_len).wrapping_add(fin_len);
        let seg_last = seg_seq.wrapping_add(seg_len).wrapping_sub(1);
        proof {
            let len = segment_length(*tcp, data_len as nat);
            assert(seg_len == len % 0x1_0000_0000);
            lemma_wrapping_last(seg_seq, seg_len, len);
        }
        (seq_le(rcv.nxt, seg_last) && seq_lt(seg_last, wnd_end)) || (seq_le(rcv.nxt, seg_seq)
            && seq_lt(seg_seq, wnd_end))
    }
}

impl Connection {
    /// A SYN arrived with headers `ip_header` and `tcp_header`: creates the
    /// connection with initial send sequence number `iss` and builds the
    /// SYN-ACK frame to send. `None` when the segment is not a SYN.
    pub fn accept_with_isn(
        ip_header: &Ipv4HeaderInfo,
        tcp_header: &TcpHeaderInfo,
        iss: u32,
    ) -> (r: Option<(Connection, Result<Vec<u8>, PacketError>)>)
        ensures
            r is None <==> !tcp_header.fields.syn,
            r matches Some((c, frame)) ==> {
                &&& c == accepted(tcp_header.fields, iss)
                &&& frame is Ok
                &&& frame matches Ok(f) ==> f@ == reply_frame(
                    *ip_header,
                    syn_ack_header(tcp_header.fields, iss),
                )
            },
    {
        if !tcp_header.fields.syn {
            return None;
        }
        let c = Connection {
            state: State::SynRcvd,
            send: SendSequenceSpace {
                iss,
                una: iss,
                nxt: iss.wrapping_add(1),
                wnd: SYN_ACK_WINDOW,
                up: None,
                wl1: 0,
                wl2: 0,
            },
            receive: RecvSequenceSpace {
                nxt: tcp_header.fields.sequence_number.wrapping_add(1),
                wnd: tcp_header.fields.window_size,
                up: tcp_header.fields.urgent_pointer,
                irs: tcp_header.fields.sequence_number,
            },
        };
        let frame = send_syn_ack(ip_header, tcp_header, iss);
        Some((c, frame))
    }

    /// A SYN arrived with headers `ip_header` and `tcp_header`: creates the
    /// connection, with an initial send sequence number taken from the clock,
    /// and builds the SYN-ACK frame to send. `None` when the segment is not a
    /// SYN. The initial send sequence number can be any; the connection and
    /// the frame are those of `accept_with_isn` for it.
    pub fn accept(ip_header: &Ipv4HeaderInfo, tcp_header: &TcpHeaderInfo) -> (r: Option<
        (Connection, Result<Vec<u8>, PacketError>),
    >)
        ensures
            r is None <==> !tcp_header.fields.syn,
            r matches Some((c, frame)) ==> {
                &&& c == accepted(tcp_header.fields, c.send.iss)
                &&& frame is Ok
                &&& frame matches Ok(f) ==> f@ == reply_frame(
                    *ip_header,
                    syn_ack_header(tcp_header.fields, c.send.iss),
                )
            },
    {
        if !tcp_header.fields.syn {
            return None;
        }
        let iss = generate_isn();
        Self::accept_with_isn(ip_header, tcp_header, iss)
    }

    /// A segment with header `tcp_header` and payload `data` arrived on this
    /// connection: checks that its ACK and its sequence number are
    /// acceptable, and completes the three-way handshake when it acknowledges
    /// the SYN-ACK.
    pub fn on_packet(&mut self, tcp_header: &TcpHeaderInfo, data: &[u8])
        ensures
            *final(self) == after_segment(*old(self), tcp_header.fields, data@.len()),
    {
        let tcp = &tcp_header.fields;
        let seg_ack = tcp.acknowledgment_number;
        if !is_ack_acceptable(&self.send, seg_ack) {
            return;
        }
        if !is_segment_acceptable(&self.receive, tcp, data.len()) {
            return;
        }
        match self.state {
            State::SynRcvd => {
                // Third step of the handshake: the ACK of our SYN-ACK.
                if !tcp.ack {
                    return;
                }
                if seg_ack == self.send.iss.wrapping_add(1) {
                    self.state = State::Estab;
                    self.send.una = seg_ack;
                }
            },
            _ => {},
        }
    }
}

} // verus!
