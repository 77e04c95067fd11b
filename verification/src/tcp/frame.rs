//! Decoding of the frames a TUN device hands over: which of them carry a TCP
//! segment over IPv4, and for which connection.
use crate::tcp::header::{
    be16, ipv4_header_from_slice, ipv4_header_of, ipv4_header_parses, tcp_header_from_slice,
    tcp_header_of, tcp_header_parses, Ipv4HeaderInfo, TcpHeaderInfo,
};
use crate::tcp::header::{be32, bit, ipv4_ihl, tcp_data_offset, tcp_fields_of, TcpHeaderFields};
use crate::tcp::output::{
    byte, flag, ipv4_header_bytes, ipv4_checksum_of, reply_frame, reply_ipv4_header,
    tcp_header_bytes, with_checksum,
};
use vstd::prelude::*;
use vstd::slice::slice_subrange;

verus! {

/// The two ends of a connection: source address and port, destination
/// address and port, as seen on an incoming segment.
#[derive(Debug, Copy, Clone, PartialEq, Eq, Hash, Structural)]
pub struct Quad {
    pub src_addr: u32,
    pub src_port: u16,
    pub dst_addr: u32,
    pub dst_port: u16,
}

/// A TCP segment found in a frame: its headers, the connection it belongs
/// to, and where its payload lies in the frame.
#[derive(Debug, Copy, Clone, PartialEq, Eq, Structural)]
pub struct Segment {
    pub quad: Quad,
    pub ip: Ipv4HeaderInfo,
    pub tcp: TcpHeaderInfo,
    pub payload_start: usize,
    pub payload_end: usize,
}

/// What a frame from the TUN device holds.
#[derive(Debug, Copy, Clone, PartialEq, Eq, Structural)]
pub enum FrameEvent {
    /// Shorter than the 4-byte packet information prefix, or its protocol
    /// is not IPv4 (0x0800).
    NotIpv4,
    /// No IPv4 header can be read after the prefix.
    Ipv4Error,
    /// The IPv4 packet does not carry TCP (protocol 6).
    NotTcp,
    /// No TCP header can be read after the IPv4 header.
    TcpError,
    /// A TCP segment.
    Segment(Segment),
}

/// Protocol number of IPv4 in the TUN packet information prefix.
pub const ETHER_TYPE_IPV4: u16 = 0x0800;

/// What frame `s` holds: after a 4-byte prefix whose last two bytes give the
/// protocol, an IPv4 header; when it announces TCP, a TCP header right after
/// it; the rest of the frame is the payload.
pub open spec fn classify(s: Seq<u8>) -> FrameEvent {
    if s.len() < 4 || be16(s, 2) != 0x0800 {
        FrameEvent::NotIpv4
    } else if !ipv4_header_parses(s.subrange(4, s.len() as int)) {
        FrameEvent::Ipv4Error
    } else {
        let ip = ipv4_header_of(s.subrange(4, s.len() as int));
        let tcp_start = 4 + ip.header_len;
        if ip.protocol != 6 {
            FrameEvent::NotTcp
        } else if !tcp_header_parses(s.subrange(tcp_start, s.len() as int)) {
            FrameEvent::TcpError
        } else {
            let tcp = tcp_header_of(s.subrange(tcp_start, s.len() as int));
            FrameEvent::Segment(
                Segment {
                    quad: Quad {
                        src_addr: ip.source,
                        src_port: tcp.fields.source_port,
                        dst_addr: ip.destination,
                        dst_port: tcp.fields.destination_port,
                    },
                    ip,
                    tcp,
                    payload_start: (tcp_start + tcp.header_len) as usize,
                    payload_end: s.len() as usize,
                },
            )
        }
    }
}

/// Tells what frame `frame` holds, reading its headers with `etherparse`.
pub fn classify_frame(frame: &[u8]) -> (e: FrameEvent)
    ensures
        e == classify(frame@),
        e matches FrameEvent::Segment(seg) ==> seg.payload_start <= seg.payload_end == frame@.len(),
        e is Segment ==> frame@[13] == 6,
{
    proof {
        lemma_classify_only_tcp(frame@);
    }
    if frame.len() < 4 {
        return FrameEvent::NotIpv4;
    }
    // Network protocols send numbers as bytes, most significant first.
    let ether_type: u16 = (frame[2] as u16) * 0x100 + frame[3] as u16;
    if ether_type != ETHER_TYPE_IPV4 {
        return FrameEvent::NotIpv4;
    }
    let ip_bytes = slice_subrange(frame, 4, frame.len());
    let ip = match ipv4_header_from_slice(ip_bytes) {
        Ok(h) => h,
        Err(_) => {
            return FrameEvent::Ipv4Error;
        },
    };
    if ip.protocol != 6 {
        return FrameEvent::NotTcp;
    }
    let tcp_start = 4 + ip.header_len;
    let tcp_bytes = slice_subrange(frame, tcp_start, frame.len());
    let tcp = match tcp_header_from_slice(tcp_bytes) {
        Ok(h) => h,
        Err(_) => {
            return FrameEvent::TcpError;
        },
    };
    FrameEvent::Segment(
        Segment {
            quad: Quad {
                src_addr: ip.source,
                src_port: tcp.fields.source_port,
                dst_addr: ip.destination,
                dst_port: tcp.fields.destination_port,
            },
            ip,
            tcp,
            payload_start: tcp_start + tcp.header_len,
            payload_end: frame.len(),
        },
    )
}

proof fn lemma_be16_bytes(s: Seq<u8>, i: int, v: u16)
    requires
        0 <= i,
        i + 2 <= s.len(),
        s[i] == byte(v as int, 0x100),
        s[i + 1] == byte(v as int, 1),
    ensures
        be16(s, i) == v,
{
}

proof fn lemma_be32_bytes(s: Seq<u8>, i: int, v: u32)
    requires
        0 <= i,
        i + 4 <= s.len(),
        s[i] == byte(v as int, 0x100_0000),
        s[i + 1] == byte(v as int, 0x1_0000),
        s[i + 2] == byte(v as int, 0x100),
        s[i + 3] == byte(v as int, 1),
    ensures
        be32(s, i) == v,
{
}

proof fn lemma_flag_bits(
    b: u8,
    f0: bool,
    f1: bool,
    f2: bool,
    f3: bool,
    f4: bool,
    f5: bool,
    f6: bool,
    f7: bool,
)
    requires
        b == flag(f0) + 2 * flag(f1) + 4 * flag(f2) + 8 * flag(f3) + 16 * flag(f4) + 32 * flag(f5)
            + 64 * flag(f6) + 128 * flag(f7),
    ensures
        bit(b, 1) == f0,
        bit(b, 2) == f1,
        bit(b, 4) == f2,
        bit(b, 8) == f3,
        bit(b, 16) == f4,
        bit(b, 32) == f5,
        bit(b, 64) == f6,
        bit(b, 128) == f7,
{
    let x0 = flag(f0) as u8;
    let x1 = flag(f1) as u8;
    let x2 = flag(f2) as u8;
    let x3 = flag(f3) as u8;
    let x4 = flag(f4) as u8;
    let x5 = flag(f5) as u8;
    let x6 = flag(f6) as u8;
    let x7 = flag(f7) as u8;
    assert({
        &&& (b / 1) % 2 == x0
        &&& (b / 2) % 2 == x1
        &&& (b / 4) % 2 == x2
        &&& (b / 8) % 2 == x3
        &&& (b / 16) % 2 == x4
        &&& (b / 32) % 2 == x5
        &&& (b / 64) % 2 == x6
        &&& (b / 128) % 2 == x7
    }) by (bit_vector)
        requires
            x0 <= 1 && x1 <= 1 && x2 <= 1 && x3 <= 1 && x4 <= 1 && x5 <= 1 && x6 <= 1 && x7 <= 1,
            b == x0 + 2 * x1 + 4 * x2 + 8 * x3 + 16 * x4 + 32 * x5 + 64 * x6 + 128 * x7,
    ;
}

/// Decoding the bytes of a TCP header written without options gives back its
/// fields, with a header length of 20.
pub proof fn lemma_tcp_header_bytes_decode(h: TcpHeaderFields)
    ensures
        tcp_header_bytes(h).len() == 20,
        tcp_header_parses(tcp_header_bytes(h)),
        tcp_header_of(tcp_header_bytes(h)) == (TcpHeaderInfo { fields: h, header_len: 20 }),
{
    let s = tcp_header_bytes(h);
    assert(s.len() == 20);
    lemma_be16_bytes(s, 0, h.source_port);
    lemma_be16_bytes(s, 2, h.destination_port);
    lemma_be32_bytes(s, 4, h.sequence_number);
    lemma_be32_bytes(s, 8, h.acknowledgment_number);
    lemma_be16_bytes(s, 14, h.window_size);
    lemma_be16_bytes(s, 16, h.checksum);
    lemma_be16_bytes(s, 18, h.urgent_pointer);
    assert(s[12] == (0x50 + flag(h.ns)) as u8);
    assert(tcp_data_offset(s) == 5);
    assert(bit(s[12], 1) == h.ns);
    lemma_flag_bits(s[13], h.fin, h.syn, h.rst, h.psh, h.ack, h.urg, h.ece, h.cwr);
    assert(tcp_fields_of(s) == h);
}

/// The frames the stack sends decode, by the same decoder as incoming
/// frames, to the segment they were built from: a reply to a segment that
/// came in with IPv4 header `ip` is a TCP segment from the receiver back to
/// the sender, carrying `tcp` with its checksum set, and no payload.
pub proof fn lemma_reply_frame_classifies(ip: Ipv4HeaderInfo, tcp: TcpHeaderFields)
    ensures
        classify(reply_frame(ip, tcp)) == FrameEvent::Segment(
            Segment {
                quad: Quad {
                    src_addr: ip.destination,
                    src_port: tcp.source_port,
                    dst_addr: ip.source,
                    dst_port: tcp.destination_port,
                },
                ip: Ipv4HeaderInfo {
                    header_len: 20,
                    total_len: 40,
                    ttl: 64,
                    protocol: 6,
                    source: ip.destination,
                    destination: ip.source,
                },
                tcp: TcpHeaderInfo { fields: with_checksum(tcp, ip), header_len: 20 },
                payload_start: 44,
                payload_end: 44,
            },
        ),
{
    let iph = reply_ipv4_header(ip);
    let ipb = ipv4_header_bytes(iph, ipv4_checksum_of(iph));
    let t = with_checksum(tcp, ip);
    let tb = tcp_header_bytes(t);
    let s = reply_frame(ip, tcp);
    lemma_tcp_header_bytes_decode(t);
    assert(s.len() == 44);
    assert(s[2] == 8 && s[3] == 0);
    assert(s.subrange(4, 44) =~= ipb + tb);
    let ips = s.subrange(4, 44);
    assert(ips[0] == 0x45u8);
    assert(ipv4_ihl(ips) == 5);
    lemma_be16_bytes(ips, 2, 40);
    lemma_be32_bytes(ips, 12, ip.destination);
    lemma_be32_bytes(ips, 16, ip.source);
    assert(ipv4_header_parses(ips));
    assert(s.subrange(24, 44) =~= tb);
}

/// Only TCP over IPv4 becomes a segment: a frame classified as a segment has
/// the IPv4 protocol number in its prefix, IPv4 version 4 and protocol 6
/// (TCP) in its IPv4 header, and the addresses of its quad are those of the
/// IPv4 header. A frame with a readable IPv4 header whose protocol is not 6
/// (ICMP, IGMP, UDP, ...) is never taken for TCP.
pub proof fn lemma_classify_only_tcp(s: Seq<u8>)
    ensures
        classify(s) is Segment ==> {
            &&& s.len() >= 24
            &&& s[2] == 8 && s[3] == 0
            &&& s[4] as int / 16 == 4
            &&& s[13] == 6
            &&& classify(s)->Segment_0.quad.src_addr == be32(s, 16)
            &&& classify(s)->Segment_0.quad.dst_addr == be32(s, 20)
        },
        (s.len() >= 4 && be16(s, 2) == 0x0800 && ipv4_header_parses(s.subrange(4, s.len() as int))
            && s[13] != 6) ==> classify(s) == FrameEvent::NotTcp,
{
    if s.len() >= 4 && be16(s, 2) == 0x0800 && ipv4_header_parses(s.subrange(4, s.len() as int)) {
        let ips = s.subrange(4, s.len() as int);
        assert(ips[9] == s[13]);
        assert(ips[0] == s[4]);
        assert(ips[12] == s[16] && ips[13] == s[17] && ips[14] == s[18] && ips[15] == s[19]);
        assert(ips[16] == s[20] && ips[17] == s[21] && ips[18] == s[22] && ips[19] == s[23]);
    }
}

} // verus!
