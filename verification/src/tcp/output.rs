//! Encoding of the TCP/IPv4 frames the stack sends, by `etherparse`.
use crate::tcp::header::{be16, bit, Ipv4HeaderInfo, TcpHeaderFields, TcpHeaderInfo};
use crate::util::seq::seq_add;
use vstd::prelude::*;

verus! {

/// The fixed part of an IPv4 header as the stack writes it: no options, type
/// of service and fragment offset zero.
#[derive(Debug, Copy, Clone, PartialEq, Eq, Structural)]
pub struct Ipv4HeaderFields {
    pub total_len: u16,
    pub identification: u16,
    pub dont_fragment: bool,
    pub more_fragments: bool,
    pub time_to_live: u8,
    pub protocol: u8,
    pub source: u32,
    pub destination: u32,
}

/// Why a frame could not be built.
#[derive(Debug, Copy, Clone, PartialEq, Eq, Structural)]
pub enum PacketError {
    /// The TCP payload does not fit the 16-bit length of the pseudo header.
    TcpPayloadTooBig,
    /// The IPv4 payload does not fit the 16-bit total length.
    Ipv4PayloadTooBig,
}

/// Length of a TCP header without options.
pub const TCP_HEADER_LEN: u16 = 20;

/// Time to live of the IPv4 packets sent.
pub const TTL: u8 = 64;

/// IP protocol number of TCP.
pub const IP_PROTOCOL_TCP: u8 = 6;

/// The window advertised in a SYN-ACK.
pub const SYN_ACK_WINDOW: u16 = 10;

/// The 4-byte packet information prefix of a TUN device (flags 0, protocol
/// IPv4).
pub open spec fn tun_prefix() -> Seq<u8> {
    seq![0u8, 0u8, 8u8, 0u8]
}

/// Byte `v / unit` modulo 256: with `unit` 1 the lowest byte of `v`, with
/// 0x100 the next, and so on.
pub open spec fn byte(v: int, unit: int) -> u8 {
    ((v / unit) % 0x100) as u8
}

/// 1 for true, 0 for false.
pub open spec fn flag(b: bool) -> int {
    if b { 1 } else { 0 }
}

/// The 20 bytes of a TCP header without options (RFC 793, section 3.1),
/// numbers most significant byte first: data offset 5 and the NS bit in byte
/// 12, the other flags in byte 13.
pub open spec fn tcp_header_bytes(h: TcpHeaderFields) -> Seq<u8> {
    seq![
        byte(h.source_port as int, 0x100),
        byte(h.source_port as int, 1),
        byte(h.destination_port as int, 0x100),
        byte(h.destination_port as int, 1),
        byte(h.sequence_number as int, 0x100_0000),
        byte(h.sequence_number as int, 0x1_0000),
        byte(h.sequence_number as int, 0x100),
        byte(h.sequence_number as int, 1),
        byte(h.acknowledgment_number as int, 0x100_0000),
        byte(h.acknowledgment_number as int, 0x1_0000),
        byte(h.acknowledgment_number as int, 0x100),
        byte(h.acknowledgment_number as int, 1),
        (0x50 + flag(h.ns)) as u8,
        (flag(h.fin) + 2 * flag(h.syn) + 4 * flag(h.rst) + 8 * flag(h.psh) + 16 * flag(h.ack) + 32
            * flag(h.urg) + 64 * flag(h.ece) + 128 * flag(h.cwr)) as u8,
        byte(h.window_size as int, 0x100),
        byte(h.window_size as int, 1),
        byte(h.checksum as int, 0x100),
        byte(h.checksum as int, 1),
        byte(h.urgent_pointer as int, 0x100),
        byte(h.urgent_pointer as int, 1),
    ]
}

/// The 20 bytes of an IPv4 header without options (RFC 791, section 3.1),
/// numbers most significant byte first, with `checksum` as header checksum.
pub open spec fn ipv4_header_bytes(h: Ipv4HeaderFields, checksum: u16) -> Seq<u8> {
    seq![
        0x45u8,
        0u8,
        byte(h.total_len as int, 0x100),
        byte(h.total_len as int, 1),
        byte(h.identification as int, 0x100),
        byte(h.identification as int, 1),
        (64 * flag(h.dont_fragment) + 32 * flag(h.more_fragments)) as u8,
        0u8,
        h.time_to_live,
        h.protocol,
        byte(checksum as int, 0x100),
        byte(checksum as int, 1),
        byte(h.source as int, 0x100_0000),
        byte(h.source as int, 0x1_0000),
        byte(h.source as int, 0x100),
        byte(h.source as int, 1),
        byte(h.destination as int, 0x100_0000),
        byte(h.destination as int, 0x1_0000),
        byte(h.destination as int, 0x100),
        byte(h.destination as int, 1),
    ]
}

/// The TCP checksum that `etherparse` computes for header `h` and `payload`
/// sent from `source` to `destination`.
pub uninterp spec fn tcp_checksum_ipv4(
    h: TcpHeaderFields,
    source: u32,
    destination: u32,
    payload: Seq<u8>,
) -> u16;

/// The IPv4 header checksum that `etherparse` computes for header `h`.
pub uninterp spec fn ipv4_checksum_of(h: Ipv4HeaderFields) -> u16;

/// The error `etherparse` reports for a length or number too big for its
/// field.
#[verifier::external_type_specification]
#[verifier::external_body]
#[verifier::reject_recursive_types(T)]
pub struct ExValueTooBigError<
    T: Sized + Clone + core::fmt::Display + core::fmt::Debug + Eq + PartialEq + core::hash::Hash,
>(etherparse::err::ValueTooBigError<T>);

/// Calls `etherparse::TcpHeader::new`. Claimed, as the crate's source shows:
/// the ports, sequence number and window are those given, every other field
/// is zero or false, and there are no options.
#[verifier::external_body]
pub(crate) fn tcp_header_new(
    source_port: u16,
    destination_port: u16,
    sequence_number: u32,
    window_size: u16,
) -> (h: TcpHeaderFields)
    ensures
        h == (TcpHeaderFields {
            source_port,
            destination_port,
            sequence_number,
            acknowledgment_number: 0,
            ns: false, fin: false, syn: false, rst: false, psh: false,
            ack: false, urg: false, ece: false, cwr: false,
            window_size,
            checksum: 0,
            urgent_pointer: 0,
        }),
{
    let t = etherparse::TcpHeader::new(source_port, destination_port, sequence_number, window_size);
    TcpHeaderFields {
        source_port: t.source_port, destination_port: t.destination_port,
        sequence_number: t.sequence_number, acknowledgment_number: t.acknowledgment_number,
        ns: t.ns, fin: t.fin, syn: t.syn, rst: t.rst, psh: t.psh, ack: t.ack, urg: t.urg,
        ece: t.ece, cwr: t.cwr, window_size: t.window_size, checksum: t.checksum,
        urgent_pointer: t.urgent_pointer,
    }
}

/// Calls `etherparse::TcpHeader::calc_checksum_ipv4_raw` on header `h`
/// (without options). Claimed, as the crate's source shows: it fails exactly
/// when the payload is longer than 65535 - 20 bytes; otherwise it returns the
/// checksum of `h`, the addresses and the payload, a value that depends on
/// those alone.
#[verifier::external_body]
pub(crate) fn tcp_checksum_ipv4_raw(
    h: &TcpHeaderFields,
    source: u32,
    destination: u32,
    payload: &[u8],
) -> (r: Result<u16, etherparse::err::ValueTooBigError<usize>>)
    ensures
        r is Ok <==> payload@.len() <= 65535 - 20,
        r matches Ok(c) ==> c == tcp_checksum_ipv4(*h, source, destination, payload@),
{
    let t = etherparse::TcpHeader {
        source_port: h.source_port, destination_port: h.destination_port,
        sequence_number: h.sequence_number, acknowledgment_number: h.acknowledgment_number,
        ns: h.ns, fin: h.fin, syn: h.syn, rst: h.rst, psh: h.psh, ack: h.ack, urg: h.urg,
        ece: h.ece, cwr: h.cwr, window_size: h.window_size, checksum: h.checksum,
        urgent_pointer: h.urgent_pointer, options: Default::default(),
    };
    t.calc_checksum_ipv4_raw(source.to_be_bytes(), destination.to_be_bytes(), payload)
}

/// Calls `etherparse::TcpHeader::to_bytes` on header `h` (without options).
/// Claimed, as the crate's source shows: the 20 bytes of `h` as RFC 793 lays
/// them out, the checksum field written as it is.
#[verifier::external_body]
pub(crate) fn tcp_header_to_bytes(h: &TcpHeaderFields) -> (b: Vec<u8>)
    ensures
        b@ == tcp_header_bytes(*h),
{
    let t = etherparse::TcpHeader {
        source_port: h.source_port, destination_port: h.destination_port,
        sequence_number: h.sequence_number, acknowledgment_number: h.acknowledgment_number,
        ns: h.ns, fin: h.fin, syn: h.syn, rst: h.rst, psh: h.psh, ack: h.ack, urg: h.urg,
        ece: h.ece, cwr: h.cwr, window_size: h.window_size, checksum: h.checksum,
        urgent_pointer: h.urgent_pointer, options: Default::default(),
    };
    t.to_bytes().to_vec()
}

/// Calls `etherparse::Ipv4Header::new`. Claimed, as the crate's source shows:
/// it fails exactly when the payload length is above 65535 - 20; otherwise
/// the total length is the payload length plus 20, the identification is 0,
/// "don't fragment" is set, "more fragments" is not, and time to live,
/// protocol and addresses are those given.
#[verifier::external_body]
pub(crate) fn ipv4_header_new(
    payload_len: u16,
    time_to_live: u8,
    protocol: u8,
    source: u32,
    destination: u32,
) -> (r: Result<Ipv4HeaderFields, etherparse::err::ValueTooBigError<u16>>)
    ensures
        r is Ok <==> payload_len <= 65535 - 20,
        r matches Ok(h) ==> h == (Ipv4HeaderFields {
            total_len: (payload_len + 20) as u16,
            identification: 0,
            dont_fragment: true,
            more_fragments: false,
            time_to_live,
            protocol,
            source,
            destination,
        }),
{
    let h = etherparse::Ipv4Header::new(
        payload_len, time_to_live, etherparse::IpNumber(protocol),
        source.to_be_bytes(), destination.to_be_bytes(),
    )?;
    Ok(Ipv4HeaderFields {
        total_len: h.total_len, identification: h.identification,
        dont_fragment: h.dont_fragment, more_fragments: h.more_fragments,
        time_to_live: h.time_to_live, protocol: h.protocol.0,
        source: u32::from_be_bytes(h.source), destination: u32::from_be_bytes(h.destination),
    })
}

/// Calls `etherparse::Ipv4Header::calc_header_checksum` on header `h` (no
/// options, type of service and fragment offset zero). Claimed: the checksum
/// it computes, a value that depends on `h` alone (the crate's source reads
/// only the header's fields, not its checksum field).
#[verifier::external_body]
pub(crate) fn ipv4_header_checksum(h: &Ipv4HeaderFields) -> (c: u16)
    ensures
        c == ipv4_checksum_of(*h),
{
    let t = etherparse::Ipv4Header {
        dscp: Default::default(), ecn: Default::default(), total_len: h.total_len,
        identification: h.identification, dont_fragment: h.dont_fragment,
        more_fragments: h.more_fragments, fragment_offset: Default::default(),
        time_to_live: h.time_to_live, protocol: etherparse::IpNumber(h.protocol),
        header_checksum: 0, source: h.source.to_be_bytes(),
        destination: h.destination.to_be_bytes(), options: Default::default(),
    };
    t.calc_header_checksum()
}

/// Calls `etherparse::Ipv4Header::to_bytes` on header `h` (no options, type
/// of service and fragment offset zero) with header checksum `checksum`.
/// Claimed, as the crate's source shows: the 20 bytes of the header as
/// RFC 791 lays them out, the checksum written as given.
#[verifier::external_body]
pub(crate) fn ipv4_header_to_bytes(h: &Ipv4HeaderFields, checksum: u16) -> (b: Vec<u8>)
    ensures
        b@ == ipv4_header_bytes(*h, checksum),
{
    let t = etherparse::Ipv4Header {
        dscp: Default::default(), ecn: Default::default(), total_len: h.total_len,
        identification: h.identification, dont_fragment: h.dont_fragment,
        more_fragments: h.more_fragments, fragment_offset: Default::default(),
        time_to_live: h.time_to_live, protocol: etherparse::IpNumber(h.protocol),
        header_checksum: checksum, source: h.source.to_be_bytes(),
        destination: h.destination.to_be_bytes(), options: Default::default(),
    };
    t.to_bytes().to_vec()
}

/// The frame that answers a segment that came in with IPv4 header `ip_header`:
/// the TUN prefix, an IPv4 header from the receiver back to the sender
/// (payload of one optionless TCP header, time to live 64, protocol TCP), and
/// `tcp` with the checksum `etherparse` computes over the incoming header's
/// addresses and an empty payload.
pub open spec fn reply_frame(ip_header: Ipv4HeaderInfo, tcp: TcpHeaderFields) -> Seq<u8> {
    let ip = reply_ipv4_header(ip_header);
    tun_prefix() + ipv4_header_bytes(ip, ipv4_checksum_of(ip)) + tcp_header_bytes(
        with_checksum(tcp, ip_header),
    )
}

/// The IPv4 header of a reply to a segment that came in with `ip_header`.
pub open spec fn reply_ipv4_header(ip_header: Ipv4HeaderInfo) -> Ipv4HeaderFields {
    Ipv4HeaderFields {
        total_len: 40,
        identification: 0,
        dont_fragment: true,
        more_fragments: false,
        time_to_live: 64,
        protocol: 6,
        source: ip_header.destination,
        destination: ip_header.source,
    }
}

/// `tcp` with its checksum set for an empty payload between the addresses of
/// `ip_header`.
pub open spec fn with_checksum(tcp: TcpHeaderFields, ip_header: Ipv4HeaderInfo) -> TcpHeaderFields {
    TcpHeaderFields {
        checksum: tcp_checksum_ipv4(tcp, ip_header.source, ip_header.destination, Seq::empty()),
        ..tcp
    }
}

/// Frame `s` (TUN prefix, then IPv4) carries one whole, unfragmented IPv4
/// datagram: in the flags and fragment offset bytes (frame bytes 10 and 11)
/// "don't fragment" is set, "more fragments" is clear and the fragment offset
/// is 0, and the total length is the length of everything after the prefix.
pub open spec fn whole_datagram(s: Seq<u8>) -> bool {
    &&& s.len() >= 24
    &&& bit(s[10], 64)
    &&& !bit(s[10], 32)
    &&& s[10] as int % 32 == 0
    &&& s[11] == 0
    &&& be16(s, 6) == s.len() - 4
}

/// Every reply frame is 44 bytes long and carries one whole, unfragmented
/// IPv4 datagram, so the peer's IP layer delivers it at once.
pub proof fn lemma_reply_frame_whole_datagram(ip_header: Ipv4HeaderInfo, tcp: TcpHeaderFields)
    ensures
        reply_frame(ip_header, tcp).len() == 44,
        whole_datagram(reply_frame(ip_header, tcp)),
{
    let ip = reply_ipv4_header(ip_header);
    let ipb = ipv4_header_bytes(ip, ipv4_checksum_of(ip));
    let tb = tcp_header_bytes(with_checksum(tcp, ip_header));
    let s = reply_frame(ip_header, tcp);
    assert(s =~= tun_prefix() + ipb + tb);
    assert(s.len() == 44);
    assert(s[10] == ipb[6]);
    assert(s[11] == ipb[7]);
    assert(s[6] == ipb[2] && s[7] == ipb[3]);
    assert(ipb[6] == 64u8);
}

/// Builds the frame that answers a segment that came in with IPv4 header
/// `ip_header`: sets the checksum of `tcp_header` (an empty payload), then
/// writes the TUN prefix, an IPv4 header from the receiver back to the
/// sender, with its checksum, and the TCP header. The frame is for the
/// caller to send on the device; it is always built.
pub fn send_tcp_packet(ip_header: &Ipv4HeaderInfo, tcp_header: &mut TcpHeaderFields) -> (r: Result<
    Vec<u8>,
    PacketError,
>)
    ensures
        *final(tcp_header) == with_checksum(*old(tcp_header), *ip_header),
        r is Ok,
        r matches Ok(frame) ==> frame@ == reply_frame(*ip_header, *old(tcp_header)),
        r matches Ok(frame) ==> whole_datagram(frame@),
{
    proof {
        lemma_reply_frame_whole_datagram(*ip_header, *old(tcp_header));
    }
    let no_payload: [u8; 0] = [];
    let checksum = match tcp_checksum_ipv4_raw(
        tcp_header,
        ip_header.source,
        ip_header.destination,
        &no_payload,
    ) {
        Ok(c) => c,
        Err(_) => {
            // An empty payload always fits.
            assert(false);
            return Err(PacketError::TcpPayloadTooBig);
        },
    };
    assert(no_payload@ == Seq::<u8>::empty());
    tcp_header.checksum = checksum;
    let ip = match ipv4_header_new(
        TCP_HEADER_LEN + 0,
        TTL,
        IP_PROTOCOL_TCP,
        ip_header.destination,
        ip_header.source,
    ) {
        Ok(h) => h,
        Err(_) => {
            // A 20-byte payload always fits.
            assert(false);
            return Err(PacketError::Ipv4PayloadTooBig);
        },
    };
    let mut buffer: Vec<u8> = vec![0u8, 0u8, 8u8, 0u8];
    let ip_checksum = ipv4_header_checksum(&ip);
    let mut ip_bytes = ipv4_header_to_bytes(&ip, ip_checksum);
    buffer.append(&mut ip_bytes);
    let mut tcp_bytes = tcp_header_to_bytes(tcp_header);
    buffer.append(&mut tcp_bytes);
    assert(buffer@ =~= reply_frame(*ip_header, *old(tcp_header)));
    Ok(buffer)
}

/// The SYN-ACK that answers a SYN with TCP header `tcp_header`: ports
/// swapped, sequence number `iss`, acknowledgment number one past the SYN's
/// sequence number, window 10, flags SYN and ACK.
pub open spec fn syn_ack_header(tcp_header: TcpHeaderFields, iss: u32) -> TcpHeaderFields {
    TcpHeaderFields {
        source_port: tcp_header.destination_port,
        destination_port: tcp_header.source_port,
        sequence_number: iss,
        acknowledgment_number: seq_add(tcp_header.sequence_number, 1),
        ns: false, fin: false, syn: true, rst: false, psh: false,
        ack: true, urg: false, ece: false, cwr: false,
        window_size: 10,
        checksum: 0,
        urgent_pointer: 0,
    }
}

/// Builds the SYN-ACK frame (second step of the three-way handshake) that
/// answers the SYN that came in with headers `ip_header` and `tcp_header`,
/// with initial send sequence number `iss`. The frame is always built.
pub fn send_syn_ack(ip_header: &Ipv4HeaderInfo, tcp_header: &TcpHeaderInfo, iss: u32) -> (r: Result<
    Vec<u8>,
    PacketError,
>)
    ensures
        r is Ok,
        r matches Ok(frame) ==> frame@ == reply_frame(*ip_header, syn_ack_header(tcp_header.fields, iss)),
        r matches Ok(frame) ==> whole_datagram(frame@),
{
    let mut syn_ack = tcp_header_new(
        tcp_header.fields.destination_port,
        tcp_header.fields.source_port,
        iss,
        SYN_ACK_WINDOW,
    );
    syn_ack.acknowledgment_number = tcp_header.fields.sequence_number.wrapping_add(1);
    syn_ack.sequence_number = iss;
    syn_ack.ack = true;
    syn_ack.syn = true;
    assert(syn_ack == syn_ack_header(tcp_header.fields, iss));
    send_tcp_packet(ip_header, &mut syn_ack)
}

} // verus!
