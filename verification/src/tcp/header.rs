//! The TCP and IPv4 header fields that the stack reads and writes, how they
//! sit in the bytes of a header, and the decoding of headers by `etherparse`.
use vstd::prelude::*;

verus! {

/// The fixed part of a TCP header (RFC 793, section 3.1), without options.
#[derive(Debug, Copy, Clone, PartialEq, Eq, Structural)]
pub struct TcpHeaderFields {
    pub source_port: u16,
    pub destination_port: u16,
    pub sequence_number: u32,
    pub acknowledgment_number: u32,
    pub ns: bool,
    pub fin: bool,
    pub syn: bool,
    pub rst: bool,
    pub psh: bool,
    pub ack: bool,
    pub urg: bool,
    pub ece: bool,
    pub cwr: bool,
    pub window_size: u16,
    pub checksum: u16,
    pub urgent_pointer: u16,
}

/// A decoded TCP header and its length in bytes, options included.
#[derive(Debug, Copy, Clone, PartialEq, Eq, Structural)]
pub struct TcpHeaderInfo {
    pub fields: TcpHeaderFields,
    pub header_len: usize,
}

/// What the stack reads of a decoded IPv4 header; addresses are the four
/// address bytes read as one big-endian number.
#[derive(Debug, Copy, Clone, PartialEq, Eq, Structural)]
pub struct Ipv4HeaderInfo {
    pub header_len: usize,
    pub total_len: u16,
    pub ttl: u8,
    pub protocol: u8,
    pub source: u32,
    pub destination: u32,
}

/// The big-endian 16-bit number in bytes `i` and `i + 1` of `s`.
pub open spec fn be16(s: Seq<u8>, i: int) -> u16 {
    (s[i] * 0x100 + s[i + 1]) as u16
}

/// The big-endian 32-bit number in bytes `i` to `i + 3` of `s`.
pub open spec fn be32(s: Seq<u8>, i: int) -> u32 {
    (s[i] * 0x100_0000 + s[i + 1] * 0x1_0000 + s[i + 2] * 0x100 + s[i + 3]) as u32
}

/// The bit of byte `b` of value `weight` (1, 2, 4, .. or 128) is set.
pub open spec fn bit(b: u8, weight: int) -> bool {
    (b as int / weight) % 2 == 1
}

/// The TCP data offset: the header length in 32-bit words, the upper four
/// bits of byte 12.
pub open spec fn tcp_data_offset(s: Seq<u8>) -> int {
    s[12] as int / 16
}

/// A TCP header can be read from the start of `s`: `s` holds the 20 fixed
/// bytes, the data offset is at least 5, and `s` holds the whole header.
pub open spec fn tcp_header_parses(s: Seq<u8>) -> bool {
    &&& s.len() >= 20
    &&& tcp_data_offset(s) >= 5
    &&& s.len() >= tcp_data_offset(s) * 4
}

/// The fields of the TCP header at the start of `s` (RFC 793, section 3.1).
pub open spec fn tcp_fields_of(s: Seq<u8>) -> TcpHeaderFields {
    TcpHeaderFields {
        source_port: be16(s, 0),
        destination_port: be16(s, 2),
        sequence_number: be32(s, 4),
        acknowledgment_number: be32(s, 8),
        ns: bit(s[12], 1),
        fin: bit(s[13], 1),
        syn: bit(s[13], 2),
        rst: bit(s[13], 4),
        psh: bit(s[13], 8),
        ack: bit(s[13], 16),
        urg: bit(s[13], 32),
        ece: bit(s[13], 64),
        cwr: bit(s[13], 128),
        window_size: be16(s, 14),
        checksum: be16(s, 16),
        urgent_pointer: be16(s, 18),
    }
}

/// The decoded TCP header at the start of `s`.
pub open spec fn tcp_header_of(s: Seq<u8>) -> TcpHeaderInfo {
    TcpHeaderInfo { fields: tcp_fields_of(s), header_len: (tcp_data_offset(s) * 4) as usize }
}

/// The IPv4 internet header length, in 32-bit words: the low four bits of
/// byte 0.
pub open spec fn ipv4_ihl(s: Seq<u8>) -> int {
    s[0] as int % 16
}

/// An IPv4 header can be read from the start of `s`: `s` holds the 20 fixed
/// bytes, the version (upper four bits of byte 0) is 4, the header length is
/// at least 5 words, and `s` holds the whole header.
pub open spec fn ipv4_header_parses(s: Seq<u8>) -> bool {
    &&& s.len() >= 20
    &&& s[0] as int / 16 == 4
    &&& ipv4_ihl(s) >= 5
    &&& s.len() >= ipv4_ihl(s) * 4
}

/// The decoded IPv4 header at the start of `s` (RFC 791, section 3.1).
pub open spec fn ipv4_header_of(s: Seq<u8>) -> Ipv4HeaderInfo {
    Ipv4HeaderInfo {
        header_len: (ipv4_ihl(s) * 4) as usize,
        total_len: be16(s, 2),
        ttl: s[8],
        protocol: s[9],
        source: be32(s, 12),
        destination: be32(s, 16),
    }
}

/// The error `etherparse` reports for a TCP header it cannot read.
#[verifier::external_type_specification]
#[verifier::external_body]
pub struct ExTcpHeaderSliceError(etherparse::err::tcp::HeaderSliceError);

/// The error `etherparse` reports for an IPv4 header it cannot read.
#[verifier::external_type_specification]
#[verifier::external_body]
pub struct ExIpv4HeaderSliceError(etherparse::err::ipv4::HeaderSliceError);

/// Calls `etherparse::TcpHeaderSlice::from_slice` and reads the fields of the
/// header it finds. Claimed, as the crate's source shows: it fails exactly
/// when the slice is shorter than 20 bytes, the data offset is below 5, or
/// the slice is shorter than the data offset says; otherwise the fields are
/// the big-endian numbers and flag bits at their RFC 793 positions and the
/// header length is four times the data offset.
#[verifier::external_body]
pub(crate) fn tcp_header_from_slice(slice: &[u8]) -> (r: Result<
    TcpHeaderInfo,
    etherparse::err::tcp::HeaderSliceError,
>)
    ensures
        r is Ok <==> tcp_header_parses(slice@),
        r matches Ok(h) ==> h == tcp_header_of(slice@),
{
    let h = etherparse::TcpHeaderSlice::from_slice(slice)?;
    let fields = TcpHeaderFields {
        source_port: h.source_port(), destination_port: h.destination_port(),
        sequence_number: h.sequence_number(), acknowledgment_number: h.acknowledgment_number(),
        ns: h.ns(), fin: h.fin(), syn: h.syn(), rst: h.rst(), psh: h.psh(), ack: h.ack(),
        urg: h.urg(), ece: h.ece(), cwr: h.cwr(), window_size: h.window_size(),
        checksum: h.checksum(), urgent_pointer: h.urgent_pointer(),
    };
    Ok(TcpHeaderInfo { fields, header_len: h.slice().len() })
}

/// Calls `etherparse::Ipv4HeaderSlice::from_slice` and reads the fields the
/// stack uses. Claimed, as the crate's source shows: it fails exactly when the
/// slice is shorter than 20 bytes, the version is not 4, the header length is
/// below 5 words, or the slice is shorter than the header length; otherwise
/// the fields are those at their RFC 791 positions.
#[verifier::external_body]
pub(crate) fn ipv4_header_from_slice(slice: &[u8]) -> (r: Result<
    Ipv4HeaderInfo,
    etherparse::err::ipv4::HeaderSliceError,
>)
    ensures
        r is Ok <==> ipv4_header_parses(slice@),
        r matches Ok(h) ==> h == ipv4_header_of(slice@),
{
    let h = etherparse::Ipv4HeaderSlice::from_slice(slice)?;
    Ok(Ipv4HeaderInfo {
        header_len: h.slice().len(), total_len: h.total_len(), ttl: h.ttl(),
        protocol: h.protocol().0, source: u32::from_be_bytes(h.source()),
        destination: u32::from_be_bytes(h.destination()),
    })
}

} // verus!
