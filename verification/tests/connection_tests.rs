use tcp_stack::tcp::connection::{is_ack_acceptable, is_segment_acceptable, Connection};
use tcp_stack::tcp::frame::{classify_frame, FrameEvent, Quad};
use tcp_stack::tcp::header::{Ipv4HeaderInfo, TcpHeaderFields, TcpHeaderInfo};
use tcp_stack::tcp::output::{send_syn_ack, send_tcp_packet};
use tcp_stack::tcp::recv::RecvSequenceSpace;
use tcp_stack::tcp::send::SendSequenceSpace;
use tcp_stack::tcp::state::State;

const CLIENT: u32 = 0xC0A8_0002; // 192.168.0.2
const SERVER: u32 = 0xC0A8_0001; // 192.168.0.1

fn fields(seq: u32, ack_num: u32, syn: bool, ack: bool, fin: bool, window: u16) -> TcpHeaderFields {
    TcpHeaderFields {
        source_port: 40000,
        destination_port: 80,
        sequence_number: seq,
        acknowledgment_number: ack_num,
        ns: false,
        fin,
        syn,
        rst: false,
        psh: false,
        ack,
        urg: false,
        ece: false,
        cwr: false,
        window_size: window,
        checksum: 0,
        urgent_pointer: 0,
    }
}

fn info(f: TcpHeaderFields) -> TcpHeaderInfo {
    TcpHeaderInfo { fields: f, header_len: 20 }
}

fn client_ip() -> Ipv4HeaderInfo {
    Ipv4HeaderInfo { header_len: 20, total_len: 40, ttl: 64, protocol: 6, source: CLIENT, destination: SERVER }
}

fn ones_complement_sum(words: &[u8]) -> u16 {
    let mut sum: u32 = 0;
    for pair in words.chunks(2) {
        let hi = pair[0] as u32;
        let lo = if pair.len() > 1 { pair[1] as u32 } else { 0 };
        sum += (hi << 8) | lo;
    }
    while sum > 0xFFFF {
        sum = (sum & 0xFFFF) + (sum >> 16);
    }
    sum as u16
}

#[test]
fn recv_sequence_space_default_is_zero() {
    let r = RecvSequenceSpace::default();
    assert_eq!(r, RecvSequenceSpace { nxt: 0, wnd: 0, up: 0, irs: 0 });
}

#[test]
fn send_sequence_space_default_is_zero() {
    let s = SendSequenceSpace::default();
    assert_eq!(s, SendSequenceSpace { una: 0, nxt: 0, wnd: 0, up: None, wl1: 0, wl2: 0, iss: 0 });
}

#[test]
fn accept_ignores_segments_without_syn() {
    let h = info(fields(1000, 0, false, true, false, 500));
    assert!(Connection::accept_with_isn(&client_ip(), &h, 77).is_none());
    assert!(Connection::accept(&client_ip(), &h).is_none());
}

#[test]
fn accept_creates_syn_received_connection() {
    let mut f = fields(1000, 0, true, false, false, 500);
    f.urgent_pointer = 3;
    let (c, frame) = Connection::accept_with_isn(&client_ip(), &info(f), 5000).unwrap();
    assert_eq!(c.state, State::SynRcvd);
    assert_eq!(
        c.send,
        SendSequenceSpace { una: 5000, nxt: 5001, wnd: 10, up: None, wl1: 0, wl2: 0, iss: 5000 }
    );
    assert_eq!(c.receive, RecvSequenceSpace { nxt: 1001, wnd: 500, up: 3, irs: 1000 });
    assert!(frame.is_ok());
}

#[test]
fn accept_wraps_sequence_numbers() {
    let f = fields(0xFFFF_FFFF, 0, true, false, false, 500);
    let (c, _) = Connection::accept_with_isn(&client_ip(), &info(f), 0xFFFF_FFFF).unwrap();
    assert_eq!(c.send.nxt, 0);
    assert_eq!(c.receive.nxt, 0);
}

#[test]
fn accept_with_clock_isn_is_consistent() {
    let f = fields(1000, 0, true, false, false, 500);
    let (c, frame) = Connection::accept(&client_ip(), &info(f)).unwrap();
    assert_eq!(c.state, State::SynRcvd);
    assert_eq!(c.send.una, c.send.iss);
    assert_eq!(c.send.nxt, c.send.iss.wrapping_add(1));
    let frame = frame.unwrap();
    match classify_frame(&frame) {
        FrameEvent::Segment(seg) => assert_eq!(seg.tcp.fields.sequence_number, c.send.iss),
        other => panic!("unexpected {:?}", other),
    }
}

#[test]
fn syn_ack_frame_answers_the_syn() {
    let f = fields(1000, 0, true, false, false, 500);
    let frame = send_syn_ack(&client_ip(), &info(f), 5000).unwrap();
    assert_eq!(frame.len(), 44);
    assert_eq!(&frame[0..4], &[0, 0, 8, 0]);
    match classify_frame(&frame) {
        FrameEvent::Segment(seg) => {
            assert_eq!(
                seg.quad,
                Quad { src_addr: SERVER, src_port: 80, dst_addr: CLIENT, dst_port: 40000 }
            );
            assert_eq!(seg.ip.ttl, 64);
            assert_eq!(seg.ip.total_len, 40);
            let t = seg.tcp.fields;
            assert!(t.syn && t.ack && !t.fin && !t.rst);
            assert_eq!(t.sequence_number, 5000);
            assert_eq!(t.acknowledgment_number, 1001);
            assert_eq!(t.window_size, 10);
            assert_eq!(seg.payload_start, 44);
            assert_eq!(seg.payload_end, 44);
        }
        other => panic!("unexpected {:?}", other),
    }
    // The IPv4 header checksum is valid.
    assert_eq!(ones_complement_sum(&frame[4..24]), 0xFFFF);
    // The TCP checksum is valid over the pseudo header.
    let mut pseudo: Vec<u8> = Vec::new();
    pseudo.extend_from_slice(&frame[16..24]);
    pseudo.extend_from_slice(&[0, 6, 0, 20]);
    pseudo.extend_from_slice(&frame[24..44]);
    assert_eq!(ones_complement_sum(&pseudo), 0xFFFF);
}

#[test]
fn send_tcp_packet_sets_the_checksum() {
    let mut h = fields(7, 9, false, true, false, 100);
    let frame = send_tcp_packet(&client_ip(), &mut h).unwrap();
    assert_ne!(h.checksum, 0);
    assert_eq!(u16::from_be_bytes([frame[40], frame[41]]), h.checksum);
    // Source and destination are swapped in the reply.
    assert_eq!(u32::from_be_bytes([frame[16], frame[17], frame[18], frame[19]]), SERVER);
    assert_eq!(u32::from_be_bytes([frame[20], frame[21], frame[22], frame[23]]), CLIENT);
    assert_eq!(frame[4], 0x45);
    assert_eq!(frame[13], 6);
}

fn syn_received() -> Connection {
    let f = fields(1000, 0, true, false, false, 500);
    Connection::accept_with_isn(&client_ip(), &info(f), 5000).unwrap().0
}

#[test]
fn handshake_completes_on_ack_of_syn_ack() {
    let mut c = syn_received();
    c.on_packet(&info(fields(1001, 5001, false, true, false, 500)), &[]);
    assert_eq!(c.state, State::Estab);
    assert_eq!(c.send.una, 5001);
    assert_eq!(c.receive, RecvSequenceSpace { nxt: 1001, wnd: 500, up: 0, irs: 1000 });
}

#[test]
fn handshake_completes_with_data_on_the_ack() {
    let mut c = syn_received();
    c.on_packet(&info(fields(1001, 5001, false, true, false, 500)), b"hello");
    assert_eq!(c.state, State::Estab);
}

#[test]
fn unacceptable_ack_changes_nothing() {
    let mut c = syn_received();
    let before = c;
    // SEG.ACK = SND.UNA is not acceptable.
    c.on_packet(&info(fields(1001, 5000, false, true, false, 500)), &[]);
    assert_eq!(c, before);
    // SEG.ACK beyond SND.NXT is not acceptable.
    c.on_packet(&info(fields(1001, 5002, false, true, false, 500)), &[]);
    assert_eq!(c, before);
}

#[test]
fn segment_outside_window_changes_nothing() {
    let mut c = syn_received();
    let before = c;
    c.on_packet(&info(fields(3000, 5001, false, true, false, 500)), &[]);
    assert_eq!(c, before);
    c.on_packet(&info(fields(900, 5001, false, true, false, 500)), b"ab");
    assert_eq!(c, before);
}

#[test]
fn ack_flag_is_needed_to_complete_handshake() {
    let mut c = syn_received();
    let before = c;
    c.on_packet(&info(fields(1001, 5001, false, false, false, 500)), &[]);
    assert_eq!(c, before);
}

#[test]
fn established_connection_ignores_segments() {
    let mut c = syn_received();
    c.on_packet(&info(fields(1001, 5001, false, true, false, 500)), &[]);
    let est = c;
    c.on_packet(&info(fields(1001, 5001, false, true, false, 500)), &[]);
    assert_eq!(c, est);
}

#[test]
fn ack_acceptability_is_una_lt_ack_le_nxt() {
    let s = SendSequenceSpace { una: 10, nxt: 20, wnd: 0, up: None, wl1: 0, wl2: 0, iss: 10 };
    assert!(!is_ack_acceptable(&s, 10));
    assert!(is_ack_acceptable(&s, 11));
    assert!(is_ack_acceptable(&s, 20));
    assert!(!is_ack_acceptable(&s, 21));
    let w = SendSequenceSpace { una: 0xFFFF_FFFE, nxt: 3, ..s };
    assert!(is_ack_acceptable(&w, 0xFFFF_FFFF));
    assert!(is_ack_acceptable(&w, 0));
    assert!(!is_ack_acceptable(&w, 4));
}

#[test]
fn segment_acceptability_table() {
    let closed = RecvSequenceSpace { nxt: 100, wnd: 0, up: 0, irs: 99 };
    let open = RecvSequenceSpace { nxt: 100, wnd: 10, up: 0, irs: 99 };
    // SEG.LEN = 0, RCV.WND = 0
    assert!(is_segment_acceptable(&closed, &fields(100, 0, false, true, false, 1), 0));
    assert!(!is_segment_acceptable(&closed, &fields(101, 0, false, true, false, 1), 0));
    // SEG.LEN = 0, RCV.WND > 0
    assert!(is_segment_acceptable(&open, &fields(100, 0, false, true, false, 1), 0));
    assert!(is_segment_acceptable(&open, &fields(109, 0, false, true, false, 1), 0));
    assert!(!is_segment_acceptable(&open, &fields(110, 0, false, true, false, 1), 0));
    assert!(!is_segment_acceptable(&open, &fields(99, 0, false, true, false, 1), 0));
    // SEG.LEN > 0, RCV.WND = 0
    assert!(!is_segment_acceptable(&closed, &fields(100, 0, false, true, false, 1), 5));
    assert!(!is_segment_acceptable(&closed, &fields(100, 0, true, false, false, 1), 0));
    // SEG.LEN > 0, RCV.WND > 0: start in the window
    assert!(is_segment_acceptable(&open, &fields(105, 0, false, true, false, 1), 20));
    // end in the window
    assert!(is_segment_acceptable(&open, &fields(95, 0, false, true, false, 1), 6));
    assert!(!is_segment_acceptable(&open, &fields(95, 0, false, true, false, 1), 5));
    // a FIN counts as one number: the segment then ends in the window
    assert!(is_segment_acceptable(&open, &fields(95, 0, false, true, true, 1), 5));
    // neither end in the window
    assert!(!is_segment_acceptable(&open, &fields(110, 0, false, true, false, 1), 3));
}

#[test]
fn segment_acceptability_wraps_around() {
    let open = RecvSequenceSpace { nxt: 0xFFFF_FFFC, wnd: 10, up: 0, irs: 0 };
    assert!(is_segment_acceptable(&open, &fields(2, 0, false, true, false, 1), 0));
    assert!(!is_segment_acceptable(&open, &fields(6, 0, false, true, false, 1), 0));
    assert!(is_segment_acceptable(&open, &fields(0xFFFF_FFF0, 0, false, true, false, 1), 13));
}

#[test]
fn reply_frame_decodes_to_the_header_it_was_built_from() {
    let mut h = TcpHeaderFields {
        source_port: 1234,
        destination_port: 4321,
        sequence_number: 0xDEAD_BEEF,
        acknowledgment_number: 0x0102_0304,
        ns: true,
        fin: true,
        syn: false,
        rst: true,
        psh: false,
        ack: true,
        urg: false,
        ece: true,
        cwr: false,
        window_size: 0xABCD,
        checksum: 0,
        urgent_pointer: 0x0F0F,
    };
    let frame = send_tcp_packet(&client_ip(), &mut h).unwrap();
    match classify_frame(&frame) {
        FrameEvent::Segment(seg) => {
            assert_eq!(seg.tcp.fields, h);
            assert_eq!(seg.tcp.header_len, 20);
            assert_eq!(seg.ip.source, SERVER);
            assert_eq!(seg.ip.destination, CLIENT);
            assert_eq!(seg.payload_start, seg.payload_end);
        }
        other => panic!("unexpected {:?}", other),
    }
}

#[test]
fn segments_keep_una_at_most_nxt() {
    let mut c = syn_received();
    assert!(tcp_stack::util::seq::seq_le(c.send.una, c.send.nxt));
    for (seq, ack_num) in [(1001u32, 5001u32), (1001, 5000), (5, 9), (1001, 5001)] {
        c.on_packet(&info(fields(seq, ack_num, false, true, false, 500)), &[]);
        assert!(tcp_stack::util::seq::seq_le(c.send.una, c.send.nxt));
    }
}
