use tcp_stack::tcp::connection::Connection;
use tcp_stack::tcp::frame::{classify_frame, FrameEvent, Quad};
use tcp_stack::tcp::state::State;
use tcp_stack::tcp::stream::read_into;
use tcp_stack::tcp::table::{ConnectionTable, FrameOutcome};

fn tcp_frame(seq: u32, ack_num: u32, flags: u8, window: u16, payload: &[u8]) -> Vec<u8> {
    let total = (20 + 20 + payload.len()) as u16;
    let mut f = vec![0u8, 0, 8, 0];
    f.extend_from_slice(&[0x45, 0]);
    f.extend_from_slice(&total.to_be_bytes());
    f.extend_from_slice(&[0, 0, 0x40, 0, 64, 6, 0, 0]);
    f.extend_from_slice(&[10, 0, 0, 2]);
    f.extend_from_slice(&[10, 0, 0, 1]);
    f.extend_from_slice(&40000u16.to_be_bytes());
    f.extend_from_slice(&80u16.to_be_bytes());
    f.extend_from_slice(&seq.to_be_bytes());
    f.extend_from_slice(&ack_num.to_be_bytes());
    f.extend_from_slice(&[0x50, flags]);
    f.extend_from_slice(&window.to_be_bytes());
    f.extend_from_slice(&[0, 0, 0, 0]);
    f.extend_from_slice(payload);
    f
}

const SYN: u8 = 0x02;
const ACK: u8 = 0x10;

fn quad() -> Quad {
    Quad { src_addr: 0x0A00_0002, src_port: 40000, dst_addr: 0x0A00_0001, dst_port: 80 }
}

#[test]
fn classify_reads_a_segment() {
    let f = tcp_frame(1000, 7, SYN | ACK, 512, b"xyz");
    match classify_frame(&f) {
        FrameEvent::Segment(seg) => {
            assert_eq!(seg.quad, quad());
            assert_eq!(seg.ip.header_len, 20);
            assert_eq!(seg.ip.protocol, 6);
            assert_eq!(seg.ip.ttl, 64);
            assert_eq!(seg.ip.total_len, 43);
            assert_eq!(seg.tcp.header_len, 20);
            assert_eq!(seg.tcp.fields.sequence_number, 1000);
            assert_eq!(seg.tcp.fields.acknowledgment_number, 7);
            assert!(seg.tcp.fields.syn && seg.tcp.fields.ack);
            assert!(!seg.tcp.fields.fin && !seg.tcp.fields.rst && !seg.tcp.fields.psh);
            assert_eq!(seg.tcp.fields.window_size, 512);
            assert_eq!(&f[seg.payload_start..seg.payload_end], b"xyz");
        }
        other => panic!("unexpected {:?}", other),
    }
}

#[test]
fn classify_reads_every_flag_bit() {
    let f = tcp_frame(1, 2, 0xFF, 3, &[]);
    let mut g = f.clone();
    g[36] = 0x51;
    match classify_frame(&g) {
        FrameEvent::Segment(seg) => {
            let t = seg.tcp.fields;
            assert!(t.ns && t.fin && t.syn && t.rst && t.psh && t.ack && t.urg && t.ece && t.cwr);
        }
        other => panic!("unexpected {:?}", other),
    }
}

#[test]
fn classify_skips_options() {
    let mut f = tcp_frame(1, 2, SYN, 3, &[]);
    f[36] = 0x60; // data offset 6: four bytes of options
    f.extend_from_slice(&[1, 1, 1, 1, 9, 9]);
    match classify_frame(&f) {
        FrameEvent::Segment(seg) => {
            assert_eq!(seg.tcp.header_len, 24);
            assert_eq!(&f[seg.payload_start..seg.payload_end], &[9, 9]);
        }
        other => panic!("unexpected {:?}", other),
    }
}

#[test]
fn classify_rejects_short_or_foreign_frames() {
    assert_eq!(classify_frame(&[0, 0, 8]), FrameEvent::NotIpv4);
    let mut f = tcp_frame(1, 2, SYN, 3, &[]);
    f[2] = 0x86;
    f[3] = 0xDD;
    assert_eq!(classify_frame(&f), FrameEvent::NotIpv4);
}

#[test]
fn classify_reports_bad_ipv4_headers() {
    let mut f = tcp_frame(1, 2, SYN, 3, &[]);
    f[4] = 0x65; // version 6
    assert_eq!(classify_frame(&f), FrameEvent::Ipv4Error);
    let mut g = tcp_frame(1, 2, SYN, 3, &[]);
    g[4] = 0x44; // header length 4 words
    assert_eq!(classify_frame(&g), FrameEvent::Ipv4Error);
    assert_eq!(classify_frame(&g[..20]), FrameEvent::Ipv4Error);
}

#[test]
fn classify_skips_other_protocols() {
    let mut f = tcp_frame(1, 2, SYN, 3, &[]);
    f[13] = 17; // UDP
    assert_eq!(classify_frame(&f), FrameEvent::NotTcp);
}

#[test]
fn classify_reports_bad_tcp_headers() {
    let f = tcp_frame(1, 2, SYN, 3, &[]);
    assert_eq!(classify_frame(&f[..40]), FrameEvent::TcpError);
    let mut g = f.clone();
    g[36] = 0x40; // data offset 4
    assert_eq!(classify_frame(&g), FrameEvent::TcpError);
    let mut h = f.clone();
    h[36] = 0x70; // data offset 7, but no options follow
    assert_eq!(classify_frame(&h), FrameEvent::TcpError);
}

#[test]
fn table_opens_and_establishes_a_connection() {
    let mut table = ConnectionTable::new();
    assert_eq!(table.len(), 0);
    let syn = tcp_frame(1000, 0, SYN, 512, &[]);
    match table.handle_frame(&syn, 5000) {
        FrameOutcome::Opened(Ok(reply)) => match classify_frame(&reply) {
            FrameEvent::Segment(seg) => {
                assert_eq!(seg.tcp.fields.sequence_number, 5000);
                assert_eq!(seg.tcp.fields.acknowledgment_number, 1001);
                assert_eq!(seg.quad.dst_port, 40000);
            }
            other => panic!("unexpected {:?}", other),
        },
        other => panic!("unexpected {:?}", other),
    }
    assert_eq!(table.len(), 1);
    let c: Connection = table.get(&quad()).unwrap();
    assert_eq!(c.state, State::SynRcvd);
    let ack = tcp_frame(1001, 5001, ACK, 512, &[]);
    assert!(matches!(table.handle_frame(&ack, 1), FrameOutcome::Delivered));
    assert_eq!(table.len(), 1);
    let c = table.get(&quad()).unwrap();
    assert_eq!(c.state, State::Estab);
    assert_eq!(c.send.una, 5001);
}

#[test]
fn table_drops_stray_segments() {
    let mut table = ConnectionTable::new();
    let ack = tcp_frame(1001, 5001, ACK, 512, &[]);
    assert!(matches!(table.handle_frame(&ack, 1), FrameOutcome::Dropped));
    assert_eq!(table.len(), 0);
    assert!(table.get(&quad()).is_none());
    assert!(matches!(
        table.handle_frame(&[1, 2, 3], 1),
        FrameOutcome::NotSegment(FrameEvent::NotIpv4)
    ));
}

#[test]
fn table_on_frame_uses_the_clock() {
    let mut table = ConnectionTable::new();
    let syn = tcp_frame(1000, 0, SYN, 512, &[]);
    assert!(matches!(table.on_frame(&syn), FrameOutcome::Opened(Ok(_))));
    let c = table.get(&quad()).unwrap();
    assert_eq!(c.send.nxt, c.send.iss.wrapping_add(1));
    // A second SYN on the same quad goes to the existing connection.
    assert!(matches!(table.on_frame(&syn), FrameOutcome::Delivered));
    assert_eq!(table.len(), 1);
}

#[test]
fn read_into_copies_to_the_front() {
    let mut buf = [9u8; 6];
    let n = read_into(&mut buf, &[1, 2, 3]);
    assert_eq!(n, 3);
    assert_eq!(buf, [1, 2, 3, 9, 9, 9]);
    let n = read_into(&mut buf, &[]);
    assert_eq!(n, 0);
    assert_eq!(buf, [1, 2, 3, 9, 9, 9]);
}

#[test]
fn connection_handshake_through_frames_by_accept() {
    let syn = tcp_frame(42, 0, SYN, 100, &[]);
    let seg = match classify_frame(&syn) {
        FrameEvent::Segment(seg) => seg,
        other => panic!("unexpected {:?}", other),
    };
    let (mut c, _) = Connection::accept_with_isn(&seg.ip, &seg.tcp, 0xFFFF_FFFF).unwrap();
    let ack = tcp_frame(43, 0, ACK, 100, &[]);
    let seg = match classify_frame(&ack) {
        FrameEvent::Segment(seg) => seg,
        other => panic!("unexpected {:?}", other),
    };
    c.on_packet(&seg.tcp, &ack[seg.payload_start..seg.payload_end]);
    assert_eq!(c.state, State::Estab);
    assert_eq!(c.send.una, 0);
}
