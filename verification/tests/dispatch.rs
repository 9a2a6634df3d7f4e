use usertcp::conn::State;
use usertcp::segment::Quad;
use usertcp::table::{ConnectionTable, FrameDisposition};

const CLIENT: [u8; 4] = [10, 0, 0, 2];
const SERVER: [u8; 4] = [10, 0, 0, 1];

/// A raw TCP-in-IPv4 frame, built with the same external codec the
/// library's trusted boundary relies on.
fn tcp_frame(
    src: [u8; 4],
    dst: [u8; 4],
    src_port: u16,
    dst_port: u16,
    seq: u32,
    ack_no: u32,
    syn: bool,
    ack: bool,
) -> Vec<u8> {
    let mut tcp = etherparse::TcpHeader::new(src_port, dst_port, seq, 4096);
    tcp.acknowledgment_number = ack_no;
    tcp.syn = syn;
    tcp.ack = ack;
    let ip = etherparse::Ipv4Header::new(
        tcp.header_len_u16(),
        64,
        etherparse::IpNumber::TCP,
        src,
        dst,
    )
    .unwrap();
    let mut bytes = Vec::new();
    ip.write(&mut bytes).unwrap();
    tcp.write(&mut bytes).unwrap();
    bytes
}

fn client_quad() -> Quad {
    Quad {
        src_addr: u32::from_be_bytes(CLIENT),
        src_port: 5000,
        dst_addr: u32::from_be_bytes(SERVER),
        dst_port: 80,
    }
}

fn reply_bytes(d: FrameDisposition) -> Vec<u8> {
    match d {
        FrameDisposition::Reply(v) => v,
        other => panic!("expected a reply frame, got {:?}", other),
    }
}

#[test]
fn syn_creates_connection_and_emits_syn_ack() {
    let mut table = ConnectionTable::new();
    let frame = tcp_frame(CLIENT, SERVER, 5000, 80, 100, 0, true, false);
    let reply = reply_bytes(table.handle_frame(&frame));
    assert_eq!(table.len(), 1);
    assert!(table.contains(&client_quad()));
    let conn = table.get(&client_quad()).unwrap();
    assert_eq!(conn.state, State::SynReceived);
    assert_eq!(conn.recv.irs, 100);
    assert_eq!(conn.recv.nxt, 101);

    // The emitted frame must decode as a valid SYN/ACK going back.
    let ip_h = etherparse::Ipv4HeaderSlice::from_slice(&reply).expect("reply must be valid IPv4");
    assert_eq!(ip_h.source(), SERVER);
    assert_eq!(ip_h.destination(), CLIENT);
    assert_eq!(ip_h.protocol(), etherparse::IpNumber::TCP);
    assert_eq!(ip_h.ttl(), 64);
    let tcp_h = etherparse::TcpHeaderSlice::from_slice(&reply[ip_h.slice().len()..])
        .expect("reply must carry a valid TCP header");
    assert!(tcp_h.syn());
    assert!(tcp_h.ack());
    assert_eq!(tcp_h.source_port(), 80);
    assert_eq!(tcp_h.destination_port(), 5000);
    assert_eq!(tcp_h.sequence_number(), 0);
    assert_eq!(tcp_h.acknowledgment_number(), 101);
    assert_eq!(tcp_h.window_size(), 1024);
}

#[test]
fn ack_completes_handshake_through_the_table() {
    let mut table = ConnectionTable::new();
    let syn = tcp_frame(CLIENT, SERVER, 5000, 80, 100, 0, true, false);
    assert!(matches!(table.handle_frame(&syn), FrameDisposition::Reply(_)));
    let ack = tcp_frame(CLIENT, SERVER, 5000, 80, 101, 1, false, true);
    assert!(matches!(table.handle_frame(&ack), FrameDisposition::Silent));
    assert_eq!(table.len(), 1);
    let conn = table.get(&client_quad()).unwrap();
    assert_eq!(conn.state, State::Established);
}

#[test]
fn pure_ack_to_unknown_flow_is_a_noop() {
    let mut table = ConnectionTable::new();
    let ack = tcp_frame(CLIENT, SERVER, 5000, 80, 101, 1, false, true);
    assert!(matches!(table.handle_frame(&ack), FrameDisposition::Silent));
    assert_eq!(table.len(), 0);
    assert!(!table.contains(&client_quad()));
}

#[test]
fn duplicate_syn_does_not_reset_the_flow() {
    let mut table = ConnectionTable::new();
    let syn = tcp_frame(CLIENT, SERVER, 5000, 80, 100, 0, true, false);
    assert!(matches!(table.handle_frame(&syn), FrameDisposition::Reply(_)));
    // The flow is known now, so the repeated SYN goes to the existing
    // connection; its acknowledgment number 0 fails the acceptability
    // test and the segment is dropped without a reply.
    assert!(matches!(table.handle_frame(&syn), FrameDisposition::Silent));
    assert_eq!(table.len(), 1);
    let conn = table.get(&client_quad()).unwrap();
    assert_eq!(conn.state, State::SynReceived);
}

#[test]
fn malformed_frame_discard_is_idempotent() {
    let mut table = ConnectionTable::new();
    let garbage = vec![0xde, 0xad, 0xbe, 0xef, 0x00, 0x01, 0x02];
    // The same malformed bytes meet the same fate every time: discarded,
    // no entry created, no reply sent.
    for _ in 0..3 {
        assert!(matches!(table.handle_frame(&garbage), FrameDisposition::Discarded));
        assert_eq!(table.len(), 0);
    }
    assert!(matches!(table.handle_frame(&[]), FrameDisposition::Discarded));
    assert_eq!(table.len(), 0);
}

#[test]
fn truncated_tcp_header_is_discarded() {
    let mut table = ConnectionTable::new();
    // A valid IPv4 header announcing TCP, followed by too few bytes to
    // form a TCP header.
    let ip = etherparse::Ipv4Header::new(8, 64, etherparse::IpNumber::TCP, CLIENT, SERVER).unwrap();
    let mut frame = Vec::new();
    ip.write(&mut frame).unwrap();
    frame.extend_from_slice(&[0u8; 8]);
    assert!(matches!(table.handle_frame(&frame), FrameDisposition::Discarded));
    assert_eq!(table.len(), 0);
}

#[test]
fn non_tcp_protocol_is_silently_skipped() {
    let mut table = ConnectionTable::new();
    let ip = etherparse::Ipv4Header::new(4, 64, etherparse::IpNumber::UDP, CLIENT, SERVER).unwrap();
    let mut frame = Vec::new();
    ip.write(&mut frame).unwrap();
    frame.extend_from_slice(&[0u8; 4]);
    // Not a decode failure: another protocol is a defined no-op.
    assert!(matches!(table.handle_frame(&frame), FrameDisposition::Silent));
    assert_eq!(table.len(), 0);
}

#[test]
fn prefixed_ipv4_frame_is_unwrapped() {
    let mut table = ConnectionTable::new();
    let mut frame = vec![0x00, 0x00, 0x08, 0x00];
    frame.extend_from_slice(&tcp_frame(CLIENT, SERVER, 5000, 80, 100, 0, true, false));
    assert!(matches!(table.handle_prefixed_frame(&frame), FrameDisposition::Reply(_)));
    assert_eq!(table.len(), 1);
    assert!(table.contains(&client_quad()));
}

#[test]
fn prefixed_non_ipv4_frame_is_skipped() {
    let mut table = ConnectionTable::new();
    // 0x86DD marks IPv6: not for this endpoint, and not a decode failure.
    let mut frame = vec![0x00, 0x00, 0x86, 0xDD];
    frame.extend_from_slice(&tcp_frame(CLIENT, SERVER, 5000, 80, 100, 0, true, false));
    assert!(matches!(table.handle_prefixed_frame(&frame), FrameDisposition::Silent));
    assert_eq!(table.len(), 0);
    // Shorter than the prefix itself: skipped as well.
    assert!(matches!(table.handle_prefixed_frame(&[0x00, 0x00]), FrameDisposition::Silent));
    assert_eq!(table.len(), 0);
}

#[test]
fn two_flows_are_kept_apart() {
    let mut table = ConnectionTable::new();
    let syn_a = tcp_frame(CLIENT, SERVER, 5000, 80, 100, 0, true, false);
    let syn_b = tcp_frame(CLIENT, SERVER, 5001, 80, 400, 0, true, false);
    assert!(matches!(table.handle_frame(&syn_a), FrameDisposition::Reply(_)));
    assert!(matches!(table.handle_frame(&syn_b), FrameDisposition::Reply(_)));
    assert_eq!(table.len(), 2);
    // Completing the first handshake leaves the second flow untouched.
    let ack_a = tcp_frame(CLIENT, SERVER, 5000, 80, 101, 1, false, true);
    assert!(matches!(table.handle_frame(&ack_a), FrameDisposition::Silent));
    assert_eq!(table.get(&client_quad()).unwrap().state, State::Established);
    let quad_b = Quad { src_port: 5001, ..client_quad() };
    assert_eq!(table.get(&quad_b).unwrap().state, State::SynReceived);
    assert_eq!(table.get(&quad_b).unwrap().recv.irs, 400);
}
