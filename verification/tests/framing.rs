use loadbench::frame::{append_frame, take_frame, FrameTake, MAX_FRAME_BYTES};
use loadbench::packet::{ClientWorkPacket, ServerWorkPacket, Work};
use loadbench::protocol::{ClientWorkPacketConn, RecvError, ServerWorkPacketConn};
use loadbench::wire::{read_be_u64, write_be_u64};

#[test]
fn be_bytes_exact_value() {
    let mut out: Vec<u8> = Vec::new();
    write_be_u64(&mut out, 0x0102030405060708);
    assert_eq!(out, vec![1, 2, 3, 4, 5, 6, 7, 8]);
    assert_eq!(read_be_u64(&out, 0), 0x0102030405060708);
}

#[test]
fn frame_round_trip() {
    let payload = vec![10u8, 20, 30];
    let mut wire: Vec<u8> = Vec::new();
    assert!(append_frame(&mut wire, &payload));
    assert_eq!(wire.len(), 8 + 3);
    assert_eq!(&wire[..8], &[0, 0, 0, 0, 0, 0, 0, 3]);
    match take_frame(&mut wire) {
        FrameTake::Payload(p) => assert_eq!(p, payload),
        _ => panic!("expected a whole frame"),
    }
    assert!(wire.is_empty());
}

#[test]
fn append_frame_refuses_empty_payload() {
    let empty: Vec<u8> = Vec::new();
    let mut wire = vec![9u8];
    assert!(!append_frame(&mut wire, &empty));
    assert_eq!(wire, vec![9u8]);
}

#[test]
fn append_frame_refuses_oversize_payload() {
    let big = vec![0u8; MAX_FRAME_BYTES as usize + 1];
    let mut wire: Vec<u8> = Vec::new();
    assert!(!append_frame(&mut wire, &big));
    assert!(wire.is_empty());
}

#[test]
fn take_frame_rejects_zero_length_without_reading_body() {
    // A zero length prefix followed by stray bytes: refused, nothing consumed.
    let mut wire = vec![0u8, 0, 0, 0, 0, 0, 0, 0, 42, 43];
    let before = wire.clone();
    assert!(matches!(take_frame(&mut wire), FrameTake::BadLength));
    assert_eq!(wire, before);
}

#[test]
fn take_frame_rejects_over_limit_length_without_reading_body() {
    let mut wire: Vec<u8> = Vec::new();
    write_be_u64(&mut wire, MAX_FRAME_BYTES + 1);
    wire.push(1);
    let before = wire.clone();
    assert!(matches!(take_frame(&mut wire), FrameTake::BadLength));
    assert_eq!(wire, before);
}

#[test]
fn take_frame_waits_for_header() {
    let mut wire = vec![0u8, 0, 0];
    assert!(matches!(take_frame(&mut wire), FrameTake::NeedMore));
    assert_eq!(wire, vec![0u8, 0, 0]);
}

#[test]
fn take_frame_waits_for_body() {
    let mut wire: Vec<u8> = Vec::new();
    write_be_u64(&mut wire, 4);
    wire.push(7);
    let before = wire.clone();
    assert!(matches!(take_frame(&mut wire), FrameTake::NeedMore));
    assert_eq!(wire, before);
}

#[test]
fn work_msg_round_trip() {
    // Encode then decode through the framed channel: the value comes back.
    let packet = ClientWorkPacket::new(0xdead_beef, 123_456, Work { param: 7 });
    let mut sender = ClientWorkPacketConn::new();
    sender.send_work_msg(packet);
    let bytes = sender.take_outgoing();
    assert!(sender.outgoing.is_empty());

    let mut receiver = ClientWorkPacketConn::new();
    receiver.feed_incoming(&bytes);
    let got = receiver.recv_work_msg().expect("a whole frame was delivered");
    assert_eq!(got, packet);
    assert!(receiver.incoming.is_empty());
}

#[test]
fn response_msg_round_trip() {
    let packet = ServerWorkPacket { send_ts: 55, processing_time: 10, result: 99 };
    let mut sender = ServerWorkPacketConn::new();
    sender.send_work_msg(packet);
    let bytes = sender.take_outgoing();

    let mut receiver = ServerWorkPacketConn::new();
    receiver.feed_incoming(&bytes);
    let got = receiver.recv_work_msg().expect("a whole frame was delivered");
    assert_eq!(got, packet);
}

#[test]
fn recv_reports_protocol_error_and_reads_no_body() {
    let mut conn = ClientWorkPacketConn::new();
    let mut header_and_junk: Vec<u8> = Vec::new();
    write_be_u64(&mut header_and_junk, 0);
    header_and_junk.push(1);
    conn.feed_incoming(&header_and_junk);
    assert_eq!(conn.recv_work_msg(), Err(RecvError::Protocol));
    // Nothing was consumed: the body behind a refused prefix is never read.
    assert_eq!(conn.incoming, header_and_junk);
}

#[test]
fn recv_needs_more_data_on_partial_frame() {
    let mut conn = ServerWorkPacketConn::new();
    let partial = vec![0u8, 0, 0];
    conn.feed_incoming(&partial);
    assert_eq!(conn.recv_work_msg(), Err(RecvError::NeedMoreData));
    assert_eq!(conn.incoming, partial);
}

#[test]
fn recv_reports_malformed_packet() {
    // A sound frame whose payload is not a 24-byte packet image.
    let mut conn = ClientWorkPacketConn::new();
    let mut wire: Vec<u8> = Vec::new();
    let stray = vec![1u8, 2, 3];
    assert!(append_frame(&mut wire, &stray));
    conn.feed_incoming(&wire);
    assert_eq!(conn.recv_work_msg(), Err(RecvError::Malformed));
    // The malformed frame was consumed; the stream is positioned after it.
    assert!(conn.incoming.is_empty());
}

#[test]
fn two_frames_parse_in_order() {
    let first = ClientWorkPacket::new(1, 10, Work { param: 0 });
    let second = ClientWorkPacket::new(2, 20, Work { param: 1 });
    let mut sender = ClientWorkPacketConn::new();
    sender.send_work_msg(first);
    sender.send_work_msg(second);
    let bytes = sender.take_outgoing();

    let mut receiver = ClientWorkPacketConn::new();
    receiver.feed_incoming(&bytes);
    assert_eq!(receiver.recv_work_msg(), Ok(first));
    assert_eq!(receiver.recv_work_msg(), Ok(second));
    assert_eq!(receiver.recv_work_msg(), Err(RecvError::NeedMoreData));
}
