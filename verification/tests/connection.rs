use nekoshare_transport::config::TransferConfig;
use nekoshare_transport::connection::{
    frame_body_length, AfterWrite, Connection, ConnectionState, Incoming, OutgoingPacket,
    RequestOutcome, SendOutcome, UserInfo, WriteStep,
};
use nekoshare_transport::error::SocketError;
use nekoshare_transport::protocol::{decode_frame, encode_frame, PacketType, MAX_PAYLOAD_SIZE};
use nekoshare_transport::session::SessionHandle;

type Conn = Connection<&'static str, u32>;

fn config(capacity: usize, permits: usize, threshold: usize) -> TransferConfig {
    TransferConfig {
        outgoing_channel_size: capacity,
        max_in_flight_chunks: permits,
        flush_threshold: threshold,
        ..TransferConfig::lan_optimized()
    }
}

fn connection() -> Conn {
    Connection::new("c-1".to_string(), TransferConfig::lan_optimized())
}

fn written(c: &mut Conn) -> Vec<u8> {
    match c.next_outgoing() {
        WriteStep::Write { data } => data,
        WriteStep::Busy => panic!("busy"),
        WriteStep::Idle { .. } => panic!("idle"),
        WriteStep::Finish => panic!("finish"),
    }
}

#[test]
fn a_new_connection_is_connected() {
    let c = connection();
    assert_eq!(c.id(), "c-1");
    assert_eq!(c.state(), ConnectionState::Connected);
    assert!(!c.is_authenticated());
    assert!(!c.is_closing());
    assert!(c.should_read());
    assert!(c.user().is_none());
    assert!(!c.flush_due());
}

#[test]
fn request_ids_count_up_from_one() {
    let mut c = connection();
    assert_eq!(c.next_request_id(), 1);
    assert_eq!(c.next_request_id(), 2);
    assert_eq!(c.next_request_id(), 3);
    let (id, outcome) = c.send_packet(PacketType::TextMessage, &[1]).unwrap();
    assert_eq!(id, 4);
    assert_eq!(outcome, SendOutcome::Queued);
    assert_eq!(c.next_request_id(), 5);
}

#[test]
fn request_ids_of_one_connection_differ() {
    let mut c = connection();
    let mut seen = std::collections::HashSet::new();
    for _ in 0..10_000 {
        assert!(seen.insert(c.next_request_id()));
    }
}

#[test]
fn authentication_sets_user_and_state() {
    let mut c = connection();
    c.set_authenticated(UserInfo { id: "u1".into(), name: "Ann".into() });
    assert_eq!(c.state(), ConnectionState::Authenticated);
    assert!(c.is_authenticated());
    let user = c.user().unwrap();
    assert_eq!(user.id, "u1");
    assert_eq!(user.name, "Ann");
    let user = UserInfo::default();
    assert_eq!(user.id, "");
    assert_eq!(user.name, "");
}

#[test]
fn closing_is_final() {
    let mut c = connection();
    c.close_after_flush();
    assert_eq!(c.state(), ConnectionState::Closing);
    c.set_authenticated(UserInfo { id: "u".into(), name: "n".into() });
    assert_eq!(c.state(), ConnectionState::Closing);
    assert!(!c.is_authenticated());
    assert!(c.user().is_some());
    c.close();
    assert_eq!(c.state(), ConnectionState::Closing);
    c.begin_send_batch();
    c.end_send_batch_and_maybe_close();
    assert_eq!(c.state(), ConnectionState::Closing);
    assert!(c.is_closing());
}

#[test]
fn sends_are_written_in_order() {
    let mut c = connection();
    let mut expected = Vec::new();
    for i in 0..20u8 {
        let packet_type = if i % 3 == 0 { PacketType::FileChunk } else { PacketType::TextMessage };
        let payload = vec![i; i as usize];
        let (id, outcome) = c.send_packet(packet_type, &payload).unwrap();
        assert_eq!(outcome, SendOutcome::Queued);
        expected.push(encode_frame(packet_type, id, &payload).unwrap());
        if i % 4 == 3 {
            // The write loop catches up in between.
            while let WriteStep::Write { data } = c.next_outgoing() {
                assert_eq!(data, expected.remove(0));
                assert_eq!(c.write_completed(true), AfterWrite::Continue);
            }
        }
    }
    while let WriteStep::Write { data } = c.next_outgoing() {
        assert_eq!(data, expected.remove(0));
        assert_eq!(c.write_completed(true), AfterWrite::Continue);
    }
    assert!(expected.is_empty());
    assert!(matches!(c.next_outgoing(), WriteStep::Idle { flush_pending: true }));
}

#[test]
fn send_with_a_given_id_frames_the_packet() {
    let mut c = connection();
    assert_eq!(c.send_packet_with_id(PacketType::FileFinish, 42, &[3, 0, 97, 98, 99]).unwrap(), SendOutcome::Queued);
    assert_eq!(c.send_raw(PacketType::Ack, -1, &[]).unwrap(), SendOutcome::Queued);
    assert_eq!(written(&mut c), vec![0x0A, 0, 0, 0, 0x46, 42, 0, 0, 0, 3, 0, 97, 98, 99]);
    c.write_completed(true);
    assert_eq!(written(&mut c), vec![5, 0, 0, 0, 0x3A, 0xFF, 0xFF, 0xFF, 0xFF]);
}

#[test]
fn a_closing_connection_accepts_nothing() {
    let mut c = connection();
    c.close_after_flush();
    assert!(c.is_closing());
    assert!(!c.should_read());
    assert!(matches!(
        c.send_packet(PacketType::TextMessage, &[1]),
        Err(SocketError::ConnectionClosed)
    ));
    assert!(matches!(
        c.send_packet_with_id(PacketType::FileChunk, 9, &[1]),
        Err(SocketError::ConnectionClosed)
    ));
    assert!(matches!(c.send_raw(PacketType::Ack, 9, &[]), Err(SocketError::ConnectionClosed)));
    match c.request(PacketType::AuthLoginRequest, &[], "slot") {
        RequestOutcome::Failed { error: SocketError::ConnectionClosed, slot } => {
            assert_eq!(slot, "slot")
        }
        other => panic!("unexpected: {:?}", other),
    }
    let mut c = connection();
    c.close();
    assert!(matches!(
        c.send_packet(PacketType::TextMessage, &[1]),
        Err(SocketError::ConnectionClosed)
    ));
}

#[test]
fn a_payload_that_is_too_large_is_refused() {
    let mut c = connection();
    let payload = vec![0u8; MAX_PAYLOAD_SIZE + 1];
    match c.send_packet_with_id(PacketType::TextMessage, 1, &payload) {
        Err(SocketError::PacketTooLarge(n)) => assert_eq!(n, MAX_PAYLOAD_SIZE + 1),
        other => panic!("unexpected: {:?}", other),
    }
    assert!(matches!(c.next_outgoing(), WriteStep::Idle { flush_pending: false }));
    match c.request(PacketType::TextMessage, &payload, "s") {
        RequestOutcome::Failed { error: SocketError::PacketTooLarge(_), slot: "s" } => {}
        other => panic!("unexpected: {:?}", other),
    }
}

#[test]
fn close_twice_hands_the_callback_out_once() {
    let mut c = connection();
    c.set_on_close(77);
    let first = c.close();
    assert!(first.first);
    assert_eq!(first.on_close, Some(77));
    assert!(first.shutdown_writer);
    assert_eq!(c.state(), ConnectionState::Closing);
    let second = c.close();
    assert!(!second.first);
    assert_eq!(second.on_close, None);
    assert!(!second.shutdown_writer);
    let third = c.write_loop_ended();
    assert!(!third.first);
    assert_eq!(third.on_close, None);
    let fourth = c.read_loop_ended();
    assert!(!fourth.first);
    assert_eq!(fourth.on_close, None);
}

#[test]
fn close_without_a_callback() {
    let mut c = connection();
    let outcome = c.close();
    assert!(outcome.first);
    assert!(outcome.on_close.is_none());
    assert!(outcome.shutdown_writer);
    // A callback that comes too late is never handed out.
    c.set_on_close(5);
    assert!(c.close().on_close.is_none());
}

#[test]
fn close_after_a_graceful_close_still_runs_the_callback() {
    let mut c = connection();
    c.set_on_close(1);
    c.close_after_flush();
    c.close_after_flush();
    assert!(matches!(c.next_outgoing(), WriteStep::Finish));
    let outcome = c.write_loop_ended();
    assert!(outcome.first);
    assert_eq!(outcome.on_close, Some(1));
    assert!(outcome.shutdown_writer);
}

#[test]
fn chunks_in_flight_are_capped() {
    let mut c: Conn = Connection::new("c".into(), config(64, 2, 1 << 30));
    assert_eq!(c.send_packet(PacketType::FileChunk, &[1]).unwrap().1, SendOutcome::Queued);
    assert_eq!(c.send_packet(PacketType::FileChunk, &[2]).unwrap().1, SendOutcome::Queued);
    assert_eq!(c.send_packet(PacketType::FileChunk, &[3]).unwrap().1, SendOutcome::AwaitPermit);
    // Other packets need no permit.
    assert_eq!(c.send_packet(PacketType::FileFinish, &[]).unwrap().1, SendOutcome::Queued);
    // A chunk that is being written still holds its permit.
    let first = written(&mut c);
    assert_eq!(first[4], 0x50);
    assert_eq!(c.send_packet(PacketType::FileChunk, &[3]).unwrap().1, SendOutcome::AwaitPermit);
    assert!(matches!(c.next_outgoing(), WriteStep::Busy));
    // Once written, the permit is free again.
    assert_eq!(c.write_completed(true), AfterWrite::Continue);
    assert_eq!(c.send_packet(PacketType::FileChunk, &[3]).unwrap().1, SendOutcome::Queued);
    assert_eq!(c.send_packet(PacketType::FileChunk, &[4]).unwrap().1, SendOutcome::AwaitPermit);
}

#[test]
fn there_is_always_one_chunk_permit() {
    let mut c: Conn = Connection::new("c".into(), config(64, 0, 1 << 30));
    assert_eq!(c.send_packet(PacketType::FileChunk, &[1]).unwrap().1, SendOutcome::Queued);
    assert_eq!(c.send_packet(PacketType::FileChunk, &[2]).unwrap().1, SendOutcome::AwaitPermit);
}

#[test]
fn a_failed_write_frees_the_permit_and_stops_the_loop() {
    let mut c: Conn = Connection::new("c".into(), config(64, 1, 1 << 30));
    c.send_packet(PacketType::FileChunk, &[1]).unwrap();
    written(&mut c);
    assert_eq!(c.write_completed(false), AfterWrite::Stop);
    assert!(!c.flush_due());
    assert_eq!(c.send_packet(PacketType::FileChunk, &[2]).unwrap().1, SendOutcome::Queued);
    // A report without a write changes nothing.
    let mut c = connection();
    assert_eq!(c.write_completed(true), AfterWrite::Continue);
    assert!(!c.flush_due());
}

#[test]
fn the_queue_has_a_capacity() {
    let mut c: Conn = Connection::new("c".into(), config(2, 8, 1 << 30));
    assert_eq!(c.send_packet(PacketType::TextMessage, &[1]).unwrap().1, SendOutcome::Queued);
    assert_eq!(c.send_packet(PacketType::TextMessage, &[2]).unwrap().1, SendOutcome::Queued);
    let (id, outcome) = c.send_packet(PacketType::TextMessage, &[3]).unwrap();
    assert_eq!(outcome, SendOutcome::AwaitCapacity);
    written(&mut c);
    c.write_completed(true);
    assert_eq!(
        c.send_packet_with_id(PacketType::TextMessage, id, &[3]).unwrap(),
        SendOutcome::Queued
    );
    // The sentinel needs no room.
    assert_eq!(c.send_packet(PacketType::TextMessage, &[4]).unwrap().1, SendOutcome::AwaitCapacity);
    c.close_after_flush();
    written(&mut c);
    c.write_completed(true);
    written(&mut c);
    c.write_completed(true);
    assert!(matches!(c.next_outgoing(), WriteStep::Finish));
}

#[test]
fn a_flush_is_due_at_the_threshold() {
    let mut c: Conn = Connection::new("c".into(), config(64, 8, 30));
    // Each frame is 4 + 5 + 1 = 10 bytes long.
    for _ in 0..4 {
        c.send_packet(PacketType::TextMessage, &[0]).unwrap();
    }
    assert!(!c.flush_due());
    written(&mut c);
    assert_eq!(c.write_completed(true), AfterWrite::Continue);
    assert!(c.flush_due());
    written(&mut c);
    assert_eq!(c.write_completed(true), AfterWrite::Continue);
    written(&mut c);
    assert_eq!(c.write_completed(true), AfterWrite::Flush);
    assert!(c.flush_completed(true));
    assert!(!c.flush_due());
    written(&mut c);
    assert_eq!(c.write_completed(true), AfterWrite::Continue);
    assert!(matches!(c.next_outgoing(), WriteStep::Idle { flush_pending: true }));
    // A flush that failed ends the loop and leaves the bytes pending.
    assert!(!c.flush_completed(false));
    assert!(c.flush_due());
}

#[test]
fn a_threshold_of_nothing_flushes_after_every_write() {
    let mut c: Conn = Connection::new("c".into(), config(64, 8, 0));
    c.send_packet(PacketType::TextMessage, &[]).unwrap();
    written(&mut c);
    assert_eq!(c.write_completed(true), AfterWrite::Flush);
}

#[test]
fn a_batch_is_written_out_before_the_connection_closes() {
    let mut c = connection();
    c.set_on_close(9);
    c.begin_send_batch();
    let mut expected = Vec::new();
    for file in 0..2u8 {
        let (id, _) = c.send_packet(PacketType::FileOffer, &[file]).unwrap();
        expected.push(encode_frame(PacketType::FileOffer, id, &[file]).unwrap());
        for chunk in 0..3u8 {
            let (id, outcome) = c.send_packet(PacketType::FileChunk, &[file, chunk]).unwrap();
            assert_eq!(outcome, SendOutcome::Queued);
            expected.push(encode_frame(PacketType::FileChunk, id, &[file, chunk]).unwrap());
        }
        let (id, _) = c.send_packet(PacketType::FileFinish, &[file]).unwrap();
        expected.push(encode_frame(PacketType::FileFinish, id, &[file]).unwrap());
    }
    c.end_send_batch_and_maybe_close();
    assert!(c.is_closing());
    assert_eq!(c.state(), ConnectionState::Closing);
    let mut types = Vec::new();
    let mut wire = Vec::new();
    loop {
        match c.next_outgoing() {
            WriteStep::Write { data } => {
                types.push(decode_frame(&data[4..]).unwrap().packet_type);
                wire.push(data);
                c.write_completed(true);
            }
            WriteStep::Finish => break,
            WriteStep::Busy => panic!("busy"),
            WriteStep::Idle { .. } => panic!("idle"),
        }
    }
    assert_eq!(wire, expected);
    assert_eq!(types.len(), 2 + 6 + 2);
    assert_eq!(types.iter().filter(|t| **t == PacketType::FileOffer).count(), 2);
    assert_eq!(types.iter().filter(|t| **t == PacketType::FileChunk).count(), 6);
    assert_eq!(types.iter().filter(|t| **t == PacketType::FileFinish).count(), 2);
    let outcome = c.write_loop_ended();
    assert!(outcome.first);
    assert!(outcome.shutdown_writer);
    assert_eq!(outcome.on_close, Some(9));
}

#[test]
fn the_connection_stays_open_while_a_batch_is_open() {
    let mut c = connection();
    c.begin_send_batch();
    c.begin_send_batch();
    c.end_send_batch_and_maybe_close();
    assert!(!c.is_closing());
    assert_eq!(c.send_packet(PacketType::TextMessage, &[]).unwrap().1, SendOutcome::Queued);
    c.end_send_batch_and_maybe_close();
    assert!(c.is_closing());
}

#[test]
fn ending_a_batch_that_was_never_opened_closes() {
    let mut c = connection();
    c.end_send_batch_and_maybe_close();
    assert!(c.is_closing());
    assert!(matches!(c.next_outgoing(), WriteStep::Finish));
}

#[test]
fn a_hard_close_gives_the_queue_up() {
    let mut c: Conn = Connection::new("c".into(), config(64, 1, 1 << 30));
    c.send_packet(PacketType::FileChunk, &[1]).unwrap();
    c.send_packet(PacketType::TextMessage, &[2]).unwrap();
    c.close();
    assert!(matches!(c.next_outgoing(), WriteStep::Finish));
    assert!(matches!(c.next_outgoing(), WriteStep::Finish));
}

#[test]
fn replies_reach_the_request_they_answer() {
    let mut c = connection();
    let first = match c.request(PacketType::UserGetProfile, &[1], "first") {
        RequestOutcome::Sent { request_id } => request_id,
        other => panic!("unexpected: {:?}", other),
    };
    let second = match c.request(PacketType::UserGetProfile, &[2], "second") {
        RequestOutcome::Sent { request_id } => request_id,
        other => panic!("unexpected: {:?}", other),
    };
    assert_eq!((first, second), (1, 2));
    // The replies arrive in the other order.
    let reply_to_second = encode_frame(PacketType::UserGetProfile, second, b"two").unwrap();
    let reply_to_first = encode_frame(PacketType::UserGetProfile, first, b"one").unwrap();
    match c.on_frame(&reply_to_second[4..]) {
        Incoming::Reply { request_id, slot, payload } => {
            assert_eq!(request_id, second);
            assert_eq!(slot, "second");
            assert_eq!(payload, b"two");
        }
        _ => panic!("not a reply"),
    }
    match c.on_frame(&reply_to_first[4..]) {
        Incoming::Reply { request_id, slot, payload } => {
            assert_eq!(request_id, first);
            assert_eq!(slot, "first");
            assert_eq!(payload, b"one");
        }
        _ => panic!("not a reply"),
    }
    // A second frame with the same id is an ordinary packet.
    match c.on_frame(&reply_to_first[4..]) {
        Incoming::Packet(frame) => {
            assert_eq!(frame.packet_type, PacketType::UserGetProfile);
            assert_eq!(frame.request_id, first);
            assert_eq!(frame.payload, b"one");
        }
        _ => panic!("not a packet"),
    }
}

#[test]
fn frames_without_a_pending_request_go_to_the_router() {
    let mut c = connection();
    match c.on_frame(&[0x60, 5, 0, 0, 0, b'h', b'i']) {
        Incoming::Packet(frame) => {
            assert_eq!(frame.packet_type, PacketType::TextMessage);
            assert_eq!(frame.request_id, 5);
            assert_eq!(frame.payload, b"hi");
        }
        _ => panic!("not a packet"),
    }
    match c.on_frame(&[0x60, 5, 0]) {
        Incoming::TooShort { length } => assert_eq!(length, 3),
        _ => panic!("not too short"),
    }
}

#[test]
fn a_blocked_request_keeps_its_slot() {
    let mut c: Conn = Connection::new("c".into(), config(1, 8, 1 << 30));
    c.send_packet(PacketType::TextMessage, &[]).unwrap();
    let id = match c.request(PacketType::UserGetProfile, &[], "waiting") {
        RequestOutcome::Blocked { request_id, outcome } => {
            assert_eq!(outcome, SendOutcome::AwaitCapacity);
            request_id
        }
        other => panic!("unexpected: {:?}", other),
    };
    written(&mut c);
    c.write_completed(true);
    assert_eq!(
        c.send_packet_with_id(PacketType::UserGetProfile, id, &[]).unwrap(),
        SendOutcome::Queued
    );
    let reply = encode_frame(PacketType::UserGetProfile, id, &[7]).unwrap();
    assert!(matches!(c.on_frame(&reply[4..]), Incoming::Reply { slot: "waiting", .. }));
}

#[test]
fn the_end_of_the_read_loop_gives_pending_requests_up() {
    let mut c = connection();
    c.set_on_close(3);
    let id = match c.request(PacketType::UserGetProfile, &[], "slot") {
        RequestOutcome::Sent { request_id } => request_id,
        other => panic!("unexpected: {:?}", other),
    };
    let outcome = c.read_loop_ended();
    assert!(outcome.first);
    assert_eq!(outcome.on_close, Some(3));
    assert!(c.is_closing());
    let reply = encode_frame(PacketType::UserGetProfile, id, &[]).unwrap();
    assert!(matches!(c.on_frame(&reply[4..]), Incoming::Packet(_)));
}

#[test]
fn frame_lengths_are_checked() {
    assert_eq!(frame_body_length(&[5, 0, 0, 0]).unwrap(), 5);
    assert_eq!(frame_body_length(&[0, 0, 0, 0]).unwrap(), 0);
    assert_eq!(frame_body_length(&[0x05, 0x00, 0x00, 0x01]).unwrap(), 5 + MAX_PAYLOAD_SIZE);
    match frame_body_length(&[0x06, 0x00, 0x00, 0x01]) {
        Err(SocketError::PacketTooLarge(n)) => assert_eq!(n, 6 + MAX_PAYLOAD_SIZE),
        other => panic!("unexpected: {:?}", other),
    }
    assert!(matches!(
        frame_body_length(&[0xFF, 0xFF, 0xFF, 0xFF]),
        Err(SocketError::PacketTooLarge(_))
    ));
}

#[test]
fn outgoing_packets() {
    let p = OutgoingPacket::new(vec![1, 2], true);
    assert_eq!(p.data, vec![1, 2]);
    assert!(p.holds_permit);
    let s = OutgoingPacket::sentinel();
    assert!(s.data.is_empty());
    assert!(!s.holds_permit);
}

#[test]
fn a_connection_is_a_session_handle() {
    let mut c = connection();
    assert!(!SessionHandle::is_closing(&c));
    assert!(!SessionHandle::is_authenticated(&c));
    c.set_authenticated(UserInfo { id: "u".into(), name: "n".into() });
    assert!(SessionHandle::is_authenticated(&c));
    c.close();
    assert!(SessionHandle::is_closing(&c));
}
