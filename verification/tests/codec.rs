use nekoshare_transport::binary::{BinaryReader, BinaryWriter};
use nekoshare_transport::error::SocketError;
use nekoshare_transport::protocol::{
    decode_frame, decode_frame_length, encode_frame, PacketType, HEADER_SIZE, MAX_PAYLOAD_SIZE,
    TUNNEL_HEADER_SIZE,
};

fn parse_message(e: SocketError) -> String {
    match e {
        SocketError::ParseError(m) => m,
        other => panic!("unexpected error: {:?}", other),
    }
}

#[test]
fn round_trip_frame() {
    let mut payload = BinaryWriter::new();
    payload.write_string("abc");
    let bytes = encode_frame(PacketType::FileFinish, 42, payload.as_bytes()).unwrap();
    assert_eq!(bytes.len(), 14);
    assert_eq!(&bytes[..4], &[0x0A, 0x00, 0x00, 0x00]);
    assert_eq!(bytes, vec![0x0A, 0, 0, 0, 0x46, 42, 0, 0, 0, 3, 0, b'a', b'b', b'c']);
    let frame = decode_frame(&bytes[4..]).unwrap();
    assert_eq!(frame.packet_type, PacketType::FileFinish);
    assert_eq!(frame.request_id, 42);
    assert_eq!(frame.payload, vec![0x03, 0x00, b'a', b'b', b'c']);
}

#[test]
fn writer_starts_empty() {
    let w = BinaryWriter::new();
    assert!(w.is_empty());
    assert_eq!(w.len(), 0);
    let w = BinaryWriter::with_capacity(64);
    assert!(w.is_empty());
    let w = BinaryWriter::default();
    assert_eq!(w.as_bytes(), &[] as &[u8]);
}

#[test]
fn writer_integers_are_little_endian() {
    let mut w = BinaryWriter::new();
    w.write_u8(0xAB);
    w.write_u32(0x0102_0304);
    w.write_i32(-2);
    w.write_u64(0x0102_0304_0506_0708);
    assert_eq!(
        w.as_bytes(),
        &[
            0xAB, 0x04, 0x03, 0x02, 0x01, 0xFE, 0xFF, 0xFF, 0xFF, 0x08, 0x07, 0x06, 0x05, 0x04,
            0x03, 0x02, 0x01
        ]
    );
    assert_eq!(w.len(), 17);
    assert!(!w.is_empty());
}

#[test]
fn writer_matches_std_encoding() {
    for v in [0u32, 1, 255, 256, 65_535, 65_536, 0x7FFF_FFFF, 0x8000_0000, u32::MAX] {
        let mut w = BinaryWriter::new();
        w.write_u32(v);
        assert_eq!(w.as_bytes(), &v.to_le_bytes());
    }
    for v in [0i32, 1, -1, 42, i32::MAX, i32::MIN, -123_456_789] {
        let mut w = BinaryWriter::new();
        w.write_i32(v);
        assert_eq!(w.as_bytes(), &v.to_le_bytes());
    }
    for v in [0u64, 1, u32::MAX as u64, u32::MAX as u64 + 1, u64::MAX, 0x0123_4567_89AB_CDEF] {
        let mut w = BinaryWriter::new();
        w.write_u64(v);
        assert_eq!(w.as_bytes(), &v.to_le_bytes());
    }
}

#[test]
fn writer_bool_is_one_byte() {
    let mut w = BinaryWriter::new();
    w.write_bool(true);
    w.write_bool(false);
    assert_eq!(w.as_bytes(), &[1, 0]);
}

#[test]
fn writer_string_has_two_byte_length() {
    let mut w = BinaryWriter::new();
    w.write_string("h\u{e9}llo");
    assert_eq!(w.as_bytes(), &[6, 0, b'h', 0xC3, 0xA9, b'l', b'l', b'o']);
    let mut w = BinaryWriter::new();
    w.write_string("");
    assert_eq!(w.as_bytes(), &[0, 0]);
}

#[test]
fn writer_string_of_greatest_length() {
    let text = "x".repeat(65_535);
    let mut w = BinaryWriter::new();
    w.write_string(&text);
    assert_eq!(w.len(), 65_537);
    assert_eq!(&w.as_bytes()[..2], &[0xFF, 0xFF]);
    let mut r = BinaryReader::new(w.as_bytes());
    assert_eq!(r.read_string().unwrap(), text);
    assert!(r.is_empty());
}

#[test]
fn writer_bytes_with_and_without_length() {
    let mut w = BinaryWriter::new();
    w.write_bytes(&[9, 8, 7]);
    w.write_bytes_with_length(&[1, 2]);
    w.write_bytes_with_length(&[]);
    assert_eq!(w.as_bytes(), &[9, 8, 7, 2, 0, 0, 0, 1, 2, 0, 0, 0, 0]);
}

#[test]
fn writer_patches_a_length_in_place() {
    let mut w = BinaryWriter::new();
    w.write_u32(0);
    w.write_u8(7);
    w.write_u32(0xAABB_CCDD);
    w.write_u32_at(0, 5);
    assert_eq!(w.as_bytes(), &[5, 0, 0, 0, 7, 0xDD, 0xCC, 0xBB, 0xAA]);
    w.write_u32_at(5, 1);
    assert_eq!(w.as_bytes(), &[5, 0, 0, 0, 7, 1, 0, 0, 0]);
    w.write_u32_at(2, 0x0403_0201);
    assert_eq!(w.as_bytes(), &[5, 0, 1, 2, 3, 4, 0, 0, 0]);
}

#[test]
fn writer_reserve_clear_and_into_bytes() {
    let mut w = BinaryWriter::new();
    w.write_u8(1);
    w.reserve(1024);
    assert_eq!(w.as_bytes(), &[1]);
    w.reserve(usize::MAX);
    assert_eq!(w.as_bytes(), &[1]);
    w.write_u8(2);
    assert_eq!(w.into_bytes(), vec![1, 2]);
    let mut w = BinaryWriter::new();
    w.write_u64(5);
    w.clear();
    assert!(w.is_empty());
}

#[test]
fn reader_reads_back_every_primitive() {
    let mut w = BinaryWriter::new();
    w.write_u8(200);
    w.write_i32(-77);
    w.write_u32(3_000_000_000);
    w.write_u64(u64::MAX - 1);
    w.write_string("gr\u{fc}\u{df}e \u{1F600}");
    w.write_bytes_with_length(&[0, 255, 1]);
    w.write_bool(true);
    w.write_bool(false);
    w.write_bytes(&[42, 43]);
    let bytes = w.into_bytes();
    let mut r = BinaryReader::new(&bytes);
    assert_eq!(r.offset(), 0);
    assert_eq!(r.read_u8().unwrap(), 200);
    assert_eq!(r.read_i32().unwrap(), -77);
    assert_eq!(r.read_u32().unwrap(), 3_000_000_000);
    assert_eq!(r.read_u64().unwrap(), u64::MAX - 1);
    assert_eq!(r.read_string().unwrap(), "gr\u{fc}\u{df}e \u{1F600}");
    assert_eq!(r.read_bytes_with_length().unwrap(), vec![0, 255, 1]);
    assert!(r.read_bool().unwrap());
    assert!(!r.read_bool().unwrap());
    assert_eq!(r.remaining_len(), 2);
    assert_eq!(r.remaining_bytes(), &[42, 43]);
    assert!(!r.is_empty());
    r.skip(2).unwrap();
    assert!(r.is_empty());
    assert_eq!(r.offset(), bytes.len());
}

#[test]
fn reader_round_trips_edge_values() {
    for v in [i32::MIN, -1, 0, 1, i32::MAX] {
        let mut w = BinaryWriter::new();
        w.write_i32(v);
        let bytes = w.into_bytes();
        assert_eq!(BinaryReader::new(&bytes).read_i32().unwrap(), v);
        assert_eq!(i32::from_le_bytes([bytes[0], bytes[1], bytes[2], bytes[3]]), v);
    }
    for v in [0u32, 1, u32::MAX] {
        let mut w = BinaryWriter::new();
        w.write_u32(v);
        let bytes = w.into_bytes();
        assert_eq!(BinaryReader::new(&bytes).read_u32().unwrap(), v);
    }
    for v in [0u64, 1, u64::MAX] {
        let mut w = BinaryWriter::new();
        w.write_u64(v);
        let bytes = w.into_bytes();
        assert_eq!(BinaryReader::new(&bytes).read_u64().unwrap(), v);
    }
    for v in [0u8, 1, 127, 128, 255] {
        let mut w = BinaryWriter::new();
        w.write_u8(v);
        let bytes = w.into_bytes();
        assert_eq!(BinaryReader::new(&bytes).read_u8().unwrap(), v);
    }
}

#[test]
fn reader_bool_is_any_nonzero_byte() {
    let data = [0u8, 1, 2, 255];
    let mut r = BinaryReader::new(&data);
    assert!(!r.read_bool().unwrap());
    assert!(r.read_bool().unwrap());
    assert!(r.read_bool().unwrap());
    assert!(r.read_bool().unwrap());
}

#[test]
fn reader_underflow_message() {
    let data = [1u8, 2, 3];
    let mut r = BinaryReader::new(&data);
    assert_eq!(r.read_u8().unwrap(), 1);
    assert_eq!(
        parse_message(r.read_u32().unwrap_err()),
        "buffer underflow at offset 1: need 4, have 2"
    );
    assert_eq!(r.offset(), 1);
    assert_eq!(
        parse_message(r.read_i32().unwrap_err()),
        "buffer underflow at offset 1: need 4, have 2"
    );
    assert_eq!(
        parse_message(r.read_u64().unwrap_err()),
        "buffer underflow at offset 1: need 8, have 2"
    );
    assert_eq!(
        parse_message(r.skip(3).unwrap_err()),
        "buffer underflow at offset 1: need 3, have 2"
    );
    assert_eq!(r.offset(), 1);
    r.skip(2).unwrap();
    assert_eq!(
        parse_message(r.read_u8().unwrap_err()),
        "buffer underflow at offset 3: need 1, have 0"
    );
    assert_eq!(
        parse_message(r.read_bool().unwrap_err()),
        "buffer underflow at offset 3: need 1, have 0"
    );
    assert_eq!(
        parse_message(r.read_string().unwrap_err()),
        "buffer underflow at offset 3: need 2, have 0"
    );
    assert_eq!(
        parse_message(r.read_bytes_with_length().unwrap_err()),
        "buffer underflow at offset 3: need 4, have 0"
    );
}

#[test]
fn reader_of_nothing() {
    let mut r = BinaryReader::new(&[]);
    assert!(r.is_empty());
    assert_eq!(r.remaining_len(), 0);
    assert_eq!(r.remaining_bytes(), &[] as &[u8]);
    r.skip(0).unwrap();
    assert_eq!(
        parse_message(r.read_u8().unwrap_err()),
        "buffer underflow at offset 0: need 1, have 0"
    );
}

#[test]
fn reader_string_cut_short_stops_behind_the_prefix() {
    let data = [5u8, 0, b'a', b'b'];
    let mut r = BinaryReader::new(&data);
    assert_eq!(
        parse_message(r.read_string().unwrap_err()),
        "buffer underflow at offset 2: need 5, have 2"
    );
    assert_eq!(r.offset(), 2);
    let data = [1u8];
    let mut r = BinaryReader::new(&data);
    assert_eq!(
        parse_message(r.read_string().unwrap_err()),
        "buffer underflow at offset 0: need 2, have 1"
    );
    assert_eq!(r.offset(), 0);
}

#[test]
fn reader_string_that_is_not_utf8() {
    let data = [2u8, 0, 0xFF, 0xFE, 9];
    let mut r = BinaryReader::new(&data);
    let message = parse_message(r.read_string().unwrap_err());
    assert!(message.starts_with("invalid UTF-8 "));
    assert_eq!(message, "invalid UTF-8 string at offset 2");
    assert_eq!(r.offset(), 2);
    // A sequence cut in the middle of a character.
    let data = [1u8, 0, 0xC3];
    let mut r = BinaryReader::new(&data);
    assert_eq!(parse_message(r.read_string().unwrap_err()), "invalid UTF-8 string at offset 2");
}

#[test]
fn reader_bytes_cut_short_stops_behind_the_prefix() {
    let data = [3u8, 0, 0, 0, 1, 2];
    let mut r = BinaryReader::new(&data);
    assert_eq!(
        parse_message(r.read_bytes_with_length().unwrap_err()),
        "buffer underflow at offset 4: need 3, have 2"
    );
    assert_eq!(r.offset(), 4);
    assert_eq!(r.remaining_bytes(), &[1, 2]);
}

#[test]
fn reader_large_numbers_in_messages() {
    let data = [0xFFu8, 0xFF, 0xFF, 0xFF];
    let mut r = BinaryReader::new(&data);
    assert_eq!(
        parse_message(r.read_bytes_with_length().unwrap_err()),
        "buffer underflow at offset 4: need 4294967295, have 0"
    );
}

#[test]
fn packet_type_codes() {
    assert_eq!(PacketType::SystemHandshake.code(), 0x00);
    assert_eq!(PacketType::SystemHeartbeat.code(), 0x01);
    assert_eq!(PacketType::AuthLoginRequest.code(), 0x10);
    assert_eq!(PacketType::AuthTokenRevoke.code(), 0x13);
    assert_eq!(PacketType::AuthLogout.code(), 0x14);
    assert_eq!(PacketType::Ack.code(), 0x3A);
    assert_eq!(PacketType::FileOffer.code(), 0x40);
    assert_eq!(PacketType::FileFinish.code(), 0x46);
    assert_eq!(PacketType::FileChunk.code(), 0x50);
    assert_eq!(PacketType::DeviceAdded.code(), 0x94);
    assert_eq!(PacketType::ErrorServerFull.code(), 0xF3);
    assert_eq!(PacketType::Unknown.code(), 0xFF);
    assert_eq!(u8::from(PacketType::TextMessage), 0x60);
    assert_eq!(PacketType::from(0x61u8), PacketType::ClipboardCopy);
}

#[test]
fn packet_type_of_every_code() {
    let mut known = 0;
    for code in 0u8..=255 {
        let t = PacketType::from_u8(code);
        if t == PacketType::Unknown {
            continue;
        }
        known += 1;
        assert_eq!(t.code(), code);
        assert_eq!(PacketType::from_u8(t.code()), t);
    }
    assert_eq!(known, 48);
    assert_eq!(PacketType::from_u8(0xFF), PacketType::Unknown);
    assert_eq!(PacketType::from_u8(0x05), PacketType::Unknown);
    assert_eq!(PacketType::from_u8(0x80), PacketType::Unknown);
    assert_eq!(PacketType::from_u8(0x13), PacketType::AuthTokenRevoke);
    assert_eq!(PacketType::from_u8(0x14), PacketType::AuthLogout);
}

#[test]
fn packet_type_families() {
    assert!(PacketType::SystemKick.is_system());
    assert!(!PacketType::AuthLogout.is_system());
    assert!(PacketType::AuthLogout.is_auth());
    assert!(!PacketType::UserGetProfile.is_auth());
    assert!(PacketType::Ack.is_peer());
    assert!(!PacketType::FileOffer.is_peer());
    assert!(PacketType::FileOffer.is_file());
    assert!(PacketType::FileChunk.is_file());
    assert!(!PacketType::TextMessage.is_file());
    assert!(PacketType::FileChunk.is_data());
    assert!(!PacketType::FileFinish.is_data());
    assert!(PacketType::ErrorGeneric.is_error());
    assert!(PacketType::Unknown.is_error());
    assert!(!PacketType::DebugLog.is_error());
    assert!(!PacketType::InputKeyDown.is_tunnel());
    assert!(!PacketType::DeviceRename.is_tunnel());
}

#[test]
fn packet_type_names() {
    assert_eq!(PacketType::FileChunk.name(), "FileChunk");
    assert_eq!(PacketType::SystemHeartbeat.name(), "SystemHeartbeat");
    assert_eq!(PacketType::Unknown.name(), "Unknown");
}

#[test]
fn protocol_constants() {
    assert_eq!(HEADER_SIZE, 5);
    assert_eq!(TUNNEL_HEADER_SIZE, 13);
    assert_eq!(MAX_PAYLOAD_SIZE, 16_777_216);
}

#[test]
fn frame_with_empty_payload() {
    let bytes = encode_frame(PacketType::SystemHeartbeat, 7, &[]).unwrap();
    assert_eq!(bytes, vec![5, 0, 0, 0, 0x01, 7, 0, 0, 0]);
    let frame = decode_frame(&bytes[4..]).unwrap();
    assert_eq!(frame.packet_type, PacketType::SystemHeartbeat);
    assert_eq!(frame.request_id, 7);
    assert!(frame.payload.is_empty());
}

#[test]
fn frame_with_negative_request_id() {
    let bytes = encode_frame(PacketType::Ack, -5, &[1]).unwrap();
    assert_eq!(bytes, vec![6, 0, 0, 0, 0x3A, 0xFB, 0xFF, 0xFF, 0xFF, 1]);
    let frame = decode_frame(&bytes[4..]).unwrap();
    assert_eq!(frame.request_id, -5);
}

#[test]
fn frame_round_trip_for_every_type() {
    for code in 0u8..=255 {
        let t = PacketType::from_u8(code);
        let payload = [code, 1, 2, 3];
        let bytes = encode_frame(t, code as i32 - 100, &payload).unwrap();
        let mut prefix = [0u8; 4];
        prefix.copy_from_slice(&bytes[..4]);
        assert_eq!(decode_frame_length(&prefix) as usize, bytes.len() - 4);
        let frame = decode_frame(&bytes[4..]).unwrap();
        assert_eq!(frame.packet_type, t);
        assert_eq!(frame.request_id, code as i32 - 100);
        assert_eq!(frame.payload, payload);
    }
}

#[test]
fn frame_body_shorter_than_a_header() {
    assert!(decode_frame(&[]).is_none());
    assert!(decode_frame(&[0x40, 1, 0, 0]).is_none());
    assert!(decode_frame(&[0x40, 1, 0, 0, 0]).is_some());
}

#[test]
fn frame_with_unknown_type_code() {
    let frame = decode_frame(&[0x7F, 1, 0, 0, 0, 9]).unwrap();
    assert_eq!(frame.packet_type, PacketType::Unknown);
    assert_eq!(frame.request_id, 1);
    assert_eq!(frame.payload, vec![9]);
}

#[test]
fn frame_payload_at_and_above_the_limit() {
    let payload = vec![0u8; MAX_PAYLOAD_SIZE];
    let bytes = encode_frame(PacketType::FileChunk, 1, &payload).unwrap();
    assert_eq!(bytes.len(), 4 + 5 + MAX_PAYLOAD_SIZE);
    assert_eq!(&bytes[..4], &[0x05, 0x00, 0x00, 0x01]);
    let payload = vec![0u8; MAX_PAYLOAD_SIZE + 1];
    match encode_frame(PacketType::FileChunk, 1, &payload) {
        Err(SocketError::PacketTooLarge(n)) => assert_eq!(n, MAX_PAYLOAD_SIZE + 1),
        other => panic!("unexpected: {:?}", other.map(|b| b.len())),
    }
}
