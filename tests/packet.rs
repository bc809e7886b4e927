use rcon::packet::{DecodeError, Packet};
use rcon::packet_type::PacketType;
use rcon::raw::RawPacket;
use rcon::serialization::{deserialize_i32, serialize_i32};

fn new_packets() -> [Packet; 3] {
    [
        Packet::new(1, PacketType::SDAuth, "SERVERDATA_AUTH".to_string()),
        Packet::new(2, PacketType::SDExecCommandAndAuthResponse, "SERVERDATA_EXECCOMMAND".to_string()),
        Packet::new(3, PacketType::SDResponseValue, "SERVERDATA_RESPONSE_VALUE".to_string()),
    ]
}

fn frame(size: u8, id: u8, ty: u8, body: &[u8]) -> Vec<u8> {
    let mut v = vec![size, 0, 0, 0, id, 0, 0, 0, ty, 0, 0, 0];
    v.extend_from_slice(body);
    v.extend_from_slice(&[0, 0]);
    v
}

fn packet_files() -> [Vec<u8>; 3] {
    [
        frame(25, 1, 3, b"SERVERDATA_AUTH"),
        frame(32, 2, 2, b"SERVERDATA_EXECCOMMAND"),
        frame(35, 3, 0, b"SERVERDATA_RESPONSE_VALUE"),
    ]
}

#[test]
fn assert_equal_packet_serialization() {
    let packets = new_packets();
    let results = packet_files();
    for i in 0..3 {
        assert_eq!(packets[i].serialize(), results[i]);
    }
}

#[test]
fn assert_equal_packet_deserialization() {
    let packets = new_packets();
    let results = packet_files();
    for i in 0..3 {
        assert_eq!(Packet::from_raw(results[i].clone()), packets[i]);
    }
}

#[test]
fn literal_framing_example() {
    let p = Packet::new(1, PacketType::SDAuth, "password".to_string());
    let expected: Vec<u8> = vec![
        0x12, 0x00, 0x00, 0x00, 0x01, 0x00, 0x00, 0x00, 0x03, 0x00, 0x00, 0x00, 0x70, 0x61, 0x73,
        0x73, 0x77, 0x6f, 0x72, 0x64, 0x00, 0x00,
    ];
    assert_eq!(p.serialize(), expected);
}

#[test]
fn round_trip_examples() {
    let packets = vec![
        Packet::new(0, PacketType::SDResponseValue, String::new()),
        Packet::new(-1, PacketType::SDAuth, "héllo wörld ✓".to_string()),
        Packet::new(i32::MAX, PacketType::SDExecCommandAndAuthResponse, "status".to_string()),
        Packet::new(i32::MIN, PacketType::SDResponseValue, "🦀".to_string()),
    ];
    for p in packets {
        assert_eq!(Packet::from_raw(p.serialize()), p);
        assert_eq!(Packet::decode(p.serialize()), Ok(p.clone()));
    }
}

#[test]
fn frame_length_counts_body_bytes() {
    let p = Packet::new(5, PacketType::SDAuth, "é".to_string());
    assert_eq!(p.serialize().len(), 4 + 2 + 10);
    let empty = Packet::new(5, PacketType::SDAuth, String::new());
    assert_eq!(empty.serialize().len(), 14);
    assert_eq!(empty.serialize()[0], 10);
}

#[test]
fn unknown_type_falls_back_to_response_value() {
    assert_eq!(PacketType::from(7), PacketType::SDResponseValue);
    assert_eq!(PacketType::from(-1), PacketType::SDResponseValue);
    assert_eq!(PacketType::from(0), PacketType::SDResponseValue);
    assert_eq!(PacketType::from(2), PacketType::SDExecCommandAndAuthResponse);
    assert_eq!(PacketType::from(3), PacketType::SDAuth);
    assert_eq!(i32::from(PacketType::SDAuth), 3);
    assert_eq!(i32::from(PacketType::SDExecCommandAndAuthResponse), 2);
    assert_eq!(i32::from(PacketType::SDResponseValue), 0);
    let p = Packet::from_raw(frame(12, 9, 42, b"x"));
    assert_eq!(p.packet_type, PacketType::SDResponseValue);
    assert_eq!(p.id, 9);
}

#[test]
fn decode_rejects_short_frames() {
    assert_eq!(Packet::decode(vec![]), Err(DecodeError::TooShort));
    assert_eq!(Packet::decode(vec![10, 0, 0, 0, 1, 0, 0, 0, 2, 0, 0, 0, 0]), Err(DecodeError::TooShort));
    assert_eq!(
        Packet::decode(vec![10, 0, 0, 0, 1, 0, 0, 0, 2, 0, 0, 0, 0, 0]),
        Ok(Packet::new(1, PacketType::SDExecCommandAndAuthResponse, String::new()))
    );
}

#[test]
fn decode_rejects_invalid_utf8() {
    assert_eq!(Packet::decode(frame(12, 1, 0, &[0xff])), Err(DecodeError::InvalidUtf8));
    assert_eq!(Packet::decode(frame(13, 1, 0, &[0xc3, 0x28])), Err(DecodeError::InvalidUtf8));
}

#[test]
fn decode_with_separate_size_prefix() {
    let whole = frame(18, 1, 3, b"password");
    let size: [u8; 4] = [whole[0], whole[1], whole[2], whole[3]];
    let rest = whole[4..].to_vec();
    let expected = Packet::new(1, PacketType::SDAuth, "password".to_string());
    assert_eq!(Packet::from_raw_with_size(size, rest.clone()), expected);
    assert_eq!(Packet::decode_with_size(size, rest), Ok(expected));
    assert_eq!(Packet::decode_with_size(size, vec![1, 0, 0, 0]), Err(DecodeError::TooShort));
}

#[test]
fn raw_packet_fields() {
    let raw = RawPacket::from(Packet::new(7, PacketType::SDExecCommandAndAuthResponse, "ab".to_string()));
    assert_eq!(raw.sz, 12);
    assert_eq!(raw.id, 7);
    assert_eq!(raw.packet_type, 2);
    assert_eq!(raw.body, b"ab".to_vec());
    assert_eq!(raw.serialize(), frame(12, 7, 2, b"ab"));
    let back = RawPacket::deserialize(frame(99, 4, 3, b"xyz"));
    assert_eq!(back.sz, 99);
    assert_eq!(back.id, 4);
    assert_eq!(back.packet_type, 3);
    assert_eq!(back.body, b"xyz".to_vec());
    let p = back.to_packet().unwrap();
    assert_eq!(p.body, "xyz");
    assert_eq!(p.packet_type, PacketType::SDAuth);
    assert!(RawPacket::deserialize(frame(11, 4, 3, &[0x80])).to_packet().is_none());
}

#[test]
fn integer_codec_values() {
    assert_eq!(serialize_i32(1), [1, 0, 0, 0]);
    assert_eq!(serialize_i32(-1), [0xff, 0xff, 0xff, 0xff]);
    assert_eq!(serialize_i32(0x12345678), [0x78, 0x56, 0x34, 0x12]);
    assert_eq!(serialize_i32(i32::MIN), [0, 0, 0, 0x80]);
    assert_eq!(deserialize_i32([0x78, 0x56, 0x34, 0x12]), 0x12345678);
    assert_eq!(deserialize_i32([0xff, 0xff, 0xff, 0xff]), -1);
    assert_eq!(deserialize_i32([18, 0, 0, 0]), 18);
    assert_eq!(deserialize_i32(serialize_i32(-123456)), -123456);
}
