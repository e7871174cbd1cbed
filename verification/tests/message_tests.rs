use gdl90codec::message::{checksum, read_message};
use gdl90codec::payload::Payload;

#[test]
fn test_check_sum() {
    let data = [0x00, 0x81, 0x41, 0xDB, 0xD0, 0x08, 0x02];

    let expect = u16::from_le_bytes([0xB3, 0x8B]);
    let actual = checksum(&data);

    assert_eq!(expect, actual);
}

#[test]
fn test_round_trip() {
    let data = b"\x7E\x00\x81\x41\xDB\xD0\x08\x02\xB3\x8B\x7E";

    let message = read_message(data).unwrap();
    let encoded = message.encode();
    assert_eq!(&data[..], &encoded[..]);
}

#[test]
fn test_frame_decodes_heartbeat() {
    let data = [0x7E, 0x00, 0x81, 0x41, 0xDB, 0xD0, 0x08, 0x02, 0xB3, 0x8B, 0x7E];

    let message = read_message(&data).unwrap();
    assert_eq!(message.message_id, 0x00);
    assert_eq!(message.checksum, 0x8BB3);

    if let Ok(Payload::HeartBeat(payload)) = message.get_payload() {
        assert!(payload.gps_pos_valid);
        assert!(payload.uat_initialized);
    } else {
        panic!("expected a heartbeat payload");
    }
}
