use gdl90codec::error::GDL90Error;
use gdl90codec::extended::{ExtendedX65SubMessage, AHRS};

#[test]
fn test_parse_id() {
    let data = [
        0x00, 0x01, 0x00, 0x00, 0x00, 0x00, 0x04, 0x03, 0x02, 0x01, 0x53, 0x6B, 0x79, 0x45, 0x63,
        0x68, 0x6F, 0x00, 0x53, 0x6B, 0x79, 0x45, 0x63, 0x68, 0x6F, 0x00, 0x00, 0x00, 0x00, 0x00,
        0x00, 0x00, 0x00, 0x00, 0x00, 0x00, 0x00, 0x00,
    ];

    if let Ok(ExtendedX65SubMessage::IDMessage(ref payload)) =
        ExtendedX65SubMessage::try_from(&data[..])
    {
        assert_eq!(payload.device_serial_number, 0x04_03_02_01); // Fake serial number
        assert_eq!(payload.get_device_name().unwrap(), "SkyEcho");
        assert_eq!(payload.get_device_long_name().unwrap(), "SkyEcho");
    } else {
        panic!()
    }
}

#[test]
fn test_parse_unknown_sub_id() {
    let data = [0x09, 0x00, 0x00];
    assert!(matches!(
        ExtendedX65SubMessage::try_from(&data[..]),
        Err(GDL90Error::Parse(_))
    ));

    let empty: [u8; 0] = [];
    assert!(matches!(
        ExtendedX65SubMessage::try_from(&empty[..]),
        Err(GDL90Error::Parse(_))
    ));
}

#[test]
fn test_ahrs_round_trip() {
    let mut ahrs = AHRS::default();
    ahrs.sub_id = 1;
    ahrs.roll = -1800;
    ahrs.pitch = 450;
    ahrs.heading_type = 1;
    ahrs.heading = 0x1234;
    ahrs.indicated_airspeed = 120;
    ahrs.true_airspeed = 130;

    let bytes = ahrs.to_bytes().unwrap();
    assert_eq!(bytes.len(), 11);

    if let Ok(ExtendedX65SubMessage::AHRS(decoded)) = ExtendedX65SubMessage::try_from(&bytes[..]) {
        assert_eq!(decoded.roll, -1800);
        assert_eq!(decoded.pitch, 450);
        assert_eq!(decoded.heading_type, 1);
        assert_eq!(decoded.heading, 0x1234);
        assert_eq!(decoded.indicated_airspeed, 120);
        assert_eq!(decoded.true_airspeed, 130);
    } else {
        panic!("expected an attitude record");
    }
}

#[test]
fn test_ahrs_too_short_is_incomplete() {
    let data = [0x01, 0x00, 0x00];
    assert!(matches!(
        ExtendedX65SubMessage::try_from(&data[..]),
        Err(GDL90Error::Incomplete(64))
    ));
}

#[test]
fn test_device_long_name_without_terminator() {
    let mut id = gdl90codec::extended::IDMessage::default();
    id.device_long_name = *b"ABCDEFGHIJKLMNOP";
    assert_eq!(id.get_device_long_name().unwrap(), "ABCDEFGHIJKLMNOP");
}
