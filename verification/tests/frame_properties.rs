use gdl90codec::error::GDL90Error;
use gdl90codec::extended::{ExtendedX65SubMessage, AHRS};
use gdl90codec::geometric::OwnershipGeometricAltitude;
use gdl90codec::heartbeat::HeartBeat;
use gdl90codec::message::{create_message, read_message, GDL90Message};
use gdl90codec::payload::Payload;
use gdl90codec::report::Report;

#[test]
fn test_heartbeat_message_round_trip() {
    let mut heartbeat = HeartBeat::default();
    heartbeat.gps_pos_valid = true;
    heartbeat.uat_initialized = true;
    heartbeat.set_time_stamp(51876);

    let message = create_message(&Payload::HeartBeat(heartbeat)).unwrap();
    let decoded = read_message(&message.encode()).unwrap();
    assert_eq!(message, decoded);
}

#[test]
fn test_report_message_round_trip() {
    let mut report = Report::default();
    report.participant_address = 0x40AABB;
    report.set_altitude(7975);
    report.set_callsign(*b"TEST    ");
    report.set_horizontal_velocity(Some(260));
    report.set_vertical_velocity(Some(-64));

    let message = create_message(&Payload::TrafficReport(report)).unwrap();
    let decoded = read_message(&message.encode()).unwrap();
    assert_eq!(message, decoded);
    assert_eq!(decoded.message_id, 20);
}

#[test]
fn test_geometric_message_round_trip() {
    let mut geo = OwnershipGeometricAltitude::default();
    geo.set_ownship_geo_altitude(170);
    geo.set_vertical_figure_of_merit(None);

    let message = create_message(&Payload::OwnershipGeometricAltitude(geo)).unwrap();
    let decoded = read_message(&message.encode()).unwrap();
    assert_eq!(message, decoded);
    assert_eq!(decoded.message_id, 11);
}

#[test]
fn test_extended_message_round_trip() {
    let mut ahrs = AHRS::default();
    ahrs.roll = -300;
    ahrs.heading = 90;

    let message = create_message(&Payload::ExtendedX65(ExtendedX65SubMessage::AHRS(ahrs))).unwrap();
    let decoded = read_message(&message.encode()).unwrap();
    assert_eq!(message, decoded);
    assert_eq!(decoded.message_id, 0x65);

    // The sub-id byte is rewritten on encode, whatever the record held.
    if let Ok(Payload::ExtendedX65(ExtendedX65SubMessage::AHRS(back))) = decoded.get_payload() {
        assert_eq!(back.sub_id, 1);
        assert_eq!(back.roll, -300);
        assert_eq!(back.heading, 90);
    } else {
        panic!("expected an attitude sub-message");
    }
}

#[test]
fn test_escaped_payload_round_trip() {
    let bytes = vec![0x7E, 0x7D, 0x5E, 0x7D, 0x20, 0x7E];
    let message = create_message(&Payload::Unknown(0x30, bytes.clone())).unwrap();

    let encoded = message.encode();
    let decoded = read_message(&encoded).unwrap();
    assert_eq!(message, decoded);

    if let Ok(Payload::Unknown(id, back)) = decoded.get_payload() {
        assert_eq!(id, 0x30);
        assert_eq!(back, bytes);
    } else {
        panic!("expected a passthrough payload");
    }
}

#[test]
fn test_unknown_id_passthrough() {
    let message = create_message(&Payload::Unknown(0x42, vec![1, 2, 3])).unwrap();
    let decoded = read_message(&message.encode()).unwrap();

    if let Ok(Payload::Unknown(id, bytes)) = decoded.get_payload() {
        assert_eq!(id, 0x42);
        assert_eq!(bytes, vec![1, 2, 3]);
    } else {
        panic!("expected a passthrough payload");
    }
}

#[test]
fn test_empty_buffer_fails() {
    let empty: [u8; 0] = [];
    assert!(matches!(read_message(&empty), Err(GDL90Error::EmptyData)));
}

#[test]
fn test_missing_flags_fail() {
    let data = [0x01, 0x02, 0x03];
    assert!(matches!(
        read_message(&data),
        Err(GDL90Error::IncorrectlyFormatted)
    ));

    let data = [0x7E, 0x01, 0x02];
    assert!(matches!(
        read_message(&data),
        Err(GDL90Error::IncorrectlyFormatted)
    ));

    let data = [0x7E];
    assert!(matches!(
        read_message(&data),
        Err(GDL90Error::IncorrectlyFormatted)
    ));
}

#[test]
fn test_trailing_escape_fails() {
    let data = [0x7E, 0x00, 0x01, 0x02, 0x7D, 0x7E];
    assert!(matches!(
        read_message(&data),
        Err(GDL90Error::IncorrectlyFormatted)
    ));
}

#[test]
fn test_corrupted_checksum_reports_actual() {
    let mut data = vec![0x7E, 0x00, 0x81, 0x41, 0xDB, 0xD0, 0x08, 0x02, 0xB3, 0x8B, 0x7E];
    data[9] = 0x8C;
    assert!(matches!(
        read_message(&data),
        Err(GDL90Error::ChecksumMismatch(0x8BB3, 0x8CB3))
    ));
}

#[test]
fn test_short_payload_is_incomplete() {
    let message = GDL90Message {
        message_id: 0,
        data: vec![0x01, 0x02],
        checksum: 0,
    };
    assert!(matches!(
        message.get_payload(),
        Err(GDL90Error::Incomplete(32))
    ));
}

#[test]
fn test_long_payload_is_rejected() {
    let message = GDL90Message {
        message_id: 0,
        data: vec![0; 7],
        checksum: 0,
    };
    assert!(matches!(message.get_payload(), Err(GDL90Error::Parse(_))));
}

#[test]
fn test_unknown_sub_id_fails_through_frame() {
    let message = GDL90Message {
        message_id: 0x65,
        data: vec![0x09, 0x00],
        checksum: 0,
    };
    assert!(matches!(message.get_payload(), Err(GDL90Error::Parse(_))));
}

#[test]
fn test_overwide_field_is_rejected() {
    let mut geo = OwnershipGeometricAltitude::default();
    geo.vertical_figure_of_merit = 0x8000;
    assert!(matches!(
        create_message(&Payload::OwnershipGeometricAltitude(geo)),
        Err(GDL90Error::InvalidParam(_))
    ));
}
