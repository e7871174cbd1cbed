use gdl90codec::report::{
    AddressType, EmergencyPriorityCode, EmitterCategory, FlightStage, HeadingType, NACp, Report,
    ReportType, TrafficAlertStatus, NIC,
};

/// The degrees a raw 24-bit semicircle field stands for, as the library's
/// callers compute it outside the verified crate.
fn lat_long_raw_to_degrees(value: u32) -> f32 {
    let fraction = if value & 0x800000 != 0 {
        (value as i32) | !0xFFFFFF
    } else {
        value as i32
    };
    ((fraction * 45) as f32) / ((1 << 21) as f32)
}

#[test]
fn test_report() {
    let data: Vec<u8> = vec![
        0x00, 0x40, 0xaa, 0xbb, 0x24, 0x8e, 0x4a, 0xff, 0xb1, 0x6e, 0x16, 0x79, 0x89, 0x10, 0x4f,
        0xff, 0x12, 0x05, 0x54, 0x45, 0x53, 0x54, 0x20, 0x20, 0x20, 0x20, 0x06,
    ];

    let report = Report::try_from(&data[..]).unwrap();

    assert_eq!(report.get_callsign().unwrap(), "TEST    ".to_owned());
    assert_eq!(
        report.get_traffic_alert_status(),
        TrafficAlertStatus::NoAlert
    );
    assert_eq!(report.get_address_type(), AddressType::ADSBWithICAOAddress);
    assert_eq!(report.participant_address, 0x40AABB); // Fake address
    assert_eq!(lat_long_raw_to_degrees(report.latitude), 51.406617164612);
    assert_eq!(lat_long_raw_to_degrees(report.longitude), -0.43159961700439);
    assert_eq!(report.get_altitude(), 7975);
    assert_eq!(report.get_flight_stage(), FlightStage::Airborne);
    assert_eq!(report.get_report_type(), ReportType::ReportIsUpdated);
    assert_eq!(report.navigation_integrity_category, 8);
    assert_eq!(report.navigation_accuracy_category_for_position, 9);
    assert_eq!(report.get_horizontal_velocity(), Some(260));
    assert_eq!(report.get_vertical_velocity(), Some(-64));
    assert_eq!((report.track_heading as f32 * 360.) / 256., 25.3125);
    assert_eq!(report.get_navigation_integrity_category(), NIC::Lt0_1NM);
    assert_eq!(
        report.get_navigation_accuracy_category_for_position(),
        NACp::HFOMlt30mAndVFOMlt45m
    );
    assert_eq!(report.get_emitter_category(), EmitterCategory::Heavy);
    assert_eq!(
        report.get_emergency_priority_code(),
        EmergencyPriorityCode::NoEmergency
    );

    let encoded = report.to_bytes().unwrap();
    assert_eq!(&data[..], &encoded[..]);
}

#[test]
fn test_traffic_alert_status() {
    let mut report = Report::default();
    report.set_traffic_alert_status(TrafficAlertStatus::Reserved8);
    assert_eq!(
        TrafficAlertStatus::Reserved8,
        report.get_traffic_alert_status()
    );
}

#[test]
fn test_address_type() {
    let mut report = Report::default();
    report.set_address_type(AddressType::Reserved8);
    assert_eq!(AddressType::Reserved8, report.get_address_type());
}

#[test]
fn test_heading_type() {
    let mut report = Report::default();
    report.set_heading_type(HeadingType::TrueTrackAngle);
    assert_eq!(HeadingType::TrueTrackAngle, report.get_heading_type());
}

#[test]
fn test_report_type() {
    let mut report = Report::default();
    report.set_report_type(ReportType::ReportIsExtrapolated);
    assert_eq!(ReportType::ReportIsExtrapolated, report.get_report_type());
}

#[test]
fn test_flight_stage() {
    let mut report = Report::default();
    report.set_flight_stage(FlightStage::Airborne);
    assert_eq!(FlightStage::Airborne, report.get_flight_stage());
}

#[test]
fn test_vertical_velocity_sentinel() {
    let mut report = Report::default();

    report.set_vertical_velocity(None);
    assert_eq!(None, report.get_vertical_velocity());
    assert_eq!(0x800, report.vertical_velocity);

    report.set_vertical_velocity(Some(-64));
    assert_eq!(Some(-64), report.get_vertical_velocity());
    assert_eq!(0xFFF, report.vertical_velocity);

    report.set_vertical_velocity(Some(128));
    assert_eq!(Some(128), report.get_vertical_velocity());
    assert_eq!(2, report.vertical_velocity);
}

#[test]
fn test_horizontal_velocity_sentinel() {
    let mut report = Report::default();

    report.set_horizontal_velocity(None);
    assert_eq!(None, report.get_horizontal_velocity());
    assert_eq!(0xFFF, report.horizontal_velocity);

    report.set_horizontal_velocity(Some(0xFFF));
    assert_eq!(None, report.get_horizontal_velocity());

    report.set_horizontal_velocity(Some(260));
    assert_eq!(Some(260), report.get_horizontal_velocity());
}

#[test]
fn test_altitude_scaling() {
    let mut report = Report::default();
    report.set_altitude(7975);
    assert_eq!(359, report.altitude);
    assert_eq!(7975, report.get_altitude());

    report.set_altitude(-1000);
    assert_eq!(0, report.altitude);
    assert_eq!(-1000, report.get_altitude());
}

#[test]
fn test_callsign_round_trip() {
    let mut report = Report::default();
    report.set_callsign(*b"TEST    ");
    assert_eq!("TEST    ", report.get_callsign().unwrap());
}

#[test]
fn test_callsign_invalid_utf8() {
    let mut report = Report::default();
    report.set_callsign([0xFF; 8]);
    assert!(report.get_callsign().is_err());
}
