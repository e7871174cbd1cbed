use gdl90codec::heartbeat::HeartBeat;

#[test]
fn test_encode_decode1() {
    let data = [0x01, 0x00, 0xf7, 0xd1, 0x00, 0x00];
    let mut heartbeat = HeartBeat::try_from(&data[..]).unwrap();

    assert_eq!(53751, heartbeat.get_time_stamp());

    heartbeat.set_time_stamp(53751);

    let encode = heartbeat.to_bytes().unwrap();
    assert_eq!(&encode[..], &data[..]);
}

#[test]
fn test_encode_decode2() {
    let data = [0x01, 0x00, 0xf7, 0xd1, 0x00, 0x00];
    let mut heartbeat = HeartBeat::default();

    heartbeat.uat_initialized = true;
    heartbeat.set_time_stamp(53751);

    assert_eq!(53751, heartbeat.get_time_stamp());

    let encoded = heartbeat.to_bytes().unwrap();
    assert_eq!(&data[..], &encoded[..]);
}

#[test]
fn test_encode_decode3() {
    let data = [0x81, 0x80, 0x7d, 0x12, 0x00, 0x00];
    let heartbeat = HeartBeat::try_from(&data[..]).unwrap();

    let mut new_heartbeat = HeartBeat::default();

    new_heartbeat.gps_pos_valid = true;
    new_heartbeat.uat_initialized = true;
    new_heartbeat.time_stamp_msb = true;
    new_heartbeat.time_stamp = 32018;

    let new_data = new_heartbeat.to_bytes().unwrap();

    assert_eq!(heartbeat, new_heartbeat);
    assert_eq!(&data[..], &new_data[..]);
}

#[test]
fn test_timestamp() {
    let mut heartbeat = HeartBeat::default();
    heartbeat.set_time_stamp(53236);

    assert_eq!(53236, heartbeat.get_time_stamp());
}
