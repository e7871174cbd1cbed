use gdl90codec::geometric::OwnershipGeometricAltitude;

#[test]
fn test_encode_decode() {
    let data = [0x00, 0x22, 0x00, 0x75];
    let geo = OwnershipGeometricAltitude::try_from(&data[..]).unwrap();

    let mut new_geo = OwnershipGeometricAltitude::default();
    new_geo.set_ownship_geo_altitude(170);
    new_geo.set_vertical_figure_of_merit(Some(117));

    let encode = new_geo.to_bytes().unwrap();

    assert_eq!(geo, new_geo);
    assert_eq!(&data[..], &encode[..]);
}

#[test]
fn test_geo_altitude_scaling() {
    let mut geo = OwnershipGeometricAltitude::default();
    geo.set_ownship_geo_altitude(170);
    assert_eq!(170, geo.get_ownship_geo_altitude());
    assert_eq!(34, geo.ownship_geo_altitude);

    geo.set_vertical_warning_indicator(true);
    assert!(geo.get_vertical_warning_indicator());
}

#[test]
fn test_vfom_sentinel() {
    let mut geo = OwnershipGeometricAltitude::default();
    geo.set_vertical_figure_of_merit(None);
    assert_eq!(None, geo.get_vertical_figure_of_merit());
    assert_eq!(0x7FFF, geo.vertical_figure_of_merit);

    geo.set_vertical_figure_of_merit(Some(117));
    assert_eq!(Some(117), geo.get_vertical_figure_of_merit());
}

#[test]
fn test_vfom_too_wide_is_rejected() {
    let mut geo = OwnershipGeometricAltitude::default();
    geo.vertical_figure_of_merit = 0x8000;
    assert!(matches!(
        geo.to_bytes(),
        Err(gdl90codec::error::GDL90Error::InvalidParam(_))
    ));
}
