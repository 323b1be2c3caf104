use bme280::calibration::CalibrationData;

/// Calibration fixture: a realistic coefficient set encoded into the two raw
/// blocks exactly as the device lays them out.
fn pt_block() -> [u8; 26] {
    [
        112, 107, 67, 103, 24, 252, 125, 142, 67, 214, 208, 11, 39, 11, 140, 0, 249, 255, 140, 60,
        248, 198, 112, 23, 0, 75,
    ]
}

fn h_block() -> [u8; 7] {
    [104, 1, 0, 20, 37, 3, 30]
}

#[test]
fn parse_decodes_every_coefficient() {
    let c = CalibrationData::parse_calib_data(pt_block(), h_block());
    assert_eq!(c.dig_t1, 27504);
    assert_eq!(c.dig_t2, 26435);
    assert_eq!(c.dig_t3, -1000);
    assert_eq!(c.dig_p1, 36477);
    assert_eq!(c.dig_p2, -10685);
    assert_eq!(c.dig_p3, 3024);
    assert_eq!(c.dig_p4, 2855);
    assert_eq!(c.dig_p5, 140);
    assert_eq!(c.dig_p6, -7);
    assert_eq!(c.dig_p7, 15500);
    assert_eq!(c.dig_p8, -14600);
    assert_eq!(c.dig_p9, 6000);
    assert_eq!(c.dig_h1, 75);
    assert_eq!(c.dig_h2, 360);
    assert_eq!(c.dig_h3, 0);
    assert_eq!(c.dig_h4, 325);
    assert_eq!(c.dig_h5, 50);
    assert_eq!(c.dig_h6, 30);
    assert_eq!(c.t_fine, 0);
}

#[test]
fn parse_is_deterministic() {
    let a = CalibrationData::parse_calib_data(pt_block(), h_block());
    let b = CalibrationData::parse_calib_data(pt_block(), h_block());
    assert_eq!(a, b);
}

#[test]
fn parse_is_total_on_degenerate_blocks() {
    // all-zero and all-ones blocks (device absent, bus stuck) still decode
    let z = CalibrationData::parse_calib_data([0x00; 26], [0x00; 7]);
    assert_eq!(z.dig_t1, 0);
    assert_eq!(z.dig_h4, 0);
    let f = CalibrationData::parse_calib_data([0xFF; 26], [0xFF; 7]);
    assert_eq!(f.dig_t1, 0xFFFF);
    assert_eq!(f.dig_t2, -1);
    assert_eq!(f.dig_h6, -1);
}

#[test]
fn split_nibble_decoding() {
    // last four humidity bytes 0x12, 0x34, 0x56, 0x01:
    // dig_h4 = (0x12 << 4) | low nibble of 0x34 = 0x124
    // dig_h5 = (0x56 << 4) | high nibble of 0x34 = 0x563
    let c = CalibrationData::parse_calib_data([0; 26], [0, 0, 0, 0x12, 0x34, 0x56, 0x01]);
    assert_eq!(c.dig_h4, 0x124);
    assert_eq!(c.dig_h4, 292);
    assert_eq!(c.dig_h5, 0x563);
    assert_eq!(c.dig_h5, 1379);
    assert_eq!(c.dig_h6, 1);
}

#[test]
fn split_nibble_sign_extends() {
    // bytes at offsets 3 and 5 are signed: 0x80 and 0x85 must widen negative
    let c = CalibrationData::parse_calib_data([0; 26], [0, 0, 0, 0x80, 0x9C, 0x85, 0x80]);
    assert_eq!(c.dig_h4, -2036);
    assert_eq!(c.dig_h5, -1959);
    assert_eq!(c.dig_h6, -128);
}
