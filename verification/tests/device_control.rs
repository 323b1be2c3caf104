use bme280::registers;
use bme280::Settings;

#[test]
fn default_settings_are_weather_profile() {
    let s = Settings::default();
    assert_eq!(s.config, 0b0000_0000); // filter off, shortest standby
    assert_eq!(s.ctrl_meas, 0b0010_0110); // x1 oversampling, forced mode
    assert_eq!(s.ctrl_hum, 0b0000_0001); // humidity x1
}

#[test]
fn forced_trigger_needed_only_outside_sleep_and_normal() {
    assert!(!registers::needs_forced_trigger(0b0000_0000)); // sleep
    assert!(!registers::needs_forced_trigger(0b0010_0100)); // sleep, oversampling set
    assert!(!registers::needs_forced_trigger(0b0000_0011)); // normal
    assert!(!registers::needs_forced_trigger(0b1111_1111)); // normal
    assert!(registers::needs_forced_trigger(0b0000_0001)); // forced
    assert!(registers::needs_forced_trigger(0b0000_0010)); // forced
    assert!(registers::needs_forced_trigger(Settings::default().ctrl_meas));
}

#[test]
fn spi_address_framing() {
    // reads set the top bit, writes clear it
    assert_eq!(registers::spi_read_address(0x77), 0xF7);
    assert_eq!(registers::spi_read_address(registers::DATA_ADDR), 0xF7);
    assert_eq!(registers::spi_write_address(registers::CTRL_MEAS), 0x74);
    assert_eq!(registers::spi_write_address(0x74), 0x74);
}

#[test]
fn register_map() {
    assert_eq!(registers::CONFIG, 0xF5);
    assert_eq!(registers::CTRL_MEAS, 0xF4);
    assert_eq!(registers::CTRL_HUM, 0xF2);
    assert_eq!(registers::RESET, 0xE0);
    assert_eq!(registers::RESET_CODE, 0xB6);
    assert_eq!(registers::H_CALIB_DATA_ADDR, 0xE1);
    assert_eq!(registers::P_T_CALIB_DATA_ADDR, 0x88);
    assert_eq!(registers::DATA_ADDR, 0xF7);
    assert_eq!(registers::H_CALIB_DATA_LEN, 7);
    assert_eq!(registers::P_T_CALIB_DATA_LEN, 26);
    assert_eq!(registers::P_T_H_DATA_LEN, 8);
}
