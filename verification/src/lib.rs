//! Verified core of a driver for the BME280 combined
//! temperature/pressure/humidity sensor.
//!
//! The library owns the two parts of the driver with real logic: decoding the
//! factory calibration blocks into named coefficients, and the manufacturer's
//! fixed-point compensation algorithm that turns raw ADC counts into physical
//! quantities. Both are specified and proved here. The bus transports (a
//! two-wire and a four-wire backend) only move bytes and live outside the
//! library.

pub mod calibration;
pub mod measure;
pub mod registers;

use vstd::prelude::*;

verus! {

/// Configuration bytes for the sensor, written to the `config`, `ctrl_meas`
/// and `ctrl_hum` registers.
///
/// The default is suited to weather measurements: every quantity oversampled
/// once, forced mode, filter off.
pub struct Settings {
    /// t_sb[2:0], filter[2:0], one unused bit, spi3w_en[0]
    pub config: u8,
    /// osrs_t[2:0], osrs_p[2:0], mode[1:0]
    pub ctrl_meas: u8,
    /// five unused bits, osrs_h[2:0]
    pub ctrl_hum: u8,
}

impl Default for Settings {
    fn default() -> (s: Settings)
        ensures
            s.config == 0x00,
            s.ctrl_meas == 0x26,
            s.ctrl_hum == 0x01,
    {
        Settings { config: 0b0000_0000, ctrl_meas: 0b0010_0110, ctrl_hum: 0b0000_0001 }
    }
}

} // verus!
