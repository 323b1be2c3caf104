//! The sensor's register map and the small byte-level decisions the driver
//! makes around it: whether a forced measurement must be triggered before a
//! read, and how the four-wire transport frames a register address.

use vstd::prelude::*;

verus! {

/// Address of the filter/standby configuration register.
pub const CONFIG: u8 = 0xF5;

/// Address of the oversampling-and-mode register.
pub const CTRL_MEAS: u8 = 0xF4;

/// Address of the humidity-oversampling register.
pub const CTRL_HUM: u8 = 0xF2;

/// Address of the soft-reset register.
pub const RESET: u8 = 0xE0;

/// Byte written to [`RESET`] to soft-reset the chip.
pub const RESET_CODE: u8 = 0xB6;

/// Start address of the humidity calibration block.
pub const H_CALIB_DATA_ADDR: u8 = 0xE1;

/// Length in bytes of the humidity calibration block.
pub const H_CALIB_DATA_LEN: usize = 7;

/// Start address of the pressure/temperature calibration block.
pub const P_T_CALIB_DATA_ADDR: u8 = 0x88;

/// Length in bytes of the pressure/temperature calibration block.
pub const P_T_CALIB_DATA_LEN: usize = 26;

/// Start address of the raw measurement block.
pub const DATA_ADDR: u8 = 0xF7;

/// Length in bytes of the raw measurement block.
pub const P_T_H_DATA_LEN: usize = 8;

/// The mode field: the low two bits of the `ctrl_meas` byte.
pub open spec fn mode_bits(ctrl_meas: u8) -> u8 {
    ctrl_meas & 0x03
}

/// Whether a one-shot measurement must be triggered before reading the data
/// block: mode `00` is sleep and `11` is normal; any other mode is forced and
/// needs a trigger write first.
pub fn needs_forced_trigger(ctrl_meas: u8) -> (r: bool)
    ensures
        r == (mode_bits(ctrl_meas) != 0x00 && mode_bits(ctrl_meas) != 0x03),
{
    let mode: u8 = ctrl_meas & 0x03;
    mode != 0x00 && mode != 0x03
}

/// The address byte the four-wire transport sends for a read: the register
/// address with the top bit set.
pub fn spi_read_address(register: u8) -> (r: u8)
    ensures
        r == (register | 0x80),
{
    register | 0x80
}

/// The address byte the four-wire transport sends for a write: the register
/// address with the top bit cleared.
pub fn spi_write_address(register: u8) -> (r: u8)
    ensures
        r == (register & 0x7F),
{
    register & 0x7F
}

} // verus!
