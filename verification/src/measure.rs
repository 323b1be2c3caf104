//! The compensation engine: decodes one 8-byte raw sample block into the
//! three packed ADC values and runs the three conversions in their required
//! order — temperature first, because pressure and humidity reuse its
//! fine-temperature intermediate.

use crate::calibration::spec_fix_humid;
use crate::calibration::spec_fix_pres;
use crate::calibration::spec_same_coefficients;
use crate::calibration::spec_t_fine;
use crate::calibration::spec_temp_centi;
use crate::calibration::spec_with_t_fine;
use crate::calibration::CalibrationData;
use vstd::prelude::*;

verus! {

/// One compensated sample, in the sensor's fixed-point output scales.
#[derive(Clone, Copy, PartialEq, Debug)]
pub struct Measure {
    /// Temperature in hundredths of a degree Celsius.
    pub temperature: i32,
    /// Pressure in units of 1/256 Pa; exactly 0 when the device reports no
    /// valid pressure.
    pub pressure: u32,
    /// Relative humidity in units of 1/1024 %RH; at most 102400.
    pub humidity: u32,
}

/// The 20-bit raw pressure value packed MSB-first into bytes 0 to 2 of the
/// raw data block, the bottom four bits of byte 2 unused.
pub open spec fn spec_raw_pressure(data: Seq<u8>) -> u32
    recommends
        data.len() == 8,
{
    (((data[0] as u32) << 12) | ((data[1] as u32) << 4)) | ((data[2] as u32) >> 4)
}

/// The 20-bit raw temperature value packed MSB-first into bytes 3 to 5 of the
/// raw data block, the bottom four bits of byte 5 unused.
pub open spec fn spec_raw_temperature(data: Seq<u8>) -> u32
    recommends
        data.len() == 8,
{
    (((data[3] as u32) << 12) | ((data[4] as u32) << 4)) | ((data[5] as u32) >> 4)
}

/// The 16-bit raw humidity value packed MSB-first into bytes 6 and 7 of the
/// raw data block.
pub open spec fn spec_raw_humidity(data: Seq<u8>) -> u32
    recommends
        data.len() == 8,
{
    ((data[6] as u32) << 8) | (data[7] as u32)
}

/// The full conversion of one raw data block against a store: the sample that
/// comes out and the store as it stands afterwards, its scratch value
/// overwritten by the temperature step before the pressure and humidity steps
/// read it.
pub open spec fn spec_convert(c: CalibrationData, data: Seq<u8>) -> (Measure, CalibrationData)
    recommends
        data.len() == 8,
{
    let t_fine: i32 = spec_t_fine(c, spec_raw_temperature(data) as i32);
    let c2: CalibrationData = spec_with_t_fine(c, t_fine);
    (
        Measure {
            temperature: spec_temp_centi(t_fine),
            pressure: spec_fix_pres(c2, spec_raw_pressure(data) as i32),
            humidity: spec_fix_humid(c2, spec_raw_humidity(data) as i32),
        },
        c2,
    )
}

impl Measure {
    /// Decodes the raw data block and compensates all three quantities,
    /// overwriting the store's fine-temperature scratch value as a side
    /// effect. Temperature runs first; the pressure and humidity conversions
    /// then read the scratch value it wrote, so the sample is converted
    /// against its own fine temperature, never a stale one.
    pub fn parse(
        data: [u8; crate::registers::P_T_H_DATA_LEN],
        calibration: &mut CalibrationData,
    ) -> (m: Measure)
        ensures
            (m, *final(calibration)) == spec_convert(*old(calibration), data@),
    {
        let pressure: u32 = (((data[0] as u32) << 12) | ((data[1] as u32) << 4)) | ((data[2]
            as u32) >> 4);
        let temperature: u32 = (((data[3] as u32) << 12) | ((data[4] as u32) << 4)) | ((data[5]
            as u32) >> 4);
        let humidity: u32 = ((data[6] as u32) << 8) | (data[7] as u32);

        let temperature: i32 = calibration.fix_temp(#[verifier::truncate] (temperature as i32));
        let pressure: u32 = calibration.fix_pres(#[verifier::truncate] (pressure as i32));
        let humidity: u32 = calibration.fix_humid(#[verifier::truncate] (humidity as i32));
        Measure { temperature, pressure, humidity }
    }
}

/// Converting a sample does not depend on the scratch value an earlier sample
/// left behind: two stores with the same coefficients convert the same raw
/// block to the same sample and end in the same state, whatever their
/// fine-temperature values were before. In particular, converting the same
/// block twice from stores whose scratch value was reset in between gives
/// identical output both times.
pub proof fn lemma_prior_scratch_irrelevant(a: CalibrationData, b: CalibrationData, data: Seq<u8>)
    requires
        spec_same_coefficients(a, b),
    ensures
        spec_convert(a, data) == spec_convert(b, data),
{
    let t_fine: i32 = spec_t_fine(a, spec_raw_temperature(data) as i32);
    assert(spec_t_fine(b, spec_raw_temperature(data) as i32) == t_fine);
    assert(spec_with_t_fine(a, t_fine) == spec_with_t_fine(b, t_fine));
}

} // verus!
