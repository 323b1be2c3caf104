//! The calibration store: the factory-programmed coefficients of one sensor
//! unit, decoded from the two raw calibration blocks, plus the fine-temperature
//! scratch value that the temperature conversion writes and the pressure and
//! humidity conversions read.
//!
//! The three `fix_*` conversions reproduce the manufacturer's fixed-point
//! compensation algorithm bit for bit: 32-bit and 64-bit signed intermediates
//! with two's-complement wraparound, arithmetic right shifts, truncating
//! division, one division-by-zero guard in the pressure formula and one
//! clamping step in the humidity formula. The spec functions below state that
//! algorithm step by step; each executable conversion is proved equal to its
//! spec function, and a few proof functions state the laws that follow.

use vstd::prelude::*;

verus! {

/// The named calibration coefficients of one device, plus the
/// fine-temperature scratch value shared by the conversions of one sample.
///
/// The coefficients are written once, by [`CalibrationData::parse_calib_data`],
/// and never change afterwards; only `t_fine` is overwritten, once per sample,
/// by [`CalibrationData::fix_temp`].
#[derive(Clone, Copy, PartialEq, Debug)]
pub struct CalibrationData {
    /// Temperature coefficient 1 (unsigned).
    pub dig_t1: u16,
    /// Temperature coefficient 2.
    pub dig_t2: i16,
    /// Temperature coefficient 3.
    pub dig_t3: i16,
    /// Pressure coefficient 1 (unsigned).
    pub dig_p1: u16,
    /// Pressure coefficient 2.
    pub dig_p2: i16,
    /// Pressure coefficient 3.
    pub dig_p3: i16,
    /// Pressure coefficient 4.
    pub dig_p4: i16,
    /// Pressure coefficient 5.
    pub dig_p5: i16,
    /// Pressure coefficient 6.
    pub dig_p6: i16,
    /// Pressure coefficient 7.
    pub dig_p7: i16,
    /// Pressure coefficient 8.
    pub dig_p8: i16,
    /// Pressure coefficient 9.
    pub dig_p9: i16,
    /// Humidity coefficient 1 (unsigned byte).
    pub dig_h1: u8,
    /// Humidity coefficient 2.
    pub dig_h2: i16,
    /// Humidity coefficient 3 (unsigned byte).
    pub dig_h3: u8,
    /// Humidity coefficient 4 (split-nibble encoded on the device).
    pub dig_h4: i16,
    /// Humidity coefficient 5 (split-nibble encoded on the device).
    pub dig_h5: i16,
    /// Humidity coefficient 6 (signed byte).
    pub dig_h6: i8,
    /// Fine-resolution temperature intermediate, written by the temperature
    /// conversion of a sample and read by its pressure and humidity
    /// conversions.
    pub t_fine: i32,
}

/// Two calibration bytes combined little-endian: the byte at the higher
/// device address is the high byte.
pub open spec fn concat16(msb: u8, lsb: u8) -> u16 {
    ((msb as u16) << 8) | (lsb as u16)
}

/// The coefficients decoded from a 26-byte pressure/temperature calibration
/// block and a 7-byte humidity calibration block, with the scratch value
/// starting at zero.
pub open spec fn spec_parse_calib_data(pt: Seq<u8>, h: Seq<u8>) -> CalibrationData
    recommends
        pt.len() == 26,
        h.len() == 7,
{
    CalibrationData {
        dig_t1: concat16(pt[1], pt[0]),
        dig_t2: concat16(pt[3], pt[2]) as i16,
        dig_t3: concat16(pt[5], pt[4]) as i16,
        dig_p1: concat16(pt[7], pt[6]),
        dig_p2: concat16(pt[9], pt[8]) as i16,
        dig_p3: concat16(pt[11], pt[10]) as i16,
        dig_p4: concat16(pt[13], pt[12]) as i16,
        dig_p5: concat16(pt[15], pt[14]) as i16,
        dig_p6: concat16(pt[17], pt[16]) as i16,
        dig_p7: concat16(pt[19], pt[18]) as i16,
        dig_p8: concat16(pt[21], pt[20]) as i16,
        dig_p9: concat16(pt[23], pt[22]) as i16,
        dig_h1: pt[25],
        dig_h2: concat16(h[1], h[0]) as i16,
        dig_h3: h[2],
        dig_h4: (((h[3] as i8 as i16) * 16) as i16) | ((h[4] as i8 as i16) & 0x0F),
        dig_h5: (((h[5] as i8 as i16) * 16) as i16) | (((h[4] as i8 as i16) & 0xF0) >> 4),
        dig_h6: h[6] as i8,
        t_fine: 0,
    }
}

/// `c` with its scratch value replaced and every coefficient kept.
pub open spec fn spec_with_t_fine(c: CalibrationData, t_fine: i32) -> CalibrationData {
    CalibrationData {
        dig_t1: c.dig_t1,
        dig_t2: c.dig_t2,
        dig_t3: c.dig_t3,
        dig_p1: c.dig_p1,
        dig_p2: c.dig_p2,
        dig_p3: c.dig_p3,
        dig_p4: c.dig_p4,
        dig_p5: c.dig_p5,
        dig_p6: c.dig_p6,
        dig_p7: c.dig_p7,
        dig_p8: c.dig_p8,
        dig_p9: c.dig_p9,
        dig_h1: c.dig_h1,
        dig_h2: c.dig_h2,
        dig_h3: c.dig_h3,
        dig_h4: c.dig_h4,
        dig_h5: c.dig_h5,
        dig_h6: c.dig_h6,
        t_fine: t_fine,
    }
}

/// Whether two stores carry the same coefficients; their scratch values may
/// differ.
pub open spec fn spec_same_coefficients(a: CalibrationData, b: CalibrationData) -> bool {
    &&& a.dig_t1 == b.dig_t1
    &&& a.dig_t2 == b.dig_t2
    &&& a.dig_t3 == b.dig_t3
    &&& a.dig_p1 == b.dig_p1
    &&& a.dig_p2 == b.dig_p2
    &&& a.dig_p3 == b.dig_p3
    &&& a.dig_p4 == b.dig_p4
    &&& a.dig_p5 == b.dig_p5
    &&& a.dig_p6 == b.dig_p6
    &&& a.dig_p7 == b.dig_p7
    &&& a.dig_p8 == b.dig_p8
    &&& a.dig_p9 == b.dig_p9
    &&& a.dig_h1 == b.dig_h1
    &&& a.dig_h2 == b.dig_h2
    &&& a.dig_h3 == b.dig_h3
    &&& a.dig_h4 == b.dig_h4
    &&& a.dig_h5 == b.dig_h5
    &&& a.dig_h6 == b.dig_h6
}

/// The fine-resolution temperature of a raw temperature reading: the sum of
/// the two 32-bit intermediates of the manufacturer's temperature formula.
/// It depends only on the temperature coefficients and the raw value, never
/// on the scratch value a previous sample left behind.
pub open spec fn spec_t_fine(c: CalibrationData, adc_t: i32) -> i32 {
    let var1: i32 = ((adc_t >> 3).wrapping_sub((c.dig_t1 as i32) << 1)).wrapping_mul(
        c.dig_t2 as i32,
    ) >> 11;
    let d: i32 = (adc_t >> 4).wrapping_sub(c.dig_t1 as i32);
    let var2: i32 = ((d.wrapping_mul(d) >> 12).wrapping_mul(c.dig_t3 as i32)) >> 14;
    var1.wrapping_add(var2)
}

/// Temperature in hundredths of a degree, derived from the fine temperature.
pub open spec fn spec_temp_centi(t_fine: i32) -> i32 {
    t_fine.wrapping_mul(5).wrapping_add(128) >> 8
}

/// Rust's truncating signed division, total: on the one overflowing pair
/// (`i64::MIN / -1`) it gives the wrapped quotient `i64::MIN`.
pub open spec fn spec_div_wrap(a: i64, b: i64) -> i64
    recommends
        b != 0,
{
    match a.checked_div(b) {
        Some(q) => q,
        None => i64::MIN,
    }
}

/// The 64-bit `var1` divisor of the manufacturer's pressure formula. When it
/// is zero the formula reports no valid pressure.
pub open spec fn spec_pressure_var1(c: CalibrationData) -> i64 {
    let v: i64 = (c.t_fine as i64).wrapping_sub(128000);
    let var1: i64 = (v.wrapping_mul(v).wrapping_mul(c.dig_p3 as i64) >> 8).wrapping_add(
        v.wrapping_mul(c.dig_p2 as i64) << 12,
    );
    ((1i64 << 47).wrapping_add(var1)).wrapping_mul(c.dig_p1 as i64) >> 33
}

/// Pressure in 1/256 Pa from a raw pressure reading, by the manufacturer's
/// 64-bit fixed-point formula, reading the fine temperature in `c`. Zero when
/// the formula's divisor `var1` is zero.
pub open spec fn spec_fix_pres(c: CalibrationData, adc_p: i32) -> u32 {
    let v: i64 = (c.t_fine as i64).wrapping_sub(128000);
    let var2: i64 = v.wrapping_mul(v).wrapping_mul(c.dig_p6 as i64).wrapping_add(
        v.wrapping_mul(c.dig_p5 as i64) << 17,
    ).wrapping_add((c.dig_p4 as i64) << 35);
    let var1: i64 = spec_pressure_var1(c);
    if var1 == 0 {
        0u32
    } else {
        let p0: i64 = (1048576i64).wrapping_sub(adc_p as i64);
        let p: i64 = spec_div_wrap(((p0 << 31).wrapping_sub(var2)).wrapping_mul(3125), var1);
        let v1: i64 = (c.dig_p9 as i64).wrapping_mul(p >> 13).wrapping_mul(p >> 13) >> 25;
        let v2: i64 = (c.dig_p8 as i64).wrapping_mul(p) >> 19;
        ((p.wrapping_add(v1).wrapping_add(v2) >> 8).wrapping_add((c.dig_p7 as i64) << 4)) as u32
    }
}

/// The humidity intermediate after the manufacturer's 32-bit formula, before
/// clamping: the value whose range the clamp then forces into the Q10 domain.
pub open spec fn spec_humid_unclamped(c: CalibrationData, adc_h: i32) -> i32 {
    let v0: i32 = c.t_fine.wrapping_sub(76800);
    let lhs: i32 = ((adc_h << 14).wrapping_sub((c.dig_h4 as i32) << 20).wrapping_sub(
        (c.dig_h5 as i32).wrapping_mul(v0),
    ).wrapping_add(16384)) >> 15;
    let rhs: i32 = (((((v0.wrapping_mul(c.dig_h6 as i32) >> 10).wrapping_mul(
        (v0.wrapping_mul(c.dig_h3 as i32) >> 11).wrapping_add(32768),
    )) >> 10).wrapping_add(2097152)).wrapping_mul(c.dig_h2 as i32).wrapping_add(8192)) >> 14;
    let v1: i32 = lhs.wrapping_mul(rhs);
    v1.wrapping_sub((((v1 >> 15).wrapping_mul(v1 >> 15) >> 7).wrapping_mul(c.dig_h1 as i32)) >> 4)
}

/// Humidity in 1/1024 %RH from a raw humidity reading, reading the fine
/// temperature in `c`: the intermediate is clamped to `[0, 419430400]` and
/// then scaled into the Q10 domain.
pub open spec fn spec_fix_humid(c: CalibrationData, adc_h: i32) -> u32 {
    let v: i32 = spec_humid_unclamped(c, adc_h);
    let clamped: i32 = if v < 0 {
        0
    } else if v > 419430400 {
        419430400
    } else {
        v
    };
    (clamped >> 12) as u32
}

impl CalibrationData {
    /// Decodes the 26-byte pressure/temperature calibration block and the
    /// 7-byte humidity calibration block into a store.
    ///
    /// Total and deterministic: every pair of blocks decodes, without error.
    /// 16-bit coefficients are little-endian byte pairs; the humidity
    /// coefficients at offsets 3 to 5 of the humidity block are split-nibble
    /// encoded with the whole bytes treated as signed before widening; the
    /// scratch value starts at zero.
    pub fn parse_calib_data(
        pt_data: [u8; crate::registers::P_T_CALIB_DATA_LEN],
        h_data: [u8; crate::registers::H_CALIB_DATA_LEN],
    ) -> (c: CalibrationData)
        ensures
            c == spec_parse_calib_data(pt_data@, h_data@),
    {
        let dig_t1: u16 = ((pt_data[1] as u16) << 8) | (pt_data[0] as u16);
        let dig_t2: i16 = (((pt_data[3] as u16) << 8) | (pt_data[2] as u16)) as i16;
        let dig_t3: i16 = (((pt_data[5] as u16) << 8) | (pt_data[4] as u16)) as i16;
        let dig_p1: u16 = ((pt_data[7] as u16) << 8) | (pt_data[6] as u16);
        let dig_p2: i16 = (((pt_data[9] as u16) << 8) | (pt_data[8] as u16)) as i16;
        let dig_p3: i16 = (((pt_data[11] as u16) << 8) | (pt_data[10] as u16)) as i16;
        let dig_p4: i16 = (((pt_data[13] as u16) << 8) | (pt_data[12] as u16)) as i16;
        let dig_p5: i16 = (((pt_data[15] as u16) << 8) | (pt_data[14] as u16)) as i16;
        let dig_p6: i16 = (((pt_data[17] as u16) << 8) | (pt_data[16] as u16)) as i16;
        let dig_p7: i16 = (((pt_data[19] as u16) << 8) | (pt_data[18] as u16)) as i16;
        let dig_p8: i16 = (((pt_data[21] as u16) << 8) | (pt_data[20] as u16)) as i16;
        let dig_p9: i16 = (((pt_data[23] as u16) << 8) | (pt_data[22] as u16)) as i16;
        let dig_h1: u8 = pt_data[25];
        let dig_h2: i16 = (((h_data[1] as u16) << 8) | (h_data[0] as u16)) as i16;
        let dig_h3: u8 = h_data[2];
        let h3s: i16 = #[verifier::truncate] (h_data[3] as i8) as i16;
        let h4s: i16 = #[verifier::truncate] (h_data[4] as i8) as i16;
        let h5s: i16 = #[verifier::truncate] (h_data[5] as i8) as i16;
        let dig_h4: i16 = (h3s * 16) | (h4s & 0x0F);
        let dig_h5: i16 = (h5s * 16) | ((h4s & 0xF0) >> 4);
        let dig_h6: i8 = #[verifier::truncate] (h_data[6] as i8);
        CalibrationData {
            dig_t1,
            dig_t2,
            dig_t3,
            dig_p1,
            dig_p2,
            dig_p3,
            dig_p4,
            dig_p5,
            dig_p6,
            dig_p7,
            dig_p8,
            dig_p9,
            dig_h1,
            dig_h2,
            dig_h3,
            dig_h4,
            dig_h5,
            dig_h6,
            t_fine: 0,
        }
    }

    /// The temperature conversion: overwrites the fine-temperature scratch
    /// value from the raw temperature reading and the temperature
    /// coefficients, and returns the temperature in hundredths of a degree.
    ///
    /// Must run before [`CalibrationData::fix_pres`] and
    /// [`CalibrationData::fix_humid`] for the same sample: both read the
    /// scratch value this writes.
    pub fn fix_temp(&mut self, adc_t: i32) -> (r: i32)
        ensures
            *final(self) == spec_with_t_fine(*old(self), spec_t_fine(*old(self), adc_t)),
            r == spec_temp_centi(final(self).t_fine),
    {
        let var1: i32 = ((adc_t >> 3).wrapping_sub((self.dig_t1 as i32) << 1)).wrapping_mul(
            self.dig_t2 as i32,
        ) >> 11;
        let d: i32 = (adc_t >> 4).wrapping_sub(self.dig_t1 as i32);
        let var2: i32 = ((d.wrapping_mul(d) >> 12).wrapping_mul(self.dig_t3 as i32)) >> 14;
        self.t_fine = var1.wrapping_add(var2);
        self.t_fine.wrapping_mul(5).wrapping_add(128) >> 8
    }

    /// The pressure conversion: turns a raw pressure reading into pressure in
    /// units of 1/256 Pa, using the fine temperature stored by the sample's
    /// temperature conversion. Returns exactly 0 when the formula's 64-bit
    /// divisor `var1` is zero — the sentinel for "no valid pressure" — and the
    /// compensated value otherwise.
    pub fn fix_pres(&self, adc_p: i32) -> (r: u32)
        ensures
            r == spec_fix_pres(*self, adc_p),
            spec_pressure_var1(*self) == 0 ==> r == 0,
    {
        let v: i64 = (self.t_fine as i64).wrapping_sub(128000);
        let var2: i64 = v.wrapping_mul(v).wrapping_mul(self.dig_p6 as i64).wrapping_add(
            v.wrapping_mul(self.dig_p5 as i64) << 17,
        ).wrapping_add((self.dig_p4 as i64) << 35);
        let var1: i64 = ((1i64 << 47).wrapping_add(
            (v.wrapping_mul(v).wrapping_mul(self.dig_p3 as i64) >> 8).wrapping_add(
                v.wrapping_mul(self.dig_p2 as i64) << 12,
            ),
        )).wrapping_mul(self.dig_p1 as i64) >> 33;
        if var1 == 0 {
            // avoid the division below: the device reports no valid pressure
            return 0;
        }
        let p0: i64 = (1048576i64).wrapping_sub(adc_p as i64);
        let p: i64 = match ((p0 << 31).wrapping_sub(var2)).wrapping_mul(3125).checked_div(var1) {
            Some(q) => q,
            None => i64::MIN,
        };
        let v1: i64 = (self.dig_p9 as i64).wrapping_mul(p >> 13).wrapping_mul(p >> 13) >> 25;
        let v2: i64 = (self.dig_p8 as i64).wrapping_mul(p) >> 19;
        #[verifier::truncate]
        ((p.wrapping_add(v1).wrapping_add(v2) >> 8).wrapping_add((self.dig_p7 as i64) << 4) as u32)
    }

    /// The humidity conversion: turns a raw humidity reading into humidity in
    /// units of 1/1024 %RH, using the fine temperature stored by the sample's
    /// temperature conversion. The 32-bit intermediate is clamped to
    /// `[0, 419430400]` before the final shift, so the result never exceeds
    /// 102400 (100 %RH in the Q10 domain).
    pub fn fix_humid(&self, adc_h: i32) -> (r: u32)
        ensures
            r == spec_fix_humid(*self, adc_h),
            r <= 102400,
    {
        let v0: i32 = self.t_fine.wrapping_sub(76800);
        let lhs: i32 = ((adc_h << 14).wrapping_sub((self.dig_h4 as i32) << 20).wrapping_sub(
            (self.dig_h5 as i32).wrapping_mul(v0),
        ).wrapping_add(16384)) >> 15;
        let rhs: i32 = (((((v0.wrapping_mul(self.dig_h6 as i32) >> 10).wrapping_mul(
            (v0.wrapping_mul(self.dig_h3 as i32) >> 11).wrapping_add(32768),
        )) >> 10).wrapping_add(2097152)).wrapping_mul(self.dig_h2 as i32).wrapping_add(8192))
            >> 14;
        let v1: i32 = lhs.wrapping_mul(rhs);
        let v2: i32 = v1.wrapping_sub(
            (((v1 >> 15).wrapping_mul(v1 >> 15) >> 7).wrapping_mul(self.dig_h1 as i32)) >> 4,
        );
        let clamped: i32 = if v2 < 0 {
            0
        } else if v2 > 419430400 {
            419430400
        } else {
            v2
        };
        proof {
            lemma_q10_shift_bounded(clamped);
        }
        (clamped >> 12) as u32
    }
}

/// Scaling a clamped humidity intermediate into the Q10 domain lands in
/// `[0, 102400]`.
proof fn lemma_q10_shift_bounded(v: i32)
    requires
        0 <= v <= 419430400,
    ensures
        0 <= (v >> 12) <= 102400,
{
    assert(0 <= v <= 419430400 ==> 0 <= (v >> 12) <= 102400) by (bit_vector);
}

/// Decoding the calibration blocks is deterministic: equal bytes give equal
/// coefficients, on every parse.
pub proof fn lemma_parse_calib_deterministic(
    pt_a: Seq<u8>,
    h_a: Seq<u8>,
    pt_b: Seq<u8>,
    h_b: Seq<u8>,
)
    requires
        pt_a == pt_b,
        h_a == h_b,
    ensures
        spec_parse_calib_data(pt_a, h_a) == spec_parse_calib_data(pt_b, h_b),
{
}

/// The pressure formula's division-by-zero guard: whenever its divisor `var1`
/// is zero, the compensated pressure is exactly zero, for every raw reading.
pub proof fn lemma_pressure_zero_sentinel(c: CalibrationData, adc_p: i32)
    requires
        spec_pressure_var1(c) == 0,
    ensures
        spec_fix_pres(c, adc_p) == 0,
{
}

/// The humidity clamp keeps every compensated humidity inside the physical
/// range: at most 102400, which is 100 %RH in the Q10 domain.
pub proof fn lemma_humidity_in_range(c: CalibrationData, adc_h: i32)
    ensures
        spec_fix_humid(c, adc_h) <= 102400,
{
    let v: i32 = spec_humid_unclamped(c, adc_h);
    let clamped: i32 = if v < 0 {
        0
    } else if v > 419430400 {
        419430400
    } else {
        v
    };
    lemma_q10_shift_bounded(clamped);
    assert(0 <= (clamped >> 12) <= 102400 ==> ((clamped >> 12) as u32) <= 102400) by (bit_vector);
}

} // verus!
