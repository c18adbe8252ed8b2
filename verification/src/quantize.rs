//! Axis quantizer: maps a raw unsigned ADC sample onto the signed 8-bit
//! logical axis range `[-127, 127]` declared by the report descriptor.
//!
//! The mapping normalizes the sample to a voltage using the converter's
//! reference voltage and full-scale count, shifts and scales it linearly
//! over a calibrated voltage window, truncates toward zero, and finally
//! clamps into `[-127, 127]` so that the report byte is always in range
//! even for samples outside the calibration window.
//!
//! All voltages are carried in millivolts, so the computation is exact
//! integer arithmetic; no rounding beyond the single final truncation
//! takes place.

use vstd::prelude::*;

verus! {

/// Calibrated voltage window of one analog axis, in millivolts.
#[derive(Clone, Copy, PartialEq, Eq, Structural, Debug)]
pub struct CalibrationRange {
    pub min_mv: u16,
    pub max_mv: u16,
}

impl CalibrationRange {
    /// A window is usable when it is non-empty.
    pub open spec fn wf(self) -> bool {
        self.min_mv < self.max_mv
    }
}

/// Division truncating toward zero (the spec-level `/` on `int` is
/// Euclidean, which differs on negative numerators).
pub open spec fn div_trunc(num: int, den: int) -> int
    recommends
        den > 0,
{
    if num >= 0 {
        num / den
    } else {
        -((-num) / den)
    }
}

/// Clamp a mathematical integer into the logical axis range.
pub open spec fn clamp_axis(v: int) -> int {
    if v < -127 {
        -127
    } else if v > 127 {
        127
    } else {
        v
    }
}

/// The quantized value before clamping, as a single exact rational
/// `-127 + (raw * vref / full_scale - min) / (max - min) * 254`
/// brought over the common denominator `(max - min) * full_scale`
/// and truncated toward zero.
pub open spec fn quantize_unclamped(
    raw: u16,
    range: CalibrationRange,
    vref_mv: u16,
    full_scale: u16,
) -> int
    recommends
        range.wf(),
        full_scale > 0,
{
    let den = (range.max_mv - range.min_mv) * full_scale;
    let num = 254 * (raw * vref_mv - range.min_mv * full_scale) - 127 * den;
    div_trunc(num, den)
}

/// What `quantize` returns: the truncated linear mapping, clamped.
pub open spec fn quantize_spec(
    raw: u16,
    range: CalibrationRange,
    vref_mv: u16,
    full_scale: u16,
) -> int
    recommends
        range.wf(),
        full_scale > 0,
{
    clamp_axis(quantize_unclamped(raw, range, vref_mv, full_scale))
}

/// Quantize one raw ADC sample onto the signed axis range.
///
/// `vref_mv` is the converter's reference voltage in millivolts and
/// `full_scale` its maximum count (for a 12-bit converter, 4095).
/// Samples whose voltage lies outside the calibration window are clamped
/// rather than rejected, so the result is always a valid report byte.
pub fn quantize(raw: u16, range: CalibrationRange, vref_mv: u16, full_scale: u16) -> (v: i8)
    requires
        range.wf(),
        full_scale > 0,
    ensures
        v as int == quantize_spec(raw, range, vref_mv, full_scale),
        -127 <= v as int <= 127,
{
    proof {
        assert(0 < (range.max_mv - range.min_mv) * full_scale < 0x1_0000_0000) by (nonlinear_arith)
            requires
                range.min_mv < range.max_mv,
                range.max_mv <= 0xFFFF,
                0 < full_scale <= 0xFFFF,
        ;
        assert(0 <= raw * vref_mv < 0x1_0000_0000) by (nonlinear_arith)
            requires
                raw <= 0xFFFF,
                vref_mv <= 0xFFFF,
        ;
        assert(0 <= range.min_mv * full_scale < 0x1_0000_0000) by (nonlinear_arith)
            requires
                range.min_mv <= 0xFFFF,
                full_scale <= 0xFFFF,
        ;
    }
    let den: i64 = (range.max_mv as i64 - range.min_mv as i64) * full_scale as i64;
    let num: i64 = 254 * (raw as i64 * vref_mv as i64 - range.min_mv as i64 * full_scale as i64)
        - 127 * den;
    let q: i64 = if num >= 0 {
        let qu: u64 = (num as u64) / (den as u64);
        proof {
            assert(qu <= num) by (nonlinear_arith)
                requires
                    den >= 1,
                    num >= 0,
                    qu == num as u64 / den as u64,
            ;
        }
        qu as i64
    } else {
        let qu: u64 = ((-num) as u64) / (den as u64);
        proof {
            assert(qu <= -num) by (nonlinear_arith)
                requires
                    den >= 1,
                    -num >= 0,
                    qu == (-num) as u64 / den as u64,
            ;
        }
        -(qu as i64)
    };
    if q < -127 {
        -127
    } else if q > 127 {
        127
    } else {
        q as i8
    }
}

/// The clamping property: whatever the raw sample and however the window
/// is calibrated, the quantized value lies in the logical axis range.
pub proof fn lemma_quantize_in_range(raw: u16, range: CalibrationRange, vref_mv: u16, full_scale: u16)
    ensures
        -127 <= quantize_spec(raw, range, vref_mv, full_scale) <= 127,
{
}

/// A sample sitting exactly at the lower calibration bound quantizes to
/// the logical minimum, `-127`.
pub proof fn lemma_quantize_at_min(raw: u16, range: CalibrationRange, vref_mv: u16, full_scale: u16)
    requires
        range.wf(),
        full_scale > 0,
        raw * vref_mv == range.min_mv * full_scale,
    ensures
        quantize_spec(raw, range, vref_mv, full_scale) == -127,
{
    let den = (range.max_mv - range.min_mv) * full_scale as int;
    assert(den > 0) by (nonlinear_arith)
        requires
            range.max_mv - range.min_mv > 0,
            full_scale > 0,
            den == (range.max_mv - range.min_mv) * full_scale,
    ;
    assert(254 * (raw * vref_mv - range.min_mv * full_scale) == 0);
    assert((127 * den) / den == 127) by (nonlinear_arith)
        requires
            den > 0,
    ;
}

/// A sample sitting exactly at the upper calibration bound quantizes to
/// the logical maximum, `+127`.
pub proof fn lemma_quantize_at_max(raw: u16, range: CalibrationRange, vref_mv: u16, full_scale: u16)
    requires
        range.wf(),
        full_scale > 0,
        raw * vref_mv == range.max_mv * full_scale,
    ensures
        quantize_spec(raw, range, vref_mv, full_scale) == 127,
{
    let den = (range.max_mv - range.min_mv) * full_scale as int;
    assert(den > 0) by (nonlinear_arith)
        requires
            range.max_mv - range.min_mv > 0,
            full_scale > 0,
            den == (range.max_mv - range.min_mv) * full_scale,
    ;
    assert(raw * vref_mv - range.min_mv * full_scale == den) by (nonlinear_arith)
        requires
            raw * vref_mv == range.max_mv * full_scale,
            den == (range.max_mv - range.min_mv) * full_scale,
    ;
    assert(254 * den - 127 * den == 127 * den);
    assert((127 * den) / den == 127) by (nonlinear_arith)
        requires
            den > 0,
    ;
}

} // verus!
