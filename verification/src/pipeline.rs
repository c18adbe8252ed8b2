//! One sampling cycle's computation, from plain input values to wire
//! bytes.
//!
//! The surrounding application performs the waits and the reads — the
//! timer tick or edge wait, the ADC conversions, the GPIO levels — and
//! hands the results in here; it takes the finished report bytes back and
//! gives them to the transport.  Everything in between is computed and
//! verified in this module.

use crate::quantize::CalibrationRange;
use crate::quantize::quantize;
use crate::quantize::quantize_spec;
use crate::report::JOYSTICK_BUTTON_COUNT;
use crate::report::build_full_state;
use crate::report::full_state_bytes;
use crate::report::report_bytes;
use crate::report::serialize_report;
use vstd::prelude::*;

verus! {

/// The axis byte a raw sample quantizes to.
pub open spec fn quantized_axis(
    raw: u16,
    range: CalibrationRange,
    vref_mv: u16,
    full_scale: u16,
) -> i8
    recommends
        range.wf(),
        full_scale > 0,
{
    quantize_spec(raw, range, vref_mv, full_scale) as i8
}

/// Compute one full-state report cycle: quantize the three raw axis
/// samples over their calibration windows, merge them with the confirmed
/// levels of all 23 button channels, and serialize the result into the
/// exact wire bytes of the report descriptor.
pub fn build_cycle_report(
    levels: &Vec<bool>,
    raw_x: u16,
    raw_y: u16,
    raw_z: u16,
    range_x: CalibrationRange,
    range_y: CalibrationRange,
    range_z: CalibrationRange,
    vref_mv: u16,
    full_scale: u16,
) -> (bytes: Vec<u8>)
    requires
        levels.len() == JOYSTICK_BUTTON_COUNT,
        range_x.wf(),
        range_y.wf(),
        range_z.wf(),
        full_scale > 0,
    ensures
        bytes@ == full_state_bytes(
            levels@,
            quantized_axis(raw_x, range_x, vref_mv, full_scale),
            quantized_axis(raw_y, range_y, vref_mv, full_scale),
            quantized_axis(raw_z, range_z, vref_mv, full_scale),
        ),
{
    let x = quantize(raw_x, range_x, vref_mv, full_scale);
    let y = quantize(raw_y, range_y, vref_mv, full_scale);
    let z = quantize(raw_z, range_z, vref_mv, full_scale);
    let r = build_full_state(levels, x, y, z);
    let bytes = serialize_report(&r);
    proof {
        assert(report_bytes(r) =~= full_state_bytes(levels@, x, y, z));
    }
    bytes
}

} // verus!

