use simwheel::quantize::{quantize, CalibrationRange};

const VREF_MV: u16 = 3300;
const FULL_SCALE: u16 = 4095;

#[test]
fn quantize_center_of_window_is_zeroish() {
    // 2048 counts = 1650.5 mV over a 500..2800 mV window: the exact linear
    // map lands at 0.044, which truncates to 0.
    let range = CalibrationRange { min_mv: 500, max_mv: 2800 };
    assert_eq!(quantize(2048, range, VREF_MV, FULL_SCALE), 0);
}

#[test]
fn quantize_exact_interior_value() {
    // 1700 counts = 1370 mV over 500..2800 mV maps to -30.92, truncated
    // toward zero to -30.
    let range = CalibrationRange { min_mv: 500, max_mv: 2800 };
    assert_eq!(quantize(1700, range, VREF_MV, FULL_SCALE), -30);
}

#[test]
fn quantize_clamps_below_window() {
    // 0 counts = 0 mV, well below the 500 mV calibration floor: the raw
    // linear map would leave the logical range, so the result clamps.
    let range = CalibrationRange { min_mv: 500, max_mv: 2800 };
    assert_eq!(quantize(0, range, VREF_MV, FULL_SCALE), -127);
}

#[test]
fn quantize_clamps_above_window() {
    // Full-scale 4095 counts = 3300 mV, above the 2800 mV ceiling.
    let range = CalibrationRange { min_mv: 500, max_mv: 2800 };
    assert_eq!(quantize(4095, range, VREF_MV, FULL_SCALE), 127);
}

#[test]
fn quantize_boundary_at_min_is_minus_127() {
    // 1365 counts * 3300 mV == 1100 mV * 4095 counts exactly: the sample
    // sits precisely on the lower calibration bound.
    let range = CalibrationRange { min_mv: 1100, max_mv: 2200 };
    assert_eq!(quantize(1365, range, VREF_MV, FULL_SCALE), -127);
}

#[test]
fn quantize_boundary_at_max_is_plus_127() {
    // 2730 counts * 3300 mV == 2200 mV * 4095 counts exactly: the sample
    // sits precisely on the upper calibration bound.
    let range = CalibrationRange { min_mv: 1100, max_mv: 2200 };
    assert_eq!(quantize(2730, range, VREF_MV, FULL_SCALE), 127);
}

#[test]
fn quantize_always_in_logical_range() {
    let range = CalibrationRange { min_mv: 1, max_mv: 2 };
    for raw in [0u16, 1, 7, 100, 2048, 4094, 4095] {
        let v = quantize(raw, range, VREF_MV, FULL_SCALE);
        assert!((-127..=127).contains(&(v as i32)));
    }
}
