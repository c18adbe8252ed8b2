use simwheel::pipeline::build_cycle_report;
use simwheel::quantize::CalibrationRange;

#[test]
fn cycle_report_end_to_end() {
    // Channel 0 pressed; the X sample sits exactly on its lower bound,
    // the Y sample exactly on its upper bound, and the Z sample near the
    // middle of its window.
    let mut levels = vec![false; 23];
    levels[0] = true;
    let boundary = CalibrationRange { min_mv: 1100, max_mv: 2200 };
    let wide = CalibrationRange { min_mv: 500, max_mv: 2800 };
    let bytes = build_cycle_report(&levels, 1365, 2730, 2048, boundary, boundary, wide, 3300, 4095);
    assert_eq!(bytes, vec![0x81, 0x7F, 0x00, 0b0000_0001, 0, 0]);
}

#[test]
fn cycle_report_rest_state() {
    let levels = vec![false; 23];
    let wide = CalibrationRange { min_mv: 500, max_mv: 2800 };
    let bytes = build_cycle_report(&levels, 0, 0, 0, wide, wide, wide, 3300, 4095);
    assert_eq!(bytes, vec![0x81, 0x81, 0x81, 0, 0, 0]);
}
