use simwheel::report::{
    build_full_state, build_keyboard_report, build_toggle_report, pack_bits, serialize_report,
    JoystickReport,
};

fn levels_with(pressed: &[usize], n: usize) -> Vec<bool> {
    let mut levels = vec![false; n];
    for &i in pressed {
        levels[i] = true;
    }
    levels
}

#[test]
fn full_state_button0_sets_bit0_of_byte3() {
    // 23-button profile, channel 0 pressed, all others released: byte 3
    // is 0b0000_0001, bytes 4 and 5 are zero, and the axis bytes carry
    // whatever the axes read.
    let levels = levels_with(&[0], 23);
    let r = build_full_state(&levels, 5, -7, 0);
    let bytes = serialize_report(&r);
    assert_eq!(bytes, vec![5, 0xF9, 0, 0b0000_0001, 0, 0]);
}

#[test]
fn full_state_packs_lsb_first_across_bytes() {
    let levels = levels_with(&[0, 7, 8, 22], 23);
    let r = build_full_state(&levels, 0, 0, 0);
    assert_eq!(r.buttons, [0b1000_0001, 0b0000_0001, 0b0100_0000]);
}

#[test]
fn full_state_pad_bit_is_zero() {
    let levels = vec![true; 23];
    let r = build_full_state(&levels, 0, 0, 0);
    assert_eq!(r.buttons, [0xFF, 0xFF, 0x7F]);
}

#[test]
fn builder_is_idempotent_on_unchanged_state() {
    let levels = levels_with(&[3, 11], 23);
    let first = serialize_report(&build_full_state(&levels, 40, -2, 19));
    let second = serialize_report(&build_full_state(&levels, 40, -2, 19));
    assert_eq!(first, second);
}

#[test]
fn axis_bytes_are_twos_complement() {
    let levels = vec![false; 23];
    let bytes = serialize_report(&build_full_state(&levels, -127, 0, 127));
    assert_eq!(&bytes[..3], &[0x81, 0x00, 0x7F]);
}

#[test]
fn default_report_is_rest_state() {
    let r = JoystickReport::default();
    assert_eq!(r.axis_x, -127);
    assert_eq!(r.axis_y, -127);
    assert_eq!(r.axis_z, -127);
    assert_eq!(r.buttons, [0, 0, 0]);
}

#[test]
fn report_equality_is_by_fields() {
    let levels = levels_with(&[1], 23);
    let a = build_full_state(&levels, 1, 2, 3);
    let b = build_full_state(&levels, 1, 2, 3);
    assert_eq!(a, b);
    let c = build_full_state(&levels, 1, 2, 4);
    assert_ne!(a, c);
}

#[test]
fn pack_bits_30_buttons_uses_four_bytes_with_zero_pad() {
    let levels = levels_with(&[0, 7, 8, 29], 30);
    let bytes = pack_bits(&levels);
    assert_eq!(bytes, vec![0b1000_0001, 0b0000_0001, 0, 0b0010_0000]);
}

#[test]
fn pack_bits_empty_is_empty() {
    let bytes = pack_bits(&Vec::new());
    assert!(bytes.is_empty());
}

#[test]
fn toggle_press_then_release_sequence() {
    // 2-channel toggle profile: channel 1 owns mask bit 0b0000_0010 in
    // byte 3 of the 4-byte mask; a release is the all-zero mask.
    assert_eq!(build_toggle_report(1, true), vec![0, 0, 0, 2]);
    assert_eq!(build_toggle_report(1, false), vec![0, 0, 0, 0]);
}

#[test]
fn toggle_sets_exactly_one_bit() {
    for channel in 0..32 {
        let bytes = build_toggle_report(channel, true);
        let total: u32 = bytes.iter().map(|b| b.count_ones()).sum();
        assert_eq!(total, 1);
    }
}

#[test]
fn keyboard_report_layout() {
    let keys = vec![4, 5];
    let bytes = build_keyboard_report(0x02, &keys);
    assert_eq!(bytes, vec![0x02, 0, 4, 5, 0, 0, 0, 0]);
}

#[test]
fn keyboard_report_empty_rollover() {
    let bytes = build_keyboard_report(0, &Vec::new());
    assert_eq!(bytes, vec![0; 8]);
}
