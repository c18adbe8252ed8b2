use simwheel::channel::{check_table, logical_level, ChannelDescriptor, ChannelKind, ReportTarget};

fn button(bit: u8) -> ChannelDescriptor {
    ChannelDescriptor {
        kind: ChannelKind::Digital,
        target: ReportTarget::ButtonBit(bit),
        active_low: true,
    }
}

fn axis(which: u8) -> ChannelDescriptor {
    ChannelDescriptor {
        kind: ChannelKind::Analog,
        target: ReportTarget::Axis(which),
        active_low: false,
    }
}

#[test]
fn well_formed_table_is_accepted() {
    let table = vec![axis(0), axis(1), axis(2), button(0), button(22)];
    assert!(check_table(&table, 23, 3));
}

#[test]
fn out_of_range_button_bit_is_rejected() {
    let table = vec![button(23)];
    assert!(!check_table(&table, 23, 3));
}

#[test]
fn digital_channel_must_drive_a_button_bit() {
    let crossed = ChannelDescriptor {
        kind: ChannelKind::Digital,
        target: ReportTarget::Axis(0),
        active_low: true,
    };
    assert!(!check_table(&vec![crossed], 23, 3));
}

#[test]
fn empty_table_is_well_formed() {
    assert!(check_table(&Vec::new(), 0, 0));
}

#[test]
fn logical_level_follows_polarity() {
    // A pulled-high switch reads low when pressed.
    assert!(logical_level(false, true));
    assert!(!logical_level(true, true));
    assert!(logical_level(true, false));
    assert!(!logical_level(false, false));
}
