use simwheel::debounce::{confirm_edge, poll_all, ChannelState};

const INTERVAL: u64 = 2;

#[test]
fn press_confirmed_release_deferred_within_interval() {
    // A confirmed press at t=5, then a release bouncing in at t=6, inside
    // the debounce interval: the release is discarded, and only a release
    // arriving a full interval after the press is confirmed.
    let mut s = ChannelState::new(false);
    assert!(s.observe(true, 5, INTERVAL));
    assert!(s.confirmed_level);

    assert!(!s.observe(false, 6, INTERVAL));
    assert!(s.confirmed_level);

    assert!(s.observe(false, 7, INTERVAL));
    assert!(!s.confirmed_level);
}

#[test]
fn bounce_train_confirms_at_most_once_per_interval() {
    let mut s = ChannelState::new(false);
    assert!(s.observe(true, 10, INTERVAL));
    let mut changes = 0;
    for t in 10..12 {
        if s.observe(t % 2 == 0, t, INTERVAL) {
            changes += 1;
        }
    }
    assert_eq!(changes, 0);
}

#[test]
fn unchanged_level_is_never_a_change() {
    let mut s = ChannelState::new(true);
    assert!(!s.observe(true, 100, INTERVAL));
    assert_eq!(s.last_change_time, 0);
}

#[test]
fn poll_all_sees_simultaneous_edges() {
    // Both channels flip in the same polling tick; both must be visible
    // in that one call.
    let mut states = vec![ChannelState::new(false), ChannelState::new(false)];
    let raws = vec![true, true];
    let changed = poll_all(&mut states, &raws, 9, INTERVAL);
    assert_eq!(changed, vec![true, true]);
    assert!(states[0].confirmed_level);
    assert!(states[1].confirmed_level);
}

#[test]
fn poll_all_gates_each_channel_independently() {
    let mut states = vec![ChannelState::new(false), ChannelState::new(false)];
    states[1].last_change_time = 9;
    let raws = vec![true, true];
    let changed = poll_all(&mut states, &raws, 10, INTERVAL);
    assert_eq!(changed, vec![true, false]);
    assert!(states[0].confirmed_level);
    assert!(!states[1].confirmed_level);
}

#[test]
fn confirm_edge_changes_only_the_winning_channel() {
    let mut states = vec![
        ChannelState::new(false),
        ChannelState::new(false),
        ChannelState::new(true),
    ];
    confirm_edge(&mut states, 1, true, 42);
    assert!(!states[0].confirmed_level);
    assert!(states[1].confirmed_level);
    assert_eq!(states[1].last_change_time, 42);
    assert!(states[2].confirmed_level);
    assert_eq!(states[0].last_change_time, 0);
    assert_eq!(states[2].last_change_time, 0);
}
