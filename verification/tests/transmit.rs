use simwheel::transmit::{Transmitter, TxMode, WriteOutcome};

#[test]
fn first_report_is_always_pending() {
    let t = Transmitter::new(TxMode::ChangeGated);
    assert!(t.pending(&vec![0, 0, 0, 0]));
}

#[test]
fn change_gated_suppresses_identical_candidate() {
    // Idempotence of the gated cycle: after a report is sent, an
    // identical rebuild must not be transmitted again.
    let mut t = Transmitter::new(TxMode::ChangeGated);
    let report = vec![1, 2, 3];
    assert!(t.pending(&report));
    t.record(&report, WriteOutcome::Sent);
    assert!(!t.pending(&report));
    let differing = vec![1, 2, 4];
    assert!(t.pending(&differing));
}

#[test]
fn periodic_mode_sends_every_cycle() {
    let mut t = Transmitter::new(TxMode::Periodic);
    let report = vec![9, 9];
    t.record(&report, WriteOutcome::Sent);
    assert!(t.pending(&report));
}

#[test]
fn would_block_drops_cycle_and_sends_latest_after_drain() {
    // Three cycles in a row would block while the channel state keeps
    // changing: nothing is recorded as sent, and once the host drains,
    // only the newest report goes out; no stale intermediate is ever
    // replayed.
    let mut t = Transmitter::new(TxMode::ChangeGated);
    let cycle1 = vec![0, 0, 0, 1];
    let cycle2 = vec![0, 0, 0, 2];
    let cycle3 = vec![0, 0, 0, 3];

    assert!(t.pending(&cycle1));
    t.record(&cycle1, WriteOutcome::WouldBlock);
    assert!(t.last_sent.is_none());

    assert!(t.pending(&cycle2));
    t.record(&cycle2, WriteOutcome::WouldBlock);
    assert!(t.last_sent.is_none());

    assert!(t.pending(&cycle3));
    t.record(&cycle3, WriteOutcome::WouldBlock);
    assert!(t.last_sent.is_none());

    // Host drained; the state stopped changing, so the pipeline rebuilds
    // the newest report and only that one is sent.
    assert!(t.pending(&cycle3));
    t.record(&cycle3, WriteOutcome::Sent);
    assert_eq!(t.last_sent.as_deref(), Some(&[0, 0, 0, 3][..]));
    assert!(!t.pending(&cycle3));
    assert!(!t.has_failed());
}

#[test]
fn genuine_failure_is_latched() {
    let mut t = Transmitter::new(TxMode::ChangeGated);
    let report = vec![7];
    t.record(&report, WriteOutcome::Failed);
    assert!(t.has_failed());
    assert!(t.last_sent.is_none());
}

#[test]
fn would_block_does_not_latch_failure() {
    let mut t = Transmitter::new(TxMode::ChangeGated);
    t.record(&vec![7], WriteOutcome::WouldBlock);
    assert!(!t.has_failed());
}
