//! Debounce/edge filter: turns raw, possibly bouncing digital transitions
//! into confirmed logical press/release events.
//!
//! Two policies are offered, as configuration choices:
//!
//! * time-gated confirm-on-change (`observe`, `poll_all`): a raw transition
//!   is accepted as confirmed only when at least the minimum debounce
//!   interval has elapsed since the channel's last confirmed change;
//!   anything faster is discarded as mechanical bounce;
//! * edge-wait with immediate accept (`confirm_edge`): the caller waits for
//!   the first edge among all channels, reads that channel's instantaneous
//!   level, and records it directly as confirmed.
//!
//! Under either policy a channel's confirmed level changes at most once per
//! call, and the caller is always told which channels changed.  Timestamps
//! are taken from a monotone clock, in whatever unit the caller chooses, as
//! long as the debounce interval uses the same unit.

use vstd::pervasive::VecAdditionalExecFns;
use vstd::prelude::*;

verus! {

/// Filter state of one digital channel.
#[derive(Clone, Copy, PartialEq, Eq, Structural, Debug)]
pub struct ChannelState {
    /// Raw electrical level as of the most recent observation.
    pub raw_level: bool,
    /// Logical level after debouncing; what the report builder reads.
    pub confirmed_level: bool,
    /// Timestamp of the last confirmed change.
    pub last_change_time: u64,
}

impl ChannelState {
    /// Initial state of a channel resting at `level`.
    pub fn new(level: bool) -> (s: ChannelState)
        ensures
            s == (ChannelState { raw_level: level, confirmed_level: level, last_change_time: 0u64 }),
    {
        ChannelState { raw_level: level, confirmed_level: level, last_change_time: 0 }
    }
}

/// Whether the time-gated policy accepts a raw observation as a confirmed
/// change: the level must actually differ from the confirmed one and the
/// debounce interval must have elapsed since the last confirmed change.
pub open spec fn accepts(s: ChannelState, raw: bool, now: u64, interval: u64) -> bool {
    raw != s.confirmed_level && now >= s.last_change_time && now - s.last_change_time >= interval
}

/// The channel state after one time-gated observation.
pub open spec fn step_spec(s: ChannelState, raw: bool, now: u64, interval: u64) -> ChannelState {
    if accepts(s, raw, now, interval) {
        ChannelState { raw_level: raw, confirmed_level: raw, last_change_time: now }
    } else {
        ChannelState { raw_level: raw, ..s }
    }
}

impl ChannelState {
    /// Time-gated confirm-on-change: feed one raw observation through the
    /// filter.  Returns whether the confirmed level changed, which happens
    /// at most once per call and never twice within the debounce interval.
    pub fn observe(&mut self, raw: bool, now: u64, interval: u64) -> (changed: bool)
        ensures
            *final(self) == step_spec(*old(self), raw, now, interval),
            changed == accepts(*old(self), raw, now, interval),
            changed == (final(self).confirmed_level != old(self).confirmed_level),
            !changed ==> final(self).last_change_time == old(self).last_change_time,
    {
        self.raw_level = raw;
        if raw != self.confirmed_level && now >= self.last_change_time
            && now - self.last_change_time >= interval {
            self.confirmed_level = raw;
            self.last_change_time = now;
            true
        } else {
            false
        }
    }
}

/// Confirmed levels change at most once per debounce interval: whenever two
/// successive observations of one channel are both accepted, the second is
/// dated at least a full interval after the first.  Equivalently, every raw
/// transition arriving less than `interval` after a confirmed change is
/// discarded as bounce.
pub proof fn lemma_at_most_one_change_per_interval(
    s: ChannelState,
    raw1: bool,
    t1: u64,
    raw2: bool,
    t2: u64,
    interval: u64,
)
    requires
        accepts(s, raw1, t1, interval),
        accepts(step_spec(s, raw1, t1, interval), raw2, t2, interval),
    ensures
        t2 >= t1 + interval,
{
}

/// Edge-wait with immediate accept: the caller has just seen an edge on
/// channel `idx` and read its instantaneous level; record that level as
/// confirmed.  Exactly the one winning channel changes; every other channel
/// keeps its state, so pending edges elsewhere stay visible to later calls.
pub fn confirm_edge(states: &mut Vec<ChannelState>, idx: usize, level: bool, now: u64)
    requires
        idx < old(states).len(),
    ensures
        final(states).len() == old(states).len(),
        final(states)@[idx as int] == (ChannelState {
            raw_level: level,
            confirmed_level: level,
            last_change_time: now,
        }),
        forall|j: int| 0 <= j < old(states)@.len() && j != idx ==> final(states)@[j] == old(
            states,
        )@[j],
{
    states.set(idx, ChannelState { raw_level: level, confirmed_level: level, last_change_time: now });
}

/// Polling form of the time-gated policy: visit every channel once, feeding
/// it the current raw level, and report per channel whether its confirmed
/// level changed this cycle.  Because every channel is visited every cycle,
/// simultaneous edges are all observed in the same call.
pub fn poll_all(
    states: &mut Vec<ChannelState>,
    raws: &Vec<bool>,
    now: u64,
    interval: u64,
) -> (changed: Vec<bool>)
    requires
        raws.len() == old(states).len(),
    ensures
        final(states).len() == old(states).len(),
        changed.len() == old(states).len(),
        forall|i: int|
            0 <= i < old(states)@.len() ==> final(states)@[i] == step_spec(
                old(states)@[i],
                raws@[i],
                now,
                interval,
            ),
        forall|i: int|
            0 <= i < old(states)@.len() ==> changed@[i] == accepts(
                old(states)@[i],
                raws@[i],
                now,
                interval,
            ),
{
    let n = states.len();
    let mut changed: Vec<bool> = Vec::new();
    let mut i: usize = 0;
    while i < n
        invariant
            n == old(states).len(),
            raws.len() == n,
            states.len() == n,
            changed.len() == i,
            i <= n,
            forall|j: int|
                0 <= j < i ==> states@[j] == step_spec(old(states)@[j], raws@[j], now, interval),
            forall|j: int| i <= j < n ==> states@[j] == old(states)@[j],
            forall|j: int|
                0 <= j < i ==> changed@[j] == accepts(old(states)@[j], raws@[j], now, interval),
        decreases n - i,
    {
        let mut s = states[i];
        let c = s.observe(raws[i], now, interval);
        states.set(i, s);
        changed.push(c);
        i = i + 1;
    }
    changed
}

} // verus!
