//! Channel descriptor table: the static enumeration of input channels,
//! each tagged digital or analog, with its report-bit or axis assignment
//! and its electrical polarity.
//!
//! The table is configuration data supplied by the surrounding
//! application, created once at startup and never mutated.  The library
//! only checks it for well-formedness and derives logical levels from raw
//! electrical ones according to the declared polarity.

use vstd::prelude::*;

verus! {

/// Whether a channel is a switch or a potentiometer.
#[derive(Clone, Copy, PartialEq, Eq, Structural, Debug)]
pub enum ChannelKind {
    Digital,
    Analog,
}

/// Where a channel's value lands in the report: one button bit or one
/// axis byte.
#[derive(Clone, Copy, PartialEq, Eq, Structural, Debug)]
pub enum ReportTarget {
    ButtonBit(u8),
    Axis(u8),
}

/// One input channel: its kind, its place in the report, and its
/// electrical polarity (`active_low` for a switch pulled high that reads
/// low when pressed).
#[derive(Clone, Copy, PartialEq, Eq, Structural, Debug)]
pub struct ChannelDescriptor {
    pub kind: ChannelKind,
    pub target: ReportTarget,
    pub active_low: bool,
}

impl ChannelDescriptor {
    /// A descriptor is well formed when a digital channel drives an
    /// existing button bit and an analog channel drives an existing axis.
    pub open spec fn wf(self, n_buttons: int, n_axes: int) -> bool {
        match (self.kind, self.target) {
            (ChannelKind::Digital, ReportTarget::ButtonBit(b)) => b < n_buttons,
            (ChannelKind::Analog, ReportTarget::Axis(a)) => a < n_axes,
            _ => false,
        }
    }

    /// Check one descriptor against the report's button and axis counts.
    pub fn check(&self, n_buttons: u8, n_axes: u8) -> (ok: bool)
        ensures
            ok == self.wf(n_buttons as int, n_axes as int),
    {
        match (self.kind, self.target) {
            (ChannelKind::Digital, ReportTarget::ButtonBit(b)) => b < n_buttons,
            (ChannelKind::Analog, ReportTarget::Axis(a)) => a < n_axes,
            _ => false,
        }
    }
}

/// A whole table is well formed when every descriptor is.
pub open spec fn table_wf(t: Seq<ChannelDescriptor>, n_buttons: int, n_axes: int) -> bool {
    forall|i: int| 0 <= i < t.len() ==> #[trigger] t[i].wf(n_buttons, n_axes)
}

/// Validate a descriptor table against the report's button and axis
/// counts.
pub fn check_table(t: &Vec<ChannelDescriptor>, n_buttons: u8, n_axes: u8) -> (ok: bool)
    ensures
        ok == table_wf(t@, n_buttons as int, n_axes as int),
{
    let mut i: usize = 0;
    while i < t.len()
        invariant
            i <= t.len(),
            forall|j: int| 0 <= j < i ==> #[trigger] t@[j].wf(n_buttons as int, n_axes as int),
        decreases t.len() - i,
    {
        if !t[i].check(n_buttons, n_axes) {
            return false;
        }
        i = i + 1;
    }
    true
}

/// Logical level of a digital channel from its raw electrical level and
/// declared polarity: an active-low channel is pressed when the line
/// reads low.
pub fn logical_level(raw_high: bool, active_low: bool) -> (level: bool)
    ensures
        level == (raw_high != active_low),
{
    raw_high != active_low
}

} // verus!
