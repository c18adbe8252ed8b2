//! Change-gated transmitter: decides whether a freshly built report must
//! go on the wire, and tracks what was last sent.
//!
//! The caller builds a candidate report, asks [`Transmitter::pending`],
//! performs the transport write if one is due, and feeds the outcome back
//! through [`Transmitter::record`].  A write that would block because the
//! host has not drained the previous report is not an error: nothing is
//! retried within the cycle, the candidate is simply dropped and the next
//! cycle's report reflects current truth again.  Any other write error is
//! fatal to the reporting path and is latched so a supervising layer can
//! halt or reset.

use crate::report::JOYSTICK_BUTTON_COUNT;
use crate::report::full_state_bytes;
use crate::report::lemma_change_changes_report;
use vstd::prelude::*;

verus! {

/// Transmission strategy, chosen per deployment profile.
#[derive(Clone, Copy, PartialEq, Eq, Structural, Debug)]
pub enum TxMode {
    /// Send only when the candidate differs byte-for-byte from the last
    /// sent report.
    ChangeGated,
    /// Send every cycle, driven by a fixed-period timer.
    Periodic,
}

/// What the transport reported for one write attempt.
#[derive(Clone, Copy, PartialEq, Eq, Structural, Debug)]
pub enum WriteOutcome {
    /// The report was accepted by the transport.
    Sent,
    /// The host has not consumed the previous report yet; skip this cycle.
    WouldBlock,
    /// A genuine transport failure; fatal to the reporting path.
    Failed,
}

/// Transmission state: the strategy, the last report actually sent, and
/// whether a fatal transport failure has been latched.
pub struct Transmitter {
    pub mode: TxMode,
    pub last_sent: Option<Vec<u8>>,
    pub failed: bool,
}

impl Transmitter {
    /// The bytes of the last sent report, if any.
    pub open spec fn last_sent_bytes(self) -> Option<Seq<u8>> {
        match self.last_sent {
            Some(v) => Some(v@),
            None => None,
        }
    }

    /// Whether a candidate report must be transmitted: always, under the
    /// periodic strategy; only when it differs from the last sent report,
    /// under change gating.
    pub open spec fn pending_spec(self, candidate: Seq<u8>) -> bool {
        match self.mode {
            TxMode::Periodic => true,
            TxMode::ChangeGated => self.last_sent_bytes() != Some(candidate),
        }
    }

    /// Fresh transmitter: nothing sent yet, no failure latched.
    pub fn new(mode: TxMode) -> (t: Transmitter)
        ensures
            t.mode == mode,
            t.last_sent_bytes() is None,
            !t.failed,
    {
        Transmitter { mode, last_sent: None, failed: false }
    }

    /// Decide whether the candidate must be written this cycle.
    pub fn pending(&self, candidate: &Vec<u8>) -> (b: bool)
        ensures
            b == self.pending_spec(candidate@),
    {
        match self.mode {
            TxMode::Periodic => true,
            TxMode::ChangeGated => match &self.last_sent {
                None => true,
                Some(prev) => !bytes_eq(prev, candidate),
            },
        }
    }

    /// Record the outcome of this cycle's write attempt.  Only a report
    /// the transport actually accepted becomes the new last-sent report;
    /// a skipped (would-block) cycle changes nothing, so the next differing
    /// candidate stays pending.  A genuine failure is latched.
    pub fn record(&mut self, candidate: &Vec<u8>, outcome: WriteOutcome)
        ensures
            final(self).mode == old(self).mode,
            outcome == WriteOutcome::Sent ==> final(self).last_sent_bytes() == Some(candidate@)
                && final(self).failed == old(self).failed,
            outcome == WriteOutcome::WouldBlock ==> final(self).last_sent_bytes() == old(
                self,
            ).last_sent_bytes() && final(self).failed == old(self).failed,
            outcome == WriteOutcome::Failed ==> final(self).last_sent_bytes() == old(
                self,
            ).last_sent_bytes() && final(self).failed,
    {
        match outcome {
            WriteOutcome::Sent => {
                self.last_sent = Some(clone_bytes(candidate));
            },
            WriteOutcome::WouldBlock => {
            },
            WriteOutcome::Failed => {
                self.failed = true;
            },
        }
    }

    /// Whether a fatal transport failure has been latched.
    pub fn has_failed(&self) -> (b: bool)
        ensures
            b == self.failed,
    {
        self.failed
    }
}

/// Byte-for-byte comparison of two report buffers.
fn bytes_eq(a: &Vec<u8>, b: &Vec<u8>) -> (r: bool)
    ensures
        r == (a@ == b@),
{
    if a.len() != b.len() {
        return false;
    }
    let mut i: usize = 0;
    while i < a.len()
        invariant
            a.len() == b.len(),
            i <= a.len(),
            forall|j: int| 0 <= j < i ==> a@[j] == b@[j],
        decreases a.len() - i,
    {
        if a[i] != b[i] {
            return false;
        }
        i = i + 1;
    }
    proof {
        assert(a@ =~= b@);
    }
    true
}

/// Fresh copy of a report buffer.
fn clone_bytes(a: &Vec<u8>) -> (r: Vec<u8>)
    ensures
        r@ == a@,
{
    let mut r: Vec<u8> = Vec::new();
    let mut i: usize = 0;
    while i < a.len()
        invariant
            i <= a.len(),
            r.len() == i,
            forall|j: int| 0 <= j < i ==> r@[j] == a@[j],
        decreases a.len() - i,
    {
        r.push(a[i]);
        i = i + 1;
    }
    proof {
        assert(r@ =~= a@);
    }
    r
}

/// Idempotence of the gated cycle: the report built from unchanged channel
/// state is byte-identical to the one just sent, so a change-gated
/// transmitter does not transmit it again.
pub proof fn lemma_unchanged_state_not_retransmitted(
    t: Transmitter,
    levels: Seq<bool>,
    x: i8,
    y: i8,
    z: i8,
)
    requires
        t.mode == TxMode::ChangeGated,
        t.last_sent_bytes() == Some(full_state_bytes(levels, x, y, z)),
    ensures
        !t.pending_spec(full_state_bytes(levels, x, y, z)),
{
}

/// Exactly one report becomes pending per confirmed state change: once the
/// report of the old state has been sent, any cycle whose confirmed levels
/// differ on some channel builds a candidate that is pending again,
/// whatever the axes read.
pub proof fn lemma_changed_state_pending(
    t: Transmitter,
    l1: Seq<bool>,
    l2: Seq<bool>,
    x1: i8,
    y1: i8,
    z1: i8,
    x2: i8,
    y2: i8,
    z2: i8,
    i: int,
)
    requires
        t.mode == TxMode::ChangeGated,
        t.last_sent_bytes() == Some(full_state_bytes(l1, x1, y1, z1)),
        l1.len() == JOYSTICK_BUTTON_COUNT,
        l2.len() == JOYSTICK_BUTTON_COUNT,
        0 <= i < JOYSTICK_BUTTON_COUNT,
        l1[i] != l2[i],
    ensures
        t.pending_spec(full_state_bytes(l2, x2, y2, z2)),
{
    lemma_change_changes_report(l1, l2, x1, y1, z1, x2, y2, z2, i);
}

} // verus!
