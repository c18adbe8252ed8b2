//! Host control responder: answers GET_REPORT, SET_REPORT and idle-rate
//! requests, concurrently with sampling.
//!
//! The device has no pull-readable report and no output state to drive, so
//! every answer is fixed: pull requests get "not available", host output
//! reports are accepted and ignored, and idle-rate negotiation is
//! acknowledged but never enforced.  The responder shares no state with
//! the input pipeline and can never delay report transmission.

use vstd::prelude::*;

verus! {

/// Identifier of a report in a host control request, by transfer
/// direction.
#[derive(Clone, Copy, PartialEq, Eq, Structural, Debug)]
pub enum ReportId {
    In(u8),
    Out(u8),
    Feature(u8),
}

/// Answer to a SET_REPORT request.
#[derive(Clone, Copy, PartialEq, Eq, Structural, Debug)]
pub enum SetReportOutcome {
    Accepted,
    Rejected,
}

/// State of the control responder.  The only thing worth remembering is
/// the most recent idle-rate request, kept for inspection; it drives no
/// report suppression.
pub struct ControlResponder {
    pub last_idle_request_ms: Option<u32>,
}

impl ControlResponder {
    /// Fresh responder: no idle-rate request seen yet.
    pub fn new() -> (c: ControlResponder)
        ensures
            c.last_idle_request_ms is None,
    {
        ControlResponder { last_idle_request_ms: None }
    }

    /// GET_REPORT: this device has no meaningful report to return on a
    /// pull request, whatever the id; always "not available".
    pub fn get_report(&self, _id: ReportId) -> (r: Option<Vec<u8>>)
        ensures
            r is None,
    {
        None
    }

    /// SET_REPORT: any host-supplied output report is unconditionally
    /// accepted and otherwise ignored; there are no LEDs or output state
    /// to drive.
    pub fn set_report(&self, _id: ReportId, _data: &Vec<u8>) -> (r: SetReportOutcome)
        ensures
            r == SetReportOutcome::Accepted,
    {
        SetReportOutcome::Accepted
    }

    /// SET_IDLE: acknowledge and record the requested rate; no
    /// idle-driven report suppression is implemented.
    pub fn set_idle_ms(&mut self, _id: Option<ReportId>, dur_ms: u32)
        ensures
            final(self).last_idle_request_ms == Some(dur_ms),
    {
        self.last_idle_request_ms = Some(dur_ms);
    }

    /// GET_IDLE: idle-rate reporting is not implemented; always "not
    /// available".
    pub fn get_idle_ms(&self, _id: Option<ReportId>) -> (r: Option<u32>)
        ensures
            r is None,
    {
        None
    }
}

} // verus!
