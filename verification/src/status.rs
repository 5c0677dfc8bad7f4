use vstd::prelude::*;

use crate::text::str_eq;

verus! {

/// Where a run stands: not yet started, running, or finished.
#[derive(Debug, Clone, Copy, PartialEq, Eq, Structural)]
pub enum RunStatus {
    Queued,
    InProgress,
    Completed,
}

/// How a completed run ended. A remote `Failure` or `Cancelled` is the
/// pipeline's own verdict, not a fault of this client.
#[derive(Debug, Clone, Copy, PartialEq, Eq, Structural)]
pub enum Conclusion {
    Success,
    Failure,
    Cancelled,
}

/// The status a remote status string denotes: `completed` and `queued` are
/// recognized; anything else counts as still in progress.
pub open spec fn run_status_of(s: Seq<char>) -> RunStatus {
    if s == "completed"@ {
        RunStatus::Completed
    } else if s == "queued"@ {
        RunStatus::Queued
    } else {
        RunStatus::InProgress
    }
}

/// The conclusion a remote conclusion string denotes, if any.
pub open spec fn conclusion_of(s: Seq<char>) -> Option<Conclusion> {
    if s == "success"@ {
        Some(Conclusion::Success)
    } else if s == "failure"@ {
        Some(Conclusion::Failure)
    } else if s == "cancelled"@ {
        Some(Conclusion::Cancelled)
    } else {
        None
    }
}

/// Parses a remote status string.
pub fn parse_run_status(s: &str) -> (r: RunStatus)
    ensures
        r == run_status_of(s@),
{
    if str_eq(s, "completed") {
        RunStatus::Completed
    } else if str_eq(s, "queued") {
        RunStatus::Queued
    } else {
        RunStatus::InProgress
    }
}

/// Parses a remote conclusion string.
pub fn parse_conclusion(s: &str) -> (r: Option<Conclusion>)
    ensures
        r == conclusion_of(s@),
{
    if str_eq(s, "success") {
        Some(Conclusion::Success)
    } else if str_eq(s, "failure") {
        Some(Conclusion::Failure)
    } else if str_eq(s, "cancelled") {
        Some(Conclusion::Cancelled)
    } else {
        None
    }
}

} // verus!
