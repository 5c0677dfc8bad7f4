use vstd::prelude::*;
use vstd::string::*;

use crate::backoff::{next_backoff, next_backoff_spec, BACKOFF_INITIAL_MS};
use crate::errors::DeployError;
use crate::progress::{
    conclusion_spec, done_count, label_spec, percent_spec, reduce, status_spec, step_views,
    Progress, StepState,
};
use crate::status::Conclusion;

verus! {

/// The durable record of one polling operation. It survives the polling
/// process: persisted on every update, it lets a later process resume
/// polling the same run with the same backoff and the progress last seen.
pub struct PollSession {
    pub run_id: u64,
    pub started_at_ms: u64,
    pub backoff_ms: u64,
    pub elapsed_budget_ms: u64,
    pub last_percent: u8,
    pub last_label: String,
}

impl Clone for PollSession {
    fn clone(&self) -> (r: Self)
        ensures
            r.run_id == self.run_id,
            r.started_at_ms == self.started_at_ms,
            r.backoff_ms == self.backoff_ms,
            r.elapsed_budget_ms == self.elapsed_budget_ms,
            r.last_percent == self.last_percent,
            r.last_label@ == self.last_label@,
    {
        PollSession {
            run_id: self.run_id,
            started_at_ms: self.started_at_ms,
            backoff_ms: self.backoff_ms,
            elapsed_budget_ms: self.elapsed_budget_ms,
            last_percent: self.last_percent,
            last_label: self.last_label.clone(),
        }
    }
}

/// What a fetch of a run's jobs and steps came back with.
pub enum StepsOutcome {
    Steps(Vec<StepState>),
    AuthFailed,
    Error(String),
}

/// What the driver must do after one poll.
pub enum PollStep {
    /// Report the progress, sleep, fetch the steps again, and report back.
    Continue { sleep_ms: u64, progress: Progress },
    /// The run reached a terminal state; polling is over.
    Finished { conclusion: Conclusion },
    /// The time budget is spent. The session stays valid — its run can be
    /// resumed later.
    TimedOut,
    /// Polling is over and failed.
    Failed { error: DeployError },
}

/// The session's time budget is spent at `now_ms`.
pub open spec fn budget_exceeded(s: PollSession, now_ms: u64) -> bool {
    now_ms > s.started_at_ms + s.elapsed_budget_ms
}

/// Opens a fresh session on a run, with the initial backoff, the full
/// budget from `now_ms` on, and no progress yet.
pub fn new_session(run_id: u64, now_ms: u64, elapsed_budget_ms: u64) -> (s: PollSession)
    ensures
        s.run_id == run_id,
        s.started_at_ms == now_ms,
        s.backoff_ms == BACKOFF_INITIAL_MS,
        s.elapsed_budget_ms == elapsed_budget_ms,
        s.last_percent == 0,
        s.last_label@ == Seq::<char>::empty(),
{
    PollSession {
        run_id,
        started_at_ms: now_ms,
        backoff_ms: BACKOFF_INITIAL_MS,
        elapsed_budget_ms,
        last_percent: 0,
        last_label: String::new(),
    }
}

/// One iteration of the poll loop. The fetched steps are reduced, the
/// session's progress is updated, and the driver is told to stop — on a
/// terminal run, a spent budget, or a failed fetch — or to sleep the
/// current backoff and poll again. A spent budget never touches the run
/// id: the session stays resumable.
pub fn poll_step(session: &mut PollSession, now_ms: u64, fetched: StepsOutcome) -> (r: PollStep)
    ensures
        final(session).run_id == old(session).run_id,
        final(session).started_at_ms == old(session).started_at_ms,
        final(session).elapsed_budget_ms == old(session).elapsed_budget_ms,
        match fetched {
            StepsOutcome::AuthFailed => {
                &&& *final(session) == *old(session)
                &&& r matches PollStep::Failed { error } && error is Auth
            },
            StepsOutcome::Error(m) => {
                &&& *final(session) == *old(session)
                &&& r matches PollStep::Failed { error } && error matches DeployError::Remote(n)
                    && n@ == m@
            },
            StepsOutcome::Steps(steps) => {
                let sv = step_views(steps@);
                &&& final(session).last_percent == percent_spec(
                    done_count(sv) as int,
                    sv.len() as int,
                )
                &&& final(session).last_label@ == label_spec(sv)
                &&& if status_spec(sv) is Completed {
                    &&& r matches PollStep::Finished { conclusion } && Some(conclusion)
                        == conclusion_spec(sv)
                    &&& final(session).backoff_ms == old(session).backoff_ms
                } else if budget_exceeded(*old(session), now_ms) {
                    &&& r is TimedOut
                    &&& final(session).backoff_ms == old(session).backoff_ms
                } else {
                    &&& r matches PollStep::Continue { sleep_ms, progress } && sleep_ms == old(
                        session,
                    ).backoff_ms && progress.percent == final(session).last_percent
                        && progress.label@ == final(session).last_label@ && progress.status
                        == status_spec(sv) && progress.conclusion == conclusion_spec(sv)
                    &&& final(session).backoff_ms == next_backoff_spec(
                        old(session).backoff_ms as int,
                    )
                }
            },
        },
{
    match fetched {
        StepsOutcome::AuthFailed => PollStep::Failed { error: DeployError::Auth },
        StepsOutcome::Error(m) => PollStep::Failed { error: DeployError::Remote(m) },
        StepsOutcome::Steps(steps) => {
            let p = reduce(&steps);
            session.last_percent = p.percent;
            session.last_label = p.label.clone();
            if matches!(p.status, crate::status::RunStatus::Completed) {
                let conclusion = p.conclusion.unwrap();
                PollStep::Finished { conclusion }
            } else {
                let timed_out = now_ms >= session.started_at_ms && now_ms - session.started_at_ms
                    > session.elapsed_budget_ms;
                if timed_out {
                    PollStep::TimedOut
                } else {
                    let sleep_ms = session.backoff_ms;
                    session.backoff_ms = next_backoff(session.backoff_ms);
                    PollStep::Continue { sleep_ms, progress: p }
                }
            }
        },
    }
}

} // verus!
