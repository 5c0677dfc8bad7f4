use vstd::prelude::*;
use vstd::string::*;

use crate::backoff::{next_backoff, next_backoff_spec, BACKOFF_INITIAL_MS};
use crate::codec::{byte_len, MAX_CONTENT_BYTES};
use crate::errors::DeployError;
use crate::progress::{
    conclusion_spec, done_count, label_spec, percent_spec, status_spec, step_views,
};
use crate::requests::{build_dispatch_request, DispatchRequest, PutRequest};
use crate::runs::{find_new_run, max_id, snapshot_baseline, RunSummary};
use crate::session::{budget_exceeded, new_session, poll_step, PollSession, PollStep, StepsOutcome};
use crate::slug::{valid_slug, validate};
use crate::status::Conclusion;
use crate::upsert::{put_request_for, LookupOutcome, PutOutcome, Upsert, UpsertPhase, UpsertStep};

verus! {

/// How long the resolver may look for the run a dispatch created before
/// the deploy fails as unresolvable.
pub const RESOLVE_BUDGET_MS: u64 = 120000;

/// How long one polling attempt may run before it pauses as resumable.
pub const POLL_BUDGET_MS: u64 = 1200000;

/// One file to deploy: a repository-relative path and its text.
pub struct SourceFile {
    pub path: String,
    pub content: String,
}

/// Everything one deploy needs: the target slug, a display title, and the
/// files in upload order.
pub struct DeploySpec {
    pub resource_slug: String,
    pub display_title: String,
    pub files: Vec<SourceFile>,
}

/// What a listing of recent runs came back with.
pub enum RunsOutcome {
    Runs(Vec<RunSummary>),
    AuthFailed,
    Error(String),
}

/// What a dispatch call came back with.
pub enum DispatchOutcome {
    Accepted,
    AuthFailed,
    Error(String),
}

/// One progress report to the caller: the latest percentage and step
/// label, and a log line when a transition produced one.
pub struct ProgressEvent {
    pub percent: u8,
    pub label: String,
    pub log_line: String,
}

/// What the driver must perform next. Every remote call reports its result
/// back as the matching event.
pub enum Action {
    /// Fetch the version token of `path`; report with a lookup outcome.
    FetchVersion { path: String },
    /// Send this compare-and-swap write; report with a put outcome.
    PutFile { request: PutRequest },
    /// List the most recent runs, newest first; report with a runs outcome.
    FetchRuns,
    /// Trigger a pipeline run; report with a dispatch outcome.
    Dispatch { request: DispatchRequest },
    /// Fetch the run's job/step breakdown; report with a steps outcome.
    FetchSteps { run_id: u64 },
    /// Wait this long before performing what follows.
    Sleep { ms: u64 },
    /// Persist the session under the durable session key.
    SaveSession { session: PollSession },
    /// Delete the persisted session.
    ClearSession,
    /// Forward this progress event to the caller.
    Emit { event: ProgressEvent },
}

/// How a deploy or resume ended.
pub enum Outcome {
    /// The run finished; its own conclusion is reported as-is — a remote
    /// failure is not a fault of this client.
    Done { conclusion: Conclusion, external_url: String },
    /// The operation failed; nothing is left to resume.
    Failed { error: DeployError },
    /// The poll budget ran out; the session can resume the same run.
    TimedOut { session: PollSession },
}

/// The coordinator's answer to an entry call or a reported event.
pub enum Reaction {
    /// Perform these actions in order.
    Act { actions: Vec<Action> },
    /// The operation is over; perform the cleanup actions in order.
    Finished { outcome: Outcome, actions: Vec<Action> },
    /// The entry call was refused; the operation in flight is untouched.
    Rejected { error: DeployError },
    /// The reported event does not belong to the current state.
    Ignored,
}

/// Where the coordinator stands, with everything the next step needs.
pub enum CoordState {
    Idle,
    Uploading { slug: String, files: Vec<SourceFile>, next: usize, upsert: Upsert },
    AwaitBaseline { slug: String },
    AwaitDispatch { baseline: u64 },
    Resolving { baseline: u64, started_at_ms: u64, backoff_ms: u64 },
    Polling { session: PollSession, external_url: String },
}

/// Sequences one deploy: validate, upload each file in order, snapshot a
/// baseline, dispatch, resolve the new run, and poll it — or resume a
/// persisted session. A second entry while one operation is in flight is
/// rejected, and the guard is released on every exit path.
pub struct Coordinator {
    pub state: CoordState,
}

/// `a` emits a pure log line.
pub open spec fn is_log_action(a: Action, line: Seq<char>) -> bool {
    a matches Action::Emit { event } && event.percent == 0 && event.label@ == Seq::<char>::empty()
        && event.log_line@ == line
}

/// Every file of the list fits in an upload.
pub open spec fn files_fit(files: Seq<SourceFile>) -> bool {
    forall|i: int| 0 <= i < files.len() ==> byte_len(#[trigger] files[i].content@)
        <= MAX_CONTENT_BYTES
}

fn log_event(line: &str) -> (e: ProgressEvent)
    ensures
        e.percent == 0,
        e.label@ == Seq::<char>::empty(),
        e.log_line@ == line@,
{
    ProgressEvent { percent: 0, label: String::new(), log_line: line.to_owned() }
}

impl Coordinator {
    /// All remaining uploads fit; nothing else is constrained.
    pub open spec fn wf(&self) -> bool {
        match self.state {
            CoordState::Uploading { files, next, upsert, .. } => {
                &&& upsert.wf()
                &&& next < files@.len()
                &&& files_fit(files@)
            },
            _ => true,
        }
    }

    /// A coordinator with no operation in flight.
    pub fn new() -> (c: Coordinator)
        ensures
            c.state is Idle,
            c.wf(),
    {
        Coordinator { state: CoordState::Idle }
    }

    /// Starts a deploy. Refused while another operation is in flight; an
    /// invalid slug fails at once with no action issued; otherwise the
    /// first file's upload begins, or — with no files — the dispatch
    /// baseline is captured right away.
    pub fn deploy(&mut self, spec: DeploySpec) -> (r: Reaction)
        requires
            old(self).wf(),
            files_fit(spec.files@),
        ensures
            final(self).wf(),
            !(old(self).state is Idle) ==> {
                &&& *final(self) == *old(self)
                &&& r matches Reaction::Rejected { error } && error is Busy
            },
            old(self).state is Idle && !valid_slug(spec.resource_slug@) ==> {
                &&& final(self).state is Idle
                &&& r matches Reaction::Finished { outcome, actions } && outcome
                    matches Outcome::Failed { error } && error is Validation && actions@.len() == 0
            },
            old(self).state is Idle && valid_slug(spec.resource_slug@) && spec.files@.len() == 0
                ==> {
                &&& final(self).state matches CoordState::AwaitBaseline { slug } && slug@
                    == spec.resource_slug@
                &&& r matches Reaction::Act { actions } && actions@.len() == 2 && is_log_action(
                    actions@[0],
                    "Dispatching workflow…"@,
                ) && actions@[1] is FetchRuns
            },
            old(self).state is Idle && valid_slug(spec.resource_slug@) && spec.files@.len() > 0
                ==> {
                &&& final(self).state matches CoordState::Uploading { slug, files, next, upsert }
                    && slug@ == spec.resource_slug@ && files == spec.files && next == 0
                    && upsert.phase is AwaitFirstLookup && upsert.path@ == spec.files@[0].path@
                    && upsert.content@ == spec.files@[0].content@ && upsert.message@ == "deploy: "@
                    + spec.resource_slug@
                &&& r matches Reaction::Act { actions } && actions@.len() == 2 && is_log_action(
                    actions@[0],
                    "Uploading files…"@,
                ) && (actions@[1] matches Action::FetchVersion { path } && path@
                    == spec.files@[0].path@)
            },
    {
        if !matches!(self.state, CoordState::Idle) {
            return Reaction::Rejected { error: DeployError::Busy };
        }
        let slug = match validate(spec.resource_slug.as_str()) {
            Ok(s) => s,
            Err(_) => {
                return Reaction::Finished {
                    outcome: Outcome::Failed { error: DeployError::Validation },
                    actions: Vec::new(),
                };
            },
        };
        if spec.files.len() == 0 {
            self.state = CoordState::AwaitBaseline { slug };
            let mut actions: Vec<Action> = Vec::new();
            actions.push(Action::Emit { event: log_event("Dispatching workflow…") });
            actions.push(Action::FetchRuns);
            return Reaction::Act { actions };
        }
        let message = String::from_str("deploy: ").concat(slug.as_str());
        let path0 = spec.files[0].path.clone();
        let content0 = spec.files[0].content.clone();
        let upsert = Upsert::start(path0, content0, message);
        let first_path = spec.files[0].path.clone();
        self.state = CoordState::Uploading { slug, files: spec.files, next: 0, upsert };
        let mut actions: Vec<Action> = Vec::new();
        actions.push(Action::Emit { event: log_event("Uploading files…") });
        actions.push(Action::FetchVersion { path: first_path });
        Reaction::Act { actions }
    }

    /// Feeds the answer of a version lookup into the upload in flight.
    pub fn on_version_fetched(&mut self, result: LookupOutcome) -> (r: Reaction)
        requires
            old(self).wf(),
        ensures
            final(self).wf(),
            !(old(self).state matches CoordState::Uploading { upsert, .. } && (upsert.phase
                is AwaitFirstLookup || upsert.phase is AwaitRetryLookup)) ==> {
                &&& *final(self) == *old(self)
                &&& r is Ignored
            },
            old(self).state matches CoordState::Uploading { slug, files, next, upsert } ==> (
            upsert.phase is AwaitFirstLookup || upsert.phase is AwaitRetryLookup)
                ==> match result {
                LookupOutcome::AuthFailed => {
                    &&& final(self).state is Idle
                    &&& r matches Reaction::Finished { outcome, actions } && outcome
                        matches Outcome::Failed { error } && error is Auth && actions@.len() == 0
                },
                LookupOutcome::Found(t) => {
                    &&& Self::still_uploading(*old(self), *final(self), UpsertPhase::AwaitFirstPut,
                    UpsertPhase::AwaitRetryPut)
                    &&& r matches Reaction::Act { actions } && actions@.len() == 1 && (actions@[0]
                        matches Action::PutFile { request } && put_request_for(
                        request,
                        upsert,
                        Some(t),
                    ))
                },
                _ => {
                    &&& Self::still_uploading(*old(self), *final(self), UpsertPhase::AwaitFirstPut,
                    UpsertPhase::AwaitRetryPut)
                    &&& r matches Reaction::Act { actions } && actions@.len() == 1 && (actions@[0]
                        matches Action::PutFile { request } && put_request_for(
                        request,
                        upsert,
                        None,
                    ))
                },
            },
    {
        let mut st = CoordState::Idle;
        core::mem::swap(&mut st, &mut self.state);
        match st {
            CoordState::Uploading { slug, files, next, mut upsert } => {
                let step = upsert.on_lookup(result);
                match step {
                    UpsertStep::Put { request } => {
                        self.state = CoordState::Uploading { slug, files, next, upsert };
                        let mut actions: Vec<Action> = Vec::new();
                        actions.push(Action::PutFile { request });
                        Reaction::Act { actions }
                    },
                    UpsertStep::Failed { error } => {
                        Reaction::Finished {
                            outcome: Outcome::Failed { error },
                            actions: Vec::new(),
                        }
                    },
                    _ => {
                        self.state = CoordState::Uploading { slug, files, next, upsert };
                        Reaction::Ignored
                    },
                }
            },
            other => {
                self.state = other;
                Reaction::Ignored
            },
        }
    }

    /// The upload in flight went on: same slug, same files, same file
    /// index, same upsert but for its phase, which moved to the one of the
    /// round the lookup belonged to.
    pub open spec fn still_uploading(
        pre: Coordinator,
        post: Coordinator,
        first: UpsertPhase,
        retry: UpsertPhase,
    ) -> bool {
        pre.state matches CoordState::Uploading { slug, files, next, upsert }
            ==> post.state matches CoordState::Uploading {
            slug: s2,
            files: f2,
            next: n2,
            upsert: u2,
        } && s2 == slug && f2 == files && n2 == next && Upsert::same_file(upsert, u2) && u2.phase
            == (if upsert.phase is AwaitFirstLookup || upsert.phase is AwaitFirstPut {
            first
        } else {
            retry
        })
    }

    /// Feeds the answer of a file write into the upload in flight. A
    /// success moves to the next file, or — after the last — on to
    /// capturing the dispatch baseline; the first conflict refetches the
    /// version; any fatal upsert error aborts the remaining uploads.
    pub fn on_put_done(&mut self, result: PutOutcome) -> (r: Reaction)
        requires
            old(self).wf(),
        ensures
            final(self).wf(),
            !(old(self).state matches CoordState::Uploading { upsert, .. } && (upsert.phase
                is AwaitFirstPut || upsert.phase is AwaitRetryPut)) ==> {
                &&& *final(self) == *old(self)
                &&& r is Ignored
            },
            old(self).state matches CoordState::Uploading { slug, files, next, upsert } ==> (
            upsert.phase is AwaitFirstPut || upsert.phase is AwaitRetryPut) ==> match result {
                PutOutcome::Accepted => {
                    if next + 1 < files@.len() {
                        &&& final(self).state matches CoordState::Uploading {
                            slug: s2,
                            files: f2,
                            next: n2,
                            upsert: u2,
                        } && s2 == slug && f2 == files && n2 == next + 1 && u2.phase
                            is AwaitFirstLookup && u2.path@ == files@[next + 1].path@ && u2.content@
                            == files@[next + 1].content@ && u2.message@ == upsert.message@
                        &&& r matches Reaction::Act { actions } && actions@.len() == 1 && (
                        actions@[0] matches Action::FetchVersion { path } && path@ == files@[next
                            + 1].path@)
                    } else {
                        &&& final(self).state matches CoordState::AwaitBaseline { slug: s2 } && s2
                            == slug
                        &&& r matches Reaction::Act { actions } && actions@.len() == 2
                            && is_log_action(actions@[0], "Dispatching workflow…"@) && actions@[1]
                            is FetchRuns
                    }
                },
                PutOutcome::Conflict => {
                    if upsert.phase is AwaitFirstPut {
                        &&& Self::still_uploading(*old(self), *final(self),
                        UpsertPhase::AwaitRetryLookup, UpsertPhase::AwaitRetryLookup)
                        &&& r matches Reaction::Act { actions } && actions@.len() == 1 && (
                        actions@[0] matches Action::FetchVersion { path } && path@ == upsert.path@)
                    } else {
                        &&& final(self).state is Idle
                        &&& r matches Reaction::Finished { outcome, actions } && outcome
                            matches Outcome::Failed { error } && error is Conflict
                            && actions@.len() == 0
                    }
                },
                PutOutcome::AuthFailed => {
                    &&& final(self).state is Idle
                    &&& r matches Reaction::Finished { outcome, actions } && outcome
                        matches Outcome::Failed { error } && error is Auth && actions@.len() == 0
                },
                PutOutcome::Error(m) => {
                    &&& final(self).state is Idle
                    &&& r matches Reaction::Finished { outcome, actions } && outcome
                        matches Outcome::Failed { error } && error matches DeployError::Remote(n)
                        && n@ == m@ && actions@.len() == 0
                },
            },
    {
        let mut st = CoordState::Idle;
        core::mem::swap(&mut st, &mut self.state);
        match st {
            CoordState::Uploading { slug, files, next, mut upsert } => {
                let len = files.len();
                let step = upsert.on_put(result);
                match step {
                    UpsertStep::Succeeded => {
                        if next + 1 < len {
                            let next2 = next + 1;
                            let path = files[next2].path.clone();
                            let content = files[next2].content.clone();
                            let message = upsert.message;
                            let upsert2 = Upsert::start(path, content, message);
                            let fetch_path = files[next2].path.clone();
                            self.state = CoordState::Uploading {
                                slug,
                                files,
                                next: next2,
                                upsert: upsert2,
                            };
                            let mut actions: Vec<Action> = Vec::new();
                            actions.push(Action::FetchVersion { path: fetch_path });
                            Reaction::Act { actions }
                        } else {
                            self.state = CoordState::AwaitBaseline { slug };
                            let mut actions: Vec<Action> = Vec::new();
                            actions.push(
                                Action::Emit { event: log_event("Dispatching workflow…") },
                            );
                            actions.push(Action::FetchRuns);
                            Reaction::Act { actions }
                        }
                    },
                    UpsertStep::Lookup { path } => {
                        self.state = CoordState::Uploading { slug, files, next, upsert };
                        let mut actions: Vec<Action> = Vec::new();
                        actions.push(Action::FetchVersion { path });
                        Reaction::Act { actions }
                    },
                    UpsertStep::Failed { error } => {
                        Reaction::Finished {
                            outcome: Outcome::Failed { error },
                            actions: Vec::new(),
                        }
                    },
                    _ => {
                        self.state = CoordState::Uploading { slug, files, next, upsert };
                        Reaction::Ignored
                    },
                }
            },
            other => {
                self.state = other;
                Reaction::Ignored
            },
        }
    }

    /// Feeds the run listing captured as the pre-dispatch baseline in, and
    /// hands the dispatch request out. A failed listing yields the empty
    /// baseline: every run id then counts as new.
    pub fn on_baseline_runs(&mut self, result: RunsOutcome) -> (r: Reaction)
        requires
            old(self).wf(),
        ensures
            final(self).wf(),
            !(old(self).state is AwaitBaseline) ==> {
                &&& *final(self) == *old(self)
                &&& r is Ignored
            },
            old(self).state matches CoordState::AwaitBaseline { slug } ==> {
                &&& final(self).state matches CoordState::AwaitDispatch { baseline } && baseline
                    == (match result {
                    RunsOutcome::Runs(runs) => max_id(runs@),
                    _ => 0nat,
                })
                &&& r matches Reaction::Act { actions } && actions@.len() == 1 && (actions@[0]
                    matches Action::Dispatch { request } && request.branch_ref@ == "main"@
                    && request.resource_slug@ == slug@ && request.target_directory@ == "plugs/"@
                    + slug@ && !request.clean_flag)
            },
    {
        let mut st = CoordState::Idle;
        core::mem::swap(&mut st, &mut self.state);
        match st {
            CoordState::AwaitBaseline { slug } => {
                let baseline = match result {
                    RunsOutcome::Runs(runs) => snapshot_baseline(&runs),
                    _ => 0,
                };
                let request = build_dispatch_request(slug.as_str());
                self.state = CoordState::AwaitDispatch { baseline };
                let mut actions: Vec<Action> = Vec::new();
                actions.push(Action::Dispatch { request });
                Reaction::Act { actions }
            },
            other => {
                self.state = other;
                Reaction::Ignored
            },
        }
    }

    /// Feeds the answer of the dispatch call in. Acceptance starts the run
    /// resolution clock; any refusal — auth included — is fatal.
    pub fn on_dispatch_done(&mut self, result: DispatchOutcome, now_ms: u64) -> (r: Reaction)
        requires
            old(self).wf(),
        ensures
            final(self).wf(),
            !(old(self).state is AwaitDispatch) ==> {
                &&& *final(self) == *old(self)
                &&& r is Ignored
            },
            old(self).state matches CoordState::AwaitDispatch { baseline } ==> match result {
                DispatchOutcome::Accepted => {
                    &&& final(self).state matches CoordState::Resolving {
                        baseline: b2,
                        started_at_ms,
                        backoff_ms,
                    } && b2 == baseline && started_at_ms == now_ms && backoff_ms
                        == BACKOFF_INITIAL_MS
                    &&& r matches Reaction::Act { actions } && actions@.len() == 2 && is_log_action(
                        actions@[0],
                        "Finding the run that was created…"@,
                    ) && actions@[1] is FetchRuns
                },
                DispatchOutcome::AuthFailed => {
                    &&& final(self).state is Idle
                    &&& r matches Reaction::Finished { outcome, actions } && outcome
                        matches Outcome::Failed { error } && error is Auth && actions@.len() == 0
                },
                DispatchOutcome::Error(m) => {
                    &&& final(self).state is Idle
                    &&& r matches Reaction::Finished { outcome, actions } && outcome
                        matches Outcome::Failed { error } && error matches DeployError::Remote(n)
                        && n@ == m@ && actions@.len() == 0
                },
            },
    {
        let mut st = CoordState::Idle;
        core::mem::swap(&mut st, &mut self.state);
        match st {
            CoordState::AwaitDispatch { baseline } => {
                match result {
                    DispatchOutcome::Accepted => {
                        self.state = CoordState::Resolving {
                            baseline,
                            started_at_ms: now_ms,
                            backoff_ms: BACKOFF_INITIAL_MS,
                        };
                        let mut actions: Vec<Action> = Vec::new();
                        actions.push(
                            Action::Emit { event: log_event("Finding the run that was created…") },
                        );
                        actions.push(Action::FetchRuns);
                        Reaction::Act { actions }
                    },
                    DispatchOutcome::AuthFailed => {
                        Reaction::Finished {
                            outcome: Outcome::Failed { error: DeployError::Auth },
                            actions: Vec::new(),
                        }
                    },
                    DispatchOutcome::Error(m) => {
                        Reaction::Finished {
                            outcome: Outcome::Failed { error: DeployError::Remote(m) },
                            actions: Vec::new(),
                        }
                    },
                }
            },
            other => {
                self.state = other;
                Reaction::Ignored
            },
        }
    }

    /// Feeds a run listing into the resolver. The first listed run whose id
    /// lies above the baseline — the oldest such — is the dispatch's run:
    /// polling it starts. With no new run the resolver backs off and lists
    /// again, until its budget is spent; that timeout is fatal, since
    /// whether the dispatch took effect is unknown.
    pub fn on_runs_fetched(&mut self, result: RunsOutcome, now_ms: u64) -> (r: Reaction)
        requires
            old(self).wf(),
        ensures
            final(self).wf(),
            !(old(self).state is Resolving) ==> {
                &&& *final(self) == *old(self)
                &&& r is Ignored
            },
            old(self).state matches CoordState::Resolving { baseline, started_at_ms, backoff_ms }
                ==> match result {
                RunsOutcome::AuthFailed => {
                    &&& final(self).state is Idle
                    &&& r matches Reaction::Finished { outcome, actions } && outcome
                        matches Outcome::Failed { error } && error is Auth && actions@.len() == 0
                },
                RunsOutcome::Error(m) => {
                    &&& final(self).state is Idle
                    &&& r matches Reaction::Finished { outcome, actions } && outcome
                        matches Outcome::Failed { error } && error matches DeployError::Remote(n)
                        && n@ == m@ && actions@.len() == 0
                },
                RunsOutcome::Runs(runs) => {
                    if new_run_exists(runs@, baseline) {
                        &&& final(self).state matches CoordState::Polling {
                            session,
                            external_url,
                        } && resolved_target(runs@, baseline, session.run_id, external_url@)
                            && session.started_at_ms == now_ms && session.backoff_ms
                            == BACKOFF_INITIAL_MS && session.elapsed_budget_ms == POLL_BUDGET_MS
                            && session.last_percent == 0
                        &&& r matches Reaction::Act { actions } && actions@.len() == 3
                            && is_log_action(actions@[0], "Polling progress…"@) && (actions@[1]
                            matches Action::SaveSession { session: s2 } && resolved_id(
                            runs@,
                            baseline,
                            s2.run_id,
                        ) && s2.started_at_ms == now_ms && s2.backoff_ms == BACKOFF_INITIAL_MS
                            && s2.elapsed_budget_ms == POLL_BUDGET_MS && s2.last_percent == 0) && (
                        actions@[2] matches Action::FetchSteps { run_id } && resolved_id(
                            runs@,
                            baseline,
                            run_id,
                        ))
                    } else if now_ms > started_at_ms + RESOLVE_BUDGET_MS {
                        &&& final(self).state is Idle
                        &&& r matches Reaction::Finished { outcome, actions } && outcome
                            matches Outcome::Failed { error } && error is ResolveTimeout
                            && actions@.len() == 0
                    } else {
                        &&& final(self).state matches CoordState::Resolving {
                            baseline: b2,
                            started_at_ms: t2,
                            backoff_ms: w2,
                        } && b2 == baseline && t2 == started_at_ms && w2 == next_backoff_spec(
                            backoff_ms as int,
                        )
                        &&& r matches Reaction::Act { actions } && actions@.len() == 2 && (
                        actions@[0] matches Action::Sleep { ms } && ms == backoff_ms) && actions@[1]
                            is FetchRuns
                    }
                },
            },
    {
        let mut st = CoordState::Idle;
        core::mem::swap(&mut st, &mut self.state);
        match st {
            CoordState::Resolving { baseline, started_at_ms, backoff_ms } => {
                match result {
                    RunsOutcome::AuthFailed => {
                        Reaction::Finished {
                            outcome: Outcome::Failed { error: DeployError::Auth },
                            actions: Vec::new(),
                        }
                    },
                    RunsOutcome::Error(m) => {
                        Reaction::Finished {
                            outcome: Outcome::Failed { error: DeployError::Remote(m) },
                            actions: Vec::new(),
                        }
                    },
                    RunsOutcome::Runs(mut runs) => {
                        match find_new_run(baseline, &runs) {
                            Some(k) => {
                                let ghost runs0 = runs@;
                                proof {
                                    assert(is_resolved_pick(runs0, baseline, k as int));
                                    assert(runs0[k as int].id > baseline);
                                }
                                let run = runs.remove(k);
                                let session = new_session(run.id, now_ms, POLL_BUDGET_MS);
                                let saved = session.clone();
                                let run_id = session.run_id;
                                self.state = CoordState::Polling {
                                    session,
                                    external_url: run.external_url,
                                };
                                let mut actions: Vec<Action> = Vec::new();
                                actions.push(Action::Emit { event: log_event("Polling progress…") });
                                actions.push(Action::SaveSession { session: saved });
                                actions.push(Action::FetchSteps { run_id });
                                Reaction::Act { actions }
                            },
                            None => {
                                let timed_out = now_ms >= started_at_ms && now_ms - started_at_ms
                                    > RESOLVE_BUDGET_MS;
                                if timed_out {
                                    Reaction::Finished {
                                        outcome: Outcome::Failed {
                                            error: DeployError::ResolveTimeout,
                                        },
                                        actions: Vec::new(),
                                    }
                                } else {
                                    self.state = CoordState::Resolving {
                                        baseline,
                                        started_at_ms,
                                        backoff_ms: next_backoff(backoff_ms),
                                    };
                                    let mut actions: Vec<Action> = Vec::new();
                                    actions.push(Action::Sleep { ms: backoff_ms });
                                    actions.push(Action::FetchRuns);
                                    Reaction::Act { actions }
                                }
                            },
                        }
                    },
                }
            },
            other => {
                self.state = other;
                Reaction::Ignored
            },
        }
    }

    /// Feeds a run's job/step breakdown into the poller: progress is
    /// reported and persisted, a terminal run ends the operation with the
    /// run's own conclusion, a spent budget pauses it resumably, and
    /// otherwise the poller sleeps its backoff and fetches again.
    pub fn on_steps_fetched(&mut self, result: StepsOutcome, now_ms: u64) -> (r: Reaction)
        requires
            old(self).wf(),
        ensures
            final(self).wf(),
            !(old(self).state is Polling) ==> {
                &&& *final(self) == *old(self)
                &&& r is Ignored
            },
            old(self).state matches CoordState::Polling { session, external_url } ==> match result {
                StepsOutcome::AuthFailed => {
                    &&& final(self).state is Idle
                    &&& r matches Reaction::Finished { outcome, actions } && outcome
                        matches Outcome::Failed { error } && error is Auth && actions@.len() == 0
                },
                StepsOutcome::Error(m) => {
                    &&& final(self).state is Idle
                    &&& r matches Reaction::Finished { outcome, actions } && outcome
                        matches Outcome::Failed { error } && error matches DeployError::Remote(n)
                        && n@ == m@ && actions@.len() == 0
                },
                StepsOutcome::Steps(steps) => ({
                    let sv = step_views(steps@);
                    let percent = percent_spec(done_count(sv) as int, sv.len() as int);
                    if status_spec(sv) is Completed {
                        &&& final(self).state is Idle
                        &&& r matches Reaction::Finished { outcome, actions } && (outcome
                            matches Outcome::Done { conclusion, external_url: u2 } && Some(
                            conclusion,
                        ) == conclusion_spec(sv) && u2@ == external_url@) && actions@.len() == 2
                            && (actions@[0] matches Action::Emit { event } && event.percent
                            == percent && event.label@ == label_spec(sv) && event.log_line@
                            == Seq::<char>::empty()) && actions@[1] is ClearSession
                    } else if budget_exceeded(session, now_ms) {
                        &&& final(self).state is Idle
                        &&& r matches Reaction::Finished { outcome, actions } && (outcome
                            matches Outcome::TimedOut { session: s2 } && s2.run_id == session.run_id
                            && s2.started_at_ms == session.started_at_ms && s2.backoff_ms
                            == session.backoff_ms && s2.elapsed_budget_ms
                            == session.elapsed_budget_ms && s2.last_percent == percent
                            && s2.last_label@ == label_spec(sv)) && actions@.len() == 2 && (
                        actions@[0] matches Action::Emit { event } && event.percent == percent
                            && event.label@ == label_spec(sv)) && (actions@[1]
                            matches Action::SaveSession { session: s3 } && s3.run_id
                            == session.run_id && s3.last_percent == percent)
                    } else {
                        &&& final(self).state matches CoordState::Polling {
                            session: s2,
                            external_url: u2,
                        } && s2.run_id == session.run_id && s2.started_at_ms
                            == session.started_at_ms && s2.elapsed_budget_ms
                            == session.elapsed_budget_ms && s2.backoff_ms == next_backoff_spec(
                            session.backoff_ms as int,
                        ) && s2.last_percent == percent && s2.last_label@ == label_spec(sv) && u2@
                            == external_url@
                        &&& r matches Reaction::Act { actions } && actions@.len() == 4 && (
                        actions@[0] matches Action::Emit { event } && event.percent == percent
                            && event.label@ == label_spec(sv) && event.log_line@
                            == Seq::<char>::empty()) && (actions@[1]
                            matches Action::SaveSession { session: s3 } && s3.run_id
                            == session.run_id && s3.last_percent == percent && s3.last_label@
                            == label_spec(sv) && s3.backoff_ms == next_backoff_spec(
                            session.backoff_ms as int,
                        )) && (actions@[2] matches Action::Sleep { ms } && ms
                            == session.backoff_ms) && (actions@[3]
                            matches Action::FetchSteps { run_id } && run_id == session.run_id)
                    }
                }),
            },
    {
        let mut st = CoordState::Idle;
        core::mem::swap(&mut st, &mut self.state);
        match st {
            CoordState::Polling { mut session, external_url } => {
                let step = poll_step(&mut session, now_ms, result);
                match step {
                    PollStep::Continue { sleep_ms, progress } => {
                        let run_id = session.run_id;
                        let saved = session.clone();
                        let event = ProgressEvent {
                            percent: progress.percent,
                            label: progress.label,
                            log_line: String::new(),
                        };
                        self.state = CoordState::Polling { session, external_url };
                        let mut actions: Vec<Action> = Vec::new();
                        actions.push(Action::Emit { event });
                        actions.push(Action::SaveSession { session: saved });
                        actions.push(Action::Sleep { ms: sleep_ms });
                        actions.push(Action::FetchSteps { run_id });
                        Reaction::Act { actions }
                    },
                    PollStep::Finished { conclusion } => {
                        let event = ProgressEvent {
                            percent: session.last_percent,
                            label: session.last_label.clone(),
                            log_line: String::new(),
                        };
                        let mut actions: Vec<Action> = Vec::new();
                        actions.push(Action::Emit { event });
                        actions.push(Action::ClearSession);
                        Reaction::Finished {
                            outcome: Outcome::Done { conclusion, external_url },
                            actions,
                        }
                    },
                    PollStep::TimedOut => {
                        let event = ProgressEvent {
                            percent: session.last_percent,
                            label: session.last_label.clone(),
                            log_line: String::new(),
                        };
                        let saved = session.clone();
                        let mut actions: Vec<Action> = Vec::new();
                        actions.push(Action::Emit { event });
                        actions.push(Action::SaveSession { session: saved });
                        Reaction::Finished { outcome: Outcome::TimedOut { session }, actions }
                    },
                    PollStep::Failed { error } => {
                        Reaction::Finished {
                            outcome: Outcome::Failed { error },
                            actions: Vec::new(),
                        }
                    },
                }
            },
            other => {
                self.state = other;
                Reaction::Ignored
            },
        }
    }

    /// Resumes a persisted session: polling the session's run continues
    /// with the backoff it reached and the progress it last saw, under a
    /// fresh time budget from `now_ms` on. Refused while another operation
    /// is in flight.
    pub fn resume(&mut self, session: PollSession, now_ms: u64) -> (r: Reaction)
        requires
            old(self).wf(),
        ensures
            final(self).wf(),
            !(old(self).state is Idle) ==> {
                &&& *final(self) == *old(self)
                &&& r matches Reaction::Rejected { error } && error is Busy
            },
            old(self).state is Idle ==> {
                &&& final(self).state matches CoordState::Polling {
                    session: s2,
                    external_url,
                } && s2.run_id == session.run_id && s2.started_at_ms == now_ms && s2.backoff_ms
                    == session.backoff_ms && s2.elapsed_budget_ms == session.elapsed_budget_ms
                    && s2.last_percent == session.last_percent && s2.last_label@
                    == session.last_label@ && external_url@ == Seq::<char>::empty()
                &&& r matches Reaction::Act { actions } && actions@.len() == 2 && is_log_action(
                    actions@[0],
                    "Resuming polling…"@,
                ) && (actions@[1] matches Action::FetchSteps { run_id } && run_id
                    == session.run_id)
            },
    {
        if !matches!(self.state, CoordState::Idle) {
            return Reaction::Rejected { error: DeployError::Busy };
        }
        let run_id = session.run_id;
        let fresh = PollSession {
            run_id: session.run_id,
            started_at_ms: now_ms,
            backoff_ms: session.backoff_ms,
            elapsed_budget_ms: session.elapsed_budget_ms,
            last_percent: session.last_percent,
            last_label: session.last_label,
        };
        self.state = CoordState::Polling { session: fresh, external_url: String::new() };
        let mut actions: Vec<Action> = Vec::new();
        actions.push(Action::Emit { event: log_event("Resuming polling…") });
        actions.push(Action::FetchSteps { run_id });
        Reaction::Act { actions }
    }
}

/// Some listed run is new against the baseline.
pub open spec fn new_run_exists(runs: Seq<RunSummary>, baseline: u64) -> bool {
    exists|j: int| 0 <= j < runs.len() && (#[trigger] runs[j].id) > baseline
}

/// `run_id` and `url` belong to the run the resolver picks: a listed run
/// above the baseline, with the smallest such id, first of its id in the
/// listing. That choice is unique, so this pins the picked run down.
/// `k` points at the run the resolver picks: a listed run above the
/// baseline, with the smallest such id, first of its id in the listing.
/// That choice is unique.
pub open spec fn is_resolved_pick(runs: Seq<RunSummary>, baseline: u64, k: int) -> bool {
    &&& 0 <= k < runs.len()
    &&& runs[k].id > baseline
    &&& forall|j: int|
        0 <= j < runs.len() && (#[trigger] runs[j].id) > baseline ==> runs[k].id <= runs[j].id
    &&& forall|j: int| 0 <= j < k ==> (#[trigger] runs[j].id) != runs[k].id
}

/// `run_id` is the id of the run the resolver picks.
pub open spec fn resolved_id(runs: Seq<RunSummary>, baseline: u64, run_id: u64) -> bool {
    exists|k: int| #[trigger] is_resolved_pick(runs, baseline, k) && runs[k].id == run_id
}

/// `run_id` and `url` belong to the run the resolver picks.
pub open spec fn resolved_target(
    runs: Seq<RunSummary>,
    baseline: u64,
    run_id: u64,
    url: Seq<char>,
) -> bool {
    exists|k: int|
        #[trigger] is_resolved_pick(runs, baseline, k) && runs[k].id == run_id
            && runs[k].external_url@ == url
}

} // verus!
