use plug_deploy::coordinator::{
    Action, CoordState, Coordinator, DeploySpec, DispatchOutcome, Outcome, Reaction, RunsOutcome,
    SourceFile,
};
use plug_deploy::errors::DeployError;
use plug_deploy::progress::StepState;
use plug_deploy::runs::RunSummary;
use plug_deploy::session::{PollSession, StepsOutcome};
use plug_deploy::status::{Conclusion, RunStatus};
use plug_deploy::upsert::{LookupOutcome, PutOutcome};

fn file(path: &str, content: &str) -> SourceFile {
    SourceFile { path: path.to_owned(), content: content.to_owned() }
}

fn spec(slug: &str, files: Vec<SourceFile>) -> DeploySpec {
    DeploySpec {
        resource_slug: slug.to_owned(),
        display_title: "Demo App".to_owned(),
        files,
    }
}

fn run(id: u64) -> RunSummary {
    RunSummary {
        id,
        external_url: format!("https://runs.example/{id}"),
        status: RunStatus::InProgress,
        conclusion: None,
        created_at_ms: id * 1000,
    }
}

fn step(status: RunStatus) -> StepState {
    StepState {
        job_name: "build".to_owned(),
        step_name: "compile".to_owned(),
        status,
        conclusion: if status == RunStatus::Completed { Some(Conclusion::Success) } else { None },
    }
}

fn actions(r: Reaction) -> Vec<Action> {
    match r {
        Reaction::Act { actions } => actions,
        Reaction::Finished { .. } => panic!("operation finished unexpectedly"),
        Reaction::Rejected { .. } => panic!("entry was rejected unexpectedly"),
        Reaction::Ignored => panic!("event was ignored unexpectedly"),
    }
}

fn finished(r: Reaction) -> (Outcome, Vec<Action>) {
    match r {
        Reaction::Finished { outcome, actions } => (outcome, actions),
        _ => panic!("expected the operation to finish"),
    }
}

fn expect_lookup(a: &Action, path: &str) {
    match a {
        Action::FetchVersion { path: p } => assert_eq!(p, path),
        _ => panic!("expected a version lookup of {path}"),
    }
}

fn expect_create(a: &Action, path: &str) {
    match a {
        Action::PutFile { request } => {
            assert_eq!(request.path, path);
            assert_eq!(request.version, None);
        },
        _ => panic!("expected a create of {path}"),
    }
}

/// Counts the actions that would go out on the network.
fn network_actions(acts: &[Action]) -> usize {
    acts.iter()
        .filter(|a| {
            matches!(
                a,
                Action::FetchVersion { .. }
                    | Action::PutFile { .. }
                    | Action::FetchRuns
                    | Action::Dispatch { .. }
                    | Action::FetchSteps { .. }
            )
        })
        .count()
}

#[test]
fn empty_slug_fails_with_zero_network_calls() {
    let mut c = Coordinator::new();
    let (outcome, acts) = finished(c.deploy(spec("", vec![file("index.html", "x")])));
    assert!(matches!(outcome, Outcome::Failed { error: DeployError::Validation }));
    assert_eq!(acts.len(), 0);
    assert!(matches!(c.state, CoordState::Idle));
}

#[test]
fn invalid_slug_fails_with_zero_network_calls() {
    let mut c = Coordinator::new();
    let (outcome, acts) = finished(c.deploy(spec("Bad Slug!", Vec::new())));
    assert!(matches!(outcome, Outcome::Failed { error: DeployError::Validation }));
    assert_eq!(network_actions(&acts), 0);
}

#[test]
fn deploy_three_new_files_to_success() {
    let mut c = Coordinator::new();
    let files = vec![
        file("plugs/demo/index.html", "<html>"),
        file("plugs/demo/styles.css", "body{}"),
        file("plugs/demo/src/main.rs", "fn main() {}"),
    ];
    let acts = actions(c.deploy(spec("demo", files)));
    assert_eq!(network_actions(&acts), 1);
    expect_lookup(acts.last().unwrap(), "plugs/demo/index.html");

    let acts = actions(c.on_version_fetched(LookupOutcome::Missing));
    expect_create(&acts[0], "plugs/demo/index.html");
    let acts = actions(c.on_put_done(PutOutcome::Accepted));
    expect_lookup(&acts[0], "plugs/demo/styles.css");

    let acts = actions(c.on_version_fetched(LookupOutcome::Missing));
    expect_create(&acts[0], "plugs/demo/styles.css");
    let acts = actions(c.on_put_done(PutOutcome::Accepted));
    expect_lookup(&acts[0], "plugs/demo/src/main.rs");

    let acts = actions(c.on_version_fetched(LookupOutcome::Missing));
    expect_create(&acts[0], "plugs/demo/src/main.rs");
    // after the last file the baseline listing starts
    let acts = actions(c.on_put_done(PutOutcome::Accepted));
    assert!(matches!(acts.last().unwrap(), Action::FetchRuns));

    let acts = actions(c.on_baseline_runs(RunsOutcome::Runs(vec![run(5)])));
    match &acts[0] {
        Action::Dispatch { request } => {
            assert_eq!(request.resource_slug, "demo");
            assert_eq!(request.target_directory, "plugs/demo");
            assert_eq!(request.branch_ref, "main");
            assert!(!request.clean_flag);
        },
        _ => panic!("expected a dispatch"),
    }

    let acts = actions(c.on_dispatch_done(DispatchOutcome::Accepted, 1_000));
    assert!(matches!(acts.last().unwrap(), Action::FetchRuns));

    let acts = actions(c.on_runs_fetched(RunsOutcome::Runs(vec![run(6), run(5)]), 2_000));
    match acts.last().unwrap() {
        Action::FetchSteps { run_id } => assert_eq!(*run_id, 6),
        _ => panic!("expected a steps fetch"),
    }

    // half done: 1 of 2 steps completed
    let halfway = vec![step(RunStatus::Completed), step(RunStatus::InProgress)];
    let acts = actions(c.on_steps_fetched(StepsOutcome::Steps(halfway), 3_000));
    match &acts[0] {
        Action::Emit { event } => assert_eq!(event.percent, 50),
        _ => panic!("expected a progress event"),
    }
    assert!(matches!(acts[2], Action::Sleep { ms: 1500 }));

    let finished_steps = vec![step(RunStatus::Completed), step(RunStatus::Completed)];
    let (outcome, acts) = finished(c.on_steps_fetched(StepsOutcome::Steps(finished_steps), 5_000));
    match outcome {
        Outcome::Done { conclusion, external_url } => {
            assert_eq!(conclusion, Conclusion::Success);
            assert_eq!(external_url, "https://runs.example/6");
        },
        _ => panic!("expected a done outcome"),
    }
    match &acts[0] {
        Action::Emit { event } => {
            assert_eq!(event.percent, 100);
            assert_eq!(event.label, "Finalizing…");
        },
        _ => panic!("expected the final progress event"),
    }
    assert!(matches!(acts[1], Action::ClearSession));
    assert!(matches!(c.state, CoordState::Idle));
}

#[test]
fn stale_token_conflict_retries_once_without_duplicate_write() {
    let mut c = Coordinator::new();
    let acts = actions(c.deploy(spec("demo", vec![file("plugs/demo/index.html", "new text")])));
    assert!(matches!(acts.last().unwrap(), Action::FetchVersion { .. }));

    let acts = actions(c.on_version_fetched(LookupOutcome::Found("stale".to_owned())));
    match &acts[0] {
        Action::PutFile { request } => assert_eq!(request.version.as_deref(), Some("stale")),
        _ => panic!("expected a put"),
    }

    let acts = actions(c.on_put_done(PutOutcome::Conflict));
    assert!(matches!(acts[0], Action::FetchVersion { .. }));

    let acts = actions(c.on_version_fetched(LookupOutcome::Found("fresh".to_owned())));
    match &acts[0] {
        Action::PutFile { request } => assert_eq!(request.version.as_deref(), Some("fresh")),
        _ => panic!("expected the retry put"),
    }

    // one accepted write in total; the upload moves on to dispatch
    let acts = actions(c.on_put_done(PutOutcome::Accepted));
    assert!(matches!(acts.last().unwrap(), Action::FetchRuns));
}

#[test]
fn second_conflict_fails_the_deploy() {
    let mut c = Coordinator::new();
    c.deploy(spec("demo", vec![file("a", "x")]));
    c.on_version_fetched(LookupOutcome::Found("t1".to_owned()));
    c.on_put_done(PutOutcome::Conflict);
    c.on_version_fetched(LookupOutcome::Found("t2".to_owned()));
    let (outcome, _) = finished(c.on_put_done(PutOutcome::Conflict));
    assert!(matches!(outcome, Outcome::Failed { error: DeployError::Conflict }));
    assert!(matches!(c.state, CoordState::Idle));
}

#[test]
fn auth_failure_aborts_remaining_uploads() {
    let mut c = Coordinator::new();
    c.deploy(spec("demo", vec![file("a", "x"), file("b", "y")]));
    let (outcome, acts) = finished(c.on_version_fetched(LookupOutcome::AuthFailed));
    assert!(matches!(outcome, Outcome::Failed { error: DeployError::Auth }));
    assert_eq!(acts.len(), 0);
}

#[test]
fn dispatch_error_is_fatal_with_message() {
    let mut c = Coordinator::new();
    c.deploy(spec("demo", Vec::new()));
    c.on_baseline_runs(RunsOutcome::Error("listing down".to_owned()));
    let (outcome, _) =
        finished(c.on_dispatch_done(DispatchOutcome::Error("403 forbidden".to_owned()), 0));
    match outcome {
        Outcome::Failed { error: DeployError::Remote(m) } => assert_eq!(m, "403 forbidden"),
        _ => panic!("expected a remote failure"),
    }
}

#[test]
fn baseline_listing_error_is_swallowed() {
    let mut c = Coordinator::new();
    c.deploy(spec("demo", Vec::new()));
    // the baseline listing failed: every id counts as new afterwards
    let acts = actions(c.on_baseline_runs(RunsOutcome::Error("flaky".to_owned())));
    assert!(matches!(acts[0], Action::Dispatch { .. }));
    c.on_dispatch_done(DispatchOutcome::Accepted, 0);
    let acts = actions(c.on_runs_fetched(RunsOutcome::Runs(vec![run(1)]), 10));
    match acts.last().unwrap() {
        Action::FetchSteps { run_id } => assert_eq!(*run_id, 1),
        _ => panic!("expected a steps fetch"),
    }
}

#[test]
fn resolver_backs_off_then_times_out() {
    let mut c = Coordinator::new();
    c.deploy(spec("demo", Vec::new()));
    c.on_baseline_runs(RunsOutcome::Runs(vec![run(5)]));
    c.on_dispatch_done(DispatchOutcome::Accepted, 0);
    let acts = actions(c.on_runs_fetched(RunsOutcome::Runs(vec![run(5)]), 10));
    assert!(matches!(acts[0], Action::Sleep { ms: 1500 }));
    assert!(matches!(acts[1], Action::FetchRuns));
    let acts = actions(c.on_runs_fetched(RunsOutcome::Runs(vec![run(5)]), 2_000));
    assert!(matches!(acts[0], Action::Sleep { ms: 1950 }));
    let (outcome, _) = finished(c.on_runs_fetched(RunsOutcome::Runs(vec![run(5)]), 120_001));
    assert!(matches!(outcome, Outcome::Failed { error: DeployError::ResolveTimeout }));
    assert!(matches!(c.state, CoordState::Idle));
}

#[test]
fn poll_timeout_is_resumable_with_same_run_id() {
    let mut c = Coordinator::new();
    c.deploy(spec("demo", Vec::new()));
    c.on_baseline_runs(RunsOutcome::Runs(vec![run(100)]));
    c.on_dispatch_done(DispatchOutcome::Accepted, 0);
    c.on_runs_fetched(RunsOutcome::Runs(vec![run(123), run(100)]), 0);

    let in_progress = vec![step(RunStatus::Completed), step(RunStatus::InProgress)];
    let acts = actions(c.on_steps_fetched(StepsOutcome::Steps(in_progress.clone()), 10));
    assert!(matches!(acts.last().unwrap(), Action::FetchSteps { run_id: 123 }));

    // the budget is spent while the run is still in progress
    let (outcome, acts) = finished(c.on_steps_fetched(StepsOutcome::Steps(in_progress), 1_200_011));
    let session = match outcome {
        Outcome::TimedOut { session } => session,
        _ => panic!("expected a resumable timeout"),
    };
    assert_eq!(session.run_id, 123);
    assert!(matches!(&acts[0], Action::Emit { .. }));
    assert!(matches!(&acts[1], Action::SaveSession { session: s } if s.run_id == 123));
    assert!(matches!(c.state, CoordState::Idle));

    // resuming continues the very same run under a fresh budget
    let acts = actions(c.resume(session, 2_000_000));
    match acts.last().unwrap() {
        Action::FetchSteps { run_id } => assert_eq!(*run_id, 123),
        _ => panic!("expected a steps fetch"),
    }
    let done_steps = vec![step(RunStatus::Completed), step(RunStatus::Completed)];
    let (outcome, _) = finished(c.on_steps_fetched(StepsOutcome::Steps(done_steps), 2_000_100));
    assert!(matches!(outcome, Outcome::Done { conclusion: Conclusion::Success, .. }));
}

#[test]
fn remote_pipeline_failure_is_done_not_failed() {
    let mut c = Coordinator::new();
    c.deploy(spec("demo", Vec::new()));
    c.on_baseline_runs(RunsOutcome::Runs(vec![run(5)]));
    c.on_dispatch_done(DispatchOutcome::Accepted, 0);
    c.on_runs_fetched(RunsOutcome::Runs(vec![run(6)]), 0);
    let failed_steps = vec![StepState {
        job_name: "build".to_owned(),
        step_name: "compile".to_owned(),
        status: RunStatus::Completed,
        conclusion: Some(Conclusion::Failure),
    }];
    let (outcome, _) = finished(c.on_steps_fetched(StepsOutcome::Steps(failed_steps), 10));
    match outcome {
        Outcome::Done { conclusion, external_url } => {
            assert_eq!(conclusion, Conclusion::Failure);
            assert_eq!(external_url, "https://runs.example/6");
        },
        _ => panic!("a remote failure must still be a done outcome"),
    }
}

#[test]
fn busy_guard_rejects_reentry_and_is_released() {
    let mut c = Coordinator::new();
    c.deploy(spec("demo", vec![file("a", "x")]));
    assert!(matches!(
        c.deploy(spec("other", Vec::new())),
        Reaction::Rejected { error: DeployError::Busy }
    ));
    let session = PollSession {
        run_id: 9,
        started_at_ms: 0,
        backoff_ms: 1500,
        elapsed_budget_ms: 1000,
        last_percent: 0,
        last_label: String::new(),
    };
    assert!(matches!(
        c.resume(session, 0),
        Reaction::Rejected { error: DeployError::Busy }
    ));
    // a failure releases the guard on its exit path
    finished(c.on_version_fetched(LookupOutcome::AuthFailed));
    assert!(matches!(c.state, CoordState::Idle));
    assert!(matches!(c.deploy(spec("demo", Vec::new())), Reaction::Act { .. }));
}

#[test]
fn resume_keeps_the_backoff_starting_point() {
    let mut c = Coordinator::new();
    let session = PollSession {
        run_id: 42,
        started_at_ms: 0,
        backoff_ms: 9408,
        elapsed_budget_ms: 1_200_000,
        last_percent: 80,
        last_label: "build → package".to_owned(),
    };
    let acts = actions(c.resume(session, 5_000));
    assert!(matches!(acts.last().unwrap(), Action::FetchSteps { run_id: 42 }));
    let in_progress = vec![step(RunStatus::Completed), step(RunStatus::InProgress)];
    let acts = actions(c.on_steps_fetched(StepsOutcome::Steps(in_progress), 6_000));
    // the poll continues with the delay the paused session had reached
    assert!(matches!(acts[2], Action::Sleep { ms: 9408 }));
}

#[test]
fn stray_events_are_ignored() {
    let mut c = Coordinator::new();
    assert!(matches!(c.on_put_done(PutOutcome::Accepted), Reaction::Ignored));
    assert!(matches!(
        c.on_steps_fetched(StepsOutcome::AuthFailed, 0),
        Reaction::Ignored
    ));
    c.deploy(spec("demo", Vec::new()));
    // a version lookup belongs to an upload, not to the baseline wait
    assert!(matches!(
        c.on_version_fetched(LookupOutcome::Missing),
        Reaction::Ignored
    ));
}

#[test]
fn poll_fetch_error_is_fatal() {
    let mut c = Coordinator::new();
    c.deploy(spec("demo", Vec::new()));
    c.on_baseline_runs(RunsOutcome::Runs(Vec::new()));
    c.on_dispatch_done(DispatchOutcome::Accepted, 0);
    c.on_runs_fetched(RunsOutcome::Runs(vec![run(1)]), 0);
    let (outcome, _) =
        finished(c.on_steps_fetched(StepsOutcome::Error("jobs 500".to_owned()), 10));
    match outcome {
        Outcome::Failed { error: DeployError::Remote(m) } => assert_eq!(m, "jobs 500"),
        _ => panic!("expected a remote failure"),
    }
}
