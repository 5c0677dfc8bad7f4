use plug_deploy::progress::{flatten_jobs, reduce, JobRecord, StepRecord, StepState};
use plug_deploy::status::{parse_conclusion, parse_run_status, Conclusion, RunStatus};

fn step(job: &str, name: &str, status: RunStatus, conclusion: Option<Conclusion>) -> StepState {
    StepState {
        job_name: job.to_owned(),
        step_name: name.to_owned(),
        status,
        conclusion,
    }
}

fn done(job: &str, name: &str) -> StepState {
    step(job, name, RunStatus::Completed, Some(Conclusion::Success))
}

fn running(job: &str, name: &str) -> StepState {
    step(job, name, RunStatus::InProgress, None)
}

#[test]
fn reduce_no_steps_is_waiting() {
    let p = reduce(&Vec::new());
    assert_eq!(p.percent, 0);
    assert_eq!(p.label, "Waiting for job steps…");
    assert_eq!(p.status, RunStatus::Queued);
    assert_eq!(p.conclusion, None);
}

#[test]
fn reduce_reports_first_pending_step() {
    let steps = vec![
        done("build", "checkout"),
        done("build", "compile"),
        running("build", "test"),
        running("deploy", "upload"),
    ];
    let p = reduce(&steps);
    assert_eq!(p.percent, 50);
    assert_eq!(p.label, "build → test");
    assert_eq!(p.status, RunStatus::InProgress);
    assert_eq!(p.conclusion, None);
}

#[test]
fn reduce_rounds_to_nearest() {
    let third = vec![done("j", "a"), running("j", "b"), running("j", "c")];
    assert_eq!(reduce(&third).percent, 33);
    let two_thirds = vec![done("j", "a"), done("j", "b"), running("j", "c")];
    assert_eq!(reduce(&two_thirds).percent, 67);
    let eighth = vec![
        done("j", "a"),
        running("j", "b"),
        running("j", "c"),
        running("j", "d"),
        running("j", "e"),
        running("j", "f"),
        running("j", "g"),
        running("j", "h"),
    ];
    assert_eq!(reduce(&eighth).percent, 13);
}

#[test]
fn reduce_complete_run_is_finalizing_success() {
    let steps = vec![done("build", "compile"), done("build", "test")];
    let p = reduce(&steps);
    assert_eq!(p.percent, 100);
    assert_eq!(p.label, "Finalizing…");
    assert_eq!(p.status, RunStatus::Completed);
    assert_eq!(p.conclusion, Some(Conclusion::Success));
}

#[test]
fn reduce_failure_beats_cancellation() {
    let failed = vec![
        done("j", "a"),
        step("j", "b", RunStatus::Completed, Some(Conclusion::Failure)),
        step("j", "c", RunStatus::Completed, Some(Conclusion::Cancelled)),
    ];
    assert_eq!(reduce(&failed).conclusion, Some(Conclusion::Failure));
    let cancelled = vec![
        done("j", "a"),
        step("j", "b", RunStatus::Completed, Some(Conclusion::Cancelled)),
    ];
    assert_eq!(reduce(&cancelled).conclusion, Some(Conclusion::Cancelled));
}

#[test]
fn reduce_percent_is_monotone_in_done_count() {
    let total = 7;
    let mut last = 0;
    for done_n in 0..=total {
        let mut steps = Vec::new();
        for i in 0..total {
            if i < done_n {
                steps.push(done("j", "s"));
            } else {
                steps.push(running("j", "s"));
            }
        }
        let p = reduce(&steps).percent;
        assert!(p >= last, "percent dropped: {last} -> {p}");
        last = p;
    }
    assert_eq!(last, 100);
}

#[test]
fn flatten_keeps_declaration_order() {
    let jobs = vec![
        JobRecord {
            job_name: "build".to_owned(),
            steps: vec![
                StepRecord {
                    step_name: "compile".to_owned(),
                    status: RunStatus::Completed,
                    conclusion: Some(Conclusion::Success),
                },
                StepRecord {
                    step_name: "test".to_owned(),
                    status: RunStatus::InProgress,
                    conclusion: None,
                },
            ],
        },
        JobRecord {
            job_name: "deploy".to_owned(),
            steps: vec![StepRecord {
                step_name: "upload".to_owned(),
                status: RunStatus::Queued,
                conclusion: None,
            }],
        },
    ];
    let steps = flatten_jobs(&jobs);
    assert_eq!(steps.len(), 3);
    assert_eq!(steps[0].job_name, "build");
    assert_eq!(steps[0].step_name, "compile");
    assert_eq!(steps[1].step_name, "test");
    assert_eq!(steps[2].job_name, "deploy");
    assert_eq!(steps[2].step_name, "upload");
    let p = reduce(&steps);
    assert_eq!(p.label, "build → test");
    assert_eq!(p.percent, 33);
}

#[test]
fn parse_remote_status_strings() {
    assert_eq!(parse_run_status("completed"), RunStatus::Completed);
    assert_eq!(parse_run_status("queued"), RunStatus::Queued);
    assert_eq!(parse_run_status("in_progress"), RunStatus::InProgress);
    assert_eq!(parse_run_status("anything else"), RunStatus::InProgress);
    assert_eq!(parse_conclusion("success"), Some(Conclusion::Success));
    assert_eq!(parse_conclusion("failure"), Some(Conclusion::Failure));
    assert_eq!(parse_conclusion("cancelled"), Some(Conclusion::Cancelled));
    assert_eq!(parse_conclusion("neutral"), None);
}
