use vstd::prelude::*;
use vstd::string::*;

use crate::status::{Conclusion, RunStatus};

verus! {

/// One step of one job of a run, as the poller sees it.
#[derive(Debug, Clone)]
pub struct StepState {
    pub job_name: String,
    pub step_name: String,
    pub status: RunStatus,
    pub conclusion: Option<Conclusion>,
}

/// The mathematical value of a [`StepState`].
pub struct StepView {
    pub job_name: Seq<char>,
    pub step_name: Seq<char>,
    pub status: RunStatus,
    pub conclusion: Option<Conclusion>,
}

impl View for StepState {
    type V = StepView;

    open spec fn view(&self) -> StepView {
        StepView {
            job_name: self.job_name@,
            step_name: self.step_name@,
            status: self.status,
            conclusion: self.conclusion,
        }
    }
}

/// One poll's digest of a run.
pub struct Progress {
    pub percent: u8,
    pub label: String,
    pub status: RunStatus,
    pub conclusion: Option<Conclusion>,
}

/// One job of a run with its steps, as the remote platform reports them.
pub struct JobRecord {
    pub job_name: String,
    pub steps: Vec<StepRecord>,
}

/// One step within a job report.
pub struct StepRecord {
    pub step_name: String,
    pub status: RunStatus,
    pub conclusion: Option<Conclusion>,
}

/// The values of a list of steps.
pub open spec fn step_views(steps: Seq<StepState>) -> Seq<StepView> {
    steps.map_values(|s: StepState| s@)
}

/// The steps of one job, each labelled with the job's name.
pub open spec fn job_step_views(j: JobRecord) -> Seq<StepView> {
    j.steps@.map_values(
        |s: StepRecord|
            StepView {
                job_name: j.job_name@,
                step_name: s.step_name@,
                status: s.status,
                conclusion: s.conclusion,
            },
    )
}

/// All steps of a run in job/step declaration order.
pub open spec fn flat_step_views(jobs: Seq<JobRecord>) -> Seq<StepView>
    decreases jobs.len(),
{
    if jobs.len() == 0 {
        Seq::empty()
    } else {
        flat_step_views(jobs.drop_last()) + job_step_views(jobs.last())
    }
}

/// Flattens a run's job reports into one list of steps in declaration
/// order, attaching each job's name to its steps.
pub fn flatten_jobs(jobs: &Vec<JobRecord>) -> (steps: Vec<StepState>)
    ensures
        step_views(steps@) == flat_step_views(jobs@),
{
    let mut out: Vec<StepState> = Vec::new();
    let mut i: usize = 0;
    while i < jobs.len()
        invariant
            i <= jobs@.len(),
            step_views(out@) == flat_step_views(jobs@.take(i as int)),
        decreases jobs@.len() - i,
    {
        let job = &jobs[i];
        let mut j: usize = 0;
        while j < job.steps.len()
            invariant
                0 <= i < jobs@.len(),
                j <= job.steps@.len(),
                job == jobs@[i as int],
                step_views(out@) == flat_step_views(jobs@.take(i as int)) + job_step_views(
                    jobs@[i as int],
                ).take(j as int),
            decreases job.steps@.len() - j,
        {
            let s = &job.steps[j];
            let next = StepState {
                job_name: job.job_name.clone(),
                step_name: s.step_name.clone(),
                status: s.status,
                conclusion: s.conclusion,
            };
            proof {
                assert(job_step_views(jobs@[i as int])[j as int] == next@);
                assert(job_step_views(jobs@[i as int]).take((j + 1) as int) =~= job_step_views(
                    jobs@[i as int],
                ).take(j as int).push(next@));
                assert(step_views(out@.push(next)) =~= step_views(out@).push(next@));
                assert(step_views(out@).push(next@) =~= flat_step_views(jobs@.take(i as int))
                    + job_step_views(jobs@[i as int]).take((j + 1) as int));
            }
            out.push(next);
            j = j + 1;
        }
        proof {
            assert(jobs@.take((i + 1) as int).drop_last() =~= jobs@.take(i as int));
            assert(jobs@.take((i + 1) as int).last() == jobs@[i as int]);
            assert(job_step_views(jobs@[i as int]).take(j as int) =~= job_step_views(
                jobs@[i as int],
            ));
        }
        i = i + 1;
    }
    proof {
        assert(jobs@.take(jobs@.len() as int) =~= jobs@);
    }
    out
}

/// How many steps have completed.
pub open spec fn done_count(s: Seq<StepView>) -> nat
    decreases s.len(),
{
    if s.len() == 0 {
        0
    } else {
        done_count(s.drop_last()) + (if s.last().status is Completed {
            1nat
        } else {
            0nat
        })
    }
}

/// Index of the first step that has not completed, or `-1` if all have.
pub open spec fn first_pending(s: Seq<StepView>) -> int
    decreases s.len(),
{
    if s.len() == 0 {
        -1
    } else if !(s[0].status is Completed) {
        0
    } else {
        let r = first_pending(s.drop_first());
        if r == -1 {
            -1
        } else {
            r + 1
        }
    }
}

/// Every step has completed.
pub open spec fn all_completed(s: Seq<StepView>) -> bool {
    forall|i: int| 0 <= i < s.len() ==> (#[trigger] s[i].status) is Completed
}

/// Some step concluded with a failure.
pub open spec fn any_failure(s: Seq<StepView>) -> bool
    decreases s.len(),
{
    if s.len() == 0 {
        false
    } else {
        any_failure(s.drop_last()) || s.last().conclusion == Some(Conclusion::Failure)
    }
}

/// Some step concluded cancelled.
pub open spec fn any_cancelled(s: Seq<StepView>) -> bool
    decreases s.len(),
{
    if s.len() == 0 {
        false
    } else {
        any_cancelled(s.drop_last()) || s.last().conclusion == Some(Conclusion::Cancelled)
    }
}

/// Completion percentage, rounded to the nearest point: with no steps it
/// is zero.
pub open spec fn percent_spec(done: int, total: int) -> int {
    if total <= 0 {
        0
    } else {
        (200 * done + total) / (2 * total)
    }
}

/// The status of the whole run, read off its steps: no steps means the run
/// has not started; otherwise it has completed exactly when every step has.
pub open spec fn status_spec(s: Seq<StepView>) -> RunStatus {
    if s.len() == 0 {
        RunStatus::Queued
    } else if done_count(s) == s.len() {
        RunStatus::Completed
    } else {
        RunStatus::InProgress
    }
}

/// The worst conclusion of a completed run: failure before cancellation
/// before success; none while the run is still going.
pub open spec fn conclusion_spec(s: Seq<StepView>) -> Option<Conclusion> {
    if status_spec(s) is Completed {
        if any_failure(s) {
            Some(Conclusion::Failure)
        } else if any_cancelled(s) {
            Some(Conclusion::Cancelled)
        } else {
            Some(Conclusion::Success)
        }
    } else {
        None
    }
}

/// The name shown for one pending step: its job and its step name.
pub open spec fn step_label(x: StepView) -> Seq<char> {
    x.job_name + " → "@ + x.step_name
}

/// The human-readable line for the current poll: the first pending step,
/// or a placeholder while there are no steps yet or only finalization is
/// left.
pub open spec fn label_spec(s: Seq<StepView>) -> Seq<char> {
    if s.len() == 0 {
        "Waiting for job steps…"@
    } else if first_pending(s) == -1 {
        "Finalizing…"@
    } else {
        step_label(s[first_pending(s)])
    }
}

proof fn lemma_first_pending_push(s: Seq<StepView>, x: StepView)
    ensures
        first_pending(s.push(x)) == (if first_pending(s) != -1 {
            first_pending(s)
        } else if !(x.status is Completed) {
            s.len() as int
        } else {
            -1
        }),
    decreases s.len(),
{
    if s.len() == 0 {
        assert(s.push(x)[0] == x);
        assert(s.push(x).drop_first() =~= s);
        assert(first_pending(s) == -1);
    } else {
        assert(s.push(x)[0] == s[0]);
        assert(s.push(x).drop_first() =~= s.drop_first().push(x));
        lemma_first_pending_push(s.drop_first(), x);
        lemma_first_pending_all(s.drop_first());
    }
}

proof fn lemma_first_pending_all(s: Seq<StepView>)
    ensures
        (first_pending(s) == -1) <==> all_completed(s),
        first_pending(s) != -1 ==> 0 <= first_pending(s) < s.len() && !(s[first_pending(
            s,
        )].status is Completed),
    decreases s.len(),
{
    if s.len() == 0 {
    } else {
        lemma_first_pending_all(s.drop_first());
        assert(forall|i: int|
            0 <= i < s.drop_first().len() ==> #[trigger] s.drop_first()[i] == s[i + 1]);
        if s[0].status is Completed && first_pending(s.drop_first()) == -1 {
            assert forall|i: int| 0 <= i < s.len() implies (#[trigger] s[i].status)
                is Completed by {
                if i > 0 {
                    assert(s.drop_first()[i - 1].status is Completed);
                }
            }
        }
    }
}

proof fn lemma_done_count_all(s: Seq<StepView>)
    ensures
        done_count(s) <= s.len(),
        (done_count(s) == s.len()) <==> all_completed(s),
    decreases s.len(),
{
    if s.len() == 0 {
    } else {
        lemma_done_count_all(s.drop_last());
        assert(forall|i: int|
            0 <= i < s.drop_last().len() ==> #[trigger] s.drop_last()[i] == s[i]);
        if done_count(s) == s.len() {
            assert forall|i: int| 0 <= i < s.len() implies (#[trigger] s[i].status)
                is Completed by {
                if i < s.len() - 1 {
                    assert(s.drop_last()[i].status is Completed);
                }
            }
        }
    }
}

/// The percentage never exceeds one hundred.
pub proof fn lemma_percent_le_100(done: int, total: int)
    requires
        0 <= done <= total,
    ensures
        0 <= percent_spec(done, total) <= 100,
{
    if total > 0 {
        vstd::arithmetic::div_mod::lemma_div_is_ordered(200 * done + total, 201 * total, 2
            * total);
        vstd::arithmetic::div_mod::lemma_fundamental_div_mod_converse(201 * total, 2 * total, 100,
            total);
        vstd::arithmetic::div_mod::lemma_div_pos_is_pos(200 * done + total, 2 * total);
    }
}

/// With a fixed total, the percentage grows with the number of completed
/// steps: a non-decreasing sequence of done counts yields a non-decreasing
/// sequence of percentages.
pub proof fn lemma_percent_monotone(done1: int, done2: int, total: int)
    requires
        done1 <= done2,
    ensures
        percent_spec(done1, total) <= percent_spec(done2, total),
{
    if total > 0 {
        vstd::arithmetic::div_mod::lemma_div_is_ordered(200 * done1 + total, 200 * done2 + total, 2
            * total);
    }
}

/// Reduces a run's flattened step list to a percentage, a current-step
/// label, the run's overall status, and — once every step has completed —
/// its worst conclusion.
pub fn reduce(steps: &Vec<StepState>) -> (p: Progress)
    ensures
        p.percent == percent_spec(
            done_count(step_views(steps@)) as int,
            step_views(steps@).len() as int,
        ),
        p.percent <= 100,
        p.label@ == label_spec(step_views(steps@)),
        p.status == status_spec(step_views(steps@)),
        p.conclusion == conclusion_spec(step_views(steps@)),
{
    let ghost sv = step_views(steps@);
    let n = steps.len();
    proof {
        assert(sv.len() == steps@.len());
    }
    if n == 0 {
        return Progress {
            percent: 0,
            label: "Waiting for job steps…".to_owned(),
            status: RunStatus::Queued,
            conclusion: None,
        };
    }
    let mut done: usize = 0;
    let mut fail: bool = false;
    let mut cancel: bool = false;
    let mut pending: Option<usize> = None;
    let mut i: usize = 0;
    while i < n
        invariant
            i <= n,
            n == steps@.len(),
            sv == step_views(steps@),
            sv.len() == n,
            done == done_count(sv.take(i as int)),
            fail == any_failure(sv.take(i as int)),
            cancel == any_cancelled(sv.take(i as int)),
            pending is None ==> first_pending(sv.take(i as int)) == -1,
            pending matches Some(k) ==> k < i && first_pending(sv.take(i as int)) == k as int,
        decreases n - i,
    {
        proof {
            assert(sv[i as int] == steps@[i as int]@);
            assert(sv.take((i + 1) as int) =~= sv.take(i as int).push(sv[i as int]));
            assert(sv.take((i + 1) as int).drop_last() =~= sv.take(i as int));
            lemma_first_pending_push(sv.take(i as int), sv[i as int]);
            lemma_done_count_all(sv.take(i as int));
        }
        let s = &steps[i];
        if matches!(s.status, RunStatus::Completed) {
            done = done + 1;
        } else {
            if pending.is_none() {
                pending = Some(i);
            }
        }
        if matches!(s.conclusion, Some(Conclusion::Failure)) {
            fail = true;
        }
        if matches!(s.conclusion, Some(Conclusion::Cancelled)) {
            cancel = true;
        }
        i = i + 1;
    }
    proof {
        assert(sv.take(n as int) =~= sv);
        lemma_done_count_all(sv);
        lemma_first_pending_all(sv);
        lemma_percent_le_100(done as int, n as int);
    }
    let p128: u128 = (200 * (done as u128) + (n as u128)) / (2 * (n as u128));
    let percent: u8 = p128 as u8;
    match pending {
        None => {
            let conclusion = if fail {
                Some(Conclusion::Failure)
            } else if cancel {
                Some(Conclusion::Cancelled)
            } else {
                Some(Conclusion::Success)
            };
            Progress {
                percent,
                label: "Finalizing…".to_owned(),
                status: RunStatus::Completed,
                conclusion,
            }
        },
        Some(k) => {
            let s = &steps[k];
            proof {
                assert(sv[k as int] == steps@[k as int]@);
            }
            let label = s.job_name.clone().concat(" → ").concat(s.step_name.as_str());
            Progress { percent, label, status: RunStatus::InProgress, conclusion: None }
        },
    }
}

} // verus!
