use vstd::prelude::*;

use crate::status::{Conclusion, RunStatus};

verus! {

/// One run of the pipeline as the remote platform lists it. Identifiers
/// grow with creation time, so ordering ids orders runs by age.
#[derive(Debug, Clone)]
pub struct RunSummary {
    pub id: u64,
    pub external_url: String,
    pub status: RunStatus,
    pub conclusion: Option<Conclusion>,
    pub created_at_ms: u64,
}

/// The largest run id in a listing; zero when the listing is empty.
pub open spec fn max_id(runs: Seq<RunSummary>) -> nat
    decreases runs.len(),
{
    if runs.len() == 0 {
        0
    } else {
        let m = max_id(runs.drop_last());
        if runs.last().id > m {
            runs.last().id as nat
        } else {
            m
        }
    }
}

/// The baseline captured before a dispatch: the largest run id known so
/// far, or zero when no runs exist yet.
pub fn snapshot_baseline(runs: &Vec<RunSummary>) -> (m: u64)
    ensures
        m == max_id(runs@),
{
    let mut m: u64 = 0;
    let mut i: usize = 0;
    while i < runs.len()
        invariant
            i <= runs@.len(),
            m == max_id(runs@.take(i as int)),
        decreases runs@.len() - i,
    {
        proof {
            assert(runs@.take((i + 1) as int).drop_last() =~= runs@.take(i as int));
            assert(runs@.take((i + 1) as int).last() == runs@[i as int]);
        }
        if runs[i].id > m {
            m = runs[i].id;
        }
        i = i + 1;
    }
    proof {
        assert(runs@.take(runs@.len() as int) =~= runs@);
    }
    m
}

/// Picks the run a just-issued dispatch created: among the listed runs
/// whose id lies above the baseline it returns the position of the oldest
/// — the smallest new id, earliest listed on a tie. `None` when no run is
/// new. This correlation is a heuristic: a concurrent dispatch by another
/// client can create the chosen run instead.
pub fn find_new_run(baseline: u64, runs: &Vec<RunSummary>) -> (r: Option<usize>)
    ensures
        r is None ==> forall|j: int| 0 <= j < runs@.len() ==> (#[trigger] runs@[j].id) <= baseline,
        r matches Some(k) ==> {
            &&& k < runs@.len()
            &&& runs@[k as int].id > baseline
            &&& forall|j: int|
                0 <= j < runs@.len() && (#[trigger] runs@[j].id) > baseline
                    ==> runs@[k as int].id <= runs@[j].id
            &&& forall|j: int| 0 <= j < k ==> (#[trigger] runs@[j].id) != runs@[k as int].id
        },
{
    let mut best: Option<usize> = None;
    let mut i: usize = 0;
    while i < runs.len()
        invariant
            i <= runs@.len(),
            best is None ==> forall|j: int|
                0 <= j < i ==> (#[trigger] runs@[j].id) <= baseline,
            best matches Some(k) ==> {
                &&& k < i
                &&& runs@[k as int].id > baseline
                &&& forall|j: int|
                    0 <= j < i && (#[trigger] runs@[j].id) > baseline ==> runs@[k as int].id
                        <= runs@[j].id
                &&& forall|j: int| 0 <= j < k ==> (#[trigger] runs@[j].id) != runs@[k as int].id
            },
        decreases runs@.len() - i,
    {
        if runs[i].id > baseline {
            match best {
                None => {
                    best = Some(i);
                },
                Some(k) => {
                    if runs[i].id < runs[k].id {
                        best = Some(i);
                    }
                },
            }
        }
        i = i + 1;
    }
    best
}

} // verus!
