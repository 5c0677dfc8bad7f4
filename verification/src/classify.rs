use vstd::prelude::*;

use crate::coordinator::{DispatchOutcome, RunsOutcome};
use crate::progress::StepState;
use crate::runs::RunSummary;
use crate::session::StepsOutcome;
use crate::upsert::{LookupOutcome, PutOutcome};

verus! {

/// The remote platform accepted the call.
pub open spec fn is_success(status: u16) -> bool {
    200 <= status < 300
}

/// The remote platform refused the credential; fatal on any call.
pub open spec fn is_auth_failure(status: u16) -> bool {
    status == 401 || status == 403
}

/// The remote platform rejected a compare-and-swap write.
pub open spec fn is_conflict(status: u16) -> bool {
    status == 409 || status == 422
}

fn success(status: u16) -> (r: bool)
    ensures
        r == is_success(status),
{
    200 <= status && status < 300
}

fn auth_failure(status: u16) -> (r: bool)
    ensures
        r == is_auth_failure(status),
{
    status == 401 || status == 403
}

/// Classifies the answer of a version lookup: a missing file routes to the
/// create path, an authentication failure is fatal, success carries the
/// token the caller parsed, and anything else is an error whose message is
/// kept verbatim.
pub fn classify_lookup(status: u16, token: String, body: String) -> (r: LookupOutcome)
    ensures
        status == 404 ==> r is Missing,
        is_auth_failure(status) ==> r is AuthFailed,
        status != 404 && !is_auth_failure(status) && is_success(status) ==> (r matches
            LookupOutcome::Found(t) && t@ == token@),
        status != 404 && !is_auth_failure(status) && !is_success(status) ==> (r matches
            LookupOutcome::Error(m) && m@ == body@),
{
    if status == 404 {
        LookupOutcome::Missing
    } else if auth_failure(status) {
        LookupOutcome::AuthFailed
    } else if success(status) {
        LookupOutcome::Found(token)
    } else {
        LookupOutcome::Error(body)
    }
}

/// Classifies the answer of a compare-and-swap write: a conflict status
/// means the token was stale.
pub fn classify_put(status: u16, body: String) -> (r: PutOutcome)
    ensures
        is_auth_failure(status) ==> r is AuthFailed,
        is_conflict(status) ==> r is Conflict,
        !is_auth_failure(status) && !is_conflict(status) && is_success(status) ==> r is Accepted,
        !is_auth_failure(status) && !is_conflict(status) && !is_success(status) ==> (r matches
            PutOutcome::Error(m) && m@ == body@),
{
    if auth_failure(status) {
        PutOutcome::AuthFailed
    } else if status == 409 || status == 422 {
        PutOutcome::Conflict
    } else if success(status) {
        PutOutcome::Accepted
    } else {
        PutOutcome::Error(body)
    }
}

/// Classifies the answer of a dispatch: only the no-content acceptance
/// counts; everything else is fatal.
pub fn classify_dispatch(status: u16, body: String) -> (r: DispatchOutcome)
    ensures
        status == 204 ==> r is Accepted,
        is_auth_failure(status) ==> r is AuthFailed,
        status != 204 && !is_auth_failure(status) ==> (r matches DispatchOutcome::Error(m) && m@
            == body@),
{
    if status == 204 {
        DispatchOutcome::Accepted
    } else if auth_failure(status) {
        DispatchOutcome::AuthFailed
    } else {
        DispatchOutcome::Error(body)
    }
}

/// Classifies a run listing: success carries the runs the caller parsed.
pub fn classify_runs(status: u16, runs: Vec<RunSummary>, body: String) -> (r: RunsOutcome)
    ensures
        is_auth_failure(status) ==> r is AuthFailed,
        !is_auth_failure(status) && is_success(status) ==> (r matches RunsOutcome::Runs(listed)
            && listed == runs),
        !is_auth_failure(status) && !is_success(status) ==> (r matches RunsOutcome::Error(m) && m@
            == body@),
{
    if auth_failure(status) {
        RunsOutcome::AuthFailed
    } else if success(status) {
        RunsOutcome::Runs(runs)
    } else {
        RunsOutcome::Error(body)
    }
}

/// Classifies a job/step fetch: success carries the steps the caller
/// parsed and flattened.
pub fn classify_steps(status: u16, steps: Vec<StepState>, body: String) -> (r: StepsOutcome)
    ensures
        is_auth_failure(status) ==> r is AuthFailed,
        !is_auth_failure(status) && is_success(status) ==> (r matches StepsOutcome::Steps(listed)
            && listed == steps),
        !is_auth_failure(status) && !is_success(status) ==> (r matches StepsOutcome::Error(m) && m@
            == body@),
{
    if auth_failure(status) {
        StepsOutcome::AuthFailed
    } else if success(status) {
        StepsOutcome::Steps(steps)
    } else {
        StepsOutcome::Error(body)
    }
}

} // verus!
