use vstd::prelude::*;

verus! {

/// Errors surfaced by the orchestration client.
///
/// - `Busy`: a deploy or resume was already in flight; nothing was started.
/// - `Validation`: the slug was rejected; no remote call was made.
/// - `Auth`: the remote platform refused the credential; fatal on any call.
/// - `Conflict`: a compare-and-swap write was rejected twice for one path.
/// - `Remote`: any other non-success remote response, message kept verbatim.
/// - `ResolveTimeout`: no new run appeared within the budget. The dispatch
///   may or may not have succeeded remotely, so this is not resumable.
#[derive(Debug)]
pub enum DeployError {
    Busy,
    Validation,
    Auth,
    Conflict,
    Remote(String),
    ResolveTimeout,
}

} // verus!
