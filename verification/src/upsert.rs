use vstd::prelude::*;
use vstd::string::*;

use crate::codec::{b64_of, byte_len, MAX_CONTENT_BYTES};
use crate::errors::DeployError;
use crate::requests::{build_put_request, PutRequest};

verus! {

/// What a version lookup came back with. A missing file is no error: it
/// routes the write to the create path. Lookup trouble other than an
/// authentication failure is swallowed and treated as missing, since
/// missing and unreadable call for the same next step.
pub enum LookupOutcome {
    Found(String),
    Missing,
    AuthFailed,
    Error(String),
}

/// What a compare-and-swap write came back with.
pub enum PutOutcome {
    Accepted,
    Conflict,
    AuthFailed,
    Error(String),
}

/// Where an upsert stands: which remote answer it is waiting for.
#[derive(PartialEq, Eq, Structural, Debug, Clone, Copy)]
pub enum UpsertPhase {
    AwaitFirstLookup,
    AwaitFirstPut,
    AwaitRetryLookup,
    AwaitRetryPut,
    Settled,
}

/// What the driver must do next for an upsert.
pub enum UpsertStep {
    /// Fetch the current version token of `path` and report back.
    Lookup { path: String },
    /// Send this write and report back.
    Put { request: PutRequest },
    /// The file now holds the given content; nothing is left to do.
    Succeeded,
    /// The upsert is over and failed.
    Failed { error: DeployError },
    /// The reported event does not belong to the current phase.
    Ignored,
}

/// Create-or-update of one remote file, as a state machine over remote
/// answers: look the version up (best effort), write under it, and on a
/// conflict refetch once and retry the write exactly once — a second
/// conflict is fatal.
pub struct Upsert {
    pub path: String,
    pub content: String,
    pub message: String,
    pub phase: UpsertPhase,
}

/// `req` writes `u`'s content to `u`'s path under the given token.
pub open spec fn put_request_for(req: PutRequest, u: Upsert, version: Option<String>) -> bool {
    &&& req.path@ == u.path@
    &&& req.message@ == u.message@
    &&& req.content_b64@ == b64_of(vstd::utf8::encode_utf8(u.content@))
    &&& req.branch@ == "main"@
    &&& req.version == version
}

impl Upsert {
    /// The content fits in an upload.
    pub open spec fn wf(&self) -> bool {
        byte_len(self.content@) <= MAX_CONTENT_BYTES
    }

    /// The fields that never change while the upsert runs.
    pub open spec fn same_file(pre: Upsert, post: Upsert) -> bool {
        &&& post.path == pre.path
        &&& post.content == pre.content
        &&& post.message == pre.message
    }

    /// Starts an upsert of `content` at `path`; the driver's first step is
    /// to look the path's version up.
    pub fn start(path: String, content: String, message: String) -> (u: Upsert)
        requires
            byte_len(content@) <= MAX_CONTENT_BYTES,
        ensures
            u.wf(),
            u.phase is AwaitFirstLookup,
            u.path == path,
            u.content == content,
            u.message == message,
    {
        Upsert { path, content, message, phase: UpsertPhase::AwaitFirstLookup }
    }

    /// Feeds the answer of a version lookup in. A found token is written
    /// under; a missing or unreadable version falls back to the create
    /// path; an authentication failure ends the upsert.
    pub fn on_lookup(&mut self, result: LookupOutcome) -> (r: UpsertStep)
        requires
            old(self).wf(),
        ensures
            final(self).wf(),
            Self::same_file(*old(self), *final(self)),
            !(old(self).phase is AwaitFirstLookup || old(self).phase is AwaitRetryLookup) ==> {
                &&& r is Ignored
                &&& *final(self) == *old(self)
            },
            (old(self).phase is AwaitFirstLookup || old(self).phase is AwaitRetryLookup)
                ==> match result {
                LookupOutcome::AuthFailed => {
                    &&& final(self).phase is Settled
                    &&& r matches UpsertStep::Failed { error } && error is Auth
                },
                LookupOutcome::Found(t) => {
                    &&& final(self).phase == (if old(self).phase is AwaitFirstLookup {
                        UpsertPhase::AwaitFirstPut
                    } else {
                        UpsertPhase::AwaitRetryPut
                    })
                    &&& r matches UpsertStep::Put { request } && put_request_for(
                        request,
                        *old(self),
                        Some(t),
                    )
                },
                _ => {
                    &&& final(self).phase == (if old(self).phase is AwaitFirstLookup {
                        UpsertPhase::AwaitFirstPut
                    } else {
                        UpsertPhase::AwaitRetryPut
                    })
                    &&& r matches UpsertStep::Put { request } && put_request_for(
                        request,
                        *old(self),
                        None,
                    )
                },
            },
    {
        let first = matches!(self.phase, UpsertPhase::AwaitFirstLookup);
        if !(first || matches!(self.phase, UpsertPhase::AwaitRetryLookup)) {
            return UpsertStep::Ignored;
        }
        match result {
            LookupOutcome::AuthFailed => {
                self.phase = UpsertPhase::Settled;
                UpsertStep::Failed { error: DeployError::Auth }
            },
            LookupOutcome::Found(t) => {
                let request = build_put_request(
                    self.path.as_str(),
                    self.content.as_str(),
                    Some(t),
                    self.message.as_str(),
                );
                self.phase = if first {
                    UpsertPhase::AwaitFirstPut
                } else {
                    UpsertPhase::AwaitRetryPut
                };
                UpsertStep::Put { request }
            },
            _ => {
                let request = build_put_request(
                    self.path.as_str(),
                    self.content.as_str(),
                    None,
                    self.message.as_str(),
                );
                self.phase = if first {
                    UpsertPhase::AwaitFirstPut
                } else {
                    UpsertPhase::AwaitRetryPut
                };
                UpsertStep::Put { request }
            },
        }
    }

    /// Feeds the answer of a write in. The first conflict triggers one
    /// refetch-and-retry round; a conflict on the retry is fatal, as is
    /// any other failure.
    pub fn on_put(&mut self, result: PutOutcome) -> (r: UpsertStep)
        requires
            old(self).wf(),
        ensures
            final(self).wf(),
            Self::same_file(*old(self), *final(self)),
            !(old(self).phase is AwaitFirstPut || old(self).phase is AwaitRetryPut) ==> {
                &&& r is Ignored
                &&& *final(self) == *old(self)
            },
            (old(self).phase is AwaitFirstPut || old(self).phase is AwaitRetryPut)
                ==> match result {
                PutOutcome::Accepted => {
                    &&& final(self).phase is Settled
                    &&& r is Succeeded
                },
                PutOutcome::Conflict => {
                    if old(self).phase is AwaitFirstPut {
                        &&& final(self).phase is AwaitRetryLookup
                        &&& r matches UpsertStep::Lookup { path } && path@ == old(self).path@
                    } else {
                        &&& final(self).phase is Settled
                        &&& r matches UpsertStep::Failed { error } && error is Conflict
                    }
                },
                PutOutcome::AuthFailed => {
                    &&& final(self).phase is Settled
                    &&& r matches UpsertStep::Failed { error } && error is Auth
                },
                PutOutcome::Error(m) => {
                    &&& final(self).phase is Settled
                    &&& r matches UpsertStep::Failed { error } && error matches DeployError::Remote(
                        n,
                    ) && n@ == m@
                },
            },
    {
        let first = matches!(self.phase, UpsertPhase::AwaitFirstPut);
        if !(first || matches!(self.phase, UpsertPhase::AwaitRetryPut)) {
            return UpsertStep::Ignored;
        }
        match result {
            PutOutcome::Accepted => {
                self.phase = UpsertPhase::Settled;
                UpsertStep::Succeeded
            },
            PutOutcome::Conflict => {
                if first {
                    self.phase = UpsertPhase::AwaitRetryLookup;
                    UpsertStep::Lookup { path: self.path.clone() }
                } else {
                    self.phase = UpsertPhase::Settled;
                    UpsertStep::Failed { error: DeployError::Conflict }
                }
            },
            PutOutcome::AuthFailed => {
                self.phase = UpsertPhase::Settled;
                UpsertStep::Failed { error: DeployError::Auth }
            },
            PutOutcome::Error(m) => {
                self.phase = UpsertPhase::Settled;
                UpsertStep::Failed { error: DeployError::Remote(m) }
            },
        }
    }
}

} // verus!
