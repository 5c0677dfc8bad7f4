use vstd::prelude::*;

verus! {

/// One remote file: its text and the version token guarding it.
pub struct ModelFile {
    pub content: Seq<char>,
    pub token: nat,
}

/// A model of the remote content store's compare-and-swap semantics: a map
/// from paths to files, and a counter handing out fresh version tokens.
pub struct ModelStore {
    pub files: Map<Seq<char>, ModelFile>,
    pub next_token: nat,
}

/// How the store answers a write.
pub enum ModelPutResult {
    Accepted,
    Conflict,
}

/// The current version token of a path, or `None` when the path does not
/// exist yet — which routes the caller to the create path, and is no error.
pub open spec fn store_version(s: ModelStore, path: Seq<char>) -> Option<nat> {
    if s.files.dom().contains(path) {
        Some(s.files[path].token)
    } else {
        None
    }
}

/// A compare-and-swap write. An existing file is overwritten only under
/// its current token; a missing file is created only when no token is
/// offered. Every accepted write stores the content under a fresh token.
pub open spec fn store_put(
    s: ModelStore,
    path: Seq<char>,
    content: Seq<char>,
    version: Option<nat>,
) -> (ModelStore, ModelPutResult) {
    let accept = match (store_version(s, path), version) {
        (Option::None, Option::None) => true,
        (Option::Some(t), Option::Some(v)) => v == t,
        _ => false,
    };
    if accept {
        (
            ModelStore {
                files: s.files.insert(path, ModelFile { content, token: s.next_token }),
                next_token: s.next_token + 1,
            },
            ModelPutResult::Accepted,
        )
    } else {
        (s, ModelPutResult::Conflict)
    }
}

/// The upsert protocol run against the model store, step for step as the
/// [`Upsert`](crate::upsert::Upsert) state machine drives it — look the
/// version up, write under it, and on a conflict refetch once and retry
/// once — with the store itself answering each lookup and write.
pub open spec fn upsert_model(s: ModelStore, path: Seq<char>, content: Seq<char>) -> (
    ModelStore,
    bool,
) {
    let v = store_version(s, path);
    let first = store_put(s, path, content, v);
    if first.1 is Accepted {
        (first.0, true)
    } else {
        let v2 = store_version(first.0, path);
        let second = store_put(first.0, path, content, v2);
        (second.0, second.1 is Accepted)
    }
}

/// Upserting the same content twice leaves the same remote content as
/// upserting it once: both runs succeed, the file afterwards holds exactly
/// the given content, and the second write changes nothing but the version
/// token.
pub proof fn lemma_upsert_idempotent(s0: ModelStore, path: Seq<char>, content: Seq<char>)
    ensures
        ({
            let first = upsert_model(s0, path, content);
            let second = upsert_model(first.0, path, content);
            &&& first.1
            &&& second.1
            &&& store_version(first.0, path) is Some
            &&& first.0.files[path].content == content
            &&& second.0.files[path].content == first.0.files[path].content
            &&& second.0.files.dom() =~= first.0.files.dom()
        }),
{
}

/// A write under a stale token — any token but the file's current one — is
/// rejected and leaves the store untouched.
pub proof fn lemma_stale_put_conflicts(
    s: ModelStore,
    path: Seq<char>,
    content: Seq<char>,
    stale: nat,
)
    requires
        store_version(s, path) is Some,
        store_version(s, path) != Some(stale),
    ensures
        store_put(s, path, content, Some(stale)).1 is Conflict,
        store_put(s, path, content, Some(stale)).0 == s,
{
}

} // verus!
