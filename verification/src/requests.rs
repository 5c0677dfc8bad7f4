use vstd::prelude::*;
use vstd::string::*;

use crate::codec::{b64_encode, b64_of, byte_len, MAX_CONTENT_BYTES};

verus! {

/// One compare-and-swap write of a file, ready to send: the remote platform
/// rejects it with a conflict when `version` is stale, and only creates the
/// file when `version` is `None`.
pub struct PutRequest {
    pub path: String,
    pub message: String,
    pub content_b64: String,
    pub branch: String,
    pub version: Option<String>,
}

/// One fire-and-forget run trigger; the remote platform returns no run
/// identifier for it.
pub struct DispatchRequest {
    pub branch_ref: String,
    pub resource_slug: String,
    pub target_directory: String,
    pub clean_flag: bool,
}

/// Builds the write request for one file: the content travels
/// base64-encoded, on the fixed main branch, under the caller's
/// compare-and-swap token.
pub fn build_put_request(path: &str, content: &str, version: Option<String>, message: &str) -> (r:
    PutRequest)
    requires
        byte_len(content@) <= MAX_CONTENT_BYTES,
    ensures
        r.path@ == path@,
        r.message@ == message@,
        r.content_b64@ == b64_of(content.spec_bytes()),
        r.branch@ == "main"@,
        r.version == version,
{
    PutRequest {
        path: path.to_owned(),
        message: message.to_owned(),
        content_b64: b64_encode(content),
        branch: "main".to_owned(),
        version,
    }
}

/// The public address a deployed slug is served under.
pub fn deployed_url(slug: &str) -> (r: String)
    ensures
        r@ == "https://www.webhtml5.info/"@ + slug@ + "/"@,
{
    String::from_str("https://www.webhtml5.info/").concat(slug).concat("/")
}

/// Builds the dispatch request for a slug: main branch, target directory
/// `plugs/<slug>`, and no cleanup of the remote target.
pub fn build_dispatch_request(slug: &str) -> (r: DispatchRequest)
    ensures
        r.branch_ref@ == "main"@,
        r.resource_slug@ == slug@,
        r.target_directory@ == "plugs/"@ + slug@,
        !r.clean_flag,
{
    DispatchRequest {
        branch_ref: "main".to_owned(),
        resource_slug: slug.to_owned(),
        target_directory: String::from_str("plugs/").concat(slug),
        clean_flag: false,
    }
}

} // verus!
