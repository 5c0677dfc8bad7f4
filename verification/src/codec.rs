use vstd::prelude::*;
use vstd::string::*;

use base64::Engine;

verus! {

/// The UTF-8 byte length of a string's characters.
pub open spec fn byte_len(s: Seq<char>) -> nat {
    vstd::utf8::encode_utf8(s).len()
}

/// Upper bound on the byte length of an uploadable file. Far below it the
/// base64 buffer-size computation cannot overflow a `usize`.
pub const MAX_CONTENT_BYTES: usize = usize::MAX / 4;

/// The standard padded base64 encoding of a byte sequence, as the base64
/// crate computes it.
pub uninterp spec fn b64_of(bytes: Seq<u8>) -> Seq<char>;

/// Relies on base64's `Engine::encode` with the `STANDARD` padded engine:
/// the result is a function of the input bytes alone, of length
/// `4 * ceil(n / 3)` for `n` input bytes.
#[verifier::external_body]
pub fn b64_encode(content: &str) -> (r: String)
    requires
        byte_len(content@) <= MAX_CONTENT_BYTES,
    ensures
        r@ == b64_of(content.spec_bytes()),
        r@.len() == 4 * ((content.spec_bytes().len() + 2) / 3),
{
    base64::engine::general_purpose::STANDARD.encode(content.as_bytes())
}

/// True when a file content is small enough to upload; everything that
/// fits in a quarter of the address space does.
pub fn content_fits(content: &str) -> (r: bool)
    ensures
        r == (byte_len(content@) <= MAX_CONTENT_BYTES),
{
    content.as_bytes().len() <= MAX_CONTENT_BYTES
}

} // verus!
