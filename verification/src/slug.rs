use vstd::prelude::*;
use vstd::string::*;

use crate::errors::DeployError;
use crate::text::chars_to_string;

verus! {

/// Lowercase ASCII letters and digits: the characters a slug is made of
/// besides the hyphen separator.
pub open spec fn is_slug_char(c: char) -> bool {
    ('a' as u32 <= c as u32 && c as u32 <= 'z' as u32) || ('0' as u32 <= c as u32 && c as u32
        <= '9' as u32)
}

/// A slug as `validate` accepts it: non-empty, only `[a-z0-9-]`.
pub open spec fn valid_slug(s: Seq<char>) -> bool {
    &&& s.len() > 0
    &&& forall|i: int| 0 <= i < s.len() ==> is_slug_char(#[trigger] s[i]) || s[i] == '-'
}

/// A canonical slug: non-empty groups of `[a-z0-9]` separated by single
/// hyphens, with no hyphen at either end. This is the language
/// `[a-z0-9]+(-[a-z0-9]+)*`, which `normalize` produces unless it falls
/// back.
pub open spec fn canonical_slug(s: Seq<char>) -> bool {
    &&& valid_slug(s)
    &&& s[0] != '-'
    &&& s[s.len() - 1] != '-'
    &&& forall|i: int| 0 <= i < s.len() - 1 ==> !(#[trigger] s[i] == '-' && s[i + 1] == '-')
}

/// ASCII lower-casing of one character; all other characters are kept.
pub open spec fn lower_char(c: char) -> char {
    if 'A' as u32 <= c as u32 && c as u32 <= 'Z' as u32 {
        (c as u32 + 32) as char
    } else {
        c
    }
}

/// The slug used when normalization erases every character of the name.
pub open spec fn fallback_slug() -> Seq<char> {
    seq!['p', 'l', 'u', 'g']
}

/// One scan step: keep a lower-cased letter or digit; for any other
/// character append a single hyphen, but only after some kept character
/// and never twice in a row.
pub open spec fn normalize_step(acc: Seq<char>, c: char) -> Seq<char> {
    let l = lower_char(c);
    if is_slug_char(l) {
        acc.push(l)
    } else if acc.len() > 0 && acc.last() != '-' {
        acc.push('-')
    } else {
        acc
    }
}

/// Left-to-right scan of the whole name.
pub open spec fn normalize_scan(s: Seq<char>) -> Seq<char>
    decreases s.len(),
{
    if s.len() == 0 {
        Seq::empty()
    } else {
        normalize_step(normalize_scan(s.drop_last()), s.last())
    }
}

/// Drops every trailing hyphen.
pub open spec fn trim_trailing_hyphens(s: Seq<char>) -> Seq<char>
    decreases s.len(),
{
    if s.len() > 0 && s.last() == '-' {
        trim_trailing_hyphens(s.drop_last())
    } else {
        s
    }
}

/// What `normalize` returns: the scanned and trimmed name, or the fallback
/// slug when nothing remains.
pub open spec fn normalize_spec(s: Seq<char>) -> Seq<char> {
    let t = trim_trailing_hyphens(normalize_scan(s));
    if t.len() == 0 {
        fallback_slug()
    } else {
        t
    }
}

/// Well-formedness kept by the scan: slug characters and hyphens only, no
/// leading hyphen, no two hyphens in a row.
pub open spec fn scan_wf(t: Seq<char>) -> bool {
    &&& forall|i: int| 0 <= i < t.len() ==> is_slug_char(#[trigger] t[i]) || t[i] == '-'
    &&& t.len() > 0 ==> t[0] != '-'
    &&& forall|i: int| 0 <= i < t.len() - 1 ==> !(#[trigger] t[i] == '-' && t[i + 1] == '-')
}

proof fn lemma_scan_wf(s: Seq<char>)
    ensures
        scan_wf(normalize_scan(s)),
    decreases s.len(),
{
    if s.len() == 0 {
    } else {
        lemma_scan_wf(s.drop_last());
    }
}

proof fn lemma_trim_wf(t: Seq<char>)
    requires
        scan_wf(t),
    ensures
        scan_wf(trim_trailing_hyphens(t)),
        trim_trailing_hyphens(t).len() > 0 ==> trim_trailing_hyphens(t).last() != '-',
    decreases t.len(),
{
    if t.len() > 0 && t.last() == '-' {
        assert(scan_wf(t.drop_last()));
        lemma_trim_wf(t.drop_last());
    }
}

/// The output of normalization is a canonical slug or the fallback: the
/// shape `[a-z0-9]+(-[a-z0-9]+)*` admits nothing else.
pub proof fn lemma_normalize_canonical(s: Seq<char>)
    ensures
        canonical_slug(normalize_spec(s)) || normalize_spec(s) == fallback_slug(),
{
    lemma_scan_wf(s);
    lemma_trim_wf(normalize_scan(s));
}

fn lower_char_exec(c: char) -> (r: char)
    ensures
        r == lower_char(c),
{
    let u = c as u32;
    if 65 <= u && u <= 90 {
        ((u + 32) as u8) as char
    } else {
        c
    }
}

fn is_slug_char_exec(c: char) -> (r: bool)
    ensures
        r == is_slug_char(c),
{
    let u = c as u32;
    (97 <= u && u <= 122) || (48 <= u && u <= 57)
}

/// The fallback slug as a string.
pub fn fallback_slug_str() -> (s: String)
    ensures
        s@ == fallback_slug(),
{
    let s = "plug".to_owned();
    proof {
        reveal_strlit("plug");
        assert(s@ =~= fallback_slug());
    }
    s
}

/// Derives the canonical slug of a free-form display name: lower-cases it,
/// collapses every run of other characters to a single hyphen, trims
/// hyphens at the ends, and falls back to a fixed slug when nothing is
/// left.
pub fn normalize(display_name: &str) -> (slug: String)
    ensures
        slug@ == normalize_spec(display_name@),
        canonical_slug(slug@) || slug@ == fallback_slug(),
{
    let ghost s = display_name@;
    let n: usize = display_name.unicode_len();
    let mut out: Vec<char> = Vec::new();
    let mut i: usize = 0;
    while i < n
        invariant
            i <= n,
            n == s.len(),
            s == display_name@,
            out@ == normalize_scan(s.take(i as int)),
        decreases n - i,
    {
        let c = display_name.get_char(i);
        let l = lower_char_exec(c);
        if is_slug_char_exec(l) {
            out.push(l);
        } else {
            let m = out.len();
            if m > 0 && out[m - 1] != '-' {
                out.push('-');
            }
        }
        proof {
            assert(s.take((i + 1) as int).drop_last() =~= s.take(i as int));
            assert(s.take((i + 1) as int).last() == s[i as int]);
        }
        i = i + 1;
    }
    proof {
        assert(s.take(n as int) =~= s);
    }
    while out.len() > 0 && out[out.len() - 1] == '-'
        invariant
            trim_trailing_hyphens(out@) == trim_trailing_hyphens(normalize_scan(s)),
        decreases out@.len(),
    {
        proof {
            assert(out@.last() == '-');
        }
        out.pop();
    }
    proof {
        lemma_normalize_canonical(s);
    }
    if out.len() == 0 {
        fallback_slug_str()
    } else {
        chars_to_string(out)
    }
}

/// Accepts a hand-entered slug iff it is non-empty and matches
/// `[a-z0-9-]+`; rejected slugs yield `Validation` and nothing else.
pub fn validate(candidate: &str) -> (r: Result<String, DeployError>)
    ensures
        r is Ok <==> valid_slug(candidate@),
        r is Ok ==> r->Ok_0@ == candidate@,
        r is Err ==> r->Err_0 is Validation,
{
    let n: usize = candidate.unicode_len();
    if n == 0 {
        return Err(DeployError::Validation);
    }
    let mut i: usize = 0;
    while i < n
        invariant
            i <= n,
            n == candidate@.len(),
            forall|j: int|
                0 <= j < i ==> is_slug_char(#[trigger] candidate@[j]) || candidate@[j] == '-',
        decreases n - i,
    {
        let c = candidate.get_char(i);
        if !is_slug_char_exec(c) && c != '-' {
            return Err(DeployError::Validation);
        }
        i = i + 1;
    }
    Ok(candidate.to_owned())
}

} // verus!
