use vstd::prelude::*;
use vstd::utf8::encode_utf8;

verus! {

/// Length in bytes of the UTF-8 encoding of `s`, as `str::len` counts it.
pub open spec fn byte_len(s: Seq<char>) -> usize {
    encode_utf8(s).len() as usize
}

/// The message of the internal error that a pattern which does not compile gives.
pub const PATTERN_FAILURE_MESSAGE: &'static str = "Invalid validation pattern";

/// What compiling `pattern` and matching it against `haystack` gives: `None`
/// when the pattern does not compile, else whether it matches.
pub uninterp spec fn regex_outcome(pattern: Seq<char>, haystack: Seq<char>) -> Option<bool>;

/// Relies on `regex::Regex::new` and `regex::Regex::is_match`: the outcome
/// depends on the pattern and the haystack alone.
#[verifier::external_body]
pub(crate) fn regex_match(pattern: &str, haystack: &str) -> (r: Option<bool>)
    ensures
        r == regex_outcome(pattern@, haystack@),
{
    match regex::Regex::new(pattern) {
        Ok(re) => Some(re.is_match(haystack)),
        Err(_) => None,
    }
}

} // verus!
