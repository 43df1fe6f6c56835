//! Regular expressions, through the regex crate.
use vstd::prelude::*;

verus! {

/// Whether the regex crate finds a match of `pattern` in `text` (`false`
/// when the pattern does not compile).
pub uninterp spec fn regex_matches(pattern: Seq<char>, text: Seq<char>) -> bool;

/// The text of the first capture group of the leftmost match of `pattern`
/// in `text`, as the regex crate finds it (`None` when there is no match,
/// the group took no part in it, or the pattern does not compile).
pub uninterp spec fn regex_capture(pattern: Seq<char>, text: Seq<char>) -> Option<Seq<char>>;

/// Whether `text` has a match of `pattern` (regex crate `Regex::new`, then
/// `is_match`; no match when the pattern is rejected).
#[verifier::external_body]
pub(crate) fn regex_is_match(pattern: &str, text: &str) -> (r: bool)
    ensures
        r == regex_matches(pattern@, text@),
{
    regex::Regex::new(pattern).map(|re| re.is_match(text)).unwrap_or(false)
}

/// The first capture group of the leftmost match of `pattern` in `text`
/// (regex crate `Regex::new`, then `captures` and `get(1)`; none when the
/// pattern is rejected).
#[verifier::external_body]
pub(crate) fn regex_first_capture(pattern: &str, text: &str) -> (r: Option<String>)
    ensures
        crate::text::opt_string_view(r) == regex_capture(pattern@, text@),
{
    let re = regex::Regex::new(pattern).ok()?;
    re.captures(text).and_then(|c| c.get(1)).map(|m| m.as_str().to_string())
}

} // verus!
