//! Searching a text with a regular expression, by way of the `regex` crate.

use vstd::prelude::*;

verus! {

/// `regex::Error`, the reason why the engine rejected a pattern. It is
/// carried through as it is; nothing is known of what it holds.
#[verifier::external_type_specification]
#[verifier::external_body]
pub struct ExPatternError(regex::Error);

/// Whether the `regex` crate accepts `pattern` as a regular expression.
pub uninterp spec fn pattern_compiles(pattern: Seq<char>) -> bool;

/// The part of `haystack` that capture group `group` of `pattern` holds in
/// the leftmost match, or `None` where the pattern matches nowhere or the
/// group takes no part in the match.
pub uninterp spec fn captured_text(pattern: Seq<char>, haystack: Seq<char>, group: nat) -> Option<
    Seq<char>,
>;

/// The characters of an optional string.
pub open spec fn opt_view(text: Option<String>) -> Option<Seq<char>> {
    match text {
        Some(t) => Some(t@),
        None => None,
    }
}

/// Compiles `pattern` with `regex::Regex::new`, searches `haystack` with
/// `Regex::captures` and copies out the text, `Match::as_str`, of what
/// `Captures::get` holds for `group`.
///
/// Nothing is proved about the regular expression engine. The contract gives
/// its answers a name: the call fails exactly when the pattern is rejected,
/// and otherwise hands back the text of the group, which depends on the
/// pattern, the haystack and the group's number alone.
#[verifier::external_body]
pub(crate) fn capture_group(pattern: &str, haystack: &str, group: usize) -> (found: Result<
    Option<String>,
    regex::Error,
>)
    ensures
        found is Ok <==> pattern_compiles(pattern@),
        found matches Ok(text) ==> opt_view(text) == captured_text(
            pattern@,
            haystack@,
            group as nat,
        ),
{
    let re = regex::Regex::new(pattern)?;
    match re.captures(haystack) {
        Some(caps) => match caps.get(group) {
            Some(m) => Ok(Some(m.as_str().to_string())),
            None => Ok(None),
        },
        None => Ok(None),
    }
}

/// The text that `regex::Error` shows for a rejected pattern, through its
/// `Display` impl. Nothing is claimed of it.
#[verifier::external_body]
pub(crate) fn rejection_text(error: &regex::Error) -> String {
    error.to_string()
}

} // verus!
