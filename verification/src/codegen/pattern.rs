//! Regular expressions, as the `regex` crate matches them.

use vstd::prelude::*;

verus! {

/// Whether the regular expression `pattern` has a match in `text`, or
/// `None` if `pattern` is no regular expression.
pub uninterp spec fn regex_match(pattern: Seq<char>, text: Seq<char>) -> Option<bool>;

/// What the group named `group` holds in the first match of the regular
/// expression `pattern` in `text`. The inner `None` says that there is no
/// match or that the group took no part in it, the outer one that `pattern`
/// is no regular expression.
pub uninterp spec fn regex_capture(pattern: Seq<char>, group: Seq<char>, text: Seq<char>) -> Option<
    Option<Seq<char>>,
>;

/// What a capture holds, as a sequence of characters.
pub open spec fn captured(found: Option<Option<String>>) -> Option<Option<Seq<char>>> {
    match found {
        Some(Some(text)) => Some(Some(text@)),
        Some(None) => Some(None),
        None => None,
    }
}

/// Compiles `pattern` with `regex::Regex::new` and asks `Regex::is_match`
/// whether it has a match in `text`. The contract gives the answer its name
/// and claims nothing else of it.
#[verifier::external_body]
pub(crate) fn is_match(pattern: &str, text: &str) -> (found: Option<bool>)
    ensures
        found == regex_match(pattern@, text@),
{
    Some(regex::Regex::new(pattern).ok()?.is_match(text))
}

/// Compiles `pattern` with `regex::Regex::new`, searches `text` with
/// `Regex::captures` and reads the group `group` with `Captures::name`. The
/// contract gives the outcome its name and claims nothing else of it.
#[verifier::external_body]
pub(crate) fn capture(pattern: &str, group: &str, text: &str) -> (found: Option<Option<String>>)
    ensures
        captured(found) == regex_capture(pattern@, group@, text@),
{
    let regex = regex::Regex::new(pattern).ok()?;
    Some(regex.captures(text).and_then(|found| found.name(group)).map(|m| m.as_str().to_string()))
}

} // verus!
