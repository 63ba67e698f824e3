//! The door to the regular-expression engine.

use vstd::prelude::*;

verus! {

/// What the first group of `pattern` captures in the first match of `pattern`
/// in `text`: nothing where `pattern` is no regular expression, where it
/// matches nowhere, or where the match goes without the group.
pub uninterp spec fn first_group_of(pattern: Seq<char>, text: Seq<char>) -> Option<Seq<char>>;

/// Calls `regex`: `Regex::new` on `pattern`, `Regex::captures` on `text`,
/// `Captures::get` for group 1 and `Match::as_str`. Trusted: that the outcome
/// depends on the two texts alone.
#[verifier::external_body]
pub(crate) fn first_group(pattern: &str, text: &str) -> (captured: Option<String>)
    ensures
        match captured {
            Some(group) => first_group_of(pattern@, text@) == Some(group@),
            None => first_group_of(pattern@, text@) is None,
        },
{
    let expression = regex::Regex::new(pattern).ok()?;
    let groups = expression.captures(text)?;
    groups.get(1).map(|found| found.as_str().to_string())
}

} // verus!
