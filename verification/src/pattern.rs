//! Regular expressions, matched by the `regex` crate.

use vstd::prelude::*;
use regex::Regex;

verus! {

/// What the leftmost match of `pattern` in `text` captured: the whole
/// match first, then each group in the order of its opening bracket, a
/// group that took no part being `None`. `None` where the pattern matches
/// nowhere or is no valid expression.
pub uninterp spec fn first_match(pattern: Seq<char>, text: Seq<char>) -> Option<
    Seq<Option<Seq<char>>>,
>;

/// The views of a list of captured groups.
pub open spec fn groups_view(groups: Seq<Option<String>>) -> Seq<Option<Seq<char>>> {
    groups.map_values(
        |g: Option<String>|
            match g {
                Some(s) => Some(s@),
                None => None,
            },
    )
}

/// Compiles `pattern` with `Regex::new` and searches `text` with
/// `Regex::captures`. The groups come out of `Captures::iter` as owned
/// strings. Only this is claimed: the outcome depends on the two texts
/// alone.
#[verifier::external_body]
pub(crate) fn captures(pattern: &str, text: &str) -> (r: Option<Vec<Option<String>>>)
    ensures
        match r {
            Some(groups) => first_match(pattern@, text@) == Some(groups_view(groups@)),
            None => first_match(pattern@, text@) is None,
        },
{
    let re = Regex::new(pattern).ok()?;
    let found = re.captures(text)?;
    Some(found.iter().map(|m| m.map(|g| g.as_str().to_string())).collect())
}

} // verus!
