//! Finding the groups that a regular expression captures in a text.
use vstd::prelude::*;

use crate::text::ostr;

verus! {

/// What the `regex` crate finds of `pattern` in `text`: nothing when the
/// pattern does not compile or does not match the text; otherwise the
/// groups of the leftmost-first match, group 0 being the whole match and a
/// group that took no part in the match being absent.
pub uninterp spec fn regex_captures_of(pattern: Seq<char>, text: Seq<char>) -> Option<
    Seq<Option<Seq<char>>>,
>;

/// The texts of captured groups.
pub open spec fn group_views(groups: Seq<Option<String>>) -> Seq<Option<Seq<char>>> {
    groups.map_values(|g: Option<String>| ostr(g))
}

/// Group `i` of captured groups; absent past the last group, as
/// `regex::Captures::get` gives it.
pub open spec fn group_at(groups: Seq<Option<Seq<char>>>, i: int) -> Option<Seq<char>> {
    if 0 <= i < groups.len() {
        groups[i]
    } else {
        None
    }
}

/// `regex::Regex::new` on the pattern, then `Regex::captures` on the text,
/// each group taken by its text.
/// Trusted: what comes back is `regex_captures_of` of the pattern and the
/// text; what a pattern matches is not stated.
#[verifier::external_body]
pub(crate) fn regex_captures(pattern: &str, text: &str) -> (r: Option<Vec<Option<String>>>)
    ensures
        match r {
            Some(g) => regex_captures_of(pattern@, text@) == Some(group_views(g@)),
            None => regex_captures_of(pattern@, text@) is None,
        },
{
    let re = regex::Regex::new(pattern).ok()?;
    let caps = re.captures(text)?;
    Some(caps.iter().map(|m| m.map(|m| m.as_str().to_string())).collect())
}

/// The text of group `i` of captured groups.
pub fn group_text(groups: &Vec<Option<String>>, i: usize) -> (r: Option<String>)
    ensures
        ostr(r) == group_at(group_views(groups@), i as int),
{
    if i < groups.len() {
        match &groups[i] {
            Some(s) => Some(s.clone()),
            None => None,
        }
    } else {
        None
    }
}

} // verus!
