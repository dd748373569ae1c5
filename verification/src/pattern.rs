//! Regular-expression matching, as the `regex` crate performs it.

use vstd::prelude::*;

verus! {

/// The capture groups of the leftmost match of `pattern` in `text`: group 0
/// is the whole match, a group that took no part in the match is `None`.
/// `None` where the text holds no match or the pattern does not compile.
pub uninterp spec fn regex_captures(pattern: Seq<char>, text: Seq<char>) -> Option<
    Seq<Option<Seq<char>>>,
>;

/// Compiles `pattern` with `regex::Regex::new` and searches `text` with
/// `Regex::captures`, copying out the text of every group. What the engine
/// matches is not described here: the result is only given its name.
#[verifier::external_body]
pub(crate) fn captures(pattern: &str, text: &str) -> (res: Option<Vec<Option<String>>>)
    ensures
        res.deep_view() == regex_captures(pattern@, text@),
{
    let re = regex::Regex::new(pattern).ok()?;
    let found = re.captures(text)?;
    Some(found.iter().map(|m| m.map(|g| g.as_str().to_string())).collect())
}

/// Whether `pattern` is a regular expression that the engine accepts.
pub uninterp spec fn regex_compiles(pattern: Seq<char>) -> bool;

/// Compiles `pattern` with `regex::Regex::new` and tells whether that
/// succeeded: it fails on a pattern that is malformed or too large.
#[verifier::external_body]
pub(crate) fn compiles(pattern: &str) -> (res: bool)
    ensures
        res == regex_compiles(pattern@),
{
    regex::Regex::new(pattern).is_ok()
}

/// The text of group `i`, if the match has such a group and it took part.
pub open spec fn group(groups: Seq<Option<Seq<char>>>, i: int) -> Option<Seq<char>> {
    if 0 <= i < groups.len() {
        groups[i]
    } else {
        None
    }
}

/// The text of group `i` of a match.
pub fn group_text(groups: &Vec<Option<String>>, i: usize) -> (res: Option<&str>)
    ensures
        res.deep_view() == group(groups.deep_view(), i as int),
{
    if i < groups.len() {
        match &groups[i] {
            Some(s) => Some(s.as_str()),
            None => None,
        }
    } else {
        None
    }
}

} // verus!
