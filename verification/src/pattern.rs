//! The pattern engine, as far as the library uses it. Nothing here is
//! proved: each function states what the `regex` crate is taken to do.

use crate::text::opt_view;
use vstd::prelude::*;

verus! {

/// What `regex::Regex::replace_all` returns for the pattern `pattern`, the
/// text `haystack` and the replacement `rep`; `None` where `Regex::new`
/// turns the pattern down.
pub uninterp spec fn replaced_all(pattern: Seq<char>, haystack: Seq<char>, rep: Seq<char>) -> Option<
    Seq<char>,
>;

/// What `regex::Regex::is_match` returns for the pattern `pattern` and the
/// text `haystack`; `None` where `Regex::new` turns the pattern down.
pub uninterp spec fn matched(pattern: Seq<char>, haystack: Seq<char>) -> Option<bool>;

/// What `regex::Regex::captures` returns for the pattern `pattern` and the
/// text `haystack`: the text of each group of the first match, by the
/// group's number, the whole match being group 0. The outer `None` where
/// `Regex::new` turns the pattern down, the inner one where nothing matches.
pub uninterp spec fn captured(pattern: Seq<char>, haystack: Seq<char>) -> Option<
    Option<Seq<Option<Seq<char>>>>,
>;

/// The views of the groups of a match.
pub open spec fn groups_view(groups: Seq<Option<String>>) -> Seq<Option<Seq<char>>> {
    groups.map_values(|g: Option<String>| opt_view(g))
}

/// Calls `regex::Regex::new` on `pattern` and `Regex::replace_all` on the
/// outcome. The contract claims no more than that the result is the one
/// the crate gives for these three texts, and `None` exactly where it
/// refuses the pattern; the crate promises that neither call panics.
#[verifier::external_body]
pub(crate) fn replace_all(pattern: &str, haystack: &str, rep: &str) -> (r: Option<String>)
    ensures
        opt_view(r) == replaced_all(pattern@, haystack@, rep@),
{
    match regex::Regex::new(pattern) {
        Ok(re) => Some(re.replace_all(haystack, rep).into_owned()),
        Err(_) => None,
    }
}

/// Calls `regex::Regex::new` on `pattern` and `Regex::is_match` on the
/// outcome. The contract claims no more than that the result is the one
/// the crate gives for these two texts, and `None` exactly where it refuses
/// the pattern; the crate promises that neither call panics.
#[verifier::external_body]
pub(crate) fn is_match(pattern: &str, haystack: &str) -> (r: Option<bool>)
    ensures
        r == matched(pattern@, haystack@),
{
    match regex::Regex::new(pattern) {
        Ok(re) => Some(re.is_match(haystack)),
        Err(_) => None,
    }
}

/// Calls `regex::Regex::new` on `pattern` and `Regex::captures` on the
/// outcome, and copies the text of each group of the match. The contract
/// claims no more than that the result is the one the crate gives for these
/// two texts; the crate promises that neither call panics.
#[verifier::external_body]
pub(crate) fn captures(pattern: &str, haystack: &str) -> (r: Option<Option<Vec<Option<String>>>>)
    ensures
        match r {
            Some(Some(groups)) => captured(pattern@, haystack@) == Some(Some(groups_view(groups@))),
            Some(None) => captured(pattern@, haystack@) == Some(None::<Seq<Option<Seq<char>>>>),
            None => captured(pattern@, haystack@) is None,
        },
{
    match regex::Regex::new(pattern) {
        Ok(re) => Some(
            re.captures(haystack).map(
                |caps| caps.iter().map(|group| group.map(|m| m.as_str().to_owned())).collect(),
            ),
        ),
        Err(_) => None,
    }
}

/// The pattern engine turned one of the library's patterns down.
#[derive(Debug, Clone, Copy, PartialEq, Eq, Structural)]
pub struct PatternError;

} // verus!
