//! Regular-expression matching, done by the `regex` crate.
use vstd::prelude::*;

verus! {

/// What `regex::Regex::new(pattern)` followed by `captures(haystack)` yields: `None` when the
/// pattern is invalid or does not match, else the text of every capture group, group 0
/// (the whole match) first, `None` for a group that did not take part in the match.
pub uninterp spec fn regex_captures(pattern: Seq<char>, haystack: Seq<char>) -> Option<
    Seq<Option<Seq<char>>>,
>;

/// View of one optional capture.
pub open spec fn opt_text(o: Option<String>) -> Option<Seq<char>> {
    match o {
        Some(s) => Some(s@),
        None => None,
    }
}

/// View of a capture result.
pub open spec fn groups_view(r: Option<Vec<Option<String>>>) -> Option<Seq<Option<Seq<char>>>> {
    match r {
        Some(v) => Some(v@.map_values(|o: Option<String>| opt_text(o))),
        None => None,
    }
}

/// `regex::Regex::new(pattern)` and `Regex::captures(haystack)`; each group is returned as
/// the text it matched.
#[verifier::external_body]
pub(crate) fn captures(pattern: &str, haystack: &Vec<char>) -> (r: Option<Vec<Option<String>>>)
    ensures
        groups_view(r) == regex_captures(pattern@, haystack@),
{
    let re = regex::Regex::new(pattern).ok()?;
    let text: String = haystack.iter().collect();
    let caps = re.captures(&text)?;
    Some(caps.iter().map(|m| m.map(|m| m.as_str().to_string())).collect())
}

/// Text of group `i` of a capture result, if the pattern matched and the group took part.
pub open spec fn group(caps: Option<Seq<Option<Seq<char>>>>, i: int) -> Option<Seq<char>> {
    match caps {
        Some(g) => if 0 <= i < g.len() {
            g[i]
        } else {
            None
        },
        None => None,
    }
}

/// Exec version of `group`.
pub fn group_exec(caps: &Option<Vec<Option<String>>>, i: usize) -> (r: Option<String>)
    ensures
        opt_text(r) == group(groups_view(*caps), i as int),
{
    match caps {
        Some(g) => {
            if i < g.len() {
                match &g[i] {
                    Some(s) => Some(s.clone()),
                    None => None,
                }
            } else {
                None
            }
        },
        None => None,
    }
}

/// What `regex::Regex::new(pattern)` followed by `replace_all(haystack, replacement)` yields:
/// `None` when the pattern is invalid, else the text with every match replaced (the
/// replacement's `$` references expanded).
pub uninterp spec fn regex_replaced(pattern: Seq<char>, haystack: Seq<char>, replacement: Seq<char>) -> Option<
    Seq<char>,
>;

/// `regex::Regex::new(pattern)` and `Regex::replace_all(haystack, replacement)`.
#[verifier::external_body]
pub(crate) fn replace_all(pattern: &str, haystack: &str, replacement: &str) -> (r: Option<String>)
    ensures
        opt_text(r) == regex_replaced(pattern@, haystack@, replacement@),
{
    let re = regex::Regex::new(pattern).ok()?;
    Some(re.replace_all(haystack, replacement).into_owned())
}

} // verus!
