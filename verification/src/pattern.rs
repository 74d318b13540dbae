//! Regular-expression searches, done by the `regex` crate.
//!
//! A match is given by its capture groups: group 0 is the whole match, and a
//! group that took no part in the match is absent.

use vstd::prelude::*;

verus! {

/// The capture groups of the leftmost-first match of `pattern` in `text`;
/// none when the pattern does not match or does not compile.
pub uninterp spec fn regex_first_match(pattern: Seq<char>, text: Seq<char>) -> Option<
    Seq<Option<Seq<char>>>,
>;

/// The capture groups of the successive non-overlapping matches of
/// `pattern` in `text`, left to right; none when the pattern does not compile.
pub uninterp spec fn regex_all_matches(pattern: Seq<char>, text: Seq<char>) -> Seq<
    Seq<Option<Seq<char>>>,
>;

/// `text` with the leftmost-first match of `pattern` replaced by `rep`, in
/// which `$name` and `$N` stand for capture groups.
pub uninterp spec fn regex_replace_first(pattern: Seq<char>, text: Seq<char>, rep: Seq<char>) -> Seq<
    char,
>;

/// Whether `pattern` is a regular expression the `regex` crate compiles.
pub uninterp spec fn regex_compiles(pattern: Seq<char>) -> bool;

/// Compiles `pattern` with `regex::Regex::new`. The contract claims only
/// that the result is the value named `regex_compiles`.
#[verifier::external_body]
pub(crate) fn regex_is_valid(pattern: &str) -> (r: bool)
    ensures
        r == regex_compiles(pattern@),
{
    regex::Regex::new(pattern).is_ok()
}

/// The views of optional strings.
pub open spec fn opt_views(v: Seq<Option<String>>) -> Seq<Option<Seq<char>>> {
    v.map_values(|o: Option<String>| match o {
        Some(s) => Some(s@),
        None => None,
    })
}

/// The views of the groups of several matches.
pub open spec fn match_views(v: Seq<Vec<Option<String>>>) -> Seq<Seq<Option<Seq<char>>>> {
    v.map_values(|m: Vec<Option<String>>| opt_views(m@))
}

/// Compiles `pattern` with `regex::Regex::new` and returns the groups of
/// `Regex::captures` on `text`. The contract claims only that the result is
/// the value named `regex_first_match`; a pattern that does not compile
/// gives none, as no match does.
#[verifier::external_body]
pub(crate) fn regex_captures(pattern: &str, text: &str) -> (r: Option<Vec<Option<String>>>)
    ensures
        match r {
            Some(g) => regex_first_match(pattern@, text@) == Some(opt_views(g@)),
            None => regex_first_match(pattern@, text@) is None,
        },
{
    let re = regex::Regex::new(pattern).ok()?;
    re.captures(text).map(|c| c.iter().map(|m| m.map(|m| m.as_str().to_owned())).collect())
}

/// Compiles `pattern` with `regex::Regex::new` and returns the groups of each
/// match that `Regex::captures_iter` yields on `text`, in order. The contract
/// claims only that the result is the value named `regex_all_matches`.
#[verifier::external_body]
pub(crate) fn regex_captures_all(pattern: &str, text: &str) -> (r: Vec<Vec<Option<String>>>)
    ensures
        match_views(r@) == regex_all_matches(pattern@, text@),
{
    match regex::Regex::new(pattern) {
        Ok(re) => re.captures_iter(text).map(
            |c| c.iter().map(|m| m.map(|m| m.as_str().to_owned())).collect(),
        ).collect(),
        Err(_) => Vec::new(),
    }
}

/// Compiles `pattern` with `regex::Regex::new` and returns `Regex::replace` of
/// its leftmost-first match in `text` by `rep`. The contract claims the value
/// named `regex_replace_first`, and, as the crate documents, the text
/// unchanged when nothing matches.
#[verifier::external_body]
pub(crate) fn regex_replace(pattern: &str, text: &str, rep: &str) -> (r: String)
    ensures
        r@ == regex_replace_first(pattern@, text@, rep@),
        regex_first_match(pattern@, text@) is None ==> r@ == text@,
{
    match regex::Regex::new(pattern) {
        Ok(re) => re.replace(text, rep).into_owned(),
        Err(_) => text.to_owned(),
    }
}

/// Group `i` of a match, if the match exists and the group took part.
pub open spec fn group_of(m: Option<Seq<Option<Seq<char>>>>, i: int) -> Option<Seq<char>> {
    match m {
        Some(g) => if 0 <= i < g.len() {
            g[i]
        } else {
            None
        },
        None => None,
    }
}

/// Group `i` of the groups of one match.
pub open spec fn group_in(g: Seq<Option<Seq<char>>>, i: int) -> Option<Seq<char>> {
    if 0 <= i < g.len() {
        g[i]
    } else {
        None
    }
}

/// Group `i` of one match's groups, as an owned string.
pub fn take_group(g: &Vec<Option<String>>, i: usize) -> (r: Option<String>)
    ensures
        match (r, group_in(opt_views(g@), i as int)) {
            (Some(a), Some(b)) => a@ == b,
            (None, None) => true,
            _ => false,
        },
{
    if i < g.len() {
        match &g[i] {
            Some(s) => Some(s.clone()),
            None => None,
        }
    } else {
        None
    }
}

/// Group `i` of the first match of `pattern` in `text`.
pub fn first_group(pattern: &str, text: &str, i: usize) -> (r: Option<String>)
    ensures
        match (r, group_of(regex_first_match(pattern@, text@), i as int)) {
            (Some(a), Some(b)) => a@ == b,
            (None, None) => true,
            _ => false,
        },
{
    match regex_captures(pattern, text) {
        Some(g) => take_group(&g, i),
        None => None,
    }
}

} // verus!
