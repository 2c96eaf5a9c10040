//! Trusted access to the `regex` crate.
//!
//! Each function compiles its pattern with `regex::Regex::new` and then makes
//! at most one matching call. What a call returns is named by a specification
//! function of its arguments: matching is deterministic, but its full
//! definition (Unicode classes, leftmost-first priority, replacement
//! templates) is the regex crate's and is not restated here.
use vstd::prelude::*;

verus! {

/// Whether `regex::Regex::new` accepts `pattern`.
pub uninterp spec fn regex_accepts(pattern: Seq<char>) -> bool;

/// The text `Regex::replace_all` returns for `text`, every match replaced by
/// the `replacement` template.
pub uninterp spec fn regex_replace_all_text(
    pattern: Seq<char>,
    text: Seq<char>,
    replacement: Seq<char>,
) -> Seq<char>;

/// The text `Regex::replace` returns for `text`, its first match replaced by
/// the `replacement` template.
pub uninterp spec fn regex_replace_first_text(
    pattern: Seq<char>,
    text: Seq<char>,
    replacement: Seq<char>,
) -> Seq<char>;

/// What `Regex::captures` finds in `text`: `None` when nothing matches,
/// otherwise the text of each named group in `names`, in that order
/// (`None` for a group that took no part in the match).
pub uninterp spec fn regex_captures_named(
    pattern: Seq<char>,
    text: Seq<char>,
    names: Seq<Seq<char>>,
) -> Option<Seq<Option<Seq<char>>>>;

/// What `Regex::captures_iter` finds in `text`: one entry per successive
/// non-overlapping match, each the text of the groups in `names`.
pub uninterp spec fn regex_captures_every(
    pattern: Seq<char>,
    text: Seq<char>,
    names: Seq<Seq<char>>,
) -> Seq<Seq<Option<Seq<char>>>>;

/// Calls `Regex::new(pattern)` and reports whether it succeeded.
/// Claims: exactly when the pattern is accepted.
#[verifier::external_body]
pub(crate) fn regex_compiles(pattern: &str) -> (r: bool)
    ensures
        r == regex_accepts(pattern@),
{
    regex::Regex::new(pattern).is_ok()
}

/// Calls `Regex::new(pattern)` and then `Regex::replace_all(text, replacement)`.
/// Claims: `None` exactly when the pattern is rejected; otherwise the text
/// named by `regex_replace_all_text`.
#[verifier::external_body]
pub(crate) fn regex_replace_all(pattern: &str, text: &str, replacement: &str) -> (r: Option<String>)
    ensures
        r is Some <==> regex_accepts(pattern@),
        r matches Some(s) ==> s@ == regex_replace_all_text(pattern@, text@, replacement@),
{
    match regex::Regex::new(pattern) {
        Ok(re) => Some(re.replace_all(text, replacement).into_owned()),
        Err(_) => None,
    }
}

/// Calls `Regex::new(pattern)` and then `Regex::replace(text, replacement)`.
/// Claims: `None` exactly when the pattern is rejected; otherwise the text
/// named by `regex_replace_first_text`.
#[verifier::external_body]
pub(crate) fn regex_replace_first(pattern: &str, text: &str, replacement: &str) -> (r: Option<String>)
    ensures
        r is Some <==> regex_accepts(pattern@),
        r matches Some(s) ==> s@ == regex_replace_first_text(pattern@, text@, replacement@),
{
    match regex::Regex::new(pattern) {
        Ok(re) => Some(re.replace(text, replacement).into_owned()),
        Err(_) => None,
    }
}

/// Calls `Regex::new(pattern)` and then `Regex::captures(text)`, reading each
/// group of `names` with `Captures::name`.
/// Claims: `None` exactly when the pattern is rejected; otherwise the groups
/// named by `regex_captures_named`, one entry per name.
#[verifier::external_body]
pub(crate) fn regex_captures(pattern: &str, text: &str, names: &[&str]) -> (r: Option<
    Option<Vec<Option<String>>>,
>)
    ensures
        r is Some <==> regex_accepts(pattern@),
        r matches Some(found) ==> found.deep_view() == regex_captures_named(
            pattern@,
            text@,
            names.deep_view(),
        ),
        r matches Some(Some(groups)) ==> groups.len() == names.len(),
{
    match regex::Regex::new(pattern) {
        Ok(re) => Some(re.captures(text).map(
            |caps| names.iter().map(|n| caps.name(n).map(|m| m.as_str().to_string())).collect(),
        )),
        Err(_) => None,
    }
}

/// Calls `Regex::new(pattern)` and then `Regex::captures_iter(text)`, reading
/// each group of `names` of every match with `Captures::name`.
/// Claims: `None` exactly when the pattern is rejected; otherwise the matches
/// named by `regex_captures_every`, each with one entry per name.
#[verifier::external_body]
pub(crate) fn regex_captures_all(pattern: &str, text: &str, names: &[&str]) -> (r: Option<
    Vec<Vec<Option<String>>>,
>)
    ensures
        r is Some <==> regex_accepts(pattern@),
        r matches Some(found) ==> found.deep_view() == regex_captures_every(
            pattern@,
            text@,
            names.deep_view(),
        ),
        r matches Some(found) ==> forall|i: int|
            0 <= i < found.len() ==> (#[trigger] found[i]).len() == names.len(),
{
    match regex::Regex::new(pattern) {
        Ok(re) => Some(re.captures_iter(text).map(
            |caps| names.iter().map(|n| caps.name(n).map(|m| m.as_str().to_string())).collect(),
        ).collect()),
        Err(_) => None,
    }
}

} // verus!
