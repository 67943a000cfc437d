//! Regular expressions over file names, by the `regex` crate.

use vstd::prelude::*;

verus! {

/// What a search of `text` for the regular expression `pattern` gives: `None`
/// where `pattern` is not a regular expression that compiles, otherwise whether
/// it matches anywhere in `text`.
pub uninterp spec fn regex_search(pattern: Seq<char>, text: Seq<char>) -> Option<bool>;

/// Compiles `pattern` with `regex::Regex::new` and, where that succeeds, asks
/// `regex::Regex::is_match` whether the expression matches anywhere in `text`.
/// Believed, not proved: the answer is `regex_search` of the two texts, that
/// is, it depends on nothing but them.
#[verifier::external_body]
pub(crate) fn search(pattern: &str, text: &str) -> (found: Option<bool>)
    ensures
        found == regex_search(pattern@, text@),
{
    match regex::Regex::new(pattern) {
        Ok(compiled) => Some(compiled.is_match(text)),
        Err(_) => None,
    }
}

} // verus!
