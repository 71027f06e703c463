//! Regular-expression matching and template substitution.
//!
//! Declarations carry a pattern (a regular expression matched against each
//! scanned file path) and replacement templates (`${N}` capture references)
//! that derive companion paths from a matched path. Both operations are pure
//! functions of their text arguments; the regex engine's results are given
//! names here so that the expansion logic can be specified exactly in terms
//! of them.
use vstd::prelude::*;

verus! {

/// Whether `pat` is a well-formed regular expression.
pub uninterp spec fn regex_valid(pat: Seq<char>) -> bool;

/// Whether the regular expression `pat` matches somewhere in `text`.
pub uninterp spec fn regex_match(pat: Seq<char>, text: Seq<char>) -> bool;

/// The result of replacing every match of `pat` in `text` with the
/// expansion of `template`.
pub uninterp spec fn regex_substitution(pat: Seq<char>, text: Seq<char>, template: Seq<char>) -> Seq<
    char,
>;

/// Relies on `regex::Regex::new`: whether a pattern compiles depends on the
/// pattern text alone.
#[verifier::external_body]
pub(crate) fn pattern_is_valid(pat: &str) -> (r: bool)
    ensures
        r == regex_valid(pat@),
{
    regex::Regex::new(pat).is_ok()
}

/// Relies on `regex::Regex::is_match`: whether a pattern matches a haystack
/// depends on the two texts alone, and `Regex::new` succeeds on a pattern
/// that compiles.
#[verifier::external_body]
pub(crate) fn pattern_matches(pat: &str, text: &str) -> (r: bool)
    requires
        regex_valid(pat@),
    ensures
        r == regex_match(pat@, text@),
{
    regex::Regex::new(pat).unwrap().is_match(text)
}

/// Relies on `regex::Regex::replace_all` with a `&str` replacement: the
/// substituted text depends on pattern, haystack and replacement alone, and
/// `Regex::new` succeeds on a pattern that compiles.
#[verifier::external_body]
pub(crate) fn pattern_substitute(pat: &str, text: &str, template: &str) -> (r: String)
    requires
        regex_valid(pat@),
    ensures
        r@ == regex_substitution(pat@, text@, template@),
{
    regex::Regex::new(pat).unwrap().replace_all(text, template).into_owned()
}

/// Does `pat` compile as a regular expression?
pub fn check_pattern(pat: &str) -> (r: bool)
    ensures
        r == regex_valid(pat@),
{
    pattern_is_valid(pat)
}

/// Template substitution is deterministic: the same matched path and the
/// same template always yield the same derived path.
pub proof fn lemma_substitution_deterministic(
    pat1: Seq<char>,
    text1: Seq<char>,
    template1: Seq<char>,
    pat2: Seq<char>,
    text2: Seq<char>,
    template2: Seq<char>,
)
    requires
        pat1 == pat2,
        text1 == text2,
        template1 == template2,
    ensures
        regex_substitution(pat1, text1, template1) == regex_substitution(pat2, text2, template2),
{
}

} // verus!
