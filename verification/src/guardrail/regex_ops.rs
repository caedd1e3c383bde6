//! Trusted boundary to the `regex` crate.
//!
//! Regular-expression compilation and matching are deterministic functions of
//! their arguments alone, but their full semantics would take pages to state;
//! each result is therefore given an uninterpreted name, and the verified
//! callers reason in terms of those names.

use vstd::prelude::*;

verus! {

/// Whether `pattern` is a regular expression that `regex::Regex::new`
/// accepts.
pub uninterp spec fn regex_compiles(pattern: Seq<char>) -> bool;

/// Whether the compiled `pattern` matches anywhere in `text`
/// (`regex::Regex::is_match`).
pub uninterp spec fn regex_match(pattern: Seq<char>, text: Seq<char>) -> bool;

/// `text` with every non-overlapping match of `pattern` replaced by
/// `replacement` (`regex::Regex::replace_all`).
pub uninterp spec fn regex_replaced(
    pattern: Seq<char>,
    text: Seq<char>,
    replacement: Seq<char>,
) -> Seq<char>;

/// Whether every pattern of the set is one that `regex::RegexSet::new`
/// accepts, all together.
pub uninterp spec fn regex_set_compiles(patterns: Seq<Seq<char>>) -> bool;

/// How many patterns of the set match somewhere in `text`
/// (`regex::RegexSet::matches`).
pub uninterp spec fn regex_set_match_count(patterns: Seq<Seq<char>>, text: Seq<char>) -> int;

/// The case-insensitive whole-word pattern built around the escaped
/// `keyword`: `(?i)\b` + `regex::escape(keyword)` + `\b`.
pub uninterp spec fn escaped_word_pattern(keyword: Seq<char>) -> Seq<char>;

/// Relies on `regex::Regex::new`: whether the pattern compiles is a function
/// of the pattern alone.
#[verifier::external_body]
pub(crate) fn regex_compile_ok(pattern: &str) -> (r: bool)
    ensures
        r == regex_compiles(pattern@),
{
    regex::Regex::new(pattern).is_ok()
}

/// Relies on `regex::Regex::new` and `regex::Regex::is_match`: `None` exactly
/// when the pattern does not compile, otherwise whether it matches `text`.
#[verifier::external_body]
pub(crate) fn regex_is_match(pattern: &str, text: &str) -> (r: Option<bool>)
    ensures
        r is Some <==> regex_compiles(pattern@),
        r is Some ==> r->0 == regex_match(pattern@, text@),
{
    regex::Regex::new(pattern).ok().map(|re| re.is_match(text))
}

/// Relies on `regex::Regex::new` and `regex::Regex::replace_all`: `None`
/// exactly when the pattern does not compile, otherwise `text` with every
/// match replaced.  Where nothing matches, `replace_all` returns the haystack
/// unchanged.
#[verifier::external_body]
pub(crate) fn regex_replace_all(pattern: &str, text: &str, replacement: &str) -> (r: Option<
    String,
>)
    ensures
        r is Some <==> regex_compiles(pattern@),
        r is Some ==> r->0@ == regex_replaced(pattern@, text@, replacement@),
        r is Some && !regex_match(pattern@, text@) ==> r->0@ == text@,
{
    regex::Regex::new(pattern).ok().map(|re| re.replace_all(text, replacement).into_owned())
}

/// Relies on `regex::RegexSet::new` and `regex::RegexSet::matches`: `None`
/// exactly when the set does not compile, otherwise how many of the patterns
/// match `text` — never more than the number of patterns.
#[verifier::external_body]
pub(crate) fn regex_set_count(patterns: &Vec<String>, text: &str) -> (r: Option<usize>)
    ensures
        r is Some <==> regex_set_compiles(patterns.deep_view()),
        r is Some ==> r->0 as int == regex_set_match_count(patterns.deep_view(), text@),
        r is Some ==> r->0 <= patterns.len(),
{
    regex::RegexSet::new(patterns).ok().map(|s| s.matches(text).iter().count())
}

/// Relies on `regex::escape`: the word-boundary pattern wrapped around the
/// escaped keyword is a function of the keyword alone.
#[verifier::external_body]
pub(crate) fn escape_word_pattern(keyword: &str) -> (r: String)
    ensures
        r@ == escaped_word_pattern(keyword@),
{
    format!(r"(?i)\b{}\b", regex::escape(keyword))
}

} // verus!
