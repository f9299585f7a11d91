//! The trusted boundary around the `regex` crate.
//!
//! The regex language itself is not modelled: whether a pattern compiles and
//! which texts it matches are named, uninterpreted functions of the pattern
//! text alone. Everything the router proves about match results (ordering,
//! isolation of inert rules, dedup on import) holds whatever those functions
//! are; which concrete texts match is checked by tests, not proofs.

use vstd::prelude::*;

verus! {

#[verifier::external_type_specification]
#[verifier::external_body]
pub struct ExRegex(regex::Regex);

/// Whether `regex::Regex::new` accepts `pattern`. Compilation is a function of
/// the pattern text alone.
pub uninterp spec fn regex_compiles(pattern: Seq<char>) -> bool;

/// Whether the regex compiled from `pattern` matches anywhere inside `text`.
/// The outcome is a function of the two texts alone.
pub uninterp spec fn regex_accepts(pattern: Seq<char>, text: Seq<char>) -> bool;

/// The pattern text a compiled regex was built from, as `regex::Regex::as_str`
/// returns it: a function of the regex value alone.
pub uninterp spec fn regex_source(re: regex::Regex) -> Seq<char>;

/// Relies on `regex::Regex::new`: it returns `Ok` exactly when the pattern is a
/// valid regex, and the compiled value remembers the pattern it was built from
/// (`as_str` returns the original string).
#[verifier::external_body]
pub(crate) fn regex_new(pattern: &str) -> (r: Option<regex::Regex>)
    ensures
        r is Some <==> regex_compiles(pattern@),
        r is Some ==> regex_source(r.unwrap()) == pattern@,
{
    regex::Regex::new(pattern).ok()
}

/// Relies on `regex::Regex::is_match`: true if and only if the regex matches
/// somewhere in the haystack (not merely at the start), a deterministic
/// function of the compiled pattern and the haystack.
#[verifier::external_body]
pub(crate) fn regex_is_match(re: &regex::Regex, text: &str) -> (r: bool)
    ensures
        r == regex_accepts(regex_source(*re), text@),
{
    re.is_match(text)
}

} // verus!
