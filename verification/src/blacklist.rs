//! The AI blacklist check: whether the foreground process is one the user
//! excluded from AI features. Comparison is case-insensitive, and an entry
//! also hits when it occurs anywhere inside the process name.

use vstd::prelude::*;

verus! {

/// What `str::to_lowercase` returns for a text: a function of the characters
/// alone.
pub uninterp spec fn lower_of(s: Seq<char>) -> Seq<char>;

/// Relies on `str::to_lowercase`: the result depends on the characters alone.
#[verifier::external_body]
fn to_lowercase(s: &str) -> (r: String)
    ensures
        r@ == lower_of(s@),
{
    s.to_lowercase()
}

/// `needle` occurs contiguously inside `hay`.
pub open spec fn is_substring(needle: Seq<char>, hay: Seq<char>) -> bool {
    exists|i: int|
        0 <= i && i + needle.len() <= hay.len() && #[trigger] hay.subrange(i, i + needle.len())
            == needle
}

/// Relies on `str::contains`: true if and only if the pattern occurs as a
/// substring of the haystack (UTF-8 is self-synchronising, so a byte-level
/// occurrence is a character-level one).
#[verifier::external_body]
fn str_contains(hay: &str, needle: &str) -> (r: bool)
    ensures
        r == is_substring(needle@, hay@),
{
    hay.contains(needle)
}

/// One blacklist entry hits a process name when, after case folding, the two
/// are equal or the entry occurs inside the name.
pub open spec fn blacklist_hit(entry: Seq<char>, process: Seq<char>) -> bool {
    lower_of(entry) == lower_of(process) || is_substring(lower_of(entry), lower_of(process))
}

/// Whether the process is blacklisted: some entry hits it. An empty blacklist
/// (no settings found) blacklists nothing.
pub fn is_blacklisted(process_name: &str, blacklist_apps: &Vec<String>) -> (r: bool)
    ensures
        r == exists|i: int|
            0 <= i < blacklist_apps@.len() && blacklist_hit(blacklist_apps@[i]@, process_name@),
{
    let process_lower = to_lowercase(process_name);
    let mut i: usize = 0;
    while i < blacklist_apps.len()
        invariant
            i <= blacklist_apps.len(),
            process_lower@ == lower_of(process_name@),
            forall|k: int| 0 <= k < i ==> !blacklist_hit(#[trigger] blacklist_apps@[k]@, process_name@),
        decreases blacklist_apps.len() - i,
    {
        let entry_lower = to_lowercase(blacklist_apps[i].as_str());
        if entry_lower == process_lower || str_contains(process_lower.as_str(), entry_lower.as_str())
        {
            return true;
        }
        i += 1;
    }
    false
}

} // verus!
