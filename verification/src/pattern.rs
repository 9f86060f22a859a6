//! The regular-expression boundary. Rule patterns are compiled and applied by
//! the `regex` crate; each call stands behind a trusted item whose contract
//! names the outcome, since compilation, matching and capture-group
//! substitution are functions of the pattern and haystack text alone.

use vstd::prelude::*;

verus! {

/// Whether `regex::Regex::new` accepts `pattern`; acceptance depends on the
/// pattern text alone.
pub uninterp spec fn pattern_ok(pattern: Seq<char>) -> bool;

/// What `regex::Regex::is_match` returns for a compiling `pattern` on `text`:
/// whether the pattern matches anywhere in `text`.
pub uninterp spec fn regex_match(pattern: Seq<char>, text: Seq<char>) -> bool;

/// What `regex::Regex::replace` returns for a compiling `pattern` on `text`
/// with replacement `rep`: `text` with its leftmost match replaced by `rep`,
/// `$`-references in `rep` expanded to the match's capture groups.
pub uninterp spec fn regex_replace(pattern: Seq<char>, text: Seq<char>, rep: Seq<char>) -> Seq<char>;

/// Relies on `regex::Regex::new`: it refuses exactly the invalid patterns
/// (and the rare valid ones over the default compiled-size limit), and never
/// panics.
#[verifier::external_body]
pub(crate) fn pattern_compiles(pattern: &str) -> (r: bool)
    ensures
        r == pattern_ok(pattern@),
{
    regex::Regex::new(pattern).is_ok()
}

/// Relies on `regex::Regex::is_match`, on the regex that
/// `regex::Regex::new` compiles from `pattern`: true if and only if the
/// pattern matches somewhere in `text`.
#[verifier::external_body]
pub(crate) fn regex_is_match(pattern: &str, text: &str) -> (r: bool)
    requires
        pattern_ok(pattern@),
    ensures
        r == regex_match(pattern@, text@),
{
    regex::Regex::new(pattern).unwrap().is_match(text)
}

/// Relies on `regex::Regex::replace`, on the regex that `regex::Regex::new`
/// compiles from `pattern`: replaces the leftmost match in `text` with `rep`
/// (expanding capture-group references), and returns `text` unchanged when
/// nothing matches.
#[verifier::external_body]
pub(crate) fn regex_replace_first(pattern: &str, text: &str, rep: &str) -> (r: String)
    requires
        pattern_ok(pattern@),
    ensures
        r@ == regex_replace(pattern@, text@, rep@),
        !regex_match(pattern@, text@) ==> r@ == text@,
{
    regex::Regex::new(pattern).unwrap().replace(text, rep).into_owned()
}

} // verus!
