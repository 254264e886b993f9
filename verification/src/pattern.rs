//! The one place where the pattern engine is called.
//!
//! What a pattern matches is the engine's business: this module gives the
//! engine's answers a name, so that the rest of the library can say exactly
//! what it does with them, and states nothing else about them.

use vstd::prelude::*;

verus! {

/// A pattern that the pattern engine has compiled.
#[verifier::external_type_specification]
#[verifier::external_body]
pub struct ExCompiledPattern(regex::Regex);

/// The error that the pattern engine returns for a pattern it does not take.
#[verifier::external_type_specification]
#[verifier::external_body]
pub struct ExPatternError(regex::Error);

/// Whether `regex::Regex::new` accepts `pattern`.
pub uninterp spec fn regex_accepts(pattern: Seq<char>) -> bool;

/// What `regex::Regex::captures` finds when an accepted `pattern` is searched
/// in `haystack`: nothing where the pattern matches nowhere, and otherwise
/// the capture groups of the leftmost match, group 0 being the whole match.
/// A group that took no part in the match is `None`.
pub uninterp spec fn regex_captures(pattern: Seq<char>, haystack: Seq<char>) -> Option<
    Seq<Option<Seq<char>>>,
>;

/// A pattern in its two forms: the text it was written as, and what the
/// pattern engine compiled that text to. Values are made by [`compile`]
/// alone, so the two forms always belong together; the view is the text.
pub(crate) struct Pattern {
    source: String,
    compiled: regex::Regex,
}

impl View for Pattern {
    type V = Seq<char>;

    closed spec fn view(&self) -> Seq<char> {
        self.source@
    }
}

/// Compiles `pattern` with `regex::Regex::new`.
///
/// Trusted: the call fails exactly when the engine refuses the pattern,
/// which depends on the pattern's text alone; the compiled pattern is kept
/// beside the text it came from.
#[verifier::external_body]
pub(crate) fn compile(pattern: &str) -> (compiled: Result<Pattern, regex::Error>)
    ensures
        compiled is Ok <==> regex_accepts(pattern@),
        compiled matches Ok(p) ==> p@ == pattern@,
{
    regex::Regex::new(pattern).map(|compiled| Pattern { source: pattern.to_owned(), compiled })
}

/// Searches `haystack` with `regex::Regex::captures`, handing the groups of
/// the match out as owned strings.
///
/// Trusted: the result is the one that the engine gives for this pattern
/// and this haystack, and depends on the two texts alone.
#[verifier::external_body]
pub(crate) fn first_captures(pattern: &Pattern, haystack: &str) -> (groups: Option<
    Vec<Option<String>>,
>)
    ensures
        groups.deep_view() == regex_captures(pattern@, haystack@),
{
    pattern.compiled.captures(haystack).map(
        |caps| caps.iter().map(|group| group.map(|m| m.as_str().to_owned())).collect(),
    )
}

} // verus!
