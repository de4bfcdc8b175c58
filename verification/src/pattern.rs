//! Path-matching patterns for the process filter.
//!
//! A pattern is kept together with its textual definition. Compiled matchers
//! are not comparable as values, so everything the library states about a
//! pattern — including equality of whole filter configurations — is stated
//! about its source text alone.

use vstd::prelude::*;

verus! {

/// Whether the outside pattern compiler accepts a pattern text. Compilation is
/// a function of the text alone, so the outcome carries a name rather than a
/// page-long description.
pub uninterp spec fn pattern_compiles(s: Seq<char>) -> bool;

#[verifier::external_type_specification]
#[verifier::external_body]
pub struct ExRegex(regex::Regex);

#[verifier::external_type_specification]
#[verifier::external_body]
pub struct ExRegexError(regex::Error);

/// Relies on `regex::Regex::new`: compiling a pattern is deterministic in the
/// pattern text, so the same text always compiles or is always rejected.
#[verifier::external_body]
fn regex_new(s: &str) -> (r: Result<regex::Regex, regex::Error>)
    ensures
        r is Ok <==> pattern_compiles(s@),
{
    regex::Regex::new(s)
}

/// Relies on `regex::Error`'s `Display` impl for a human-readable reason why
/// a pattern text was rejected.
#[verifier::external_body]
fn regex_error_message(e: &regex::Error) -> String {
    format!("{}", e)
}

/// A path-matching rule: the source text it was defined by, plus the compiled
/// matcher built from that text. The view of a pattern is its source text.
#[derive(Debug)]
pub struct Pattern {
    source: String,
    matcher: regex::Regex,
}

impl View for Pattern {
    type V = Seq<char>;

    closed spec fn view(&self) -> Seq<char> {
        self.source@
    }
}

impl DeepView for Pattern {
    type V = Seq<char>;

    open spec fn deep_view(&self) -> Seq<char> {
        self@
    }
}

impl Pattern {
    /// Compile a pattern from its source text. Succeeds exactly when the text
    /// is a well-formed pattern; the stored source text is the given one.
    pub fn new(source: String) -> (r: Result<Pattern, String>)
        ensures
            r is Ok <==> pattern_compiles(source@),
            r matches Ok(p) ==> p@ == source@,
    {
        match regex_new(source.as_str()) {
            Ok(matcher) => Ok(Pattern { source, matcher }),
            Err(e) => Err(regex_error_message(&e)),
        }
    }

    /// The text the pattern was defined by.
    pub fn source(&self) -> (r: &String)
        ensures
            r@ == self@,
    {
        &self.source
    }
}

} // verus!
