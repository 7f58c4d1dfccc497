//! The compiled form of one rule's regular expression, and the trusted
//! boundary to the `regex` crate that compiles and applies it.

use vstd::prelude::*;

verus! {

#[verifier::external_type_specification]
#[verifier::external_body]
pub struct ExRegex(regex::Regex);

#[verifier::external_type_specification]
#[verifier::external_body]
pub struct ExRegexError(regex::Error);

/// Whether `regex::Regex::new` accepts `pattern`: compilation succeeds or
/// fails depending on the pattern text alone.
pub uninterp spec fn pattern_compiles(pattern: Seq<char>) -> bool;

/// What `regex::Regex::captures` reports for the leftmost match of the
/// compiled `pattern` in `text`: `None` when nothing matches, otherwise one
/// entry per capture group of the pattern (the whole match at index 0), each
/// holding the group's text when the group participated in the match.
pub uninterp spec fn captures_of(pattern: Seq<char>, text: Seq<char>) -> Option<
    Seq<Option<Seq<char>>>,
>;

/// A rule's pattern, compiled once at catalog construction time. The
/// compiled regex and the pattern text it was compiled from travel together:
/// both fields are private and `new` is the only constructor, so the pairing
/// cannot be broken from outside this module.
#[derive(Debug)]
pub struct CompiledPattern {
    regex: regex::Regex,
    pattern: String,
}

impl View for CompiledPattern {
    type V = Seq<char>;

    closed spec fn view(&self) -> Seq<char> {
        self.pattern@
    }
}

impl CompiledPattern {
    /// Relies on `regex::Regex::new`: it returns the compiled form of the
    /// pattern exactly when the pattern is valid regular-expression syntax
    /// (and small enough for the default size limit), a property of the
    /// pattern text alone.
    #[verifier::external_body]
    pub fn new(pattern: &str) -> (r: Result<CompiledPattern, regex::Error>)
        ensures
            r is Ok <==> pattern_compiles(pattern@),
            r matches Ok(c) ==> c@ == pattern@,
    {
        match regex::Regex::new(pattern) {
            Ok(regex) => Ok(CompiledPattern { regex, pattern: pattern.to_owned() }),
            Err(e) => Err(e),
        }
    }

    /// Relies on `regex::Regex::captures`: the capture groups of the
    /// leftmost match are a function of the pattern and the haystack alone,
    /// and `Captures::iter` hands out one entry per capture group of the
    /// pattern, in group order, the non-participating ones as `None`. The
    /// regex field is always the compiled form of the pattern field, so the
    /// outcome is a function of this rule's view and the text.
    #[verifier::external_body]
    pub fn captures(&self, text: &str) -> (r: Option<Vec<Option<String>>>)
        ensures
            r.deep_view() == captures_of(self@, text@),
    {
        self.regex.captures(text).map(
            |caps| caps.iter().map(|g| g.map(|m| m.as_str().to_owned())).collect(),
        )
    }
}

} // verus!
