//! Case-insensitive regular expressions of the `regex` crate.

use vstd::prelude::*;

verus! {

/// A compiled regular expression; opaque.
#[verifier::external_type_specification]
#[verifier::external_body]
pub struct ExRegex(regex::Regex);

/// Why a pattern did not compile; opaque.
#[verifier::external_type_specification]
#[verifier::external_body]
pub struct ExRegexError(regex::Error);

/// Whether `regex` compiles `pattern` with case-insensitive matching.
pub uninterp spec fn case_insensitive_compiles(pattern: Seq<char>) -> bool;

/// Whether the case-insensitive regular expression `pattern` matches
/// somewhere in `text`.
pub uninterp spec fn case_insensitive_matches(pattern: Seq<char>, text: Seq<char>) -> bool;

/// A regular expression compiled to match regardless of case, kept with its
/// source text. Only `compile` makes one, so the two always agree.
pub struct CasePattern {
    regex: regex::Regex,
    source: String,
}

impl View for CasePattern {
    type V = Seq<char>;

    closed spec fn view(&self) -> Seq<char> {
        self.source@
    }
}

impl CasePattern {
    /// Relies on `regex::RegexBuilder::build` with `case_insensitive(true)`:
    /// whether it accepts `pattern` depends on the pattern alone.
    #[verifier::external_body]
    pub(crate) fn compile(pattern: &str) -> (r: Result<CasePattern, regex::Error>)
        ensures
            r is Ok == case_insensitive_compiles(pattern@),
            r matches Ok(p) ==> p@ == pattern@,
    {
        match regex::RegexBuilder::new(pattern).case_insensitive(true).build() {
            Ok(regex) => Ok(CasePattern { regex, source: pattern.to_owned() }),
            Err(e) => Err(e),
        }
    }

    /// Relies on `regex::Regex::is_match`: whether the expression compiled from
    /// this pattern matches somewhere in `text`.
    #[verifier::external_body]
    pub(crate) fn is_match(&self, text: &str) -> (r: bool)
        ensures
            r == case_insensitive_matches(self@, text@),
    {
        self.regex.is_match(text)
    }
}

} // verus!
