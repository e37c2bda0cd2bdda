//! Compiled regular expressions of the `regex` crate, paired with the pattern
//! each was compiled from.
//!
//! Only the trusted items of this file build a [`PatternMatcher`] or look
//! inside one; everything else goes through [`PatternMatcher::new`] and
//! [`PatternMatcher::is_match`].

use vstd::prelude::*;

use crate::agent::{alternation, any_occurs_in, are_plain_words};

verus! {

/// The regular expression type of the `regex` crate, carried opaquely.
#[verifier::external_type_specification]
#[verifier::external_body]
pub struct ExRegex(regex::Regex);

/// The error type of the `regex` crate, carried opaquely.
#[verifier::external_type_specification]
#[verifier::external_body]
pub struct ExRegexError(regex::Error);

/// Whether the `regex` crate accepts `pattern`: it is valid syntax and its
/// compiled form stays within the crate's default size limit.
pub uninterp spec fn regex_compiles(pattern: Seq<char>) -> bool;

/// Whether the regular expression compiled from `pattern` by the `regex`
/// crate matches somewhere in `haystack`.
pub uninterp spec fn regex_finds(pattern: Seq<char>, haystack: Seq<char>) -> bool;

/// Why a pattern could not be turned into a matcher.
#[derive(Debug, Clone, Copy, PartialEq, Eq, Structural)]
pub enum PatternError {
    /// The `regex` crate rejected the pattern.
    Rejected,
}

/// A regular expression compiled by the `regex` crate, together with the
/// pattern it was compiled from.
///
/// Only [`regex_new`] builds one: it stores the pattern it handed to
/// `regex::Regex::new` next to the regex that call returned. No other code
/// writes either field.
pub struct PatternMatcher {
    re: regex::Regex,
    pattern: Ghost<Seq<char>>,
}

/// Calls `regex::Regex::new(pattern)` and, on success, keeps the regex with
/// `pattern` as the pattern it was compiled from.
///
/// Claimed: the call succeeds exactly when the crate accepts the pattern
/// (named [`regex_compiles`]); the documentation says it fails on invalid
/// syntax and on patterns whose compiled form exceeds the default size limit.
/// The matcher returned holds the regex compiled from `pattern`.
#[verifier::external_body]
fn regex_new(pattern: &str) -> (r: Result<PatternMatcher, regex::Error>)
    ensures
        r is Ok <==> regex_compiles(pattern@),
        r matches Ok(m) ==> m.pattern() == pattern@,
{
    match regex::Regex::new(pattern) {
        Ok(re) => Ok(PatternMatcher { re, pattern: Ghost(pattern@) }),
        Err(e) => Err(e),
    }
}

/// Calls `regex::Regex::is_match` on the regex held by `m`, which
/// [`regex_new`] compiled from `m.pattern()`.
///
/// Claimed: the answer is [`regex_finds`] of that pattern and the haystack.
/// Beyond that it claims what the crate's syntax documentation gives for the
/// simplest patterns: when the pattern is the alternation (`x|y`) of non-empty
/// words of ASCII letters, digits and spaces, which match themselves since all
/// flags are off by default, the regex matches exactly when one of the words
/// occurs in the haystack ("true if and only if there is a match for the regex
/// anywhere in the haystack").
#[verifier::external_body]
fn regex_is_match(m: &PatternMatcher, haystack: &str) -> (b: bool)
    ensures
        b == regex_finds(m.pattern(), haystack@),
        forall|words: Seq<Seq<char>>|
            #[trigger] alternation(words) == m.pattern() && are_plain_words(words) ==> (b
                == any_occurs_in(words, haystack@)),
{
    m.re.is_match(haystack)
}

impl PatternMatcher {
    /// The pattern this matcher was compiled from.
    pub closed spec fn pattern(&self) -> Seq<char> {
        self.pattern@
    }

    /// Compiles `pattern`.
    pub fn new(pattern: &str) -> (r: Result<PatternMatcher, PatternError>)
        ensures
            r is Ok <==> regex_compiles(pattern@),
            r matches Ok(m) ==> m.pattern() == pattern@,
            r matches Err(e) ==> e == PatternError::Rejected,
    {
        match regex_new(pattern) {
            Ok(m) => Ok(m),
            Err(_) => Err(PatternError::Rejected),
        }
    }

    /// Whether the regex compiled from this matcher's pattern matches
    /// somewhere in `haystack`.
    pub fn is_match(&self, haystack: &str) -> (b: bool)
        ensures
            b == regex_finds(self.pattern(), haystack@),
            forall|words: Seq<Seq<char>>|
                #[trigger] alternation(words) == self.pattern() && are_plain_words(words) ==> (b
                    == any_occurs_in(words, haystack@)),
    {
        regex_is_match(self, haystack)
    }
}

} // verus!
