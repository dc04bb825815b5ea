//! The pattern that a valid identifier matches, and the matcher that is
//! compiled from it once and shared, read-only, by all who validate.

use regex::Regex;
use vstd::prelude::*;
use vstd::string::*;

verus! {

/// The regular expression of a valid identifier: three or four characters out
/// of the upper-case Latin letters, `Ñ` and `&`; then six of the digits `0` to
/// `9`; then, or not, three characters that are upper-case Latin letters or
/// digits `0` to `9`. It is anchored at both ends, so a match spans the whole
/// text.
pub const RFC_PATTERN: &'static str = "^[A-ZÑ&]{3,4}[0-9]{6}(?:[A-Z0-9]{3})?$";

/// A regular expression compiled by the `regex` crate.
#[verifier::external_type_specification]
#[verifier::external_body]
pub struct ExRegex(regex::Regex);

/// An error of the `regex` crate on compiling a pattern.
#[verifier::external_type_specification]
#[verifier::external_body]
pub struct ExRegexError(regex::Error);

/// What `regex::Regex::new` makes of a pattern: the compiled expression, or
/// `None` where it reports an error.
pub uninterp spec fn compiled(pattern: Seq<char>) -> Option<Regex>;

/// Whether `regex::Regex::is_match` finds a match of the expression anywhere
/// in the text.
pub uninterp spec fn finds_match(re: Regex, text: Seq<char>) -> bool;

/// `regex::Regex::new` compiles with the crate's default settings, so what it
/// returns depends on the pattern alone: `Ok` with the expression named
/// `compiled`, or an error where there is none.
pub assume_specification[ Regex::new ](re: &str) -> (outcome: Result<Regex, regex::Error>)
    ensures
        compiled(re@) == match outcome {
            Ok(expression) => Some(expression),
            Err(_) => None,
        },
;

/// `regex::Regex::is_match` depends on the expression and the text alone; its
/// value is given the name `finds_match`.
pub assume_specification[ Regex::is_match ](re: &Regex, haystack: &str) -> (found: bool)
    ensures
        found == finds_match(*re, haystack@),
;

/// Whether a pattern compiles and, compiled, finds a match in the text.
pub open spec fn pattern_accepts(pattern: Seq<char>, text: Seq<char>) -> bool {
    compiled(pattern) is Some && finds_match(compiled(pattern)->0, text)
}

/// Whether a text, taken as it stands, is a valid identifier.
pub open spec fn is_valid_rfc(text: Seq<char>) -> bool {
    pattern_accepts(RFC_PATTERN@, text)
}

/// Why no matcher could be made.
#[derive(Debug)]
pub struct PatternError {
    /// What the `regex` crate said of the pattern.
    pub message: String,
}

/// The compiled pattern of a valid identifier.
pub struct Matcher {
    engine: Regex,
}

impl Matcher {
    #[verifier::type_invariant]
    spec fn compiled_from_pattern(&self) -> bool {
        compiled(RFC_PATTERN@) == Some(self.engine)
    }

    /// Compiles the pattern. It fails exactly where the `regex` crate refuses
    /// the pattern; no matcher exists then, and nothing can be validated.
    pub fn new() -> (made: Result<Matcher, PatternError>)
        ensures
            made is Ok <==> compiled(RFC_PATTERN@) is Some,
    {
        match Regex::new(RFC_PATTERN) {
            Ok(engine) => Ok(Matcher { engine }),
            Err(refusal) => Err(PatternError { message: refusal.to_string() }),
        }
    }

    /// Whether the text, taken as it stands, is a valid identifier.
    pub fn is_match(&self, text: &str) -> (valid: bool)
        ensures
            valid == is_valid_rfc(text@),
    {
        proof {
            use_type_invariant(self);
        }
        self.engine.is_match(text)
    }
}

} // verus!
