//! Regular expressions, as the `regex` crate compiles and runs them.
//!
//! Verus does not look inside the `regex` crate. What this library relies on
//! is declared here and believed without proof: that compiling a pattern and
//! searching a text are functions of their arguments. The results are given
//! names, and the rest of the library is proved against those names.

use vstd::prelude::*;

verus! {

/// `regex::Regex`, a compiled pattern. Nothing inside it is visible here.
#[verifier::external_type_specification]
#[verifier::external_body]
pub struct ExRegex(regex::Regex);

/// `regex::Error`, the reason why a pattern did not compile. Nothing inside
/// it is visible here.
#[verifier::external_type_specification]
#[verifier::external_body]
pub struct ExRegexError(regex::Error);

/// What `regex::Regex::new` returns for a pattern: the compiled pattern, or
/// the error for a pattern that is malformed or compiles to a program over
/// the crate's default size limit.
pub uninterp spec fn compile_outcome(pattern: Seq<char>) -> Result<regex::Regex, regex::Error>;

/// What `regex::Regex::is_match` returns: whether the compiled pattern
/// matches anywhere in the text.
pub uninterp spec fn regex_accepts(re: regex::Regex, text: Seq<char>) -> bool;

/// What `to_string` returns for a `regex::Error`: the text that its
/// `Display` impl writes.
pub uninterp spec fn error_text(err: regex::Error) -> Seq<char>;

/// `regex::Regex::new` does not panic and its result depends on the pattern
/// alone; the contract gives that result its name.
pub assume_specification[ regex::Regex::new ](re: &str) -> (r: Result<
    regex::Regex,
    regex::Error,
>)
    ensures
        r == compile_outcome(re@),
;

/// `regex::Regex::is_match` searches the whole haystack from its start, does
/// not panic, and its result depends on the compiled pattern and the
/// haystack alone; the contract gives that result its name.
pub assume_specification[ regex::Regex::is_match ](re: &regex::Regex, haystack: &str) -> (b: bool)
    ensures
        b == regex_accepts(*re, haystack@),
;

/// Calls `to_string` on a `regex::Error`, which formats it through the
/// crate's `Display` impl; the contract gives the text its name.
#[verifier::external_body]
pub(crate) fn error_detail(err: &regex::Error) -> (detail: String)
    ensures
        detail@ == error_text(*err),
{
    err.to_string()
}

/// The pattern compiles.
pub open spec fn pattern_is_valid(pattern: Seq<char>) -> bool {
    compile_outcome(pattern) is Ok
}

/// The pattern compiles and matches somewhere in `text`.
pub open spec fn pattern_matches(pattern: Seq<char>, text: Seq<char>) -> bool {
    compile_outcome(pattern) matches Ok(re) && regex_accepts(re, text)
}

/// A pattern that is not a valid regular expression.
#[derive(Debug, Clone, PartialEq, Eq)]
pub struct PatternError {
    /// The pattern as it was given.
    pub pattern: String,
    /// Why it was refused, in the words of the `regex` crate.
    pub detail: String,
}

/// The error that reports `pattern` as refused for the reason `err`.
pub open spec fn is_report_of(e: PatternError, pattern: Seq<char>, err: regex::Error) -> bool {
    e.pattern@ == pattern && e.detail@ == error_text(err)
}

/// The text of the message for a refused pattern and the reason given.
pub open spec fn pattern_message(pattern: Seq<char>, detail: Seq<char>) -> Seq<char> {
    "invalid regular expression '"@ + pattern + "': "@ + detail
}

impl PatternError {
    /// The message to show for this error.
    pub fn message(&self) -> (text: String)
        ensures
            text@ == pattern_message(self.pattern@, self.detail@),
    {
        let mut text = "invalid regular expression '".to_owned();
        text.append(self.pattern.as_str());
        text.append("': ");
        text.append(self.detail.as_str());
        text
    }
}

/// Compiles a pattern, reporting one that is refused.
pub fn compile(pattern: &str) -> (r: Result<regex::Regex, PatternError>)
    ensures
        match r {
            Ok(re) => compile_outcome(pattern@) == Ok::<regex::Regex, regex::Error>(re),
            Err(e) => compile_outcome(pattern@) matches Err(err) && is_report_of(
                e,
                pattern@,
                err,
            ),
        },
{
    match regex::Regex::new(pattern) {
        Ok(re) => Ok(re),
        Err(err) => Err(PatternError { pattern: pattern.to_owned(), detail: error_detail(&err) }),
    }
}

} // verus!
