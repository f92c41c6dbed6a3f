//! Reading the amount out of a message body.

use crate::number::{parse_i32, parsed_i32};
use crate::text::{chars_of, optional_str, remove_spaces, without_spaces};
use vstd::prelude::*;

verus! {

#[verifier::external_type_specification]
#[verifier::external_body]
pub struct ExRegex(regex::Regex);

#[verifier::external_type_specification]
#[verifier::external_body]
pub struct ExRegexError(regex::Error);

/// The expression that finds an amount: the letter `a`, Latin or Cyrillic,
/// and a colon, optional white space, a run of digits and white space (the
/// captured group), optional white space and the rouble sign.
pub const PRICE_PATTERN: &'static str = "[aа]:\\s*([\\d\\s]+)\\s*₽";

/// A pattern that, compiled with default options, matches as `re` does. For
/// an expression made by `regex::Regex::new` it is the pattern given there.
pub uninterp spec fn pattern_of(re: regex::Regex) -> Seq<char>;

/// Whether `regex::Regex::new` accepts `pattern`: the pattern is valid and
/// the expression it gives is within the engine's default size limit.
pub uninterp spec fn pattern_accepted(pattern: Seq<char>) -> bool;

/// What the capture group `group` holds in the leftmost match in `text` of
/// `pattern` compiled with default options; `None` where nothing matches,
/// the pattern has no such group, or the group took no part in the match.
pub uninterp spec fn captured_group(pattern: Seq<char>, text: Seq<char>, group: usize) -> Option<
    Seq<char>,
>;

/// Why no amount pattern is at hand.
#[derive(Clone, Copy, Debug, PartialEq, Eq, Structural)]
pub enum PatternError {
    /// The regular-expression engine refused the pattern.
    Rejected,
}

/// `regex::Regex::new`: it succeeds on the patterns that the engine
/// accepts, and the expression then stands for the pattern given.
#[verifier::external_body]
fn compile(pattern: &str) -> (r: Result<regex::Regex, regex::Error>)
    ensures
        r is Ok <==> pattern_accepted(pattern@),
        r matches Ok(re) ==> pattern_of(re) == pattern@,
{
    regex::Regex::new(pattern)
}

/// `regex::Regex::captures` followed by `Captures::get`: the text of one
/// capture group in the leftmost match, copied out of the haystack.
#[verifier::external_body]
fn capture(re: &regex::Regex, text: &str, group: usize) -> (r: Option<String>)
    ensures
        match r {
            Some(found) => captured_group(pattern_of(*re), text@, group) == Some(found@),
            None => captured_group(pattern_of(*re), text@, group) is None,
        },
{
    match re.captures(text) {
        Some(found) => match found.get(group) {
            Some(part) => Some(part.as_str().to_string()),
            None => None,
        },
        None => None,
    }
}

/// The amount written by a captured digit group: its white space is
/// dropped and the rest is read as a 32-bit decimal integer.
pub open spec fn price_in(captured: Option<Seq<char>>) -> Option<i32> {
    match captured {
        Some(group) => parsed_i32(without_spaces(group)),
        None => None,
    }
}

/// The amount that `pattern` finds in `text`: the one written by its first
/// capture group.
pub open spec fn price_of(pattern: Seq<char>, text: Seq<char>) -> Option<i32> {
    price_in(captured_group(pattern, text, 1))
}

/// What the library makes of the engine's answer to a pattern: the
/// expression where there is one, and otherwise a rejection, whatever the
/// engine's reason.
pub open spec fn pattern_outcome_of(outcome: Result<regex::Regex, regex::Error>) -> Result<
    regex::Regex,
    PatternError,
> {
    match outcome {
        Ok(re) => Ok(re),
        Err(_) => Err(PatternError::Rejected),
    }
}

/// What the library makes of the engine's answer to a pattern.
pub fn pattern_outcome(outcome: Result<regex::Regex, regex::Error>) -> (r: Result<
    regex::Regex,
    PatternError,
>)
    ensures
        r == pattern_outcome_of(outcome),
{
    match outcome {
        Ok(re) => Ok(re),
        Err(_) => Err(PatternError::Rejected),
    }
}

/// Compiles `pattern`: a pattern that the engine accepts gives an
/// expression that stands for it, any other pattern is rejected.
pub fn compile_pattern(pattern: &str) -> (r: Result<regex::Regex, PatternError>)
    ensures
        r is Ok <==> pattern_accepted(pattern@),
        r matches Ok(re) ==> pattern_of(re) == pattern@,
        r matches Err(error) ==> error == PatternError::Rejected,
{
    pattern_outcome(compile(pattern))
}

/// Compiles the amount pattern.
pub fn price_regex() -> (r: Result<regex::Regex, PatternError>)
    ensures
        r is Ok <==> pattern_accepted(PRICE_PATTERN@),
        r matches Ok(re) ==> pattern_of(re) == PRICE_PATTERN@,
        r matches Err(error) ==> error == PatternError::Rejected,
{
    compile_pattern(PRICE_PATTERN)
}

/// The amount written by a captured digit group, if there is a group and it
/// reads as a 32-bit integer once its white space is removed.
pub fn price_from_capture(captured: Option<&str>) -> (r: Option<i32>)
    ensures
        r == price_in(optional_str(captured)),
{
    match captured {
        Some(group) => {
            let chars = chars_of(group);
            let digits = remove_spaces(&chars);
            parse_i32(&digits)
        },
        None => None,
    }
}

/// The amount that `regex` finds in `text`: the first capture group of the
/// leftmost match, read by [`price_from_capture`].
pub fn extract_price(text: &str, regex: &regex::Regex) -> (r: Option<i32>)
    ensures
        r == price_of(pattern_of(*regex), text@),
{
    match capture(regex, text, 1) {
        Some(group) => price_from_capture(Some(group.as_str())),
        None => price_from_capture(None),
    }
}

} // verus!
