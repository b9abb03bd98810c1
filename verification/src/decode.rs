//! Decoding the text of a completion into a typed value.
//!
//! The text is parsed as JSON by `serde_json`; this module decides what
//! becomes of the parser's verdict. A text that does not parse is a fatal
//! error: nothing is decoded in part, no default takes the value's place,
//! and the text is not reshaped for a second try.

use vstd::prelude::*;
use crate::error::FatalError;

verus! {

/// The error type of `serde_json`. Nothing is read from a value of it: the
/// decoder only tells an error from a success.
#[verifier::external_type_specification]
#[verifier::external_body]
pub struct ExJsonError(serde_json::Error);

/// What `serde_json::from_str::<Vec<String>>` makes of a text: the strings
/// it decodes, in order, or `None` where it reports an error.
pub uninterp spec fn json_string_list(text: Seq<char>) -> Option<Seq<Seq<char>>>;

/// Calls `serde_json::from_str` for a `Vec<String>`. The contract names the
/// result and claims one thing of it: it depends on the text alone. A list
/// that comes back is the named one, item for item; an error comes back
/// where the name is `None`.
#[verifier::external_body]
fn parse_string_list(text: &str) -> (parsed: Result<Vec<String>, serde_json::Error>)
    ensures
        match parsed {
            Ok(items) => json_string_list(text@) == Some(items.deep_view()),
            Err(_) => json_string_list(text@) is None,
        },
{
    serde_json::from_str::<Vec<String>>(text)
}

/// Turns the parser's verdict into the decoder's: a value that parsed is
/// returned as it is, and any error of the parser is [`FatalError::Decode`].
pub fn decode_parsed<T>(parsed: Result<T, serde_json::Error>) -> (decoded: Result<T, FatalError>)
    ensures
        match parsed {
            Ok(value) => decoded == Ok::<T, FatalError>(value),
            Err(_) => decoded == Err::<T, FatalError>(FatalError::Decode),
        },
{
    match parsed {
        Ok(value) => Ok(value),
        Err(_) => Err(FatalError::Decode),
    }
}

/// Decodes the text of a completion as a list of strings. Where the text
/// is an encoding of a list, that list is returned, item for item; where it
/// is not, the error is [`FatalError::Decode`].
pub fn decode_string_list(text: &str) -> (decoded: Result<Vec<String>, FatalError>)
    ensures
        match json_string_list(text@) {
            Some(items) => decoded is Ok && decoded->Ok_0.deep_view() == items,
            None => decoded == Err::<Vec<String>, FatalError>(FatalError::Decode),
        },
{
    decode_parsed(parse_string_list(text))
}

} // verus!
