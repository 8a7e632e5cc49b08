//! What every request-to-record conversion shares: reading the creation date.

use crate::bindings::dates::{parse_error_text, parse_rfc3339, rfc3339_millis};
use crate::text::starts_with_text;
use vstd::prelude::*;

verus! {

/// Why a request could not be turned into a record: its creation date is not
/// an RFC 3339 date-time.
#[derive(Debug)]
pub struct ConversionError {
    /// `Error parsing date: `, followed by the parser's own words.
    pub message: String,
}

/// How the message of every conversion error begins.
pub open spec fn conversion_error_prefix() -> Seq<char> {
    "Error parsing date: "@
}

/// Reads a creation date: milliseconds since the Unix epoch for an RFC 3339
/// date-time, an error for any other text.
pub fn parse_date(text: &str) -> (parsed: Result<i64, ConversionError>)
    ensures
        match rfc3339_millis(text@) {
            Some(millis) => parsed == Ok::<i64, ConversionError>(millis),
            None => parsed is Err,
        },
        parsed matches Err(error) ==> starts_with_text(error.message@, conversion_error_prefix()),
{
    match parse_rfc3339(text) {
        Ok(millis) => Ok(millis),
        Err(error) => {
            let mut message = "Error parsing date: ".to_string();
            let ghost prefix = message@;
            let detail = parse_error_text(&error);
            message.append(detail.as_str());
            assert(message@.subrange(0, prefix.len() as int) =~= prefix);
            Err(ConversionError { message })
        },
    }
}

} // verus!
