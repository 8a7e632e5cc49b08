//! Date and time text, read and written by `chrono` and `bson`.
//!
//! Nothing in this file is proved: each contract states what the named
//! function of the other crate is relied upon to do.

use vstd::prelude::*;

verus! {

/// `chrono::ParseError`, carried through as an opaque value.
#[verifier::external_type_specification]
#[verifier::external_body]
pub struct ExParseError(chrono::ParseError);

/// The instant that an RFC 3339 date-time text denotes, in milliseconds since
/// the Unix epoch as a BSON date-time holds it, or `None` where the text is no
/// RFC 3339 date-time. It stands for what `parse_rfc3339` returns.
pub uninterp spec fn rfc3339_millis(text: Seq<char>) -> Option<i64>;

/// How a BSON date-time of `millis` milliseconds since the Unix epoch is
/// written out. It stands for what `datetime_text` returns.
pub uninterp spec fn bson_datetime_text(millis: i64) -> Seq<char>;

/// Calls `chrono::DateTime::parse_from_rfc3339`, moves the instant to UTC and
/// into a `bson::DateTime`, and hands back its milliseconds; the parser's
/// error where the text is refused. The contract claims only that the outcome
/// is a function of the text, named `rfc3339_millis`.
#[verifier::external_body]
pub(crate) fn parse_rfc3339(text: &str) -> (parsed: Result<i64, chrono::ParseError>)
    ensures
        parsed matches Ok(millis) ==> rfc3339_millis(text@) == Some(millis),
        parsed is Err ==> rfc3339_millis(text@) is None,
{
    let moment = chrono::DateTime::parse_from_rfc3339(text)?;
    let system: std::time::SystemTime = moment.with_timezone(&chrono::Utc).into();
    Ok(bson::DateTime::from(system).timestamp_millis())
}

/// The message that `chrono` prints for a parse error. Nothing is claimed of
/// the text.
#[verifier::external_body]
pub(crate) fn parse_error_text(error: &chrono::ParseError) -> (message: String) {
    error.to_string()
}

/// Writes out a BSON date-time with `bson::DateTime`'s own `Display`. The
/// contract claims only that the text is a function of the milliseconds,
/// named `bson_datetime_text`.
#[verifier::external_body]
pub(crate) fn datetime_text(millis: i64) -> (text: String)
    ensures
        text@ == bson_datetime_text(millis),
{
    bson::DateTime::from_millis(millis).to_string()
}

} // verus!
