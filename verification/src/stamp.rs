//! Identifiers and timestamps as plain integers.
//!
//! An identifier is the 128-bit value of a UUID; a timestamp counts
//! milliseconds since the Unix epoch. Making and printing them is left to
//! the crates that own the formats.
use vstd::prelude::*;
use crate::text::optional_view;
use std::fmt::Write;

verus! {

/// The identifier that stands for "nobody".
pub const NIL_ID: u128 = 0;

/// Number of characters in the hyphenated text of an identifier.
pub const ID_TEXT_LEN: usize = 36;

/// The hyphenated lower-case text of an identifier, as `Uuid` prints it.
pub uninterp spec fn id_text_spec(id: u128) -> Seq<char>;

/// The identifier that a text stands for, as `Uuid::parse_str` reads it.
pub uninterp spec fn parse_id_spec(text: Seq<char>) -> Option<u128>;

/// Calls `Uuid::new_v4` and takes the value as an integer. Nothing is
/// claimed of the value: it is random.
#[verifier::external_body]
pub(crate) fn fresh_id() -> (id: u128) {
    uuid::Uuid::new_v4().as_u128()
}

/// Prints `Uuid::from_u128(id)` through its `Display`. Trusted: the result
/// is the named text, it has 36 characters, and it parses back to `id`.
#[verifier::external_body]
pub(crate) fn id_text(id: u128) -> (text: String)
    ensures
        text@ == id_text_spec(id),
        text@.len() == ID_TEXT_LEN,
        parse_id_spec(text@) == Some(id),
{
    uuid::Uuid::from_u128(id).to_string()
}

/// Calls `Uuid::parse_str`. Trusted: the result is the named function of
/// the text, nothing where the text is refused.
#[verifier::external_body]
pub(crate) fn parse_id(text: &str) -> (id: Option<u128>)
    ensures
        id == parse_id_spec(text@),
{
    match uuid::Uuid::parse_str(text) {
        Ok(id) => Some(id.as_u128()),
        Err(_) => None,
    }
}

/// Calls `chrono::Utc::now` and takes the time in milliseconds. Nothing is
/// claimed of the value: it is the clock's.
#[verifier::external_body]
pub(crate) fn now_millis() -> (now: i64) {
    chrono::Utc::now().timestamp_millis()
}

/// The text of the time `millis`, as chrono prints it in UTC with the format
/// `format`; nothing for a time beyond chrono's range or a format that
/// chrono refuses.
pub uninterp spec fn time_text_spec(millis: i64, format: Seq<char>) -> Option<Seq<char>>;

/// The text of an RFC 3339 timestamp, as chrono reads it and prints it
/// with the format `format`; nothing for a text that is no such timestamp
/// or a format that chrono refuses.
pub uninterp spec fn timestamp_text_spec(timestamp: Seq<char>, format: Seq<char>) -> Option<
    Seq<char>,
>;

/// Calls `chrono::DateTime::from_timestamp_millis` and prints the result
/// with `format`. Trusted: the result is the named text, nothing where
/// chrono refuses the time or the format.
#[verifier::external_body]
pub(crate) fn time_text(millis: i64, format: &str) -> (text: Option<String>)
    ensures
        optional_view(text) == time_text_spec(millis, format@),
{
    let time = chrono::DateTime::from_timestamp_millis(millis)?;
    let mut text = String::new();
    match write!(text, "{}", time.format(format)) {
        Ok(()) => Some(text),
        Err(_) => None,
    }
}

/// Calls `chrono::DateTime::parse_from_rfc3339` and prints the result with
/// `format`. Trusted: the result is the named text, nothing where chrono
/// refuses the timestamp or the format.
#[verifier::external_body]
pub(crate) fn timestamp_text(timestamp: &str, format: &str) -> (text: Option<String>)
    ensures
        optional_view(text) == timestamp_text_spec(timestamp@, format@),
{
    let time = chrono::DateTime::parse_from_rfc3339(timestamp).ok()?;
    let mut text = String::new();
    match write!(text, "{}", time.format(format)) {
        Ok(()) => Some(text),
        Err(_) => None,
    }
}

} // verus!
