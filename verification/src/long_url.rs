//! Stored values read back as URLs, with the `url` crate.

use crate::error::Error;
use url::ParseError;
use vstd::prelude::*;

verus! {

/// `url::ParseError`, the reason why a text is no URL. It is handed on as it
/// is; nothing is said of what it holds.
#[verifier::external_type_specification]
#[verifier::external_body]
pub struct ExParseError(ParseError);

/// The text that the `url` crate gives back for the URL it reads in `text`, or
/// `None` where it reads no absolute URL there.
pub uninterp spec fn normalized_url(text: Seq<char>) -> Option<Seq<char>>;

/// Calls `url::Url::parse` and, where that reads a URL, takes the URL's text
/// out with `String::from`. The outcome depends on `text` alone.
#[verifier::external_body]
fn parse_url(text: &str) -> (parsed: Result<String, ParseError>)
    ensures
        match parsed {
            Ok(full) => normalized_url(text@) == Some(full@),
            Err(_) => normalized_url(text@) is None,
        },
{
    url::Url::parse(text).map(String::from)
}

/// Calls `serde::de::Error::custom` for `serde_json::Error`, which makes a
/// failure of the codec out of the cause's message. Nothing is said of it.
#[verifier::external_body]
fn decode_failure(cause: ParseError) -> (failure: serde_json::Error) {
    <serde_json::Error as serde::de::Error>::custom(cause)
}

/// Reads a stored value as a URL and gives the URL's text. A value that is no
/// URL is a value that could not be decoded.
pub fn full_url(stored: &str) -> (result: Result<String, Error>)
    ensures
        match normalized_url(stored@) {
            Some(full) => result matches Ok(text) && text@ == full,
            None => result matches Err(error) && error@ is SerdeJsonError,
        },
{
    match parse_url(stored) {
        Ok(text) => Ok(text),
        Err(cause) => Err(Error::SerdeJsonError(decode_failure(cause))),
    }
}

} // verus!
