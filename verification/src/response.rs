//! Responses as plain values, and the responses that do not depend on the
//! request.

use crate::error::{Error, ErrorView};
use vstd::prelude::*;

verus! {

/// What kind of text a response body holds.
#[derive(Clone, Copy, Debug, PartialEq, Eq, Structural)]
pub enum ContentType {
    /// A JSON document.
    Json,
    /// Plain text.
    Text,
}

/// An HTTP response, as far as this service decides it.
#[derive(Debug)]
pub struct Response {
    pub status_code: u16,
    pub content_type: ContentType,
    pub body: String,
}

/// A [`Response`] with its body as a sequence of characters.
pub struct ResponseView {
    pub status_code: u16,
    pub content_type: ContentType,
    pub body: Seq<char>,
}

impl View for Response {
    type V = ResponseView;

    open spec fn view(&self) -> ResponseView {
        ResponseView {
            status_code: self.status_code,
            content_type: self.content_type,
            body: self.body@,
        }
    }
}

/// The successful plain-text response with this body.
pub open spec fn ok_text(body: Seq<char>) -> ResponseView {
    ResponseView { status_code: 200, content_type: ContentType::Text, body }
}

/// The successful JSON response with this body.
pub open spec fn ok_json(body: Seq<char>) -> ResponseView {
    ResponseView { status_code: 200, content_type: ContentType::Json, body }
}

/// The response that reports `error`: its JSON object, under its own status.
pub open spec fn error_response(error: ErrorView) -> ResponseView {
    ResponseView {
        status_code: error.status_code(),
        content_type: ContentType::Json,
        body: error.json(),
    }
}

/// What a handler's result becomes on the wire: its response, or the report of
/// its error.
pub open spec fn response_of(result: Result<ResponseView, ErrorView>) -> ResponseView {
    match result {
        Ok(response) => response,
        Err(error) => error_response(error),
    }
}

/// A handler's result with both sides as views.
pub open spec fn result_view(result: Result<Response, Error>) -> Result<ResponseView, ErrorView> {
    match result {
        Ok(response) => Ok(response@),
        Err(error) => Err(error@),
    }
}

impl Response {
    /// A successful plain-text response.
    pub fn ok(body: String) -> (response: Response)
        ensures
            response@ == ok_text(body@),
    {
        Response { status_code: 200, content_type: ContentType::Text, body }
    }

    /// A successful response whose body is the JSON document `body`.
    pub fn json(body: String) -> (response: Response)
        ensures
            response@ == ok_json(body@),
    {
        Response { status_code: 200, content_type: ContentType::Json, body }
    }

    /// The same response under another status.
    pub fn with_status(self, status_code: u16) -> (response: Response)
        ensures
            response@ == (ResponseView { status_code, ..self@ }),
    {
        Response { status_code, content_type: self.content_type, body: self.body }
    }
}

impl From<Error> for Response {
    /// Reports `error` to the client.
    fn from(error: Error) -> (response: Response)
        ensures
            response@ == error_response(error@),
    {
        let status_code = error.status_code();
        Response::json(error.json()).with_status(status_code)
    }
}

/// A response is known through its view, so the conversion is stated by the
/// `ensures` of `from` and not as an equation between values.
impl vstd::std_specs::convert::FromSpecImpl<Error> for Response {
    open spec fn obeys_from_spec() -> bool {
        false
    }

    open spec fn from_spec(error: Error) -> Response {
        arbitrary()
    }
}

/// Turns a handler's result into the response to send.
pub fn result_to_response(result: Result<Response, Error>) -> (response: Response)
    ensures
        response@ == response_of(result_view(result)),
{
    match result {
        Ok(response) => response,
        Err(error) => Response::from(error),
    }
}

/// The response to a request for the root path.
pub fn greeting() -> (response: Response)
    ensures
        response@ == ok_text("Hello from workers!!"@),
{
    Response::ok(String::from_str("Hello from workers!!"))
}

/// The response to a request for the service's version.
pub fn worker_version() -> (response: Response)
    ensures
        response@ == ok_text("0.0.18"@),
{
    Response::ok(String::from_str("0.0.18"))
}

} // verus!
