//! The kinds of failure, each with its HTTP status, its message and the JSON
//! object that goes to the client.

use crate::json::{decimal, encode_string, json_string_literal, push_decimal};
use serde_json::Error as JsonError;
use vstd::prelude::*;
use worker::kv::KvError;
use worker::Error as RuntimeError;

verus! {

/// `worker::Error`, the failure that the runtime reports. It is carried through
/// as it is; nothing is said of what it holds.
#[verifier::external_type_specification]
#[verifier::external_body]
pub struct ExRuntimeError(RuntimeError);

/// `worker::kv::KvError`, the failure that the key-value store reports. It is
/// carried through as it is; nothing is said of what it holds.
#[verifier::external_type_specification]
#[verifier::external_body]
pub struct ExKvError(KvError);

/// `serde_json::Error`, the failure that the JSON codec reports. It is carried
/// through as it is; nothing is said of what it holds.
#[verifier::external_type_specification]
#[verifier::external_body]
pub struct ExJsonError(JsonError);

/// Everything that can go wrong while a request is served.
#[derive(Debug)]
pub enum Error {
    /// The client sent something that cannot be served.
    InvalidRequest(String),
    /// The client may not do this.
    Forbidden,
    /// Nothing is served under the name that was asked for.
    NotFound(String),
    /// The runtime reported a failure.
    WorkerError(RuntimeError),
    /// The key-value store reported a failure.
    KvError(KvError),
    /// Data could not be encoded or decoded.
    SerdeJsonError(JsonError),
    /// Anything else.
    InternalError(String),
}

/// An [`Error`] with its texts as sequences of characters.
pub enum ErrorView {
    InvalidRequest(Seq<char>),
    Forbidden,
    NotFound(Seq<char>),
    WorkerError(RuntimeError),
    KvError(KvError),
    SerdeJsonError(JsonError),
    InternalError(Seq<char>),
}

impl View for Error {
    type V = ErrorView;

    open spec fn view(&self) -> ErrorView {
        match *self {
            Error::InvalidRequest(detail) => ErrorView::InvalidRequest(detail@),
            Error::Forbidden => ErrorView::Forbidden,
            Error::NotFound(detail) => ErrorView::NotFound(detail@),
            Error::WorkerError(cause) => ErrorView::WorkerError(cause),
            Error::KvError(cause) => ErrorView::KvError(cause),
            Error::SerdeJsonError(cause) => ErrorView::SerdeJsonError(cause),
            Error::InternalError(detail) => ErrorView::InternalError(detail@),
        }
    }
}

impl ErrorView {
    /// The HTTP status that goes with the error.
    pub open spec fn status_code(self) -> u16 {
        match self {
            ErrorView::InvalidRequest(_) => 400,
            ErrorView::Forbidden => 403,
            ErrorView::NotFound(_) => 404,
            ErrorView::WorkerError(_) => 500,
            ErrorView::KvError(_) => 500,
            ErrorView::SerdeJsonError(_) => 500,
            ErrorView::InternalError(_) => 500,
        }
    }

    /// The text that the client is shown.
    pub open spec fn message(self) -> Seq<char> {
        match self {
            ErrorView::InvalidRequest(detail) => "invalid request: "@ + detail,
            ErrorView::Forbidden => "forbidden"@,
            ErrorView::NotFound(detail) => "not found: "@ + detail,
            ErrorView::WorkerError(_) => "internal error: worker"@,
            ErrorView::KvError(_) => "internal error: kv"@,
            ErrorView::SerdeJsonError(_) => "internal error: serde_json"@,
            ErrorView::InternalError(_) => "internal error"@,
        }
    }

    /// The JSON object that reports the error: its message under `error`, its
    /// status under `status_code`.
    pub open spec fn json(self) -> Seq<char> {
        "{\"error\":"@ + json_string_literal(self.message()) + ",\"status_code\":"@ + decimal(
            self.status_code() as nat,
        ) + "}"@
    }
}

impl Error {
    /// The HTTP status that goes with the error.
    pub fn status_code(&self) -> (code: u16)
        ensures
            code == self@.status_code(),
    {
        match self {
            Error::InvalidRequest(_) => 400,
            Error::Forbidden => 403,
            Error::NotFound(_) => 404,
            Error::WorkerError(_) => 500,
            Error::KvError(_) => 500,
            Error::SerdeJsonError(_) => 500,
            Error::InternalError(_) => 500,
        }
    }

    /// The text that the client is shown.
    pub fn message(&self) -> (text: String)
        ensures
            text@ == self@.message(),
    {
        match self {
            Error::InvalidRequest(detail) => String::from_str("invalid request: ").concat(
                detail.as_str(),
            ),
            Error::Forbidden => String::from_str("forbidden"),
            Error::NotFound(detail) => String::from_str("not found: ").concat(detail.as_str()),
            Error::WorkerError(_) => String::from_str("internal error: worker"),
            Error::KvError(_) => String::from_str("internal error: kv"),
            Error::SerdeJsonError(_) => String::from_str("internal error: serde_json"),
            Error::InternalError(_) => String::from_str("internal error"),
        }
    }

    /// The JSON object that reports the error.
    pub fn json(&self) -> (body: String)
        ensures
            body@ == self@.json(),
    {
        let message = self.message();
        let literal = encode_string(message.as_str());
        let mut body = String::from_str("{\"error\":");
        body.append(literal.as_str());
        body.append(",\"status_code\":");
        push_decimal(&mut body, self.status_code());
        body.append("}");
        body
    }
}

impl From<RuntimeError> for Error {
    fn from(cause: RuntimeError) -> (error: Error) {
        Error::WorkerError(cause)
    }
}

impl vstd::std_specs::convert::FromSpecImpl<RuntimeError> for Error {
    open spec fn obeys_from_spec() -> bool {
        true
    }

    open spec fn from_spec(cause: RuntimeError) -> Error {
        Error::WorkerError(cause)
    }
}

impl From<KvError> for Error {
    fn from(cause: KvError) -> (error: Error) {
        Error::KvError(cause)
    }
}

impl vstd::std_specs::convert::FromSpecImpl<KvError> for Error {
    open spec fn obeys_from_spec() -> bool {
        true
    }

    open spec fn from_spec(cause: KvError) -> Error {
        Error::KvError(cause)
    }
}

impl From<JsonError> for Error {
    fn from(cause: JsonError) -> (error: Error) {
        Error::SerdeJsonError(cause)
    }
}

impl vstd::std_specs::convert::FromSpecImpl<JsonError> for Error {
    open spec fn obeys_from_spec() -> bool {
        true
    }

    open spec fn from_spec(cause: JsonError) -> Error {
        Error::SerdeJsonError(cause)
    }
}

} // verus!
