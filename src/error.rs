use vstd::prelude::*;

use crate::envelope::{version_string, version_text, Id, Response, RpcError};

verus! {

/// Invalid JSON was received.
pub const PARSE_ERROR: i64 = -32700;

/// The JSON sent is not a valid request object.
pub const INVALID_REQUEST: i64 = -32600;

/// The method does not exist or is not available.
pub const METHOD_NOT_FOUND: i64 = -32601;

/// An internal error of the server.
pub const INTERNAL_ERROR: i64 = -32603;

/// The handler asked the server to stop.
pub const SERVER_STOPPED: i64 = -32000;

/// The request named a protocol version other than 2.0.
pub const INVALID_VERSION: i64 = -32001;

/// The request named a method in the reserved `rpc.` namespace.
pub const RESERVED_METHOD: i64 = -32002;

/// What can go wrong between receiving a request and sending its response.
#[derive(Debug)]
pub enum InnerError {
    NoContentType,
    WrongContentType,
    /// The body is not JSON; holds the decoder's message.
    Malformed(String),
    /// The body is JSON but not a request object (fields missing or of the
    /// wrong type); holds the decoder's message.
    InvalidRequest(String),
    /// Reading the body or writing the response failed; holds the message.
    Io(String),
    /// The response could not be encoded.
    Serialization,
    InvalidVersion,
    ReservedMethodPrefix,
}

/// The outcome of a handler other than a response.
#[derive(Debug)]
pub enum Error {
    Inner(InnerError),
    /// An error of the application, sent as it is.
    Implementation(RpcError),
    /// Not a failure: asks the server to stop after answering this request.
    Stop,
}

/// Relies on serde_json::Value::String: wraps a diagnostic text as a JSON string.
#[verifier::external_body]
fn text_value(s: String) -> serde_json::Value {
    serde_json::Value::String(s)
}

impl InnerError {
    pub open spec fn spec_code(&self) -> i64 {
        match self {
            InnerError::NoContentType => INVALID_REQUEST,
            InnerError::WrongContentType => INVALID_REQUEST,
            InnerError::Malformed(_) => PARSE_ERROR,
            InnerError::InvalidRequest(_) => INVALID_REQUEST,
            InnerError::Io(_) => INTERNAL_ERROR,
            InnerError::Serialization => INTERNAL_ERROR,
            InnerError::InvalidVersion => INVALID_VERSION,
            InnerError::ReservedMethodPrefix => RESERVED_METHOD,
        }
    }

    pub open spec fn spec_message(&self) -> Seq<char> {
        match self {
            InnerError::NoContentType => "Missing Content-Type header"@,
            InnerError::WrongContentType => "Content-Type must be application/json"@,
            InnerError::Malformed(_) => "Parse error"@,
            InnerError::InvalidRequest(_) => "Invalid request"@,
            InnerError::Io(_) => "Internal error"@,
            InnerError::Serialization => "Internal error"@,
            InnerError::InvalidVersion => "Invalid JSON-RPC version"@,
            InnerError::ReservedMethodPrefix => "Method names starting with rpc. are reserved"@,
        }
    }

    /// Only the decoder's and the transport's errors carry a detail.
    pub open spec fn has_detail(&self) -> bool {
        self is Malformed || self is InvalidRequest || self is Io
    }

    pub fn code(&self) -> (r: i64)
        ensures
            r == self.spec_code(),
    {
        match self {
            InnerError::NoContentType => INVALID_REQUEST,
            InnerError::WrongContentType => INVALID_REQUEST,
            InnerError::Malformed(_) => PARSE_ERROR,
            InnerError::InvalidRequest(_) => INVALID_REQUEST,
            InnerError::Io(_) => INTERNAL_ERROR,
            InnerError::Serialization => INTERNAL_ERROR,
            InnerError::InvalidVersion => INVALID_VERSION,
            InnerError::ReservedMethodPrefix => RESERVED_METHOD,
        }
    }

    pub fn message(&self) -> (r: String)
        ensures
            r@ == self.spec_message(),
    {
        let s = match self {
            InnerError::NoContentType => "Missing Content-Type header",
            InnerError::WrongContentType => "Content-Type must be application/json",
            InnerError::Malformed(_) => "Parse error",
            InnerError::InvalidRequest(_) => "Invalid request",
            InnerError::Io(_) => "Internal error",
            InnerError::Serialization => "Internal error",
            InnerError::InvalidVersion => "Invalid JSON-RPC version",
            InnerError::ReservedMethodPrefix => "Method names starting with rpc. are reserved",
        };
        String::from_str(s)
    }

    /// The wire error object for this kind of failure.
    pub fn as_rpc_error(self) -> (r: RpcError)
        ensures
            r.code == self.spec_code(),
            r.message@ == self.spec_message(),
            r.data.is_some() == self.has_detail(),
    {
        let code = self.code();
        let message = self.message();
        let data = match self {
            InnerError::Malformed(detail) => Some(text_value(detail)),
            InnerError::InvalidRequest(detail) => Some(text_value(detail)),
            InnerError::Io(detail) => Some(text_value(detail)),
            _ => None,
        };
        RpcError { code, message, data }
    }
}

impl Error {
    pub open spec fn spec_code(&self) -> i64 {
        match self {
            Error::Inner(e) => e.spec_code(),
            Error::Implementation(e) => e.code,
            Error::Stop => SERVER_STOPPED,
        }
    }

    pub open spec fn spec_message(&self) -> Seq<char> {
        match self {
            Error::Inner(e) => e.spec_message(),
            Error::Implementation(e) => e.message@,
            Error::Stop => "Server stopped"@,
        }
    }

    /// The wire error object: an application error is sent as it is.
    pub fn as_rpc_error(self) -> (r: RpcError)
        ensures
            r.code == self.spec_code(),
            r.message@ == self.spec_message(),
            self is Implementation ==> r == self->Implementation_0,
            self is Inner ==> r.data.is_some() == self->Inner_0.has_detail(),
            self is Stop ==> r.data.is_none(),
    {
        match self {
            Error::Inner(e) => e.as_rpc_error(),
            Error::Implementation(e) => e,
            Error::Stop => RpcError { code: SERVER_STOPPED, message: String::from_str("Server stopped"), data: None },
        }
    }
}

/// `r` is the error response that answers the call `id` with `e`.
pub open spec fn error_response_for(r: Response, id: Option<Id>, e: Error) -> bool {
    &&& r.jsonrpc@ == version_text()
    &&& r.id == id
    &&& r.result.is_none()
    &&& r.error.is_some()
    &&& r.error->0.code == e.spec_code()
    &&& r.error->0.message@ == e.spec_message()
    &&& match e {
        Error::Inner(inner) => r.error->0.data.is_some() == inner.has_detail(),
        Error::Implementation(app) => r.error == Some(app),
        Error::Stop => r.error->0.data.is_none(),
    }
}

impl Response {
    /// The error response for `error`, answering the call `id`.
    pub fn from_error(id: Option<Id>, error: Error) -> (r: Response)
        ensures
            error_response_for(r, id, error),
            r.well_formed(),
    {
        let err = error.as_rpc_error();
        Response { jsonrpc: version_string(), id, result: None, error: Some(err) }
    }
}

} // verus!
