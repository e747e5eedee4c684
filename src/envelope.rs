use vstd::prelude::*;

use crate::error::METHOD_NOT_FOUND;

verus! {

/// A JSON value carried through unread (request parameters, results, error data).
#[verifier::external_type_specification]
#[verifier::external_body]
pub struct ExValue(serde_json::Value);

/// The identifier of a call: a bare number or a bare string on the wire.
#[derive(Debug)]
pub enum Id {
    Number(u64),
    String(String),
}

impl Clone for Id {
    fn clone(&self) -> (r: Self)
        ensures
            r == *self,
    {
        match self {
            Id::Number(n) => Id::Number(*n),
            Id::String(s) => Id::String(s.clone()),
        }
    }
}

/// Copies an optional id, keeping it exactly.
pub fn copy_id(id: &Option<Id>) -> (r: Option<Id>)
    ensures
        r == *id,
{
    match id {
        Some(i) => Some(i.clone()),
        None => None,
    }
}

/// A decoded JSON-RPC call.
#[derive(Debug)]
pub struct Request {
    pub jsonrpc: String,
    pub id: Option<Id>,
    pub method: String,
    pub params: Option<serde_json::Value>,
}

/// The error object of a failed call.
#[derive(Debug)]
pub struct RpcError {
    pub code: i64,
    pub message: String,
    pub data: Option<serde_json::Value>,
}

/// The answer to a call: a result or an error, never both.
#[derive(Debug)]
pub struct Response {
    pub jsonrpc: String,
    pub id: Option<Id>,
    pub result: Option<serde_json::Value>,
    pub error: Option<RpcError>,
}

/// Relies on serde_json::Value's Clone, which is derived (and Map's, which
/// clones the inner map): the copy is the same value.
#[verifier::external_body]
fn copy_value(v: &serde_json::Value) -> (r: serde_json::Value)
    ensures
        r == *v,
{
    v.clone()
}

fn copy_optional_value(v: &Option<serde_json::Value>) -> (r: Option<serde_json::Value>)
    ensures
        r == *v,
{
    match v {
        Some(v) => Some(copy_value(v)),
        None => None,
    }
}

impl Clone for Request {
    fn clone(&self) -> (r: Self)
        ensures
            r == *self,
    {
        Request {
            jsonrpc: self.jsonrpc.clone(),
            id: copy_id(&self.id),
            method: self.method.clone(),
            params: copy_optional_value(&self.params),
        }
    }
}

impl Clone for RpcError {
    fn clone(&self) -> (r: Self)
        ensures
            r == *self,
    {
        RpcError {
            code: self.code,
            message: self.message.clone(),
            data: copy_optional_value(&self.data),
        }
    }
}

impl Clone for Response {
    fn clone(&self) -> (r: Self)
        ensures
            r == *self,
    {
        let error = match &self.error {
            Some(e) => Some(e.clone()),
            None => None,
        };
        Response {
            jsonrpc: self.jsonrpc.clone(),
            id: copy_id(&self.id),
            result: copy_optional_value(&self.result),
            error,
        }
    }
}

/// The protocol version this server speaks and writes into every response.
pub open spec fn version_text() -> Seq<char> {
    seq!['2', '.', '0']
}

pub fn version_string() -> (r: String)
    ensures
        r@ == version_text(),
{
    proof {
        reveal_strlit("2.0");
    }
    String::from_str("2.0")
}

impl Response {
    /// Exactly one of `result` and `error` is present.
    pub open spec fn well_formed(&self) -> bool {
        self.result.is_some() != self.error.is_some()
    }

    pub fn result(id: Option<Id>, value: serde_json::Value) -> (r: Self)
        ensures
            r.jsonrpc@ == version_text(),
            r.id == id,
            r.result == Some(value),
            r.error.is_none(),
            r.well_formed(),
    {
        Response { jsonrpc: version_string(), id, result: Some(value), error: None }
    }

    pub fn error(id: Option<Id>, code: i64, message: String, data: Option<serde_json::Value>) -> (r: Self)
        ensures
            r.jsonrpc@ == version_text(),
            r.id == id,
            r.result.is_none(),
            r.error == Some(RpcError { code, message, data }),
            r.well_formed(),
    {
        let err = RpcError { code, message, data };
        Response { jsonrpc: version_string(), id, result: None, error: Some(err) }
    }

    pub fn unimplemented(id: Option<Id>, message: String) -> (r: Self)
        ensures
            r.jsonrpc@ == version_text(),
            r.id == id,
            r.result.is_none(),
            r.error == Some(RpcError { code: METHOD_NOT_FOUND, message, data: None }),
            r.well_formed(),
    {
        Self::error(id, METHOD_NOT_FOUND, message, None)
    }

    pub fn is_error(&self) -> (r: bool)
        ensures
            r == self.error.is_some(),
    {
        self.error.is_some()
    }

    pub fn is_result(&self) -> (r: bool)
        ensures
            r == self.result.is_some(),
    {
        self.result.is_some()
    }
}

} // verus!
