use vstd::prelude::*;

use std::sync::{Arc, Mutex};

use crate::envelope::{copy_id, version_string, version_text, Id, Request, Response};
use crate::error::{error_response_for, Error, InnerError};

verus! {

/// The application state that all workers share, one handler call at a time.
#[verifier::external_type_specification]
#[verifier::external_body]
#[verifier::reject_recursive_types(T)]
pub struct ExMutex<T: ?Sized>(Mutex<T>);

pub open spec fn content_type_name() -> Seq<char> {
    "Content-Type"@
}

pub open spec fn json_media_type() -> Seq<char> {
    "application/json"@
}

/// Method names that the protocol keeps for itself start with this.
pub open spec fn reserved_prefix() -> Seq<char> {
    "rpc."@
}

pub open spec fn starts_with(s: Seq<char>, p: Seq<char>) -> bool {
    p.len() <= s.len() && s.subrange(0, p.len() as int) == p
}

/// Relies on str::starts_with with a str pattern: whether `p` is a prefix of `s`.
#[verifier::external_body]
fn has_prefix(s: &str, p: &str) -> (r: bool)
    ensures
        r == starts_with(s@, p@),
{
    s.starts_with(p)
}

/// The first header named exactly `Content-Type` stands at `i`.
pub open spec fn first_content_type(headers: Seq<(String, String)>, i: int) -> bool {
    &&& 0 <= i < headers.len()
    &&& headers[i].0@ == content_type_name()
    &&& forall|j: int| 0 <= j < i ==> headers[j].0@ != content_type_name()
}

pub open spec fn has_content_type(headers: Seq<(String, String)>) -> bool {
    exists|i: int| 0 <= i < headers.len() && headers[i].0@ == content_type_name()
}

/// Checks that a POST declares its body as `application/json`, by the first
/// `Content-Type` header, compared exactly.
pub fn validate_content_type(headers: &Vec<(String, String)>) -> (r: Result<(), InnerError>)
    ensures
        !has_content_type(headers@) ==> r == Err::<(), InnerError>(InnerError::NoContentType),
        r is Ok <==> validate_content_type_ok(headers@),
        has_content_type(headers@) && r is Err ==> r == Err::<(), InnerError>(
            InnerError::WrongContentType,
        ),
{
    let name = String::from_str("Content-Type");
    let json = String::from_str("application/json");
    let mut i: usize = 0;
    while i < headers.len()
        invariant
            i <= headers.len(),
            name@ == content_type_name(),
            json@ == json_media_type(),
            forall|j: int| 0 <= j < i ==> headers@[j].0@ != content_type_name(),
        decreases headers.len() - i,
    {
        if headers[i].0 == name {
            proof {
                assert forall|k: int| #[trigger] first_content_type(headers@, k) implies k == i by {
                    if k < i {
                    } else if k > i {
                        assert(headers@[i as int].0@ == content_type_name());
                    }
                }
            }
            if headers[i].1 == json {
                assert(first_content_type(headers@, i as int));
                return Ok(());
            } else {
                return Err(InnerError::WrongContentType);
            }
        }
        i = i + 1;
    }
    Err(InnerError::NoContentType)
}

/// What a worker does with a POST once its headers are read.
pub enum PostStep {
    /// Read and decode the body.
    Decode,
    /// Send this response without looking at the body.
    Reply(Response),
}

/// Decides whether a POST body is decoded at all: only a JSON body is.
pub fn begin_post(headers: &Vec<(String, String)>) -> (r: PostStep)
    ensures
        r is Decode <==> validate_content_type_ok(headers@),
        r is Reply ==> r->Reply_0.id.is_none() && r->Reply_0.error.is_some()
            && r->Reply_0.result.is_none(),
        !has_content_type(headers@) ==> r is Reply && error_response_for(
            r->Reply_0,
            None,
            Error::Inner(InnerError::NoContentType),
        ),
        has_content_type(headers@) && !validate_content_type_ok(headers@) ==> r is Reply
            && error_response_for(r->Reply_0, None, Error::Inner(InnerError::WrongContentType)),
{
    match validate_content_type(headers) {
        Ok(()) => PostStep::Decode,
        Err(e) => PostStep::Reply(Response::from_error(None, Error::Inner(e))),
    }
}

/// The headers hold a `Content-Type` header and the first one says `application/json`.
pub open spec fn validate_content_type_ok(headers: Seq<(String, String)>) -> bool {
    exists|i: int| #[trigger]
        first_content_type(headers, i) && headers[i].1@ == json_media_type()
}

/// The rule of the protocol that a request breaks, checked in this order.
pub open spec fn rule_violation(r: Request) -> Option<InnerError> {
    if r.jsonrpc@ != version_text() {
        Some(InnerError::InvalidVersion)
    } else if starts_with(r.method@, reserved_prefix()) {
        Some(InnerError::ReservedMethodPrefix)
    } else {
        None
    }
}

/// Checks the protocol version and the reserved method namespace.
pub fn check_request(request: &Request) -> (r: Result<(), InnerError>)
    ensures
        match rule_violation(*request) {
            Some(e) => r == Err::<(), InnerError>(e),
            None => r is Ok,
        },
{
    let version = version_string();
    if request.jsonrpc != version {
        return Err(InnerError::InvalidVersion);
    }
    if has_prefix(request.method.as_str(), "rpc.") {
        return Err(InnerError::ReservedMethodPrefix);
    }
    Ok(())
}

/// `r` is what the dispatcher makes of the handler's outcome `out` for the call `id`.
pub open spec fn settled(id: Option<Id>, out: Result<Response, Error>, r: Result<Response, Error>) -> bool {
    match out {
        Ok(resp) => r == Ok::<Response, Error>(resp),
        Err(Error::Stop) => r == Err::<Response, Error>(Error::Stop),
        Err(e) => r is Ok && error_response_for(r->Ok_0, id, e),
    }
}

/// Turns the handler's outcome into the response: a response is kept, an error
/// becomes an error response for `id`, and a stop request is passed on.
pub fn settle(id: Option<Id>, out: Result<Response, Error>) -> (r: Result<Response, Error>)
    ensures
        settled(id, out, r),
{
    match out {
        Ok(response) => Ok(response),
        Err(Error::Stop) => Err(Error::Stop),
        Err(e) => Ok(Response::from_error(id, e)),
    }
}

/// Checks the rules of the protocol, then calls the handler with the shared state.
pub fn handle_jsonrpc_request<F, T>(request: Request, state: Arc<Mutex<T>>, process: F) -> (r:
    Result<Response, Error>) where F: Fn(Request, Arc<Mutex<T>>) -> Result<Response, Error>
    requires
        process.requires((request, state)),
    ensures
        match rule_violation(request) {
            Some(e) => r == Err::<Response, Error>(Error::Inner(e)),
            None => exists|out: Result<Response, Error>|
                process.ensures((request, state), out) && settled(request.id, out, r),
        },
{
    if let Err(e) = check_request(&request) {
        return Err(Error::Inner(e));
    }
    let id = copy_id(&request.id);
    let ghost req = request;
    let out = process(request, state);
    let r = settle(id, out);
    assert(process.ensures((req, state), out) && settled(req.id, out, r));
    r
}

/// Answers a decoded (or undecodable) POST body. The flag says whether the
/// handler asked the server to stop; the response still answers the call.
pub fn finish_post<F, T>(decoded: Result<Request, InnerError>, state: Arc<Mutex<T>>, process: F) -> (r:
    (Response, bool)) where F: Fn(Request, Arc<Mutex<T>>) -> Result<Response, Error>
    requires
        decoded is Ok ==> process.requires((decoded->Ok_0, state)),
    ensures
        match decoded {
            Err(e) => !r.1 && error_response_for(r.0, None, Error::Inner(e)),
            Ok(req) => match rule_violation(req) {
                Some(e) => !r.1 && error_response_for(r.0, req.id, Error::Inner(e)),
                None => exists|out: Result<Response, Error>|
                    process.ensures((req, state), out) && match out {
                        Ok(resp) => !r.1 && r.0 == resp,
                        Err(Error::Stop) => r.1 && error_response_for(r.0, req.id, Error::Stop),
                        Err(e) => !r.1 && error_response_for(r.0, req.id, e),
                    },
            },
        },
{
    match decoded {
        Err(e) => (Response::from_error(None, Error::Inner(e)), false),
        Ok(request) => {
            let id = copy_id(&request.id);
            match handle_jsonrpc_request(request, state, process) {
                Ok(response) => (response, false),
                Err(Error::Stop) => (Response::from_error(id, Error::Stop), true),
                Err(e) => (Response::from_error(id, e), false),
            }
        },
    }
}

/// A request that breaks a rule of the protocol is answered by an error in the
/// server-error range that keeps the request's id, and nothing else is in it.
pub proof fn lemma_refused_request_answer(req: Request, resp: Response)
    requires
        rule_violation(req) is Some,
        error_response_for(resp, req.id, Error::Inner(rule_violation(req)->0)),
    ensures
        resp.id == req.id,
        resp.result is None,
        resp.error is Some,
        -32099 <= resp.error->0.code <= -32000,
        resp.well_formed(),
{
}

/// Every error response carries an error and no result.
pub proof fn lemma_error_response_well_formed(resp: Response, id: Option<Id>, e: Error)
    requires
        error_response_for(resp, id, e),
    ensures
        resp.well_formed(),
        resp.error is Some && resp.result is None,
{
}

} // verus!
