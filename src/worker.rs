use vstd::prelude::*;

use crate::envelope::Response;
use crate::error::InnerError;
use crate::wire::response_text;

verus! {

/// What came of one bounded wait on the transport.
pub enum PollEvent {
    Received,
    TimedOut,
    Failed,
}

/// What a worker does next.
pub enum WorkerAction {
    /// Route the request that arrived.
    Route,
    /// Wait for the next request.
    Poll,
    /// Leave the loop: the server was stopped.
    Exit,
}

/// The worker's decision after a wait: a timeout ends the loop only once the
/// server is stopped; a failed receive is retried.
pub fn next_action(event: PollEvent, running: bool) -> (r: WorkerAction)
    ensures
        event is Received ==> r is Route,
        event is TimedOut ==> (if running { r is Poll } else { r is Exit }),
        event is Failed ==> r is Poll,
{
    match event {
        PollEvent::Received => WorkerAction::Route,
        PollEvent::TimedOut => if running {
            WorkerAction::Poll
        } else {
            WorkerAction::Exit
        },
        PollEvent::Failed => WorkerAction::Poll,
    }
}

/// The HTTP method of a request; `Other` holds the method's name.
pub enum Verb {
    Get,
    Options,
    Post,
    Other(String),
}

/// A plain HTTP reply: status, headers in order, and body.
pub struct HttpReply {
    pub status: u16,
    pub headers: Vec<(String, String)>,
    pub body: String,
}

/// Where a request goes.
pub enum Route {
    /// Serve a file from the configured directory.
    ServeFile,
    /// Validate and answer a JSON-RPC call.
    JsonRpc,
    /// Send this reply at once.
    Reply(HttpReply),
}

pub open spec fn headers_view(h: Seq<(String, String)>) -> Seq<(Seq<char>, Seq<char>)> {
    h.map_values(|p: (String, String)| (p.0@, p.1@))
}

/// Copies a header list, keeping its order.
pub fn copy_headers(headers: &Vec<(String, String)>) -> (r: Vec<(String, String)>)
    ensures
        r@ == headers@,
{
    let mut out: Vec<(String, String)> = Vec::new();
    let mut i: usize = 0;
    while i < headers.len()
        invariant
            i <= headers.len(),
            out@ =~= headers@.take(i as int),
        decreases headers.len() - i,
    {
        out.push((headers[i].0.clone(), headers[i].1.clone()));
        proof {
            assert(headers@.take(i as int + 1) =~= headers@.take(i as int).push(headers@[i as int]));
        }
        i = i + 1;
    }
    proof {
        assert(headers@.take(i as int) =~= headers@);
    }
    out
}

pub open spec fn no_serve_dir_message() -> Seq<char> {
    "No serve_dir defined in server config."@
}

pub open spec fn not_found_message() -> Seq<char> {
    "404: File not found"@
}

pub open spec fn internal_error_message() -> Seq<char> {
    "500: Internal error"@
}

pub open spec fn allow_header() -> (Seq<char>, Seq<char>) {
    ("Allow"@, "GET, POST, OPTIONS"@)
}

pub open spec fn unsupported_message(name: Seq<char>) -> Seq<char> {
    "500: Internal error - method "@ + name + " not implemented."@
}

/// A reply with a status and a text body, and no headers.
pub fn text_reply(status: u16, body: String) -> (r: HttpReply)
    ensures
        r.status == status,
        r.headers@.len() == 0,
        r.body == body,
{
    HttpReply { status, headers: Vec::new(), body }
}

/// The answer to an OPTIONS request: 204, the methods allowed, then the
/// configured headers, and no body.
pub fn options_reply(extra: &Vec<(String, String)>) -> (r: HttpReply)
    ensures
        r.status == 204,
        headers_view(r.headers@) == seq![allow_header()] + headers_view(extra@),
        r.body@.len() == 0,
{
    let mut headers: Vec<(String, String)> = Vec::new();
    headers.push((String::from_str("Allow"), String::from_str("GET, POST, OPTIONS")));
    let mut rest = copy_headers(extra);
    headers.append(&mut rest);
    proof {
        assert(headers_view(headers@) =~= seq![allow_header()] + headers_view(extra@));
    }
    HttpReply { status: 204, headers, body: String::new() }
}

/// The reply when reading the requested file failed: 404 when it does not
/// exist, 500 otherwise.
pub fn file_error_reply(not_found: bool) -> (r: HttpReply)
    ensures
        not_found ==> r.status == 404 && r.body@ == not_found_message(),
        !not_found ==> r.status == 500 && r.body@ == internal_error_message(),
        r.headers@.len() == 0,
{
    if not_found {
        text_reply(404, String::from_str("404: File not found"))
    } else {
        text_reply(500, String::from_str("500: Internal error"))
    }
}

/// Routes a request by its HTTP method. GET needs a serve directory, OPTIONS
/// is answered at once, POST is a JSON-RPC call, and any other method gets a 500.
pub fn route(verb: &Verb, serving: bool, extra: &Vec<(String, String)>) -> (r: Route)
    ensures
        match verb {
            Verb::Get => if serving {
                r is ServeFile
            } else {
                r is Reply && r->Reply_0.status == 500 && r->Reply_0.body@ == no_serve_dir_message()
            },
            Verb::Options => r is Reply && r->Reply_0.status == 204 && headers_view(
                r->Reply_0.headers@,
            ) == seq![allow_header()] + headers_view(extra@) && r->Reply_0.body@.len() == 0,
            Verb::Post => r is JsonRpc,
            Verb::Other(name) => r is Reply && r->Reply_0.status == 500 && r->Reply_0.body@
                == unsupported_message(name@),
        },
{
    match verb {
        Verb::Get => if serving {
            Route::ServeFile
        } else {
            Route::Reply(text_reply(500, String::from_str("No serve_dir defined in server config.")))
        },
        Verb::Options => Route::Reply(options_reply(extra)),
        Verb::Post => Route::JsonRpc,
        Verb::Other(name) => {
            let body = String::from_str("500: Internal error - method ").concat(name.as_str()).concat(
                " not implemented.",
            );
            Route::Reply(text_reply(500, body))
        },
    }
}

/// The HTTP reply that carries a JSON-RPC response: its JSON text as the body,
/// with the configured headers.
pub fn jsonrpc_reply(response: &Response, extra: &Vec<(String, String)>) -> (r: Result<
    HttpReply,
    InnerError,
>)
    ensures
        r is Ok,
        r->Ok_0.status == 200,
        r->Ok_0.body@ == response_text(*response),
        r->Ok_0.headers@ == extra@,
{
    let body = response.to_json()?;
    Ok(HttpReply { status: 200, headers: copy_headers(extra), body })
}

/// The join handles of the worker threads that are not joined yet.
pub struct Workers<H> {
    pub handles: Vec<H>,
}

impl<H> Workers<H> {
    pub fn new() -> (r: Self)
        ensures
            r.handles@.len() == 0,
    {
        Workers { handles: Vec::new() }
    }

    pub fn add(&mut self, handle: H)
        ensures
            final(self).handles@ == old(self).handles@.push(handle),
    {
        self.handles.push(handle);
    }

    /// Hands out every handle not yet joined, in the order they were added,
    /// and keeps none.
    pub fn drain(&mut self) -> (r: Vec<H>)
        ensures
            r@ == old(self).handles@,
            final(self).handles@.len() == 0,
    {
        let mut out: Vec<H> = Vec::new();
        std::mem::swap(&mut out, &mut self.handles);
        out
    }
}

} // verus!
