use std::sync::{Arc, Mutex};

use serde_json::Value;
use tiny_jrpc::dispatch::{begin_post, finish_post, handle_jsonrpc_request, validate_content_type, PostStep};
use tiny_jrpc::error::{INTERNAL_ERROR, INVALID_REQUEST, INVALID_VERSION, PARSE_ERROR, RESERVED_METHOD, SERVER_STOPPED};
use tiny_jrpc::worker::{file_error_reply, next_action, route, HttpReply, PollEvent, Route, Verb, WorkerAction, Workers};
use tiny_jrpc::{Error, Id, InnerError, Request, Response};

fn process(request: Request, _state: Arc<Mutex<()>>) -> Result<Response, Error> {
    let response = match request.method.as_str() {
        "echo" => Response {
            jsonrpc: request.jsonrpc,
            id: request.id,
            result: request.params,
            error: None,
        },
        "halt" => return Err(Error::Stop),
        _ => Response::unimplemented(request.id, "no such method".to_string()),
    };
    Ok(response)
}

fn request(version: &str, id: Option<Id>, method: &str, params: Option<Value>) -> Request {
    Request {
        jsonrpc: version.to_string(),
        id,
        method: method.to_string(),
        params,
    }
}

fn state() -> Arc<Mutex<()>> {
    Arc::new(Mutex::new(()))
}

fn json(text: &str) -> Value {
    serde_json::from_str(text).expect("test")
}

fn headers(pairs: &[(&str, &str)]) -> Vec<(String, String)> {
    pairs.iter().map(|(k, v)| (k.to_string(), v.to_string())).collect()
}

fn as_json(response: &Response) -> Value {
    json(&response.to_json().expect("test"))
}

#[test]
fn echo() {
    let val = "The Times 03/Jan/2009 Chancellor on brink of second bailout for banks";
    let params = Value::String(val.to_string());
    let req = request("2.0", Some(Id::Number(1)), "echo", Some(params.clone()));
    let (response, stop) = finish_post(Ok(req), state(), process);
    assert!(!stop);
    assert!(matches!(response.id, Some(Id::Number(1))));
    assert_eq!(response.jsonrpc.as_str(), "2.0");
    let result = response.result.clone().expect("test");
    let expected = serde_json::to_string(&params).expect("test");
    assert_eq!(serde_json::to_string(&result).expect("test"), expected);
    assert_eq!(as_json(&response), json(&format!(r#"{{"jsonrpc":"2.0","id":1,"result":{}}}"#, expected)));
}

#[test]
fn rpc_dot_reserved() {
    let req = request("2.0", Some(Id::Number(1)), "rpc.reserved", None);
    let (response, stop) = finish_post(Ok(req), state(), process);
    assert!(!stop);
    assert!(response.error.is_some());
}

#[test]
fn response_serialization() {
    // result response must not include error key
    let response = Response {
        jsonrpc: "2.0".into(),
        id: Some(Id::Number(123)),
        result: Some(Value::Bool(true)),
        error: None,
    };
    let actual = as_json(&response);
    let expected = json(r#"{"jsonrpc": "2.0", "result": true, "id": 123}"#);
    assert_eq!(actual, expected);
    assert!(actual.get("error").is_none());

    // error response must not include result key
    let response = Response::error(Some(Id::Number(123)), -32_000, "Sunlifter".into(), None);
    let actual = as_json(&response);
    let expected = json(
        r#"{"jsonrpc": "2.0", "error": {"code": -32000, "message": "Sunlifter"}, "id": 123}"#,
    );
    assert_eq!(actual, expected);
    assert!(actual.get("result").is_none());
    assert!(actual["error"].get("data").is_none());
}

#[test]
fn http_options() {
    let extra = headers(&[
        ("Access-Control-Allow-Origin", "http://127.0.0.1:8000"),
        ("Access-Control-Allow-Headers", "content-type"),
    ]);
    let reply = match route(&Verb::Options, false, &extra) {
        Route::Reply(reply) => reply,
        _ => panic!("OPTIONS is answered at once"),
    };
    assert_eq!(reply.status, 204);
    let find = |name: &str| {
        reply
            .headers
            .iter()
            .find(|(k, _)| k.eq_ignore_ascii_case(name))
            .map(|(_, v)| v.clone())
            .expect("test")
    };
    assert_eq!(find("allow"), "GET, POST, OPTIONS");
    assert_eq!(find("access-control-allow-origin"), "http://127.0.0.1:8000");
    assert_eq!(find("access-control-allow-headers"), "content-type");
    assert!(reply.body.is_empty());
}

#[test]
fn http_get() {
    assert!(matches!(route(&Verb::Get, true, &Vec::new()), Route::ServeFile));

    // 404
    let reply: HttpReply = file_error_reply(true);
    assert_eq!(reply.status, 404);
    assert_eq!(reply.body, "404: File not found");
}

#[test]
fn get_without_serve_dir_is_500() {
    match route(&Verb::Get, false, &Vec::new()) {
        Route::Reply(reply) => {
            assert_eq!(reply.status, 500);
            assert_eq!(reply.body, "No serve_dir defined in server config.");
        }
        _ => panic!("expected a reply"),
    }
}

#[test]
fn file_read_failure_is_500() {
    let reply = file_error_reply(false);
    assert_eq!(reply.status, 500);
    assert_eq!(reply.body, "500: Internal error");
}

#[test]
fn other_method_is_500() {
    match route(&Verb::Other("PUT".to_string()), true, &Vec::new()) {
        Route::Reply(reply) => {
            assert_eq!(reply.status, 500);
            assert_eq!(reply.body, "500: Internal error - method PUT not implemented.");
        }
        _ => panic!("expected a reply"),
    }
    assert!(matches!(route(&Verb::Post, false, &Vec::new()), Route::JsonRpc));
}

#[test]
fn echo_wire_text() {
    let req = request("2.0", Some(Id::Number(1)), "echo", Some(Value::String("hi".to_string())));
    let (response, _) = finish_post(Ok(req), state(), process);
    assert_eq!(response.to_json().expect("test"), r#"{"jsonrpc":"2.0","id":1,"result":"hi"}"#);
}

#[test]
fn reserved_method_keeps_id_and_server_code() {
    let req = request("2.0", Some(Id::Number(1)), "rpc.internal", None);
    let response = handle_jsonrpc_request(req, state(), process);
    assert!(matches!(response, Err(Error::Inner(InnerError::ReservedMethodPrefix))));
    let (response, _) = finish_post(Ok(request("2.0", Some(Id::Number(1)), "rpc.internal", None)), state(), process);
    let err = response.error.as_ref().expect("test");
    assert_eq!(err.code, RESERVED_METHOD);
    assert!((-32099..=-32000).contains(&err.code));
    assert!(matches!(response.id, Some(Id::Number(1))));
    assert!(response.result.is_none());
}

#[test]
fn wrong_version_is_refused() {
    let req = request("1.0", Some(Id::String("a".to_string())), "echo", None);
    let (response, stop) = finish_post(Ok(req), state(), process);
    assert!(!stop);
    assert_eq!(response.error.as_ref().expect("test").code, INVALID_VERSION);
    assert!(matches!(response.id, Some(Id::String(ref s)) if s == "a"));
}

#[test]
fn missing_content_type_never_decodes() {
    let step = begin_post(&headers(&[("Accept", "*/*")]));
    match step {
        PostStep::Reply(response) => {
            assert!(response.id.is_none());
            assert_eq!(response.error.as_ref().expect("test").code, INVALID_REQUEST);
            let text = as_json(&response);
            assert_eq!(text.get("id"), Some(&Value::Null));
        }
        PostStep::Decode => panic!("must not decode"),
    }
}

#[test]
fn text_plain_is_refused() {
    let hs = headers(&[("Content-Type", "text/plain")]);
    assert!(matches!(validate_content_type(&hs), Err(InnerError::WrongContentType)));
    match begin_post(&hs) {
        PostStep::Reply(response) => {
            assert!(response.id.is_none());
            assert!(response.error.is_some());
        }
        PostStep::Decode => panic!("must not decode"),
    }
}

#[test]
fn content_type_is_compared_exactly() {
    let ok = headers(&[("Host", "x"), ("Content-Type", "application/json")]);
    assert!(matches!(begin_post(&ok), PostStep::Decode));
    let charset = headers(&[("Content-Type", "application/json; charset=utf-8")]);
    assert!(matches!(validate_content_type(&charset), Err(InnerError::WrongContentType)));
    let first_wins = headers(&[("Content-Type", "text/plain"), ("Content-Type", "application/json")]);
    assert!(matches!(validate_content_type(&first_wins), Err(InnerError::WrongContentType)));
    assert!(matches!(validate_content_type(&Vec::new()), Err(InnerError::NoContentType)));
}

#[test]
fn malformed_body_answers_parse_error() {
    let (response, stop) = finish_post(Err(InnerError::Malformed("expected value".to_string())), state(), process);
    assert!(!stop);
    assert!(response.id.is_none());
    let err = response.error.as_ref().expect("test");
    assert_eq!(err.code, PARSE_ERROR);
    assert_eq!(err.data, Some(Value::String("expected value".to_string())));
}

#[test]
fn stop_answers_the_call_and_signals() {
    let req = request("2.0", Some(Id::Number(5)), "halt", None);
    let (response, stop) = finish_post(Ok(req), state(), process);
    assert!(stop);
    assert!(matches!(response.id, Some(Id::Number(5))));
    assert_eq!(response.error.as_ref().expect("test").code, SERVER_STOPPED);
    assert!(response.result.is_none());
}

#[test]
fn application_error_is_sent_as_is() {
    let handler = |req: Request, _s: Arc<Mutex<()>>| -> Result<Response, Error> {
        let _ = req;
        Err(Error::Implementation(tiny_jrpc::RpcError {
            code: 7,
            message: "bad".to_string(),
            data: None,
        }))
    };
    let (response, stop) = finish_post(Ok(request("2.0", Some(Id::Number(9)), "x", None)), state(), handler);
    assert!(!stop);
    let err = response.error.as_ref().expect("test");
    assert_eq!(err.code, 7);
    assert_eq!(err.message, "bad");
    assert!(matches!(response.id, Some(Id::Number(9))));
}

#[test]
fn unknown_method_is_method_not_found() {
    let (response, _) = finish_post(Ok(request("2.0", None, "nope", None)), state(), process);
    assert_eq!(response.error.as_ref().expect("test").code, -32601);
    assert!(response.is_error());
    assert!(!response.is_result());
}

#[test]
fn string_ids_and_negative_codes_are_encoded() {
    let response = Response::error(Some(Id::String("a\"b".to_string())), -7, "m\n".to_string(), None);
    assert_eq!(
        response.to_json().expect("test"),
        r#"{"jsonrpc":"2.0","id":"a\"b","error":{"code":-7,"message":"m\n"}}"#
    );
    let response = Response::result(None, json(r#"{"b":[1,2],"a":null}"#));
    assert_eq!(response.to_json().expect("test"), r#"{"jsonrpc":"2.0","id":null,"result":{"a":null,"b":[1,2]}}"#);
    let response = Response::result(Some(Id::Number(u64::MAX)), Value::Bool(false));
    assert_eq!(
        response.to_json().expect("test"),
        r#"{"jsonrpc":"2.0","id":18446744073709551615,"result":false}"#
    );
}

#[test]
fn worker_loop_decisions() {
    assert!(matches!(next_action(PollEvent::Received, false), WorkerAction::Route));
    assert!(matches!(next_action(PollEvent::TimedOut, true), WorkerAction::Poll));
    assert!(matches!(next_action(PollEvent::TimedOut, false), WorkerAction::Exit));
    assert!(matches!(next_action(PollEvent::Failed, false), WorkerAction::Poll));
}

#[test]
fn draining_twice_hands_out_nothing() {
    let mut workers: Workers<u32> = Workers::new();
    workers.add(1);
    workers.add(2);
    assert_eq!(workers.drain(), vec![1, 2]);
    assert!(workers.drain().is_empty());
    assert!(workers.handles.is_empty());
}

#[test]
fn json_that_is_not_a_request_is_invalid_request() {
    let (response, stop) = finish_post(Err(InnerError::InvalidRequest("missing field `method`".to_string())), state(), process);
    assert!(!stop);
    assert!(response.id.is_none());
    let err = response.error.as_ref().expect("test");
    assert_eq!(err.code, INVALID_REQUEST);
    assert_eq!(err.data, Some(Value::String("missing field `method`".to_string())));
}

#[test]
fn error_data_is_written_only_when_present() {
    let with = Response::error(Some(Id::Number(2)), i64::MIN, "x".to_string(), Some(json("[1]")));
    assert_eq!(
        with.to_json().expect("test"),
        r#"{"jsonrpc":"2.0","id":2,"error":{"code":-9223372036854775808,"message":"x","data":[1]}}"#
    );
    let (response, _) = finish_post(Err(InnerError::Io("reset".to_string())), state(), process);
    assert_eq!(response.error.as_ref().expect("test").code, INTERNAL_ERROR);
    let (response, _) = finish_post(Ok(request("1.0", None, "m", None)), state(), process);
    assert_eq!(as_json(&response)["error"].get("data"), None);
}

#[test]
fn clones_are_equal() {
    let req = request("2.0", Some(Id::String("k".to_string())), "m", Some(json(r#"{"a":1}"#)));
    let copy = req.clone();
    assert_eq!(copy.params, req.params);
    assert!(matches!(copy.id, Some(Id::String(ref s)) if s == "k"));
    let resp = Response::error(None, 3, "e".to_string(), Some(Value::Bool(true)));
    assert_eq!(resp.clone().to_json().expect("test"), resp.to_json().expect("test"));
}
