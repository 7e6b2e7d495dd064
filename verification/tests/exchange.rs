use json_relay::exchange::{handle_body, handle_request, handle_upstream, Step};
use json_relay::gate::RequestHead;
use json_relay::relay::UpstreamOutcome;
use json_relay::reply::Reply;
use serde_json::Value;

fn head(method: &str, path: &str, content_type: Option<&str>) -> RequestHead {
    RequestHead {
        method: method.to_string(),
        path: path.to_string(),
        content_type: content_type.map(|value| value.as_bytes().to_vec()),
    }
}

fn hello(body: &str) -> (RequestHead, Option<Vec<u8>>) {
    (head("POST", "/hello", Some("application/json")), Some(body.as_bytes().to_vec()))
}

/// Runs one exchange to its end against an upstream that is a closure.
fn run(
    head: &RequestHead,
    read: Option<Vec<u8>>,
    upstream: &dyn Fn(&Value) -> UpstreamOutcome,
) -> Reply {
    let mut read = Some(read);
    let mut step = handle_request(head);
    loop {
        step = match step {
            Step::Respond(reply) => return reply,
            Step::ReadBody => handle_body(read.take().expect("the body is read once")),
            Step::Forward(value) => Step::Respond(handle_upstream(upstream(&value))),
        };
    }
}

/// An upstream that answers as an echo service does: the document it was
/// sent, under `json`, beside the address it was sent to.
fn echo(value: &Value) -> UpstreamOutcome {
    let mut answer = serde_json::Map::new();
    answer.insert("json".to_string(), value.clone());
    answer.insert("url".to_string(), Value::String("https://postman-echo.com/post".to_string()));
    UpstreamOutcome::Body(serde_json::to_vec(&Value::Object(answer)).unwrap())
}

fn unreachable_upstream(_value: &Value) -> UpstreamOutcome {
    UpstreamOutcome::Failed("error sending request: connection refused".to_string())
}

fn never_called(_value: &Value) -> UpstreamOutcome {
    panic!("nothing is forwarded for this request")
}

#[test]
fn example_post_hello_is_echoed() {
    let (head, read) = hello("{\"a\":1}");
    let reply = run(&head, read, &echo);
    assert_eq!(reply.status, 200);
    assert_eq!(
        reply.body,
        "{\n  \"json\": {\n    \"a\": 1\n  },\n  \"url\": \"https://postman-echo.com/post\"\n}"
    );
    let document: Value = serde_json::from_str(&reply.body).unwrap();
    assert_eq!(document["json"]["a"], Value::from(1));
}

#[test]
fn reply_holds_the_upstream_document() {
    let bodies = [
        "{\"a\":1}",
        "[1, 2, 3]",
        "\"text\"",
        "null",
        "true",
        "-12.5e3",
        "{\"nested\": {\"list\": [{}, [], \"\\u00e9\"]}}",
        "  {\"spaced\" : 1 }  ",
    ];
    for body in bodies {
        let (head, read) = hello(body);
        let reply = run(&head, read, &echo);
        assert_eq!(reply.status, 200);
        let sent: Value = serde_json::from_str(body).unwrap();
        let expected = match echo(&sent) {
            UpstreamOutcome::Body(bytes) => serde_json::from_slice::<Value>(&bytes).unwrap(),
            _ => unreachable!(),
        };
        assert_eq!(serde_json::from_str::<Value>(&reply.body).unwrap(), expected);
        assert_eq!(reply.body, serde_json::to_string_pretty(&expected).unwrap());
    }
}

#[test]
fn document_is_forwarded_as_parsed() {
    let step = handle_body(Some(b"{\"b\": [true, null], \"a\": 1}".to_vec()));
    let mut inner = serde_json::Map::new();
    inner.insert("a".to_string(), Value::from(1));
    inner.insert("b".to_string(), Value::Array(vec![Value::Bool(true), Value::Null]));
    assert_eq!(step, Step::Forward(Value::Object(inner)));
}

#[test]
fn scalars_and_arrays_are_forwarded() {
    assert_eq!(handle_body(Some(b"42".to_vec())), Step::Forward(Value::from(42)));
    assert_eq!(handle_body(Some(b"null".to_vec())), Step::Forward(Value::Null));
    assert_eq!(
        handle_body(Some(b"\"hi\"".to_vec())),
        Step::Forward(Value::String("hi".to_string()))
    );
    assert_eq!(handle_body(Some(b"[]".to_vec())), Step::Forward(Value::Array(vec![])));
}

#[test]
fn other_method_is_not_found() {
    for method in ["GET", "PUT", "DELETE", "HEAD", "OPTIONS", "PATCH", "post", "Post", ""] {
        let step = handle_request(&head(method, "/hello", Some("application/json")));
        assert_eq!(
            step,
            Step::Respond(Reply { status: 404, body: "Not Found".to_string() })
        );
    }
}

#[test]
fn other_path_is_not_found() {
    for path in ["/", "/hello/", "/Hello", "/hello2", "/hell", "", "/api/hello", "hello"] {
        let step = handle_request(&head("POST", path, Some("application/json")));
        assert_eq!(
            step,
            Step::Respond(Reply { status: 404, body: "Not Found".to_string() })
        );
    }
}

#[test]
fn route_is_checked_before_content_type() {
    let reply = run(&head("GET", "/other", None), None, &never_called);
    assert_eq!(reply, Reply { status: 404, body: "Not Found".to_string() });
    let reply = run(&head("GET", "/hello", Some("text/plain")), None, &never_called);
    assert_eq!(reply.status, 404);
}

#[test]
fn missing_content_type_is_unsupported() {
    let step = handle_request(&head("POST", "/hello", None));
    assert_eq!(
        step,
        Step::Respond(Reply { status: 415, body: "Expected application/json".to_string() })
    );
}

#[test]
fn other_content_type_is_unsupported() {
    let others = [
        "text/plain",
        "application/json; charset=utf-8",
        "Application/JSON",
        " application/json",
        "application/json ",
        "application/jso",
        "application/jsonp",
        "",
    ];
    for other in others {
        let reply = run(&head("POST", "/hello", Some(other)), None, &never_called);
        assert_eq!(reply, Reply { status: 415, body: "Expected application/json".to_string() });
    }
}

#[test]
fn content_type_that_is_not_text_is_unsupported() {
    let request = RequestHead {
        method: "POST".to_string(),
        path: "/hello".to_string(),
        content_type: Some(vec![0xff, 0xfe, 0x00]),
    };
    assert_eq!(run(&request, None, &never_called).status, 415);
}

#[test]
fn accepted_head_has_the_body_read() {
    assert_eq!(
        handle_request(&head("POST", "/hello", Some("application/json"))),
        Step::ReadBody
    );
}

#[test]
fn failed_read_is_bad_request() {
    let reply = run(&head("POST", "/hello", Some("application/json")), None, &never_called);
    assert_eq!(reply, Reply { status: 400, body: "Failed to read body".to_string() });
}

#[test]
fn invalid_json_is_bad_request() {
    let bodies = ["{\"a\":", "", "   ", "{a:1}", "{} x", "[1,]", "'a'", "{\"a\":1}{\"b\":2}", "nul"];
    for body in bodies {
        let (head, read) = hello(body);
        let reply = run(&head, read, &never_called);
        assert_eq!(reply, Reply { status: 400, body: "Invalid JSON format".to_string() });
    }
}

#[test]
fn body_that_is_not_utf8_is_bad_request() {
    let step = handle_body(Some(vec![b'"', 0xff, b'"']));
    assert_eq!(
        step,
        Step::Respond(Reply { status: 400, body: "Invalid JSON format".to_string() })
    );
}

#[test]
fn too_deep_a_document_is_refused_not_crashed_on() {
    let mut body = "[".repeat(200);
    body.push_str(&"]".repeat(200));
    let (head, read) = hello(&body);
    let reply = run(&head, read, &never_called);
    assert_eq!(reply, Reply { status: 400, body: "Invalid JSON format".to_string() });
}

#[test]
fn unreachable_upstream_is_bad_gateway() {
    let (head, read) = hello("{\"a\":1}");
    let reply = run(&head, read, &unreachable_upstream);
    assert_eq!(reply.status, 502);
    assert!(reply.body.starts_with("API request failed:"));
    assert_eq!(reply.body, "API request failed: error sending request: connection refused");
}

#[test]
fn undecodable_upstream_is_bad_gateway() {
    let answers: [&[u8]; 4] = [b"<html></html>", b"", b"{\"a\":", b"{} trailing"];
    for answer in answers {
        let (head, read) = hello("{\"a\":1}");
        let reply = run(&head, read, &|_| UpstreamOutcome::Body(answer.to_vec()));
        assert_eq!(reply, Reply { status: 502, body: "Failed to decode API response".to_string() });
    }
}

#[test]
fn unreadable_upstream_body_is_bad_gateway() {
    let (head, read) = hello("{\"a\":1}");
    let reply = run(&head, read, &|_| UpstreamOutcome::Unreadable);
    assert_eq!(reply, Reply { status: 502, body: "Failed to decode API response".to_string() });
}

#[test]
fn upstream_sees_the_document_that_was_sent() {
    let (head, read) = hello("{\"a\": [1, 2]}");
    let reply = run(&head, read, &|value| {
        assert_eq!(value["a"][1], Value::from(2));
        UpstreamOutcome::Body(b"{\"seen\":true}".to_vec())
    });
    assert_eq!(reply, Reply { status: 200, body: "{\n  \"seen\": true\n}".to_string() });
}

#[test]
fn repeated_request_gets_the_same_reply() {
    let first = {
        let (head, read) = hello("{\"a\":1,\"b\":[2,3]}");
        run(&head, read, &echo)
    };
    for _ in 0..5 {
        let (head, read) = hello("{\"a\":1,\"b\":[2,3]}");
        assert_eq!(run(&head, read, &echo), first);
    }
    assert_eq!(first.status, 200);
}

#[test]
fn rejected_request_leaves_no_trace() {
    let (ok_head, ok_read) = hello("{\"a\":1}");
    let before = run(&ok_head, ok_read, &echo);
    let (bad_head, bad_read) = hello("{\"a\":");
    assert_eq!(run(&bad_head, bad_read, &never_called).status, 400);
    assert_eq!(run(&head("GET", "/", None), None, &never_called).status, 404);
    let (ok_head, ok_read) = hello("{\"a\":1}");
    assert_eq!(run(&ok_head, ok_read, &echo), before);
}

#[test]
fn every_reply_has_a_terminal_status() {
    let heads = [
        head("POST", "/hello", Some("application/json")),
        head("POST", "/hello", None),
        head("GET", "/hello", Some("application/json")),
    ];
    let reads = [None, Some(b"{\"a\":1}".to_vec()), Some(b"oops".to_vec())];
    let upstreams: [&dyn Fn(&Value) -> UpstreamOutcome; 4] = [
        &echo,
        &unreachable_upstream,
        &|_| UpstreamOutcome::Unreadable,
        &|_| UpstreamOutcome::Body(b"not json".to_vec()),
    ];
    for head in &heads {
        for read in &reads {
            for upstream in upstreams {
                let reply = run(head, read.clone(), upstream);
                assert!(matches!(reply.status, 200 | 400 | 404 | 415 | 502));
            }
        }
    }
}
