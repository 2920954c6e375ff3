use serde_json::Value;
use slack_mcp::cdp::{
    cdp_port, connect_failure_message, decode_body, evaluate_params, launch_hint, evaluation_outcome, header_step, http_address, http_request, no_params,
    select_target, CdpSession, CdpStep, HeaderStep, WsEvent,
};
use slack_mcp::json::{JsonNumber, JsonValue};
use slack_mcp::text::IntErrorKind;

fn conv(v: Value) -> JsonValue {
    match v {
        Value::Null => JsonValue::Null,
        Value::Bool(b) => JsonValue::Bool(b),
        Value::Number(n) => JsonValue::Number(if let Some(u) = n.as_u64() {
            JsonNumber::PosInt(u)
        } else if let Some(i) = n.as_i64() {
            JsonNumber::NegInt(i)
        } else {
            JsonNumber::Float(n.to_string())
        }),
        Value::String(s) => JsonValue::String(s),
        Value::Array(a) => JsonValue::Array(a.into_iter().map(conv).collect()),
        Value::Object(m) => JsonValue::Object(m.into_iter().map(|(k, v)| (k, conv(v))).collect()),
    }
}

fn back(v: &JsonValue) -> Value {
    match v {
        JsonValue::Null => Value::Null,
        JsonValue::Bool(b) => Value::Bool(*b),
        JsonValue::Number(JsonNumber::PosInt(u)) => Value::from(*u),
        JsonValue::Number(JsonNumber::NegInt(i)) => Value::from(*i),
        JsonValue::Number(JsonNumber::Float(t)) => serde_json::from_str(t).unwrap(),
        JsonValue::String(s) => Value::String(s.clone()),
        JsonValue::Array(a) => Value::Array(a.iter().map(back).collect()),
        JsonValue::Object(f) => {
            let mut m = serde_json::Map::new();
            for (k, v) in f {
                if !m.contains_key(k) {
                    m.insert(k.clone(), back(v));
                }
            }
            Value::Object(m)
        }
    }
}

fn j(text: &str) -> JsonValue {
    conv(serde_json::from_str(text).unwrap())
}

fn same(a: &JsonValue, text: &str) -> bool {
    back(a) == serde_json::from_str::<Value>(text).unwrap()
}


#[test]
fn requests_are_numbered_from_one() {
    let mut s = CdpSession::new();
    let (p1, body1) = s.begin_request("Runtime.enable", no_params());
    let (p2, body2) = s.begin_request("Runtime.evaluate", evaluate_params("1+1"));
    assert_eq!((p1.id, p2.id, s.next_id), (1, 2, 3));
    assert_eq!(p2.method, "Runtime.evaluate");
    assert!(same(&body1, r#"{"id": 1, "method": "Runtime.enable", "params": {}}"#));
    assert!(same(
        &body2,
        r#"{"id": 2, "method": "Runtime.evaluate", "params": {"expression": "1+1", "returnByValue": true, "awaitPromise": true}}"#
    ));
}

#[test]
fn replies_are_matched_by_id() {
    let mut s = CdpSession::new();
    let (p, _) = s.begin_request("Runtime.evaluate", no_params());
    assert_eq!(p.on_event(WsEvent::Text(Ok(j(r#"{"id": 2, "result": 5}"#)))), CdpStep::Wait);
    assert_eq!(p.on_event(WsEvent::Text(Ok(j(r#"{"method": "Runtime.consoleAPICalled"}"#)))), CdpStep::Wait);
    assert_eq!(p.on_event(WsEvent::Text(Ok(j(r#"{"id": 1, "result": {"x": 1}}"#)))), CdpStep::Complete(j(r#"{"x": 1}"#)));
    assert_eq!(p.on_event(WsEvent::Text(Ok(j(r#"{"id": 1}"#)))), CdpStep::Complete(JsonValue::Null));
    assert_eq!(
        p.on_event(WsEvent::Text(Ok(j(r#"{"id": 1, "error": {"message": "bad"}}"#)))),
        CdpStep::Fail("CDP Runtime.evaluate error: bad".to_string())
    );
    assert_eq!(
        p.on_event(WsEvent::Text(Ok(j(r#"{"id": 1, "error": {}}"#)))),
        CdpStep::Fail("CDP Runtime.evaluate error: CDP error".to_string())
    );
}

#[test]
fn connection_events_are_handled() {
    let mut s = CdpSession::new();
    let (p, _) = s.begin_request("Runtime.enable", no_params());
    assert_eq!(p.on_event(WsEvent::Ping(vec![1, 2])), CdpStep::SendPong(vec![1, 2]));
    assert_eq!(p.on_event(WsEvent::Other), CdpStep::Wait);
    assert_eq!(p.on_event(WsEvent::Error("reset".to_string())), CdpStep::Fail("WebSocket error: reset".to_string()));
    assert_eq!(p.on_event(WsEvent::Closed), CdpStep::Fail("WebSocket closed".to_string()));
    assert_eq!(p.on_event(WsEvent::Text(Err("bad json".to_string()))), CdpStep::Fail("bad json".to_string()));
}

#[test]
fn evaluation_outcomes() {
    assert_eq!(evaluation_outcome(&j(r#"{"result": {"type": "string", "value": "hi"}}"#)), Ok(j("\"hi\"")));
    assert_eq!(evaluation_outcome(&j(r#"{"result": {"type": "undefined"}}"#)), Ok(JsonValue::Null));
    assert_eq!(evaluation_outcome(&j("{}")), Ok(JsonValue::Null));
    assert_eq!(
        evaluation_outcome(&j(r#"{"exceptionDetails": {"text": "Uncaught"}, "result": {}}"#)),
        Err("JS exception: Uncaught".to_string())
    );
    assert_eq!(
        evaluation_outcome(&j(r#"{"exceptionDetails": {}}"#)),
        Err("JS exception: unknown error".to_string())
    );
}

#[test]
fn targets_are_chosen_by_rule_priority() {
    let targets = j(r#"[
        {"type": "page", "url": "https://example.com", "title": "x", "webSocketDebuggerUrl": "ws://page"},
        {"type": "other", "url": "about:blank", "title": "Slack helper", "webSocketDebuggerUrl": "ws://title"},
        {"type": "page", "url": "https://app.slack.com/client", "title": "y", "webSocketDebuggerUrl": "ws://webview"}
    ]"#);
    let list = match targets { JsonValue::Array(v) => v, _ => panic!() };
    assert_eq!(select_target(&list, 9222), Ok("ws://webview".to_string()));
    assert_eq!(select_target(&list[..2].iter().map(|t| t.deep_copy()).collect(), 9222), Ok("ws://title".to_string()));
    assert_eq!(select_target(&list[..1].iter().map(|t| t.deep_copy()).collect(), 9222), Ok("ws://page".to_string()));
}

#[test]
fn a_matching_target_without_url_passes_to_the_next_rule() {
    let targets = j(r#"[
        {"type": "page", "url": "https://app.slack.com/a", "title": "t"},
        {"type": "page", "url": "https://app.slack.com/b", "title": "t", "webSocketDebuggerUrl": "ws://second"}
    ]"#);
    let list = match targets { JsonValue::Array(v) => v, _ => panic!() };
    assert_eq!(select_target(&list, 9222), Err(
        "No Slack page target found on port 9222. Make sure Slack is running with --remote-debugging-port=9222".to_string()
    ));
    assert_eq!(select_target(&Vec::new(), 1), Err(
        "No Slack page target found on port 1. Make sure Slack is running with --remote-debugging-port=1".to_string()
    ));
}

#[test]
fn slack_title_needs_slack_url_for_the_webview_rule() {
    let targets = j(r#"[
        {"type": "page", "url": "https://example.com", "title": "Slack", "webSocketDebuggerUrl": "ws://a"},
        {"type": "page", "url": "https://x.slack.com", "title": "Slack", "webSocketDebuggerUrl": "ws://b"}
    ]"#);
    let list = match targets { JsonValue::Array(v) => v, _ => panic!() };
    assert_eq!(select_target(&list, 9222), Ok("ws://b".to_string()));
}

#[test]
fn http_request_text() {
    assert_eq!(http_address(9222), "127.0.0.1:9222");
    assert_eq!(
        http_request("/json", 9222),
        "GET /json HTTP/1.1\r\nHost: localhost:9222\r\nConnection: close\r\n\r\n"
    );
}

#[test]
fn header_lines_announce_the_length() {
    assert_eq!(header_step(None, "HTTP/1.1 200 OK\r\n", 17), HeaderStep::Continue(None));
    assert_eq!(header_step(None, "Content-Length: 123\r\n", 21), HeaderStep::Continue(Some(123)));
    assert_eq!(header_step(Some(5), "content-length:7\r\n", 18), HeaderStep::Continue(Some(7)));
    assert_eq!(header_step(Some(5), "Content-Type: x\r\n", 17), HeaderStep::Continue(Some(5)));
    assert_eq!(header_step(Some(5), "CONTENT-LENGTH: 9\r\n", 19), HeaderStep::Continue(Some(5)));
    assert_eq!(header_step(Some(5), "\r\n", 2), HeaderStep::End);
    assert_eq!(header_step(None, "", 0), HeaderStep::End);
    assert_eq!(header_step(None, "Content-Length: abc\r\n", 21), HeaderStep::Invalid(IntErrorKind::InvalidDigit));
    assert_eq!(header_step(None, "Content-Length: \r\n", 18), HeaderStep::Invalid(IntErrorKind::Empty));
}

#[test]
fn bodies_are_decoded_strictly_only_when_their_length_was_announced() {
    assert_eq!(decode_body(b"[]".to_vec(), true), Ok("[]".to_string()));
    assert_eq!(decode_body("é".as_bytes().to_vec(), true), Ok("é".to_string()));
    let bad = vec![b'a', 0xff, b'b'];
    assert_eq!(decode_body(bad.clone(), true), Err(String::from_utf8(bad.clone()).unwrap_err().to_string()));
    assert_eq!(decode_body(bad, false), Ok("a\u{fffd}b".to_string()));
}

#[test]
fn the_port_defaults_to_9222() {
    assert_eq!(cdp_port(None), 9222);
    assert_eq!(cdp_port(Some("9333")), 9333);
    assert_eq!(cdp_port(Some("+80")), 80);
    assert_eq!(cdp_port(Some("not a port")), 9222);
    assert_eq!(cdp_port(Some("70000")), 9222);
    assert_eq!(cdp_port(Some("")), 9222);
    assert_eq!(cdp_port(Some("65535")), 65535);
}

#[test]
fn startup_failures_explain_how_to_start_slack() {
    assert_eq!(launch_hint(9222), "   open -a Slack --args --remote-debugging-port=9222");
    assert_eq!(launch_hint(1234), "   open -a Slack --args --remote-debugging-port=1234");
    let expected = format!(
        "Cannot connect to Slack via CDP on port {}.\n\
         Error: {}\n\n\
         Make sure Slack is running with the remote debugging flag:\n\
         {}\n\n\
         Or set SLACK_CDP_PORT to a different port.",
        9222, "refused", "   open -a Slack --args --remote-debugging-port=9222"
    );
    assert_eq!(connect_failure_message(9222, "refused"), expected);
}
