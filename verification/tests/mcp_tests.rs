use serde_json::Value;
use slack_mcp::json::{JsonNumber, JsonValue};
use slack_mcp::mcp::{JsonRpcMessage, JsonRpcResponse, McpServer, McpStep};

fn conv(v: Value) -> JsonValue {
    match v {
        Value::Null => JsonValue::Null,
        Value::Bool(b) => JsonValue::Bool(b),
        Value::Number(n) => JsonValue::Number(if let Some(u) = n.as_u64() {
            JsonNumber::PosInt(u)
        } else if let Some(i) = n.as_i64() {
            JsonNumber::NegInt(i)
        } else {
            JsonNumber::Float(n.to_string())
        }),
        Value::String(s) => JsonValue::String(s),
        Value::Array(a) => JsonValue::Array(a.into_iter().map(conv).collect()),
        Value::Object(m) => JsonValue::Object(m.into_iter().map(|(k, v)| (k, conv(v))).collect()),
    }
}

fn back(v: &JsonValue) -> Value {
    match v {
        JsonValue::Null => Value::Null,
        JsonValue::Bool(b) => Value::Bool(*b),
        JsonValue::Number(JsonNumber::PosInt(u)) => Value::from(*u),
        JsonValue::Number(JsonNumber::NegInt(i)) => Value::from(*i),
        JsonValue::Number(JsonNumber::Float(t)) => serde_json::from_str(t).unwrap(),
        JsonValue::String(s) => Value::String(s.clone()),
        JsonValue::Array(a) => Value::Array(a.iter().map(back).collect()),
        JsonValue::Object(f) => {
            let mut m = serde_json::Map::new();
            for (k, v) in f {
                if !m.contains_key(k) {
                    m.insert(k.clone(), back(v));
                }
            }
            Value::Object(m)
        }
    }
}

fn j(text: &str) -> JsonValue {
    conv(serde_json::from_str(text).unwrap())
}

fn same(a: &JsonValue, text: &str) -> bool {
    back(a) == serde_json::from_str::<Value>(text).unwrap()
}


fn msg(text: &str) -> JsonRpcMessage {
    let v: Value = serde_json::from_str(text).unwrap();
    JsonRpcMessage {
        jsonrpc: "2.0".to_string(),
        id: v.get("id").cloned().filter(|x| !x.is_null()).map(conv),
        method: v.get("method").and_then(|m| m.as_str()).map(|s| s.to_string()),
        params: v.get("params").cloned().filter(|x| !x.is_null()).map(conv),
    }
}

fn reply(server: &McpServer<()>, text: &str) -> JsonRpcResponse {
    match server.handle_message(&msg(text)) {
        McpStep::Reply(r) => r,
        other => panic!("no reply: {:?}", other),
    }
}

fn result_of(r: &JsonRpcResponse) -> &JsonValue {
    assert!(r.error.is_none());
    r.result.as_ref().unwrap()
}

#[test]
fn new_keeps_the_automation() {
    let server = McpServer::new(7u8);
    assert_eq!(*server.automation(), 7u8);
}

#[test]
fn notifications_get_no_answer() {
    let server = McpServer::new(());
    assert_eq!(server.handle_message(&msg(r#"{"method": "ping"}"#)), McpStep::Silent);
    assert_eq!(server.handle_message(&msg(r#"{"id": 1, "method": "notifications/initialized"}"#)), McpStep::Silent);
    assert_eq!(server.handle_message(&msg(r#"{"id": 1, "method": "initialized"}"#)), McpStep::Silent);
    assert_eq!(server.handle_message(&msg(r#"{"id": null, "method": "tools/list"}"#)), McpStep::Silent);
}

#[test]
fn missing_method_is_an_invalid_request() {
    let server = McpServer::new(());
    let r = reply(&server, r#"{"id": 3}"#);
    assert_eq!(r.jsonrpc, "2.0");
    assert_eq!(r.id, Some(j("3")));
    assert!(r.result.is_none());
    let e = r.error.unwrap();
    assert_eq!(e.code, -32600);
    assert_eq!(e.message, "Invalid Request: missing method");
    assert_eq!(e.data, None);
}

#[test]
fn unknown_methods_are_not_found() {
    let server = McpServer::new(());
    let r = reply(&server, r#"{"id": "a", "method": "foo/bar"}"#);
    assert_eq!(r.id, Some(j("\"a\"")));
    let e = r.error.unwrap();
    assert_eq!(e.code, -32601);
    assert_eq!(e.message, "Method not found: foo/bar");
}

#[test]
fn initialize_echoes_the_protocol_version() {
    let server = McpServer::new(());
    let r = reply(&server, r#"{"id": 1, "method": "initialize", "params": {"protocolVersion": "2025-03-26"}}"#);
    assert!(same(
        result_of(&r),
        r#"{"protocolVersion": "2025-03-26", "capabilities": {"tools": {}},
            "serverInfo": {"name": "slack_mcp", "version": "0.1.0"}}"#
    ));
    let r = reply(&server, r#"{"id": 2, "method": "initialize"}"#);
    assert_eq!(result_of(&r).get_str("protocolVersion"), Some("2024-11-05"));
}

#[test]
fn simple_methods_answer_empty_lists() {
    let server = McpServer::new(());
    assert!(same(result_of(&reply(&server, r#"{"id": 1, "method": "ping"}"#)), "{}"));
    assert!(same(result_of(&reply(&server, r#"{"id": 1, "method": "resources/list"}"#)), r#"{"resources": []}"#));
    assert!(same(result_of(&reply(&server, r#"{"id": 1, "method": "prompts/list"}"#)), r#"{"prompts": []}"#));
}

#[test]
fn tools_list_shows_every_tool() {
    let server = McpServer::new(());
    let r = reply(&server, r#"{"id": 9, "method": "tools/list"}"#);
    let tools = result_of(&r).get("tools").unwrap();
    assert_eq!(tools.array_len(), 11);
    match tools {
        JsonValue::Array(items) => {
            assert_eq!(items[0].get_str("name"), Some("slack_mcp_messages"));
            assert_eq!(items[10].get_str("name"), Some("slack_mcp_eval"));
            assert!(same(
                items[10].get("inputSchema").unwrap(),
                r#"{"type": "object", "properties": {"js": {"type": "string", "description": "JavaScript expression"}}, "required": ["js"]}"#
            ));
        }
        _ => panic!(),
    }
}

#[test]
fn tools_call_checks_its_parameters() {
    let server = McpServer::new(());
    let r = reply(&server, r#"{"id": 1, "method": "tools/call"}"#);
    let e = r.error.unwrap();
    assert_eq!((e.code, e.message.as_str()), (-32602, "Invalid params: missing"));
    let r = reply(&server, r#"{"id": 1, "method": "tools/call", "params": {"arguments": {}}}"#);
    let e = r.error.unwrap();
    assert_eq!((e.code, e.message.as_str()), (-32602, "Invalid params: missing tool name"));
    assert_eq!(
        server.handle_message(&msg(r#"{"id": 4, "method": "tools/call", "params": {"name": "slack_mcp_channels"}}"#)),
        McpStep::CallTool(j("4"), "slack_mcp_channels".to_string(), j("{}"))
    );
    assert_eq!(
        server.handle_message(&msg(r#"{"id": 5, "method": "tools/call", "params": {"name": "x", "arguments": {"a": 1}}}"#)),
        McpStep::CallTool(j("5"), "x".to_string(), j(r#"{"a": 1}"#))
    );
}

#[test]
fn tools_call_reply_wraps_the_content() {
    let r = McpServer::<()>::tools_call_reply(j("7"), "{\"ok\":true}".to_string(), false);
    assert_eq!(r.id, Some(j("7")));
    assert!(same(
        result_of(&r),
        r#"{"content": [{"type": "text", "text": "{\"ok\":true}"}], "isError": false}"#
    ));
    let r = McpServer::<()>::tools_call_reply(j("8"), "x".to_string(), true);
    assert_eq!(result_of(&r).get_bool("isError"), Some(true));
}
