use serde_json::Value;
use slack_mcp::json::{JsonNumber, JsonValue};
use slack_mcp::scripts::{build_messages_script, build_search_script, build_send_script};
use slack_mcp::tools::{
    finish_tool_call, get_int_arg, get_string_arg, plan_tool_call, tool_definitions, PendingTool,
    ToolResult, ToolStep,
};

fn conv(v: Value) -> JsonValue {
    match v {
        Value::Null => JsonValue::Null,
        Value::Bool(b) => JsonValue::Bool(b),
        Value::Number(n) => JsonValue::Number(if let Some(u) = n.as_u64() {
            JsonNumber::PosInt(u)
        } else if let Some(i) = n.as_i64() {
            JsonNumber::NegInt(i)
        } else {
            JsonNumber::Float(n.to_string())
        }),
        Value::String(s) => JsonValue::String(s),
        Value::Array(a) => JsonValue::Array(a.into_iter().map(conv).collect()),
        Value::Object(m) => JsonValue::Object(m.into_iter().map(|(k, v)| (k, conv(v))).collect()),
    }
}

fn back(v: &JsonValue) -> Value {
    match v {
        JsonValue::Null => Value::Null,
        JsonValue::Bool(b) => Value::Bool(*b),
        JsonValue::Number(JsonNumber::PosInt(u)) => Value::from(*u),
        JsonValue::Number(JsonNumber::NegInt(i)) => Value::from(*i),
        JsonValue::Number(JsonNumber::Float(t)) => serde_json::from_str(t).unwrap(),
        JsonValue::String(s) => Value::String(s.clone()),
        JsonValue::Array(a) => Value::Array(a.iter().map(back).collect()),
        JsonValue::Object(f) => {
            let mut m = serde_json::Map::new();
            for (k, v) in f {
                if !m.contains_key(k) {
                    m.insert(k.clone(), back(v));
                }
            }
            Value::Object(m)
        }
    }
}

fn j(text: &str) -> JsonValue {
    conv(serde_json::from_str(text).unwrap())
}

fn same(a: &JsonValue, text: &str) -> bool {
    back(a) == serde_json::from_str::<Value>(text).unwrap()
}

fn success(r: ToolResult) -> JsonValue {
    match r {
        ToolResult::Success(v) => v,
        ToolResult::Error(m) => panic!("unexpected error: {}", m),
    }
}

fn error(r: ToolResult) -> String {
    match r {
        ToolResult::Error(m) => m,
        ToolResult::Success(v) => panic!("unexpected success: {:?}", v),
    }
}

#[test]
fn tool_definitions_list_the_eleven_tools_in_order() {
    let names: Vec<&str> = tool_definitions().iter().map(|d| d.name).collect();
    assert_eq!(
        names,
        vec![
            "slack_mcp_messages",
            "slack_mcp_channels",
            "slack_mcp_channel",
            "slack_mcp_search",
            "slack_mcp_profile",
            "slack_mcp_unread",
            "slack_mcp_send",
            "slack_mcp_reply",
            "slack_mcp_edit",
            "slack_mcp_delete",
            "slack_mcp_eval",
        ]
    );
    let mut unique = names.clone();
    unique.sort();
    unique.dedup();
    assert_eq!(unique.len(), names.len());
}

#[test]
fn tool_definitions_carry_their_schemas() {
    let defs = tool_definitions();
    assert_eq!(defs[0].description, "Read messages from a Slack channel.");
    assert!(same(
        &defs[0].input_schema,
        r#"{"type": "object", "properties": {
            "channel_id": {"type": "string", "description": "Channel ID (e.g. C017ZMHM4GY). Use slack_mcp_channels to find IDs."},
            "limit": {"type": "integer", "description": "Max messages (default 20)"}},
            "required": ["channel_id"]}"#
    ));
    assert!(same(&defs[1].input_schema, r#"{"type": "object", "properties": {}}"#));
    assert!(same(
        &defs[7].input_schema,
        r#"{"type": "object", "properties": {
            "channel_id": {"type": "string", "description": "Channel ID (e.g. C017ZMHM4GY)"},
            "thread_ts": {"type": "string", "description": "Parent message timestamp (ts) to reply in thread"},
            "text": {"type": "string", "description": "Reply text"}},
            "required": ["channel_id", "thread_ts", "text"]}"#
    ));
    assert_eq!(defs[10].description, "Run raw JavaScript in Slack's page context.");
}

#[test]
fn into_content_and_is_error() {
    let ok = ToolResult::Success(j(r#"{"ok": true}"#));
    assert!(!ok.is_error());
    assert!(same(&ok.into_content(), r#"{"ok": true}"#));
    let err = ToolResult::Error("boom".to_string());
    assert!(err.is_error());
    assert!(same(&err.into_content(), r#"{"ok": false, "message": "boom"}"#));
}

#[test]
fn get_int_arg_reads_limits_as_u32() {
    assert_eq!(get_int_arg(&j("{}"), "limit", 20), 20);
    assert_eq!(get_int_arg(&j(r#"{"limit": 50}"#), "limit", 20), 50);
    assert_eq!(get_int_arg(&j(r#"{"limit": 4294967301}"#), "limit", 20), 5);
    assert_eq!(get_int_arg(&j(r#"{"limit": "50"}"#), "limit", 20), 20);
    assert_eq!(get_int_arg(&j(r#"{"limit": -1}"#), "limit", 10), 10);
    assert_eq!(get_int_arg(&j(r#"{"limit": 2.0}"#), "limit", 10), 10);
}

#[test]
fn get_string_arg_reports_missing_arguments() {
    assert_eq!(get_string_arg(&j(r#"{"channel_id": "C1"}"#), "channel_id"), Ok("C1".to_string()));
    assert_eq!(
        get_string_arg(&j("{}"), "channel_id"),
        Err("Missing or invalid argument: channel_id".to_string())
    );
    assert_eq!(
        get_string_arg(&j(r#"{"text": 3}"#), "text"),
        Err("Missing or invalid argument: text".to_string())
    );
}

#[test]
fn unknown_tools_are_refused() {
    assert_eq!(
        plan_tool_call("slack_mcp_nothing", &j("{}")),
        ToolStep::Done(ToolResult::Error("Unknown tool: slack_mcp_nothing".to_string()))
    );
}

#[test]
fn every_advertised_tool_is_dispatched() {
    for def in tool_definitions() {
        match plan_tool_call(def.name, &j("{}")) {
            ToolStep::Done(ToolResult::Error(m)) => assert!(!m.starts_with("Unknown tool"), "{}", m),
            _ => {}
        }
    }
}

#[test]
fn planning_reads_arguments_and_builds_scripts() {
    assert_eq!(
        plan_tool_call("slack_mcp_messages", &j("{}")),
        ToolStep::Done(ToolResult::Error("Missing or invalid argument: channel_id".to_string()))
    );
    assert_eq!(
        plan_tool_call("slack_mcp_messages", &j(r#"{"channel_id": "C1", "limit": 5}"#)),
        ToolStep::Evaluate(build_messages_script("C1", 5), PendingTool::Messages("C1".to_string()))
    );
    assert_eq!(
        plan_tool_call("slack_mcp_search", &j(r#"{"query": "it's"}"#)),
        ToolStep::Evaluate(build_search_script("it\\'s", 10), PendingTool::Search("it's".to_string()))
    );
    assert_eq!(
        plan_tool_call("slack_mcp_send", &j(r#"{"channel_id": "C1", "text": "a'b\nc"}"#)),
        ToolStep::Evaluate(build_send_script("C1", "a\\'b\\nc"), PendingTool::Send)
    );
    assert_eq!(
        plan_tool_call("slack_mcp_send", &j(r#"{"channel_id": "C1"}"#)),
        ToolStep::Done(ToolResult::Error("Missing or invalid argument: text".to_string()))
    );
    assert_eq!(
        plan_tool_call("slack_mcp_reply", &j(r#"{"channel_id": "C1", "text": "x"}"#)),
        ToolStep::Done(ToolResult::Error("Missing or invalid argument: thread_ts".to_string()))
    );
    assert_eq!(
        plan_tool_call("slack_mcp_eval", &j(r#"{"js": "1 + 1"}"#)),
        ToolStep::Evaluate("1 + 1".to_string(), PendingTool::Eval)
    );
    match plan_tool_call("slack_mcp_channels", &j("null")) {
        ToolStep::Evaluate(_, PendingTool::Channels) => {}
        other => panic!("{:?}", other),
    }
}

fn finish(p: PendingTool, raw: &str) -> ToolResult {
    let parsed = serde_json::from_str::<Value>(raw).ok().map(conv);
    finish_tool_call(p, Ok(raw.to_string()), parsed)
}

#[test]
fn messages_result_reads_the_script_output() {
    let raw = r#"{"channelName": "general", "messages": [{"user": "a"}, {"user": "b"}], "formatted": "F"}"#;
    let v = success(finish(PendingTool::Messages("C1".to_string()), raw));
    assert!(same(
        &v,
        r#"{"ok": true, "channel_id": "C1", "channel_name": "general",
            "messages": [{"user": "a"}, {"user": "b"}], "count": 2, "formatted": "F"}"#
    ));
}

#[test]
fn messages_result_falls_back_when_output_is_not_json() {
    let v = success(finish(PendingTool::Messages("C1".to_string()), "not json"));
    assert!(same(
        &v,
        r#"{"ok": true, "channel_id": "C1", "channel_name": "C1", "messages": null, "count": 0, "formatted": ""}"#
    ));
}

#[test]
fn channels_result_counts_channels() {
    let v = success(finish(PendingTool::Channels, r#"[{"name": "a"}, {"name": "b"}, {"name": "c"}]"#));
    assert!(same(&v, r#"{"ok": true, "channels": [{"name": "a"}, {"name": "b"}, {"name": "c"}], "count": 3}"#));
    let v = success(finish(PendingTool::Channels, "oops"));
    assert!(same(&v, r#"{"ok": true, "channels": "oops", "count": 0}"#));
}

#[test]
fn channel_info_result_is_summarised() {
    let raw = r#"{"name": "general", "topic": "T", "purpose": "P", "members": 42}"#;
    let v = success(finish(PendingTool::ChannelInfo("C1".to_string()), raw));
    assert_eq!(
        v.get_str("formatted"),
        Some("Channel: #general\nTopic: T\nPurpose: P\nMembers: 42")
    );
    assert!(same(v.get("info").unwrap(), raw));
    let v = success(finish(PendingTool::ChannelInfo("C9".to_string()), r#"{"error": "x"}"#));
    assert_eq!(v.get_str("formatted"), Some("Channel: #C9\nTopic: \nPurpose: \nMembers: 0"));
}

#[test]
fn search_result_reports_matches_and_total() {
    let raw = r#"{"matches": [1], "total": 7, "formatted": "S"}"#;
    let v = success(finish(PendingTool::Search("q".to_string()), raw));
    assert!(same(&v, r#"{"ok": true, "query": "q", "result": {"matches": [1], "total": 7}, "formatted": "S"}"#));
}

#[test]
fn profile_and_unread_results_wrap_the_output() {
    let v = success(finish(PendingTool::Profile("U1".to_string()), r#"{"id": "U1"}"#));
    assert!(same(&v, r#"{"ok": true, "user_id": "U1", "profile": {"id": "U1"}}"#));
    let v = success(finish(PendingTool::Unread, "[]"));
    assert!(same(&v, r#"{"ok": true, "unread": []}"#));
}

#[test]
fn posting_results_follow_slacks_ok_flag() {
    let v = success(finish(PendingTool::Send, r#"{"ok": true, "ts": "1.5", "message": {"text": "hi"}}"#));
    assert!(same(&v, r#"{"ok": true, "message": {"text": "hi"}, "ts": "1.5"}"#));
    let v = success(finish(PendingTool::Reply, r#"{"ok": true}"#));
    assert!(same(&v, r#"{"ok": true, "message": null, "ts": null}"#));
    assert_eq!(error(finish(PendingTool::Send, r#"{"ok": false, "error": "channel_not_found"}"#)), "send failed: channel_not_found");
    assert_eq!(error(finish(PendingTool::Reply, r#"{"ok": false}"#)), "reply failed: unknown");
    assert_eq!(error(finish(PendingTool::Edit, "garbage")), "edit failed: unknown");
    assert!(same(&success(finish(PendingTool::Delete, r#"{"ok": true}"#)), r#"{"ok": true}"#));
    assert_eq!(error(finish(PendingTool::Delete, r#"{"ok": "yes"}"#)), "slack_delete failed: unknown");
}

#[test]
fn evaluation_results_get_a_preview() {
    let v = success(finish_tool_call(PendingTool::Eval, Ok("42".to_string()), None));
    assert!(same(&v, r#"{"ok": true, "result": "42", "preview": "42"}"#));
    let long = "x".repeat(600);
    let v = success(finish_tool_call(PendingTool::Eval, Ok(long.clone()), None));
    assert_eq!(v.get_str("preview"), Some(format!("{}... (truncated)", "x".repeat(500)).as_str()));
    assert_eq!(v.get_str("result"), Some(long.as_str()));
}

#[test]
fn failed_evaluations_are_prefixed_per_tool() {
    let e = || Err("JS exception: boom".to_string());
    assert_eq!(error(finish_tool_call(PendingTool::Messages("C".to_string()), e(), None)), "slack_get_messages failed: JS exception: boom");
    assert_eq!(error(finish_tool_call(PendingTool::Channels, e(), None)), "JS exception: boom");
    assert_eq!(error(finish_tool_call(PendingTool::ChannelInfo("C".to_string()), e(), None)), "JS exception: boom");
    assert_eq!(error(finish_tool_call(PendingTool::Search("q".to_string()), e(), None)), "slack_search failed: JS exception: boom");
    assert_eq!(error(finish_tool_call(PendingTool::Profile("u".to_string()), e(), None)), "slack_get_profile failed: JS exception: boom");
    assert_eq!(error(finish_tool_call(PendingTool::Unread, e(), None)), "JS exception: boom");
    assert_eq!(error(finish_tool_call(PendingTool::Send, e(), None)), "send failed: JS exception: boom");
    assert_eq!(error(finish_tool_call(PendingTool::Reply, e(), None)), "reply failed: JS exception: boom");
    assert_eq!(error(finish_tool_call(PendingTool::Edit, e(), None)), "edit failed: JS exception: boom");
    assert_eq!(error(finish_tool_call(PendingTool::Delete, e(), None)), "slack_delete failed: JS exception: boom");
    assert_eq!(error(finish_tool_call(PendingTool::Eval, e(), None)), "slack_eval failed: JS exception: boom");
}

#[test]
fn content_ok_flag_matches_is_error() {
    let results = vec![
        finish(PendingTool::Send, r#"{"ok": false}"#),
        finish(PendingTool::Send, r#"{"ok": true}"#),
        finish(PendingTool::Channels, "[]"),
        finish_tool_call(PendingTool::Eval, Err("x".to_string()), None),
        plan_done(),
    ];
    for r in results {
        let is_error = r.is_error();
        let content = r.into_content();
        assert_eq!(content.get_bool("ok"), Some(!is_error));
    }
}

fn plan_done() -> ToolResult {
    match plan_tool_call("nope", &j("{}")) {
        ToolStep::Done(r) => r,
        _ => panic!(),
    }
}

#[test]
fn missing_required_arguments_are_reported_first_in_schema_order() {
    assert_eq!(
        plan_tool_call("slack_mcp_send", &j(r#"{"channel_id": "C1"}"#)),
        ToolStep::Done(ToolResult::Error("Missing or invalid argument: text".to_string()))
    );
    assert_eq!(
        plan_tool_call("slack_mcp_edit", &j(r#"{"text": "t"}"#)),
        ToolStep::Done(ToolResult::Error("Missing or invalid argument: channel_id".to_string()))
    );
    assert_eq!(
        plan_tool_call("slack_mcp_delete", &j(r#"{"channel_id": "C1", "ts": 5}"#)),
        ToolStep::Done(ToolResult::Error("Missing or invalid argument: ts".to_string()))
    );
    assert!(matches!(plan_tool_call("slack_mcp_unread", &j("{}")), ToolStep::Evaluate(_, PendingTool::Unread)));
}

#[test]
fn finished_calls_never_report_an_unknown_tool() {
    let step = plan_tool_call("slack_mcp_channels", &j("{}"));
    let pending = match step {
        ToolStep::Evaluate(_, p) => p,
        _ => panic!(),
    };
    let r = finish_tool_call(pending, Err("timeout".to_string()), None);
    assert_eq!(error(r), "timeout");
}
