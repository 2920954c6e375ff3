//! The MCP tools: their definitions, their arguments, the script that each
//! one runs in the Slack page and what each makes of the script's result.
use vstd::prelude::*;
use vstd::string::*;

use crate::json::{
    array_one, array_three, array_two, count_json, fields_of, get_bool, get_or_null, get_str,
    get_str_or, get_u64, json_array_len, json_count, json_get, json_string, lemma_fields_of, object,
    object_four, object_one, object_six, object_three, object_two, owned, Json, JsonNumber,
    JsonValue, NumberModel,
};
use crate::scripts::{
    build_channel_info_script, build_delete_script, build_edit_script, build_messages_script,
    build_profile_script, build_reply_script, build_search_script, build_send_script,
    channel_info_script, delete_script, edit_script, messages_script, profile_script, reply_script,
    search_script, send_script, CHANNELS_SCRIPT, CHANNEL_INFO_SCRIPT_A, CHANNEL_INFO_SCRIPT_B,
    DELETE_SCRIPT_A, DELETE_SCRIPT_B, DELETE_SCRIPT_C, EDIT_SCRIPT_A, EDIT_SCRIPT_B, EDIT_SCRIPT_C,
    EDIT_SCRIPT_D, MESSAGES_SCRIPT_A, MESSAGES_SCRIPT_B, MESSAGES_SCRIPT_C, MESSAGES_SCRIPT_D,
    MESSAGES_SCRIPT_E, PROFILE_SCRIPT_A, PROFILE_SCRIPT_B, REPLY_SCRIPT_A, REPLY_SCRIPT_B,
    REPLY_SCRIPT_C, REPLY_SCRIPT_D, SEARCH_SCRIPT_A, SEARCH_SCRIPT_B, SEARCH_SCRIPT_C,
    SEND_SCRIPT_A, SEND_SCRIPT_B, SEND_SCRIPT_C, UNREAD_SCRIPT,
};
use crate::text::{
    can_cut, decimal, escape_js_string, js_literal_body, js_unescape,
    law_escaped_text_is_literal_body, law_js_unescape_inverts_escape, escape_quotes, js_escape, preview, push_decimal,
    replace_char, str_eq, truncate_preview,
};
use vstd::utf8::{encode_utf8, is_char_boundary};

verus! {

pub const TOOL_MESSAGES: &'static str = "slack_mcp_messages";
pub const TOOL_CHANNELS: &'static str = "slack_mcp_channels";
pub const TOOL_CHANNEL: &'static str = "slack_mcp_channel";
pub const TOOL_SEARCH: &'static str = "slack_mcp_search";
pub const TOOL_PROFILE: &'static str = "slack_mcp_profile";
pub const TOOL_UNREAD: &'static str = "slack_mcp_unread";
pub const TOOL_SEND: &'static str = "slack_mcp_send";
pub const TOOL_REPLY: &'static str = "slack_mcp_reply";
pub const TOOL_EDIT: &'static str = "slack_mcp_edit";
pub const TOOL_DELETE: &'static str = "slack_mcp_delete";
pub const TOOL_EVAL: &'static str = "slack_mcp_eval";

pub const CHANNEL_ID_DESCRIPTION: &'static str = "Channel ID (e.g. C017ZMHM4GY)";

// ---------------------------------------------------------------------------
// Definitions
// ---------------------------------------------------------------------------

/// A tool as `tools/list` advertises it.
pub struct ToolDefinition {
    pub name: &'static str,
    pub description: &'static str,
    pub input_schema: JsonValue,
}

/// The model of a tool definition.
pub struct ToolModel {
    pub name: Seq<char>,
    pub description: Seq<char>,
    pub input_schema: Json,
}

impl View for ToolDefinition {
    type V = ToolModel;

    open spec fn view(&self) -> ToolModel {
        ToolModel {
            name: self.name@,
            description: self.description@,
            input_schema: self.input_schema@,
        }
    }
}

/// The schema of one argument.
pub open spec fn property_model(kind: Seq<char>, description: Seq<char>) -> Json {
    Json::Object(seq![("type"@, Json::Str(kind)), ("description"@, Json::Str(description))])
}

/// The schema of an argument object whose members `required` must be present.
pub open spec fn schema_model(properties: Json, required: Json) -> Json {
    Json::Object(
        seq![
            ("type"@, Json::Str("object"@)),
            ("properties"@, properties),
            ("required"@, required),
        ],
    )
}

/// The schema of an argument object without required members.
pub open spec fn open_schema_model(properties: Json) -> Json {
    Json::Object(seq![("type"@, Json::Str("object"@)), ("properties"@, properties)])
}

/// The schema of a string argument.
pub open spec fn string_property(description: Seq<char>) -> Json {
    property_model("string"@, description)
}

/// The schema of an integer argument.
pub open spec fn integer_property(description: Seq<char>) -> Json {
    property_model("integer"@, description)
}

/// The tools that the server offers, in the order `tools/list` gives them.
pub open spec fn tool_table() -> Seq<ToolModel> {
    seq![
        ToolModel {
            name: TOOL_MESSAGES@,
            description: "Read messages from a Slack channel."@,
            input_schema: schema_model(
                Json::Object(
                    seq![
                        ("channel_id"@, string_property("Channel ID (e.g. C017ZMHM4GY). Use slack_mcp_channels to find IDs."@)),
                        ("limit"@, integer_property("Max messages (default 20)"@)),
                    ],
                ),
                Json::Array(seq![Json::Str("channel_id"@)]),
            ),
        },
        ToolModel {
            name: TOOL_CHANNELS@,
            description: "List visible channels and DMs from the sidebar with their IDs and unread status."@,
            input_schema: open_schema_model(Json::Object(Seq::empty())),
        },
        ToolModel {
            name: TOOL_CHANNEL@,
            description: "Get channel details: name, topic, purpose, member count."@,
            input_schema: schema_model(
                Json::Object(seq![("channel_id"@, string_property(CHANNEL_ID_DESCRIPTION@))]),
                Json::Array(seq![Json::Str("channel_id"@)]),
            ),
        },
        ToolModel {
            name: TOOL_SEARCH@,
            description: "Search messages across the workspace by keyword, user, or channel."@,
            input_schema: schema_model(
                Json::Object(
                    seq![
                        ("query"@, string_property("Search query (supports Slack search syntax like from:@user, in:channel)"@)),
                        ("limit"@, integer_property("Max results (default 10)"@)),
                    ],
                ),
                Json::Array(seq![Json::Str("query"@)]),
            ),
        },
        ToolModel {
            name: TOOL_PROFILE@,
            description: "Get user profile info (name, display name, email, title)."@,
            input_schema: schema_model(
                Json::Object(seq![("user_id"@, string_property("User ID (e.g. U03V9E14Y2K)"@))]),
                Json::Array(seq![Json::Str("user_id"@)]),
            ),
        },
        ToolModel {
            name: TOOL_UNREAD@,
            description: "List channels with unread badges from the sidebar."@,
            input_schema: open_schema_model(Json::Object(Seq::empty())),
        },
        ToolModel {
            name: TOOL_SEND@,
            description: "Send a message to a Slack channel."@,
            input_schema: schema_model(
                Json::Object(
                    seq![
                        ("channel_id"@, string_property(CHANNEL_ID_DESCRIPTION@)),
                        ("text"@, string_property("Message text"@)),
                    ],
                ),
                Json::Array(seq![Json::Str("channel_id"@), Json::Str("text"@)]),
            ),
        },
        ToolModel {
            name: TOOL_REPLY@,
            description: "Reply to a message thread."@,
            input_schema: schema_model(
                Json::Object(
                    seq![
                        ("channel_id"@, string_property(CHANNEL_ID_DESCRIPTION@)),
                        ("thread_ts"@, string_property("Parent message timestamp (ts) to reply in thread"@)),
                        ("text"@, string_property("Reply text"@)),
                    ],
                ),
                Json::Array(seq![Json::Str("channel_id"@), Json::Str("thread_ts"@), Json::Str("text"@)]),
            ),
        },
        ToolModel {
            name: TOOL_EDIT@,
            description: "Edit an existing message."@,
            input_schema: schema_model(
                Json::Object(
                    seq![
                        ("channel_id"@, string_property(CHANNEL_ID_DESCRIPTION@)),
                        ("ts"@, string_property("Message timestamp (ts) to edit"@)),
                        ("text"@, string_property("New message text"@)),
                    ],
                ),
                Json::Array(seq![Json::Str("channel_id"@), Json::Str("ts"@), Json::Str("text"@)]),
            ),
        },
        ToolModel {
            name: TOOL_DELETE@,
            description: "Delete a message."@,
            input_schema: schema_model(
                Json::Object(
                    seq![
                        ("channel_id"@, string_property(CHANNEL_ID_DESCRIPTION@)),
                        ("ts"@, string_property("Message timestamp (ts) to delete"@)),
                    ],
                ),
                Json::Array(seq![Json::Str("channel_id"@), Json::Str("ts"@)]),
            ),
        },
        ToolModel {
            name: TOOL_EVAL@,
            description: "Run raw JavaScript in Slack's page context."@,
            input_schema: schema_model(
                Json::Object(seq![("js"@, string_property("JavaScript expression"@))]),
                Json::Array(seq![Json::Str("js"@)]),
            ),
        },
    ]
}

fn string_prop(description: &str) -> (r: JsonValue)
    ensures
        r@ == string_property(description@),
{
    object_two("type", json_string("string"), "description", json_string(description))
}

fn integer_prop(description: &str) -> (r: JsonValue)
    ensures
        r@ == integer_property(description@),
{
    object_two("type", json_string("integer"), "description", json_string(description))
}

fn schema(properties: JsonValue, required: JsonValue) -> (r: JsonValue)
    ensures
        r@ == schema_model(properties@, required@),
{
    object_three("type", json_string("object"), "properties", properties, "required", required)
}

fn open_schema() -> (r: JsonValue)
    ensures
        r@ == open_schema_model(Json::Object(Seq::empty())),
{
    let props = object(Vec::new());
    proof {
        lemma_fields_of(Seq::<(String, JsonValue)>::empty());
        assert(fields_of(Seq::<(String, JsonValue)>::empty()) =~= Seq::empty());
    }
    object_two("type", json_string("object"), "properties", props)
}

fn definition(name: &'static str, description: &'static str, input_schema: JsonValue) -> (r: ToolDefinition)
    ensures
        r@ == (ToolModel { name: name@, description: description@, input_schema: input_schema@ }),
{
    ToolDefinition { name, description, input_schema }
}

/// The tools that the server offers.
pub fn tool_definitions() -> (defs: Vec<ToolDefinition>)
    ensures
        defs.len() == tool_table().len(),
        forall|i: int| 0 <= i < defs.len() ==> (#[trigger] defs@[i])@ == tool_table()[i],
{
    let messages = definition(
        TOOL_MESSAGES,
        "Read messages from a Slack channel.",
        schema(
            object_two(
                "channel_id",
                string_prop("Channel ID (e.g. C017ZMHM4GY). Use slack_mcp_channels to find IDs."),
                "limit",
                integer_prop("Max messages (default 20)"),
            ),
            array_one(json_string("channel_id")),
        ),
    );
    let channels = definition(
        TOOL_CHANNELS,
        "List visible channels and DMs from the sidebar with their IDs and unread status.",
        open_schema(),
    );
    let channel = definition(
        TOOL_CHANNEL,
        "Get channel details: name, topic, purpose, member count.",
        schema(
            object_one("channel_id", string_prop(CHANNEL_ID_DESCRIPTION)),
            array_one(json_string("channel_id")),
        ),
    );
    let search = definition(
        TOOL_SEARCH,
        "Search messages across the workspace by keyword, user, or channel.",
        schema(
            object_two(
                "query",
                string_prop("Search query (supports Slack search syntax like from:@user, in:channel)"),
                "limit",
                integer_prop("Max results (default 10)"),
            ),
            array_one(json_string("query")),
        ),
    );
    let profile = definition(
        TOOL_PROFILE,
        "Get user profile info (name, display name, email, title).",
        schema(
            object_one("user_id", string_prop("User ID (e.g. U03V9E14Y2K)")),
            array_one(json_string("user_id")),
        ),
    );
    let unread = definition(
        TOOL_UNREAD,
        "List channels with unread badges from the sidebar.",
        open_schema(),
    );
    let send = definition(
        TOOL_SEND,
        "Send a message to a Slack channel.",
        schema(
            object_two(
                "channel_id",
                string_prop(CHANNEL_ID_DESCRIPTION),
                "text",
                string_prop("Message text"),
            ),
            array_two(json_string("channel_id"), json_string("text")),
        ),
    );
    let reply = definition(
        TOOL_REPLY,
        "Reply to a message thread.",
        schema(
            object_three(
                "channel_id",
                string_prop(CHANNEL_ID_DESCRIPTION),
                "thread_ts",
                string_prop("Parent message timestamp (ts) to reply in thread"),
                "text",
                string_prop("Reply text"),
            ),
            array_three(json_string("channel_id"), json_string("thread_ts"), json_string("text")),
        ),
    );
    let edit = definition(
        TOOL_EDIT,
        "Edit an existing message.",
        schema(
            object_three(
                "channel_id",
                string_prop(CHANNEL_ID_DESCRIPTION),
                "ts",
                string_prop("Message timestamp (ts) to edit"),
                "text",
                string_prop("New message text"),
            ),
            array_three(json_string("channel_id"), json_string("ts"), json_string("text")),
        ),
    );
    let delete = definition(
        TOOL_DELETE,
        "Delete a message.",
        schema(
            object_two(
                "channel_id",
                string_prop(CHANNEL_ID_DESCRIPTION),
                "ts",
                string_prop("Message timestamp (ts) to delete"),
            ),
            array_two(json_string("channel_id"), json_string("ts")),
        ),
    );
    let eval = definition(
        TOOL_EVAL,
        "Run raw JavaScript in Slack's page context.",
        schema(object_one("js", string_prop("JavaScript expression")), array_one(json_string("js"))),
    );
    let defs = vec![messages, channels, channel, search, profile, unread, send, reply, edit, delete, eval];
    assert(defs@.len() == tool_table().len());
    defs
}


// ---------------------------------------------------------------------------
// Results
// ---------------------------------------------------------------------------

/// What a tool call produced: a JSON value, or an error message.
#[derive(Debug, PartialEq)]
pub enum ToolResult {
    Success(JsonValue),
    Error(String),
}

/// The model of a tool result.
pub enum ToolOutcome {
    Success(Json),
    Error(Seq<char>),
}

impl View for ToolResult {
    type V = ToolOutcome;

    open spec fn view(&self) -> ToolOutcome {
        match self {
            ToolResult::Success(v) => ToolOutcome::Success(v@),
            ToolResult::Error(m) => ToolOutcome::Error(m@),
        }
    }
}

/// The JSON that a tool result is reported as: a success's value, or
/// `{"ok": false, "message": ...}` for an error.
pub open spec fn content_of(r: ToolOutcome) -> Json {
    match r {
        ToolOutcome::Success(v) => v,
        ToolOutcome::Error(m) => Json::Object(seq![("ok"@, Json::Bool(false)), ("message"@, Json::Str(m))]),
    }
}

impl ToolResult {
    /// The JSON that this result is reported as.
    pub fn into_content(self) -> (r: JsonValue)
        ensures
            r@ == content_of(self@),
    {
        match self {
            ToolResult::Success(val) => val,
            ToolResult::Error(msg) => object_two("ok", JsonValue::Bool(false), "message", JsonValue::String(msg)),
        }
    }

    /// Whether this result is an error.
    pub fn is_error(&self) -> (r: bool)
        ensures
            r == (self@ is Error),
    {
        match self {
            ToolResult::Error(_) => true,
            ToolResult::Success(_) => false,
        }
    }
}

// ---------------------------------------------------------------------------
// Arguments
// ---------------------------------------------------------------------------

pub const MISSING_ARGUMENT: &'static str = "Missing or invalid argument: ";

/// The integer argument `key`, or `default`, cut to its low 32 bits
/// (`as u32`).
pub open spec fn int_arg(args: Json, key: Seq<char>, default: u32) -> u32 {
    let n: u64 = match get_u64(args, key) {
        Some(n) => n,
        None => default as u64,
    };
    (n % 0x1_0000_0000) as u32
}

/// The string argument `key`, or the message that it is missing.
pub open spec fn string_arg(args: Json, key: Seq<char>) -> Result<Seq<char>, Seq<char>> {
    match get_str(args, key) {
        Some(s) => Ok(s),
        None => Err(MISSING_ARGUMENT@ + key),
    }
}

/// The integer argument `key`, or `default`.
pub fn get_int_arg(args: &JsonValue, key: &str, default: u32) -> (r: u32)
    ensures
        r == int_arg(args@, key@, default),
{
    let n: u64 = match args.get_u64(key) {
        Some(n) => n,
        None => default as u64,
    };
    assert((n as u32) == (n % 0x1_0000_0000) as u32) by (bit_vector);
    #[verifier::truncate]
    (n as u32)
}

/// The string argument `key`, or the message that it is missing or not a string.
pub fn get_string_arg(args: &JsonValue, key: &str) -> (r: Result<String, String>)
    ensures
        match r {
            Ok(s) => string_arg(args@, key@) == Ok::<Seq<char>, Seq<char>>(s@),
            Err(e) => string_arg(args@, key@) == Err::<Seq<char>, Seq<char>>(e@),
        },
{
    match args.get_str(key) {
        Some(s) => Ok(owned(s)),
        None => {
            let mut m = owned(MISSING_ARGUMENT);
            m.append(key);
            Err(m)
        },
    }
}

// ---------------------------------------------------------------------------
// Planning a call
// ---------------------------------------------------------------------------

pub const UNKNOWN_TOOL: &'static str = "Unknown tool: ";

/// A tool call that waits for the result of its script, with what it
/// needs to finish.
#[derive(Debug, PartialEq)]
pub enum PendingTool {
    Messages(String),
    Channels,
    ChannelInfo(String),
    Search(String),
    Profile(String),
    Unread,
    Send,
    Reply,
    Edit,
    Delete,
    Eval,
}

/// The model of a pending tool call.
pub enum PendingModel {
    Messages(Seq<char>),
    Channels,
    ChannelInfo(Seq<char>),
    Search(Seq<char>),
    Profile(Seq<char>),
    Unread,
    Send,
    Reply,
    Edit,
    Delete,
    Eval,
}

impl View for PendingTool {
    type V = PendingModel;

    open spec fn view(&self) -> PendingModel {
        match self {
            PendingTool::Messages(c) => PendingModel::Messages(c@),
            PendingTool::Channels => PendingModel::Channels,
            PendingTool::ChannelInfo(c) => PendingModel::ChannelInfo(c@),
            PendingTool::Search(q) => PendingModel::Search(q@),
            PendingTool::Profile(u) => PendingModel::Profile(u@),
            PendingTool::Unread => PendingModel::Unread,
            PendingTool::Send => PendingModel::Send,
            PendingTool::Reply => PendingModel::Reply,
            PendingTool::Edit => PendingModel::Edit,
            PendingTool::Delete => PendingModel::Delete,
            PendingTool::Eval => PendingModel::Eval,
        }
    }
}

/// The first step of a tool call: either it is already over (a missing
/// argument, an unknown tool), or a script must run in the Slack page.
#[derive(Debug, PartialEq)]
pub enum ToolStep {
    Done(ToolResult),
    Evaluate(String, PendingTool),
}

/// The model of a tool step.
pub enum StepModel {
    Done(ToolOutcome),
    Evaluate(Seq<char>, PendingModel),
}

impl View for ToolStep {
    type V = StepModel;

    open spec fn view(&self) -> StepModel {
        match self {
            ToolStep::Done(r) => StepModel::Done(r@),
            ToolStep::Evaluate(js, p) => StepModel::Evaluate(js@, p@),
        }
    }
}

pub open spec fn missing(e: Seq<char>) -> StepModel {
    StepModel::Done(ToolOutcome::Error(e))
}

pub open spec fn plan_messages(args: Json) -> StepModel {
    match string_arg(args, "channel_id"@) {
        Ok(c) => StepModel::Evaluate(
            messages_script(c, int_arg(args, "limit"@, 20)),
            PendingModel::Messages(c),
        ),
        Err(e) => missing(e),
    }
}

pub open spec fn plan_channel_info(args: Json) -> StepModel {
    match string_arg(args, "channel_id"@) {
        Ok(c) => StepModel::Evaluate(channel_info_script(c), PendingModel::ChannelInfo(c)),
        Err(e) => missing(e),
    }
}

pub open spec fn plan_search(args: Json) -> StepModel {
    match string_arg(args, "query"@) {
        Ok(q) => StepModel::Evaluate(
            search_script(replace_char(q, '\'', seq!['\\', '\'']), int_arg(args, "limit"@, 10)),
            PendingModel::Search(q),
        ),
        Err(e) => missing(e),
    }
}

pub open spec fn plan_profile(args: Json) -> StepModel {
    match string_arg(args, "user_id"@) {
        Ok(u) => StepModel::Evaluate(profile_script(u), PendingModel::Profile(u)),
        Err(e) => missing(e),
    }
}

pub open spec fn plan_send(args: Json) -> StepModel {
    match string_arg(args, "channel_id"@) {
        Err(e) => missing(e),
        Ok(c) => match string_arg(args, "text"@) {
            Err(e) => missing(e),
            Ok(t) => StepModel::Evaluate(send_script(c, js_escape(t)), PendingModel::Send),
        },
    }
}

pub open spec fn plan_reply(args: Json) -> StepModel {
    match string_arg(args, "channel_id"@) {
        Err(e) => missing(e),
        Ok(c) => match string_arg(args, "thread_ts"@) {
            Err(e) => missing(e),
            Ok(th) => match string_arg(args, "text"@) {
                Err(e) => missing(e),
                Ok(t) => StepModel::Evaluate(reply_script(c, th, js_escape(t)), PendingModel::Reply),
            },
        },
    }
}

pub open spec fn plan_edit(args: Json) -> StepModel {
    match string_arg(args, "channel_id"@) {
        Err(e) => missing(e),
        Ok(c) => match string_arg(args, "ts"@) {
            Err(e) => missing(e),
            Ok(ts) => match string_arg(args, "text"@) {
                Err(e) => missing(e),
                Ok(t) => StepModel::Evaluate(edit_script(c, ts, js_escape(t)), PendingModel::Edit),
            },
        },
    }
}

pub open spec fn plan_delete(args: Json) -> StepModel {
    match string_arg(args, "channel_id"@) {
        Err(e) => missing(e),
        Ok(c) => match string_arg(args, "ts"@) {
            Err(e) => missing(e),
            Ok(ts) => StepModel::Evaluate(delete_script(c, ts), PendingModel::Delete),
        },
    }
}

pub open spec fn plan_eval(args: Json) -> StepModel {
    match string_arg(args, "js"@) {
        Ok(js) => StepModel::Evaluate(js, PendingModel::Eval),
        Err(e) => missing(e),
    }
}

/// The first step of calling the tool `name` with `args`.
pub open spec fn plan_model(name: Seq<char>, args: Json) -> StepModel {
    if name == TOOL_MESSAGES@ {
        plan_messages(args)
    } else if name == TOOL_CHANNELS@ {
        StepModel::Evaluate(CHANNELS_SCRIPT@, PendingModel::Channels)
    } else if name == TOOL_CHANNEL@ {
        plan_channel_info(args)
    } else if name == TOOL_SEARCH@ {
        plan_search(args)
    } else if name == TOOL_PROFILE@ {
        plan_profile(args)
    } else if name == TOOL_UNREAD@ {
        StepModel::Evaluate(UNREAD_SCRIPT@, PendingModel::Unread)
    } else if name == TOOL_SEND@ {
        plan_send(args)
    } else if name == TOOL_REPLY@ {
        plan_reply(args)
    } else if name == TOOL_EDIT@ {
        plan_edit(args)
    } else if name == TOOL_DELETE@ {
        plan_delete(args)
    } else if name == TOOL_EVAL@ {
        plan_eval(args)
    } else {
        StepModel::Done(ToolOutcome::Error(UNKNOWN_TOOL@ + name))
    }
}

fn step_missing(e: String) -> (r: ToolStep)
    ensures
        r@ == missing(e@),
{
    ToolStep::Done(ToolResult::Error(e))
}

fn plan_messages_call(args: &JsonValue) -> (r: ToolStep)
    ensures
        r@ == plan_messages(args@),
{
    let channel_id = match get_string_arg(args, "channel_id") {
        Ok(c) => c,
        Err(e) => return step_missing(e),
    };
    let limit = get_int_arg(args, "limit", 20);
    let js = build_messages_script(channel_id.as_str(), limit);
    ToolStep::Evaluate(js, PendingTool::Messages(channel_id))
}

fn plan_channel_info_call(args: &JsonValue) -> (r: ToolStep)
    ensures
        r@ == plan_channel_info(args@),
{
    let channel_id = match get_string_arg(args, "channel_id") {
        Ok(c) => c,
        Err(e) => return step_missing(e),
    };
    let js = build_channel_info_script(channel_id.as_str());
    ToolStep::Evaluate(js, PendingTool::ChannelInfo(channel_id))
}

fn plan_search_call(args: &JsonValue) -> (r: ToolStep)
    ensures
        r@ == plan_search(args@),
{
    let query = match get_string_arg(args, "query") {
        Ok(q) => q,
        Err(e) => return step_missing(e),
    };
    let count = get_int_arg(args, "limit", 10);
    let escaped = escape_quotes(query.as_str());
    let js = build_search_script(escaped.as_str(), count);
    ToolStep::Evaluate(js, PendingTool::Search(query))
}

fn plan_profile_call(args: &JsonValue) -> (r: ToolStep)
    ensures
        r@ == plan_profile(args@),
{
    let user_id = match get_string_arg(args, "user_id") {
        Ok(u) => u,
        Err(e) => return step_missing(e),
    };
    let js = build_profile_script(user_id.as_str());
    ToolStep::Evaluate(js, PendingTool::Profile(user_id))
}

fn plan_send_call(args: &JsonValue) -> (r: ToolStep)
    ensures
        r@ == plan_send(args@),
{
    let channel_id = match get_string_arg(args, "channel_id") {
        Ok(c) => c,
        Err(e) => return step_missing(e),
    };
    let text = match get_string_arg(args, "text") {
        Ok(t) => t,
        Err(e) => return step_missing(e),
    };
    let escaped = escape_js_string(text.as_str());
    let js = build_send_script(channel_id.as_str(), escaped.as_str());
    ToolStep::Evaluate(js, PendingTool::Send)
}

fn plan_reply_call(args: &JsonValue) -> (r: ToolStep)
    ensures
        r@ == plan_reply(args@),
{
    let channel_id = match get_string_arg(args, "channel_id") {
        Ok(c) => c,
        Err(e) => return step_missing(e),
    };
    let thread_ts = match get_string_arg(args, "thread_ts") {
        Ok(t) => t,
        Err(e) => return step_missing(e),
    };
    let text = match get_string_arg(args, "text") {
        Ok(t) => t,
        Err(e) => return step_missing(e),
    };
    let escaped = escape_js_string(text.as_str());
    let js = build_reply_script(channel_id.as_str(), thread_ts.as_str(), escaped.as_str());
    ToolStep::Evaluate(js, PendingTool::Reply)
}

fn plan_edit_call(args: &JsonValue) -> (r: ToolStep)
    ensures
        r@ == plan_edit(args@),
{
    let channel_id = match get_string_arg(args, "channel_id") {
        Ok(c) => c,
        Err(e) => return step_missing(e),
    };
    let ts = match get_string_arg(args, "ts") {
        Ok(t) => t,
        Err(e) => return step_missing(e),
    };
    let text = match get_string_arg(args, "text") {
        Ok(t) => t,
        Err(e) => return step_missing(e),
    };
    let escaped = escape_js_string(text.as_str());
    let js = build_edit_script(channel_id.as_str(), ts.as_str(), escaped.as_str());
    ToolStep::Evaluate(js, PendingTool::Edit)
}

fn plan_delete_call(args: &JsonValue) -> (r: ToolStep)
    ensures
        r@ == plan_delete(args@),
{
    let channel_id = match get_string_arg(args, "channel_id") {
        Ok(c) => c,
        Err(e) => return step_missing(e),
    };
    let ts = match get_string_arg(args, "ts") {
        Ok(t) => t,
        Err(e) => return step_missing(e),
    };
    let js = build_delete_script(channel_id.as_str(), ts.as_str());
    ToolStep::Evaluate(js, PendingTool::Delete)
}

fn plan_eval_call(args: &JsonValue) -> (r: ToolStep)
    ensures
        r@ == plan_eval(args@),
{
    let js = match get_string_arg(args, "js") {
        Ok(j) => j,
        Err(e) => return step_missing(e),
    };
    ToolStep::Evaluate(js, PendingTool::Eval)
}

/// The first step of calling the tool `tool_name` with `args`: the
/// arguments are read and the tool's script is built, or the call ends
/// with an error.
pub fn plan_tool_call(tool_name: &str, args: &JsonValue) -> (r: ToolStep)
    ensures
        r@ == plan_model(tool_name@, args@),
{
    if str_eq(tool_name, TOOL_MESSAGES) {
        plan_messages_call(args)
    } else if str_eq(tool_name, TOOL_CHANNELS) {
        ToolStep::Evaluate(owned(CHANNELS_SCRIPT), PendingTool::Channels)
    } else if str_eq(tool_name, TOOL_CHANNEL) {
        plan_channel_info_call(args)
    } else if str_eq(tool_name, TOOL_SEARCH) {
        plan_search_call(args)
    } else if str_eq(tool_name, TOOL_PROFILE) {
        plan_profile_call(args)
    } else if str_eq(tool_name, TOOL_UNREAD) {
        ToolStep::Evaluate(owned(UNREAD_SCRIPT), PendingTool::Unread)
    } else if str_eq(tool_name, TOOL_SEND) {
        plan_send_call(args)
    } else if str_eq(tool_name, TOOL_REPLY) {
        plan_reply_call(args)
    } else if str_eq(tool_name, TOOL_EDIT) {
        plan_edit_call(args)
    } else if str_eq(tool_name, TOOL_DELETE) {
        plan_delete_call(args)
    } else if str_eq(tool_name, TOOL_EVAL) {
        plan_eval_call(args)
    } else {
        let mut m = owned(UNKNOWN_TOOL);
        m.append(tool_name);
        ToolStep::Done(ToolResult::Error(m))
    }
}

// ---------------------------------------------------------------------------
// Finishing a call
// ---------------------------------------------------------------------------

pub const MESSAGES_FAILED: &'static str = "slack_get_messages failed: ";
pub const SEARCH_FAILED: &'static str = "slack_search failed: ";
pub const PROFILE_FAILED: &'static str = "slack_get_profile failed: ";
pub const SEND_FAILED: &'static str = "send failed: ";
pub const REPLY_FAILED: &'static str = "reply failed: ";
pub const EDIT_FAILED: &'static str = "edit failed: ";
pub const DELETE_FAILED: &'static str = "slack_delete failed: ";
pub const EVAL_FAILED: &'static str = "slack_eval failed: ";

/// How many bytes of an evaluation result the preview keeps.
pub const PREVIEW_BYTES: usize = 500;

/// The models of an optional value.
pub open spec fn opt_json(o: Option<JsonValue>) -> Option<Json> {
    match o {
        Some(v) => Some(v@),
        None => None,
    }
}

/// The script's text read as JSON when it is JSON, else the text as a
/// JSON string (`from_str(&raw).unwrap_or(Value::String(raw))`).
pub open spec fn reading(raw: Seq<char>, parsed: Option<Json>) -> Json {
    match parsed {
        Some(j) => j,
        None => Json::Str(raw),
    }
}

pub open spec fn ok_true() -> (Seq<char>, Json) {
    ("ok"@, Json::Bool(true))
}

pub open spec fn messages_result(channel_id: Seq<char>, data: Json) -> Json {
    let messages = get_or_null(data, "messages"@);
    Json::Object(
        seq![
            ok_true(),
            ("channel_id"@, Json::Str(channel_id)),
            ("channel_name"@, Json::Str(get_str_or(data, "channelName"@, channel_id))),
            ("messages"@, messages),
            ("count"@, count_json(json_array_len(messages))),
            ("formatted"@, Json::Str(get_str_or(data, "formatted"@, Seq::empty()))),
        ],
    )
}

pub open spec fn channels_result(channels: Json) -> Json {
    Json::Object(
        seq![ok_true(), ("channels"@, channels), ("count"@, count_json(json_array_len(channels)))],
    )
}

/// The summary of a channel's details.
pub open spec fn channel_summary(channel_id: Seq<char>, info: Json) -> Seq<char> {
    let members: u64 = match get_u64(info, "members"@) {
        Some(m) => m,
        None => 0,
    };
    "Channel: #"@ + get_str_or(info, "name"@, channel_id) + "\nTopic: "@ + get_str_or(
        info,
        "topic"@,
        Seq::empty(),
    ) + "\nPurpose: "@ + get_str_or(info, "purpose"@, Seq::empty()) + "\nMembers: "@ + decimal(
        members as nat,
    )
}

pub open spec fn channel_info_result(channel_id: Seq<char>, info: Json) -> Json {
    Json::Object(
        seq![
            ok_true(),
            ("channel_id"@, Json::Str(channel_id)),
            ("info"@, info),
            ("formatted"@, Json::Str(channel_summary(channel_id, info))),
        ],
    )
}

pub open spec fn search_result(query: Seq<char>, data: Json) -> Json {
    let total: u64 = match get_u64(data, "total"@) {
        Some(t) => t,
        None => 0,
    };
    Json::Object(
        seq![
            ok_true(),
            ("query"@, Json::Str(query)),
            (
                "result"@,
                Json::Object(
                    seq![
                        ("matches"@, get_or_null(data, "matches"@)),
                        ("total"@, Json::Number(NumberModel::PosInt(total))),
                    ],
                ),
            ),
            ("formatted"@, Json::Str(get_str_or(data, "formatted"@, Seq::empty()))),
        ],
    )
}

/// What a posting call (send, reply, edit) makes of Slack's answer.
pub open spec fn post_result(failed: Seq<char>, data: Json) -> ToolOutcome {
    if get_bool(data, "ok"@) == Some(true) {
        ToolOutcome::Success(
            Json::Object(
                seq![
                    ok_true(),
                    ("message"@, get_or_null(data, "message"@)),
                    ("ts"@, get_or_null(data, "ts"@)),
                ],
            ),
        )
    } else {
        ToolOutcome::Error(failed + get_str_or(data, "error"@, "unknown"@))
    }
}

pub open spec fn delete_result(data: Json) -> ToolOutcome {
    if get_bool(data, "ok"@) == Some(true) {
        ToolOutcome::Success(Json::Object(seq![ok_true()]))
    } else {
        ToolOutcome::Error(DELETE_FAILED@ + get_str_or(data, "error"@, "unknown"@))
    }
}

pub open spec fn eval_result(result: Seq<char>) -> Json {
    Json::Object(
        seq![
            ok_true(),
            ("result"@, Json::Str(result)),
            ("preview"@, Json::Str(preview(result, PREVIEW_BYTES as nat))),
        ],
    )
}

/// What a tool call ends with, given what its script gave back (`outcome`)
/// and, when that text is JSON, its reading (`parsed`).
pub open spec fn finish_model(
    pending: PendingModel,
    outcome: Result<Seq<char>, Seq<char>>,
    parsed: Option<Json>,
) -> ToolOutcome {
    match outcome {
        Err(e) => ToolOutcome::Error(
            match pending {
                PendingModel::Messages(_) => MESSAGES_FAILED@ + e,
                PendingModel::Search(_) => SEARCH_FAILED@ + e,
                PendingModel::Profile(_) => PROFILE_FAILED@ + e,
                PendingModel::Send => SEND_FAILED@ + e,
                PendingModel::Reply => REPLY_FAILED@ + e,
                PendingModel::Edit => EDIT_FAILED@ + e,
                PendingModel::Delete => DELETE_FAILED@ + e,
                PendingModel::Eval => EVAL_FAILED@ + e,
                _ => e,
            },
        ),
        Ok(raw) => {
            let data = reading(raw, parsed);
            match pending {
                PendingModel::Messages(c) => ToolOutcome::Success(messages_result(c, data)),
                PendingModel::Channels => ToolOutcome::Success(channels_result(data)),
                PendingModel::ChannelInfo(c) => ToolOutcome::Success(channel_info_result(c, data)),
                PendingModel::Search(q) => ToolOutcome::Success(search_result(q, data)),
                PendingModel::Profile(u) => ToolOutcome::Success(
                    Json::Object(seq![ok_true(), ("user_id"@, Json::Str(u)), ("profile"@, data)]),
                ),
                PendingModel::Unread => ToolOutcome::Success(
                    Json::Object(seq![ok_true(), ("unread"@, data)]),
                ),
                PendingModel::Send => post_result(SEND_FAILED@, data),
                PendingModel::Reply => post_result(REPLY_FAILED@, data),
                PendingModel::Edit => post_result(EDIT_FAILED@, data),
                PendingModel::Delete => delete_result(data),
                PendingModel::Eval => ToolOutcome::Success(eval_result(raw)),
            }
        },
    }
}

/// The outcome models of a script's result.
pub open spec fn outcome_model(o: Result<String, String>) -> Result<Seq<char>, Seq<char>> {
    match o {
        Ok(s) => Ok(s@),
        Err(e) => Err(e@),
    }
}

/// An evaluation result can be previewed: cutting it at the preview length
/// falls on a character boundary.
pub open spec fn finish_allowed(pending: PendingModel, outcome: Result<Seq<char>, Seq<char>>) -> bool {
    match (pending, outcome) {
        (PendingModel::Eval, Ok(raw)) => can_cut(raw, PREVIEW_BYTES as nat),
        _ => true,
    }
}

fn reading_of(raw: String, parsed: Option<JsonValue>) -> (r: JsonValue)
    ensures
        r@ == reading(raw@, opt_json(parsed)),
{
    match parsed {
        Some(v) => v,
        None => JsonValue::String(raw),
    }
}

fn prefixed(prefix: &str, s: &str) -> (r: String)
    ensures
        r@ == prefix@ + s@,
{
    let mut m = owned(prefix);
    m.append(s);
    m
}

fn str_or(s: Option<&str>, default: String) -> (r: String)
    ensures
        r@ == match s {
            Some(t) => t@,
            None => default@,
        },
{
    match s {
        Some(t) => owned(t),
        None => default,
    }
}

fn finish_messages(channel_id: String, data: JsonValue) -> (r: JsonValue)
    ensures
        r@ == messages_result(channel_id@, data@),
{
    let channel_name = str_or(data.get_str("channelName"), channel_id.clone());
    let messages = data.get_or_null("messages");
    let formatted = str_or(data.get_str("formatted"), String::new());
    let count = messages.array_len();
    object_six(
        "ok",
        JsonValue::Bool(true),
        "channel_id",
        JsonValue::String(channel_id),
        "channel_name",
        JsonValue::String(channel_name),
        "messages",
        messages,
        "count",
        json_count(count),
        "formatted",
        JsonValue::String(formatted),
    )
}

fn finish_channels(channels: JsonValue) -> (r: JsonValue)
    ensures
        r@ == channels_result(channels@),
{
    let count = channels.array_len();
    object_three("ok", JsonValue::Bool(true), "channels", channels, "count", json_count(count))
}

fn finish_channel_info(channel_id: String, info: JsonValue) -> (r: JsonValue)
    ensures
        r@ == channel_info_result(channel_id@, info@),
{
    let name = str_or(info.get_str("name"), channel_id.clone());
    let topic = str_or(info.get_str("topic"), String::new());
    let purpose = str_or(info.get_str("purpose"), String::new());
    let members: u64 = match info.get_u64("members") {
        Some(m) => m,
        None => 0,
    };
    let mut formatted = owned("Channel: #");
    formatted.append(name.as_str());
    formatted.append("\nTopic: ");
    formatted.append(topic.as_str());
    formatted.append("\nPurpose: ");
    formatted.append(purpose.as_str());
    formatted.append("\nMembers: ");
    push_decimal(&mut formatted, members);
    assert(formatted@ =~= channel_summary(channel_id@, info@));
    object_four(
        "ok",
        JsonValue::Bool(true),
        "channel_id",
        JsonValue::String(channel_id),
        "info",
        info,
        "formatted",
        JsonValue::String(formatted),
    )
}

fn finish_search(query: String, data: JsonValue) -> (r: JsonValue)
    ensures
        r@ == search_result(query@, data@),
{
    let matches = data.get_or_null("matches");
    let total: u64 = match data.get_u64("total") {
        Some(t) => t,
        None => 0,
    };
    let formatted = str_or(data.get_str("formatted"), String::new());
    let result = object_two("matches", matches, "total", JsonValue::Number(JsonNumber::PosInt(total)));
    object_four(
        "ok",
        JsonValue::Bool(true),
        "query",
        JsonValue::String(query),
        "result",
        result,
        "formatted",
        JsonValue::String(formatted),
    )
}

fn finish_post(failed: &str, data: JsonValue) -> (r: ToolResult)
    ensures
        r@ == post_result(failed@, data@),
{
    if data.get_bool("ok") == Some(true) {
        let message = data.get_or_null("message");
        let ts = data.get_or_null("ts");
        ToolResult::Success(object_three("ok", JsonValue::Bool(true), "message", message, "ts", ts))
    } else {
        let err = str_or(data.get_str("error"), owned("unknown"));
        ToolResult::Error(prefixed(failed, err.as_str()))
    }
}

fn finish_delete(data: JsonValue) -> (r: ToolResult)
    ensures
        r@ == delete_result(data@),
{
    if data.get_bool("ok") == Some(true) {
        ToolResult::Success(object_one("ok", JsonValue::Bool(true)))
    } else {
        let err = str_or(data.get_str("error"), owned("unknown"));
        ToolResult::Error(prefixed(DELETE_FAILED, err.as_str()))
    }
}

fn finish_eval(result: String) -> (r: JsonValue)
    requires
        can_cut(result@, PREVIEW_BYTES as nat),
    ensures
        r@ == eval_result(result@),
{
    let preview = truncate_preview(result.as_str(), PREVIEW_BYTES);
    object_three(
        "ok",
        JsonValue::Bool(true),
        "result",
        JsonValue::String(result),
        "preview",
        JsonValue::String(preview),
    )
}

/// Ends a tool call with what its script gave back: `outcome` is the
/// script's text or the evaluation's error, and `parsed` is that text read
/// as JSON when it is JSON.
pub fn finish_tool_call(
    pending: PendingTool,
    outcome: Result<String, String>,
    parsed: Option<JsonValue>,
) -> (r: ToolResult)
    requires
        finish_allowed(pending@, outcome_model(outcome)),
    ensures
        r@ == finish_model(pending@, outcome_model(outcome), opt_json(parsed)),
{
    match outcome {
        Err(e) => {
            let m = match pending {
                PendingTool::Messages(_) => prefixed(MESSAGES_FAILED, e.as_str()),
                PendingTool::Search(_) => prefixed(SEARCH_FAILED, e.as_str()),
                PendingTool::Profile(_) => prefixed(PROFILE_FAILED, e.as_str()),
                PendingTool::Send => prefixed(SEND_FAILED, e.as_str()),
                PendingTool::Reply => prefixed(REPLY_FAILED, e.as_str()),
                PendingTool::Edit => prefixed(EDIT_FAILED, e.as_str()),
                PendingTool::Delete => prefixed(DELETE_FAILED, e.as_str()),
                PendingTool::Eval => prefixed(EVAL_FAILED, e.as_str()),
                _ => e,
            };
            ToolResult::Error(m)
        },
        Ok(raw) => match pending {
            PendingTool::Eval => ToolResult::Success(finish_eval(raw)),
            PendingTool::Messages(c) => ToolResult::Success(finish_messages(c, reading_of(raw, parsed))),
            PendingTool::Channels => ToolResult::Success(finish_channels(reading_of(raw, parsed))),
            PendingTool::ChannelInfo(c) => ToolResult::Success(
                finish_channel_info(c, reading_of(raw, parsed)),
            ),
            PendingTool::Search(q) => ToolResult::Success(finish_search(q, reading_of(raw, parsed))),
            PendingTool::Profile(u) => {
                let profile = reading_of(raw, parsed);
                ToolResult::Success(
                    object_three("ok", JsonValue::Bool(true), "user_id", JsonValue::String(u), "profile", profile),
                )
            },
            PendingTool::Unread => {
                let unread = reading_of(raw, parsed);
                ToolResult::Success(object_two("ok", JsonValue::Bool(true), "unread", unread))
            },
            PendingTool::Send => finish_post(SEND_FAILED, reading_of(raw, parsed)),
            PendingTool::Reply => finish_post(REPLY_FAILED, reading_of(raw, parsed)),
            PendingTool::Edit => finish_post(EDIT_FAILED, reading_of(raw, parsed)),
            PendingTool::Delete => finish_delete(reading_of(raw, parsed)),
        },
    }
}

// ---------------------------------------------------------------------------
// Laws
// ---------------------------------------------------------------------------

/// Whether `tools/list` advertises a tool named `name`.
pub open spec fn advertised(name: Seq<char>) -> bool {
    exists|i: int| 0 <= i < tool_table().len() && #[trigger] tool_table()[i].name == name
}

proof fn lemma_tool_names()
    ensures
        tool_table()[0].name == TOOL_MESSAGES@,
        tool_table()[1].name == TOOL_CHANNELS@,
        tool_table()[2].name == TOOL_CHANNEL@,
        tool_table()[3].name == TOOL_SEARCH@,
        tool_table()[4].name == TOOL_PROFILE@,
        tool_table()[5].name == TOOL_UNREAD@,
        tool_table()[6].name == TOOL_SEND@,
        tool_table()[7].name == TOOL_REPLY@,
        tool_table()[8].name == TOOL_EDIT@,
        tool_table()[9].name == TOOL_DELETE@,
        tool_table()[10].name == TOOL_EVAL@,
        tool_table().len() == 11,
{
}

/// A tool that `tools/list` advertises is always dispatched to its
/// handler, and a name that it does not advertise is always answered
/// "Unknown tool: <name>".
pub proof fn law_advertised_tools_are_dispatched(name: Seq<char>, args: Json)
    ensures
        plan_model(name, args) == StepModel::Done(ToolOutcome::Error(UNKNOWN_TOOL@ + name))
            <==> !advertised(name),
{
    lemma_tool_names();
    reveal_strlit("Missing or invalid argument: ");
    reveal_strlit("Unknown tool: ");
    let unknown = StepModel::Done(ToolOutcome::Error(UNKNOWN_TOOL@ + name));
    assert forall|e: Seq<char>| #![trigger missing(MISSING_ARGUMENT@ + e)] missing(MISSING_ARGUMENT@ + e) != unknown by {
        assert((MISSING_ARGUMENT@ + e)[0] != (UNKNOWN_TOOL@ + name)[0]);
    }
    if advertised(name) {
        let i = choose|i: int| 0 <= i < tool_table().len() && #[trigger] tool_table()[i].name == name;
        assert(plan_model(name, args) != unknown);
    } else {
        assert(tool_table()[0].name != name);
        assert(tool_table()[1].name != name);
        assert(tool_table()[2].name != name);
        assert(tool_table()[3].name != name);
        assert(tool_table()[4].name != name);
        assert(tool_table()[5].name != name);
        assert(tool_table()[6].name != name);
        assert(tool_table()[7].name != name);
        assert(tool_table()[8].name != name);
        assert(tool_table()[9].name != name);
        assert(tool_table()[10].name != name);
    }
}

/// The member `"ok"` of a result's content tells whether it succeeded:
/// it is `false` for every error and `true` for every success that a tool
/// call ends with.
pub proof fn law_content_ok_flag(
    pending: PendingModel,
    outcome: Result<Seq<char>, Seq<char>>,
    parsed: Option<Json>,
    name: Seq<char>,
    args: Json,
)
    ensures
        json_get(content_of(finish_model(pending, outcome, parsed)), "ok"@) == Some(
            Json::Bool(!(finish_model(pending, outcome, parsed) is Error)),
        ),
        plan_model(name, args) matches StepModel::Done(r) ==> json_get(content_of(r), "ok"@)
            == Some(Json::Bool(!(r is Error))),
{
}

/// No two tools that `tools/list` advertises share a name.
pub proof fn law_tool_names_are_distinct(i: int, j: int)
    requires
        0 <= i < tool_table().len(),
        0 <= j < tool_table().len(),
        i != j,
    ensures
        tool_table()[i].name != tool_table()[j].name,
{
    lemma_tool_names();
    reveal_strlit("slack_mcp_messages");
    reveal_strlit("slack_mcp_channels");
    reveal_strlit("slack_mcp_channel");
    reveal_strlit("slack_mcp_search");
    reveal_strlit("slack_mcp_profile");
    reveal_strlit("slack_mcp_unread");
    reveal_strlit("slack_mcp_send");
    reveal_strlit("slack_mcp_reply");
    reveal_strlit("slack_mcp_edit");
    reveal_strlit("slack_mcp_delete");
    reveal_strlit("slack_mcp_eval");
    let a = tool_table()[i].name;
    let b = tool_table()[j].name;
    if a.len() == b.len() {
        assert(a[10] != b[10] || a[11] != b[11] || a[12] != b[12]);
    }
}

/// What a whole tool call ends with: its first step's result, or, when a
/// script runs, what the call makes of the script's outcome.
pub open spec fn call_model(
    name: Seq<char>,
    args: Json,
    outcome: Result<Seq<char>, Seq<char>>,
    parsed: Option<Json>,
) -> ToolOutcome {
    match plan_model(name, args) {
        StepModel::Done(r) => r,
        StepModel::Evaluate(_, pending) => finish_model(pending, outcome, parsed),
    }
}

/// Whether `s` begins with `p`.
pub open spec fn starts_with(s: Seq<char>, p: Seq<char>) -> bool {
    p.len() <= s.len() && s.take(p.len() as int) == p
}

/// A whole tool call ends with "Unknown tool: <name>" exactly when `name`
/// is not advertised, as long as a failed evaluation's own message does not
/// begin with "Unknown tool: ".
pub proof fn law_unknown_tool_calls(
    name: Seq<char>,
    args: Json,
    outcome: Result<Seq<char>, Seq<char>>,
    parsed: Option<Json>,
)
    requires
        outcome matches Err(e) ==> !starts_with(e, UNKNOWN_TOOL@),
    ensures
        call_model(name, args, outcome, parsed) == ToolOutcome::Error(UNKNOWN_TOOL@ + name)
            <==> !advertised(name),
{
    law_advertised_tools_are_dispatched(name, args);
    reveal_strlit("Unknown tool: ");
    reveal_strlit("slack_get_messages failed: ");
    reveal_strlit("slack_search failed: ");
    reveal_strlit("slack_get_profile failed: ");
    reveal_strlit("send failed: ");
    reveal_strlit("reply failed: ");
    reveal_strlit("edit failed: ");
    reveal_strlit("slack_delete failed: ");
    reveal_strlit("slack_eval failed: ");
    let u = UNKNOWN_TOOL@ + name;
    assert(u[0] == 'U');
    assert(u.take(UNKNOWN_TOOL@.len() as int) =~= UNKNOWN_TOOL@);
    match plan_model(name, args) {
        StepModel::Done(r) => {},
        StepModel::Evaluate(_, pending) => {
            let f = finish_model(pending, outcome, parsed);
            if f == ToolOutcome::Error(u) {
                match outcome {
                    Err(e) => {
                        let m = f->Error_0;
                        match pending {
                            PendingModel::Channels | PendingModel::ChannelInfo(_) | PendingModel::Unread => {
                                assert(e == u);
                                assert(starts_with(e, UNKNOWN_TOOL@));
                            },
                            _ => {
                                assert(m[0] != 'U');
                            },
                        }
                    },
                    Ok(raw) => {
                        let data = reading(raw, parsed);
                        let m = f->Error_0;
                        match pending {
                            PendingModel::Send => {
                                assert((SEND_FAILED@ + get_str_or(data, "error"@, "unknown"@))[0] != 'U');
                            },
                            PendingModel::Reply => {
                                assert((REPLY_FAILED@ + get_str_or(data, "error"@, "unknown"@))[0] != 'U');
                            },
                            PendingModel::Edit => {
                                assert((EDIT_FAILED@ + get_str_or(data, "error"@, "unknown"@))[0] != 'U');
                            },
                            PendingModel::Delete => {
                                assert((DELETE_FAILED@ + get_str_or(data, "error"@, "unknown"@))[0] != 'U');
                            },
                            _ => {},
                        }
                    },
                }
            }
        },
    }
}

/// The names that a list of required members holds.
pub open spec fn names_of(items: Seq<Json>) -> Seq<Seq<char>> {
    Seq::new(
        items.len(),
        |k: int|
            match items[k] {
                Json::Str(n) => n,
                _ => Seq::empty(),
            },
    )
}

/// The arguments that a schema requires, in order (none when it has no
/// `"required"` member).
pub open spec fn required_args(schema: Json) -> Seq<Seq<char>> {
    match json_get(schema, "required"@) {
        Some(Json::Array(items)) => names_of(items),
        _ => Seq::empty(),
    }
}

/// The first of `keys` that `args` does not hold as a string.
pub open spec fn first_missing(args: Json, keys: Seq<Seq<char>>) -> Option<Seq<char>>
    decreases keys.len(),
{
    if keys.len() == 0 {
        None
    } else if get_str(args, keys[0]) is None {
        Some(keys[0])
    } else {
        first_missing(args, keys.drop_first())
    }
}

proof fn lemma_schema_required(properties: Json, required: Seq<Json>)
    ensures
        required_args(schema_model(properties, Json::Array(required))) == names_of(required),
        required_args(open_schema_model(properties)) == Seq::<Seq<char>>::empty(),
{
    reveal_strlit("required");
    reveal_strlit("type");
    reveal_strlit("properties");
    assert("required"@ != "type"@) by {
        assert("required"@.len() != "type"@.len());
    }
    assert("required"@ != "properties"@) by {
        assert("required"@.len() != "properties"@.len());
    }
    let fs = seq![
        ("type"@, Json::Str("object"@)),
        ("properties"@, properties),
        ("required"@, Json::Array(required)),
    ];
    assert(fs.drop_first().drop_first()[0] == ("required"@, Json::Array(required)));
    assert(crate::json::lookup(fs.drop_first().drop_first(), "required"@) == Some(Json::Array(required)));
    assert(fs.drop_first()[0].0 == "properties"@);
    assert(crate::json::lookup(fs.drop_first(), "required"@) == Some(Json::Array(required)));
    assert(fs[0].0 == "type"@);
    let gs = seq![("type"@, Json::Str("object"@)), ("properties"@, properties)];
    assert(gs.drop_first().drop_first().len() == 0);
    assert(crate::json::lookup(gs.drop_first().drop_first(), "required"@) is None);
    assert(gs.drop_first()[0].0 == "properties"@);
    assert(crate::json::lookup(gs.drop_first(), "required"@) is None);
    assert(gs[0].0 == "type"@);
}

/// For every advertised tool: when an argument that its schema requires is
/// missing (or not a string), the call ends at once, reporting the first
/// such argument in the schema's order, and no script runs; otherwise
/// exactly one script runs.
pub proof fn law_required_arguments_are_checked_in_order(i: int, args: Json)
    requires
        0 <= i < tool_table().len(),
    ensures
        match first_missing(args, required_args(tool_table()[i].input_schema)) {
            Some(k) => plan_model(tool_table()[i].name, args) == missing(MISSING_ARGUMENT@ + k),
            None => plan_model(tool_table()[i].name, args) is Evaluate,
        },
{
    lemma_tool_names();
    reveal_with_fuel(first_missing, 4);
    let t = tool_table()[i];
    let req = required_args(t.input_schema);
    if i != 0 {
        law_tool_names_are_distinct(0, i);
    }
    if i != 1 {
        law_tool_names_are_distinct(1, i);
    }
    if i != 2 {
        law_tool_names_are_distinct(2, i);
    }
    if i != 3 {
        law_tool_names_are_distinct(3, i);
    }
    if i != 4 {
        law_tool_names_are_distinct(4, i);
    }
    if i != 5 {
        law_tool_names_are_distinct(5, i);
    }
    if i != 6 {
        law_tool_names_are_distinct(6, i);
    }
    if i != 7 {
        law_tool_names_are_distinct(7, i);
    }
    if i != 8 {
        law_tool_names_are_distinct(8, i);
    }
    if i != 9 {
        law_tool_names_are_distinct(9, i);
    }
    if i != 10 {
        law_tool_names_are_distinct(10, i);
    }
    if i == 0 {
        lemma_schema_required(
            Json::Object(
                seq![
                    ("channel_id"@, string_property("Channel ID (e.g. C017ZMHM4GY). Use slack_mcp_channels to find IDs."@)),
                    ("limit"@, integer_property("Max messages (default 20)"@)),
                ],
            ),
            seq![Json::Str("channel_id"@)],
        );
        assert(req =~= seq!["channel_id"@]);
    } else if i == 1 || i == 5 {
        lemma_schema_required(Json::Object(Seq::empty()), Seq::empty());
        assert(req.len() == 0);
    } else if i == 2 {
        lemma_schema_required(
            Json::Object(seq![("channel_id"@, string_property(CHANNEL_ID_DESCRIPTION@))]),
            seq![Json::Str("channel_id"@)],
        );
        assert(req =~= seq!["channel_id"@]);
    } else if i == 3 {
        lemma_schema_required(
            Json::Object(
                seq![
                    ("query"@, string_property("Search query (supports Slack search syntax like from:@user, in:channel)"@)),
                    ("limit"@, integer_property("Max results (default 10)"@)),
                ],
            ),
            seq![Json::Str("query"@)],
        );
        assert(req =~= seq!["query"@]);
    } else if i == 4 {
        lemma_schema_required(
            Json::Object(seq![("user_id"@, string_property("User ID (e.g. U03V9E14Y2K)"@))]),
            seq![Json::Str("user_id"@)],
        );
        assert(req =~= seq!["user_id"@]);
    } else if i == 6 {
        lemma_schema_required(
            Json::Object(
                seq![
                    ("channel_id"@, string_property(CHANNEL_ID_DESCRIPTION@)),
                    ("text"@, string_property("Message text"@)),
                ],
            ),
            seq![Json::Str("channel_id"@), Json::Str("text"@)],
        );
        assert(req =~= seq!["channel_id"@, "text"@]);
        assert(req.drop_first() =~= seq!["text"@]);
    } else if i == 7 {
        lemma_schema_required(
            Json::Object(
                seq![
                    ("channel_id"@, string_property(CHANNEL_ID_DESCRIPTION@)),
                    ("thread_ts"@, string_property("Parent message timestamp (ts) to reply in thread"@)),
                    ("text"@, string_property("Reply text"@)),
                ],
            ),
            seq![Json::Str("channel_id"@), Json::Str("thread_ts"@), Json::Str("text"@)],
        );
        assert(req =~= seq!["channel_id"@, "thread_ts"@, "text"@]);
        assert(req.drop_first() =~= seq!["thread_ts"@, "text"@]);
        assert(req.drop_first().drop_first() =~= seq!["text"@]);
    } else if i == 8 {
        lemma_schema_required(
            Json::Object(
                seq![
                    ("channel_id"@, string_property(CHANNEL_ID_DESCRIPTION@)),
                    ("ts"@, string_property("Message timestamp (ts) to edit"@)),
                    ("text"@, string_property("New message text"@)),
                ],
            ),
            seq![Json::Str("channel_id"@), Json::Str("ts"@), Json::Str("text"@)],
        );
        assert(req =~= seq!["channel_id"@, "ts"@, "text"@]);
        assert(req.drop_first() =~= seq!["ts"@, "text"@]);
        assert(req.drop_first().drop_first() =~= seq!["text"@]);
    } else if i == 9 {
        lemma_schema_required(
            Json::Object(
                seq![
                    ("channel_id"@, string_property(CHANNEL_ID_DESCRIPTION@)),
                    ("ts"@, string_property("Message timestamp (ts) to delete"@)),
                ],
            ),
            seq![Json::Str("channel_id"@), Json::Str("ts"@)],
        );
        assert(req =~= seq!["channel_id"@, "ts"@]);
        assert(req.drop_first() =~= seq!["ts"@]);
    } else {
        lemma_schema_required(
            Json::Object(seq![("js"@, string_property("JavaScript expression"@))]),
            seq![Json::Str("js"@)],
        );
        assert(req =~= seq!["js"@]);
    }
}

// ---------------------------------------------------------------------------
// What each tool's script is filled with
// ---------------------------------------------------------------------------

/// The name of tool `i` differs from the names before it.
proof fn lemma_dispatch(i: int)
    requires
        0 <= i < tool_table().len(),
    ensures
        forall|k: int| 0 <= k < i ==> tool_table()[k].name != tool_table()[i].name,
{
    lemma_tool_names();
    assert forall|k: int| 0 <= k < i implies tool_table()[k].name != tool_table()[i].name by {
        law_tool_names_are_distinct(k, i);
    }
}

/// A JavaScript text segment for `t`: it can stand between single quotes
/// and reads back as `t`.
pub open spec fn carries_text(e: Seq<char>, t: Seq<char>) -> bool {
    js_literal_body(e) && js_unescape(e) == t
}

/// Reading a channel's messages: the history script names the channel
/// `channel_id` in all three places and asks for 20 messages when no
/// integer `limit` is given (the default the schema advertises).
pub proof fn law_messages_default_limit(args: Json, c: Seq<char>)
    requires
        get_str(args, "channel_id"@) == Some(c),
        get_u64(args, "limit"@) is None,
    ensures
        plan_model(TOOL_MESSAGES@, args) == StepModel::Evaluate(
            MESSAGES_SCRIPT_A@ + c + MESSAGES_SCRIPT_B@ + c + MESSAGES_SCRIPT_C@ + c
                + MESSAGES_SCRIPT_D@ + "20"@ + MESSAGES_SCRIPT_E@,
            PendingModel::Messages(c),
        ),
{
    reveal_strlit("20");
    assert(decimal(20) =~= "20"@) by {
        assert(decimal(2) == seq!['2']);
        assert(decimal(20) == decimal(2).push('0'));
    }
    assert(int_arg(args, "limit"@, 20) == 20);
}

/// Reading a channel's messages with an integer `limit` below 2^32: the
/// script asks for exactly that many messages.
pub proof fn law_messages_limit(args: Json, c: Seq<char>, n: u64)
    requires
        get_str(args, "channel_id"@) == Some(c),
        get_u64(args, "limit"@) == Some(n),
        n < 0x1_0000_0000,
    ensures
        plan_model(TOOL_MESSAGES@, args) == StepModel::Evaluate(
            MESSAGES_SCRIPT_A@ + c + MESSAGES_SCRIPT_B@ + c + MESSAGES_SCRIPT_C@ + c
                + MESSAGES_SCRIPT_D@ + decimal(n as nat) + MESSAGES_SCRIPT_E@,
            PendingModel::Messages(c),
        ),
{
    assert(int_arg(args, "limit"@, 20) == n);
}

/// Searching with an integer `limit` below 2^32: the script searches for the
/// query with its quotes escaped, and asks for exactly `limit` results.
pub proof fn law_search_limit(args: Json, q: Seq<char>, n: u64)
    requires
        get_str(args, "query"@) == Some(q),
        get_u64(args, "limit"@) == Some(n),
        n < 0x1_0000_0000,
    ensures
        plan_model(TOOL_SEARCH@, args) == StepModel::Evaluate(
            SEARCH_SCRIPT_A@ + replace_char(q, '\'', seq!['\\', '\'']) + SEARCH_SCRIPT_B@ + decimal(
                n as nat,
            ) + SEARCH_SCRIPT_C@,
            PendingModel::Search(q),
        ),
{
    lemma_dispatch(3);
    lemma_tool_names();
    assert(int_arg(args, "limit"@, 10) == n);
}

/// Searching without an integer `limit`: the script asks for 10 results.
pub proof fn law_search_default_limit(args: Json, q: Seq<char>)
    requires
        get_str(args, "query"@) == Some(q),
        get_u64(args, "limit"@) is None,
    ensures
        plan_model(TOOL_SEARCH@, args) == StepModel::Evaluate(
            SEARCH_SCRIPT_A@ + replace_char(q, '\'', seq!['\\', '\'']) + SEARCH_SCRIPT_B@ + "10"@
                + SEARCH_SCRIPT_C@,
            PendingModel::Search(q),
        ),
{
    lemma_dispatch(3);
    lemma_tool_names();
    reveal_strlit("10");
    assert(decimal(10) =~= "10"@) by {
        assert(decimal(1) == seq!['1']);
        assert(decimal(10) == decimal(1).push('0'));
    }
    assert(int_arg(args, "limit"@, 10) == 10);
}

/// Reading a channel's details: the script names `channel_id`.
pub proof fn law_channel_info_script(args: Json, c: Seq<char>)
    requires
        get_str(args, "channel_id"@) == Some(c),
    ensures
        plan_model(TOOL_CHANNEL@, args) == StepModel::Evaluate(
            CHANNEL_INFO_SCRIPT_A@ + c + CHANNEL_INFO_SCRIPT_B@,
            PendingModel::ChannelInfo(c),
        ),
{
    lemma_dispatch(2);
    lemma_tool_names();
}

/// Reading a profile: the script names `user_id`.
pub proof fn law_profile_script(args: Json, u: Seq<char>)
    requires
        get_str(args, "user_id"@) == Some(u),
    ensures
        plan_model(TOOL_PROFILE@, args) == StepModel::Evaluate(
            PROFILE_SCRIPT_A@ + u + PROFILE_SCRIPT_B@,
            PendingModel::Profile(u),
        ),
{
    lemma_dispatch(4);
    lemma_tool_names();
}

/// Sending: the script posts to `channel_id`, and its text segment is a
/// single-quoted JavaScript literal that reads back as `text`.
pub proof fn law_send_script(args: Json, c: Seq<char>, t: Seq<char>)
    requires
        get_str(args, "channel_id"@) == Some(c),
        get_str(args, "text"@) == Some(t),
    ensures
        exists|e: Seq<char>|
            carries_text(e, t) && plan_model(TOOL_SEND@, args) == StepModel::Evaluate(
                SEND_SCRIPT_A@ + c + SEND_SCRIPT_B@ + e + SEND_SCRIPT_C@,
                PendingModel::Send,
            ),
        plan_model(TOOL_SEND@, args) == StepModel::Evaluate(
            SEND_SCRIPT_A@ + c + SEND_SCRIPT_B@ + js_escape(t) + SEND_SCRIPT_C@,
            PendingModel::Send,
        ),
{
    lemma_dispatch(6);
    lemma_tool_names();
    law_escaped_text_is_literal_body(t);
    law_js_unescape_inverts_escape(t);
    assert(carries_text(js_escape(t), t));
}

/// Replying: the script posts to `channel_id` in thread `thread_ts`, in that
/// order, and its text segment is a single-quoted JavaScript literal that
/// reads back as `text`.
pub proof fn law_reply_script(args: Json, c: Seq<char>, th: Seq<char>, t: Seq<char>)
    requires
        get_str(args, "channel_id"@) == Some(c),
        get_str(args, "thread_ts"@) == Some(th),
        get_str(args, "text"@) == Some(t),
    ensures
        exists|e: Seq<char>|
            carries_text(e, t) && plan_model(TOOL_REPLY@, args) == StepModel::Evaluate(
                REPLY_SCRIPT_A@ + c + REPLY_SCRIPT_B@ + th + REPLY_SCRIPT_C@ + e + REPLY_SCRIPT_D@,
                PendingModel::Reply,
            ),
        plan_model(TOOL_REPLY@, args) == StepModel::Evaluate(
            REPLY_SCRIPT_A@ + c + REPLY_SCRIPT_B@ + th + REPLY_SCRIPT_C@ + js_escape(t)
                + REPLY_SCRIPT_D@,
            PendingModel::Reply,
        ),
{
    lemma_dispatch(7);
    lemma_tool_names();
    law_escaped_text_is_literal_body(t);
    law_js_unescape_inverts_escape(t);
    assert(carries_text(js_escape(t), t));
}

/// Editing: the script updates message `ts` in `channel_id`, and its text
/// segment is a single-quoted JavaScript literal that reads back as `text`.
pub proof fn law_edit_script(args: Json, c: Seq<char>, ts: Seq<char>, t: Seq<char>)
    requires
        get_str(args, "channel_id"@) == Some(c),
        get_str(args, "ts"@) == Some(ts),
        get_str(args, "text"@) == Some(t),
    ensures
        exists|e: Seq<char>|
            carries_text(e, t) && plan_model(TOOL_EDIT@, args) == StepModel::Evaluate(
                EDIT_SCRIPT_A@ + c + EDIT_SCRIPT_B@ + ts + EDIT_SCRIPT_C@ + e + EDIT_SCRIPT_D@,
                PendingModel::Edit,
            ),
        plan_model(TOOL_EDIT@, args) == StepModel::Evaluate(
            EDIT_SCRIPT_A@ + c + EDIT_SCRIPT_B@ + ts + EDIT_SCRIPT_C@ + js_escape(t) + EDIT_SCRIPT_D@,
            PendingModel::Edit,
        ),
{
    lemma_dispatch(8);
    lemma_tool_names();
    law_escaped_text_is_literal_body(t);
    law_js_unescape_inverts_escape(t);
    assert(carries_text(js_escape(t), t));
}

/// Deleting: the script deletes message `ts` in `channel_id`, in that order.
pub proof fn law_delete_script(args: Json, c: Seq<char>, ts: Seq<char>)
    requires
        get_str(args, "channel_id"@) == Some(c),
        get_str(args, "ts"@) == Some(ts),
    ensures
        plan_model(TOOL_DELETE@, args) == StepModel::Evaluate(
            DELETE_SCRIPT_A@ + c + DELETE_SCRIPT_B@ + ts + DELETE_SCRIPT_C@,
            PendingModel::Delete,
        ),
{
    lemma_dispatch(9);
    lemma_tool_names();
}

/// Evaluating: the script is the `js` argument itself.
pub proof fn law_eval_script(args: Json, js: Seq<char>)
    requires
        get_str(args, "js"@) == Some(js),
    ensures
        plan_model(TOOL_EVAL@, args) == StepModel::Evaluate(js, PendingModel::Eval),
{
    lemma_dispatch(10);
    lemma_tool_names();
}
} // verus!
