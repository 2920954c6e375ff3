//! The JSON-RPC side of the MCP server: what each request is answered.
use vstd::prelude::*;
use vstd::string::*;

use crate::json::{
    array_one, get_str, get_str_or, json_get, json_string, lemma_fields_of,
    lemma_models_of, models_of, object, object_one, object_three, object_two, owned, Json,
    JsonValue,
};
use crate::text::str_eq;
use crate::tools::{tool_definitions, tool_table, ToolModel};

verus! {

pub const JSONRPC_VERSION: &'static str = "2.0";
pub const DEFAULT_PROTOCOL_VERSION: &'static str = "2024-11-05";
pub const SERVER_NAME: &'static str = "slack_mcp";
pub const SERVER_VERSION: &'static str = "0.1.0";

pub const INVALID_REQUEST: i32 = -32600;
pub const METHOD_NOT_FOUND: i32 = -32601;
pub const INVALID_PARAMS: i32 = -32602;

pub const MISSING_METHOD: &'static str = "Invalid Request: missing method";
pub const MISSING_PARAMS: &'static str = "Invalid params: missing";
pub const MISSING_TOOL_NAME: &'static str = "Invalid params: missing tool name";
pub const UNKNOWN_METHOD: &'static str = "Method not found: ";

/// A JSON-RPC message as it arrives.
#[derive(Debug, PartialEq)]
pub struct JsonRpcMessage {
    pub jsonrpc: String,
    pub id: Option<JsonValue>,
    pub method: Option<String>,
    pub params: Option<JsonValue>,
}

/// The error member of a response.
#[derive(Debug, PartialEq)]
pub struct JsonRpcError {
    pub code: i32,
    pub message: String,
    pub data: Option<JsonValue>,
}

/// A JSON-RPC response.
#[derive(Debug, PartialEq)]
pub struct JsonRpcResponse {
    pub jsonrpc: String,
    pub id: Option<JsonValue>,
    pub result: Option<JsonValue>,
    pub error: Option<JsonRpcError>,
}

pub struct MessageModel {
    pub jsonrpc: Seq<char>,
    pub id: Option<Json>,
    pub method: Option<Seq<char>>,
    pub params: Option<Json>,
}

pub struct ErrorModel {
    pub code: i32,
    pub message: Seq<char>,
    pub data: Option<Json>,
}

pub struct ResponseModel {
    pub jsonrpc: Seq<char>,
    pub id: Option<Json>,
    pub result: Option<Json>,
    pub error: Option<ErrorModel>,
}

pub open spec fn opt_model(o: Option<JsonValue>) -> Option<Json> {
    match o {
        Some(v) => Some(v@),
        None => None,
    }
}

impl View for JsonRpcMessage {
    type V = MessageModel;

    open spec fn view(&self) -> MessageModel {
        MessageModel {
            jsonrpc: self.jsonrpc@,
            id: opt_model(self.id),
            method: match self.method {
                Some(m) => Some(m@),
                None => None,
            },
            params: opt_model(self.params),
        }
    }
}

impl View for JsonRpcError {
    type V = ErrorModel;

    open spec fn view(&self) -> ErrorModel {
        ErrorModel { code: self.code, message: self.message@, data: opt_model(self.data) }
    }
}

impl View for JsonRpcResponse {
    type V = ResponseModel;

    open spec fn view(&self) -> ResponseModel {
        ResponseModel {
            jsonrpc: self.jsonrpc@,
            id: opt_model(self.id),
            result: opt_model(self.result),
            error: match self.error {
                Some(e) => Some(e@),
                None => None,
            },
        }
    }
}

/// A response that carries `result`.
pub open spec fn success_model(id: Json, result: Json) -> ResponseModel {
    ResponseModel { jsonrpc: JSONRPC_VERSION@, id: Some(id), result: Some(result), error: None }
}

/// A response that carries an error.
pub open spec fn error_model(id: Json, code: i32, message: Seq<char>) -> ResponseModel {
    ResponseModel {
        jsonrpc: JSONRPC_VERSION@,
        id: Some(id),
        result: None,
        error: Some(ErrorModel { code, message, data: None }),
    }
}

/// The empty object.
pub open spec fn empty_object() -> Json {
    Json::Object(Seq::empty())
}

/// The result of `initialize`: the protocol version that the client asked
/// for (or the default one), the capabilities and the server's name.
pub open spec fn initialize_result(params: Option<Json>) -> Json {
    let version = match params {
        Some(p) => get_str_or(p, "protocolVersion"@, DEFAULT_PROTOCOL_VERSION@),
        None => DEFAULT_PROTOCOL_VERSION@,
    };
    Json::Object(
        seq![
            ("protocolVersion"@, Json::Str(version)),
            ("capabilities"@, Json::Object(seq![("tools"@, empty_object())])),
            (
                "serverInfo"@,
                Json::Object(
                    seq![("name"@, Json::Str(SERVER_NAME@)), ("version"@, Json::Str(SERVER_VERSION@))],
                ),
            ),
        ],
    )
}

/// How `tools/list` shows one tool.
pub open spec fn tool_entry(t: ToolModel) -> Json {
    Json::Object(
        seq![
            ("name"@, Json::Str(t.name)),
            ("description"@, Json::Str(t.description)),
            ("inputSchema"@, t.input_schema),
        ],
    )
}

/// The result of `tools/list`.
pub open spec fn tools_list_result() -> Json {
    Json::Object(
        seq![
            (
                "tools"@,
                Json::Array(Seq::new(tool_table().len(), |i: int| tool_entry(tool_table()[i]))),
            ),
        ],
    )
}

/// The result of `tools/call`: the tool's content as text, and whether the
/// tool failed.
pub open spec fn tools_call_result(content_text: Seq<char>, is_error: bool) -> Json {
    Json::Object(
        seq![
            (
                "content"@,
                Json::Array(
                    seq![
                        Json::Object(seq![("type"@, Json::Str("text"@)), ("text"@, Json::Str(content_text))]),
                    ],
                ),
            ),
            ("isError"@, Json::Bool(is_error)),
        ],
    )
}

/// What the server does with a message.
#[derive(Debug, PartialEq)]
pub enum McpStep {
    /// Nothing is sent back.
    Silent,
    /// This response is sent back.
    Reply(JsonRpcResponse),
    /// The tool `name` is called with `arguments`; the response to request
    /// `id` follows from its result.
    CallTool(JsonValue, String, JsonValue),
}

pub enum McpStepModel {
    Silent,
    Reply(ResponseModel),
    CallTool(Json, Seq<char>, Json),
}

impl View for McpStep {
    type V = McpStepModel;

    open spec fn view(&self) -> McpStepModel {
        match self {
            McpStep::Silent => McpStepModel::Silent,
            McpStep::Reply(r) => McpStepModel::Reply(r@),
            McpStep::CallTool(id, name, args) => McpStepModel::CallTool(id@, name@, args@),
        }
    }
}

/// What `tools/call` with `params` leads to.
pub open spec fn tools_call_model(id: Json, params: Option<Json>) -> McpStepModel {
    match params {
        None => McpStepModel::Reply(error_model(id, INVALID_PARAMS, MISSING_PARAMS@)),
        Some(p) => match get_str(p, "name"@) {
            None => McpStepModel::Reply(error_model(id, INVALID_PARAMS, MISSING_TOOL_NAME@)),
            Some(name) => McpStepModel::CallTool(
                id,
                name,
                match json_get(p, "arguments"@) {
                    Some(a) => a,
                    None => empty_object(),
                },
            ),
        },
    }
}

/// Whether `method` is a notification that the client has initialized.
pub open spec fn is_initialized_notice(method: Seq<char>) -> bool {
    method == "notifications/initialized"@ || method == "initialized"@
}

/// What the server does with `msg`: messages without an id and the
/// initialized notices get no answer; every other request is answered
/// with its own id.
pub open spec fn step_model(msg: MessageModel) -> McpStepModel {
    match msg.id {
        None => McpStepModel::Silent,
        Some(id) => match msg.method {
            None => McpStepModel::Reply(error_model(id, INVALID_REQUEST, MISSING_METHOD@)),
            Some(m) => if m == "initialize"@ {
                McpStepModel::Reply(success_model(id, initialize_result(msg.params)))
            } else if is_initialized_notice(m) {
                McpStepModel::Silent
            } else if m == "ping"@ {
                McpStepModel::Reply(success_model(id, empty_object()))
            } else if m == "tools/list"@ {
                McpStepModel::Reply(success_model(id, tools_list_result()))
            } else if m == "tools/call"@ {
                tools_call_model(id, msg.params)
            } else if m == "resources/list"@ {
                McpStepModel::Reply(
                    success_model(id, Json::Object(seq![("resources"@, Json::Array(Seq::empty()))])),
                )
            } else if m == "prompts/list"@ {
                McpStepModel::Reply(
                    success_model(id, Json::Object(seq![("prompts"@, Json::Array(Seq::empty()))])),
                )
            } else {
                McpStepModel::Reply(error_model(id, METHOD_NOT_FOUND, UNKNOWN_METHOD@ + m))
            },
        },
    }
}

/// The MCP server. It answers requests itself and hands tool calls to
/// `automation`, the means of running scripts in the Slack page.
pub struct McpServer<A> {
    automation: A,
}

impl<A> McpServer<A> {
    /// The automation that the server runs scripts with.
    pub closed spec fn automation_spec(&self) -> A {
        self.automation
    }

    /// A server that runs scripts with `automation`.
    pub fn new(automation: A) -> (s: Self)
        ensures
            s.automation_spec() == automation,
    {
        McpServer { automation }
    }

    /// The automation that the server runs scripts with.
    pub fn automation(&self) -> (a: &A)
        ensures
            *a == self.automation_spec(),
    {
        &self.automation
    }

    /// What to do with `msg`.
    pub fn handle_message(&self, msg: &JsonRpcMessage) -> (r: McpStep)
        ensures
            r@ == step_model(msg@),
    {
        let id = match &msg.id {
            None => return McpStep::Silent,
            Some(id) => id.deep_copy(),
        };
        let method = match &msg.method {
            Some(m) => m.as_str(),
            None => {
                return McpStep::Reply(
                    Self::error_response(id, INVALID_REQUEST, owned(MISSING_METHOD), None),
                )
            },
        };
        if str_eq(method, "initialize") {
            McpStep::Reply(self.handle_initialize(id, msg.params.as_ref()))
        } else if str_eq(method, "notifications/initialized") || str_eq(method, "initialized") {
            McpStep::Silent
        } else if str_eq(method, "ping") {
            McpStep::Reply(Self::success_response(id, object(Vec::new())))
        } else if str_eq(method, "tools/list") {
            McpStep::Reply(self.handle_tools_list(id))
        } else if str_eq(method, "tools/call") {
            self.handle_tools_call(id, msg.params.as_ref())
        } else if str_eq(method, "resources/list") {
            let empty = JsonValue::Array(Vec::new());
            proof {
                lemma_models_of(Seq::<JsonValue>::empty());
            }
            McpStep::Reply(Self::success_response(id, object_one("resources", empty)))
        } else if str_eq(method, "prompts/list") {
            let empty = JsonValue::Array(Vec::new());
            proof {
                lemma_models_of(Seq::<JsonValue>::empty());
            }
            McpStep::Reply(Self::success_response(id, object_one("prompts", empty)))
        } else {
            let mut m = owned(UNKNOWN_METHOD);
            m.append(method);
            McpStep::Reply(Self::error_response(id, METHOD_NOT_FOUND, m, None))
        }
    }

    /// The answer to `initialize`.
    pub fn handle_initialize(&self, id: JsonValue, params: Option<&JsonValue>) -> (r: JsonRpcResponse)
        ensures
            r@ == success_model(
                id@,
                initialize_result(
                    match params {
                        Some(p) => Some(p@),
                        None => None,
                    },
                ),
            ),
    {
        let version = match params {
            Some(p) => match p.get_str("protocolVersion") {
                Some(v) => owned(v),
                None => owned(DEFAULT_PROTOCOL_VERSION),
            },
            None => owned(DEFAULT_PROTOCOL_VERSION),
        };
        let tools = object(Vec::new());
        proof {
            lemma_fields_of(Seq::<(String, JsonValue)>::empty());
        }
        let result = object_three(
            "protocolVersion",
            JsonValue::String(version),
            "capabilities",
            object_one("tools", tools),
            "serverInfo",
            object_two("name", json_string(SERVER_NAME), "version", json_string(SERVER_VERSION)),
        );
        Self::success_response(id, result)
    }

    /// The answer to `tools/list`.
    pub fn handle_tools_list(&self, id: JsonValue) -> (r: JsonRpcResponse)
        ensures
            r@ == success_model(id@, tools_list_result()),
    {
        let definitions = tool_definitions();
        let mut tools: Vec<JsonValue> = Vec::new();
        let mut i: usize = 0;
        while i < definitions.len()
            invariant
                0 <= i <= definitions.len(),
                definitions.len() == tool_table().len(),
                forall|j: int| 0 <= j < definitions.len() ==> (#[trigger] definitions@[j])@ == tool_table()[j],
                tools.len() == i,
                forall|j: int| 0 <= j < i ==> (#[trigger] tools@[j])@ == tool_entry(tool_table()[j]),
            decreases definitions.len() - i,
        {
            let def = &definitions[i];
            let entry = object_three(
                "name",
                json_string(def.name),
                "description",
                json_string(def.description),
                "inputSchema",
                def.input_schema.deep_copy(),
            );
            tools.push(entry);
            i = i + 1;
        }
        proof {
            lemma_models_of(tools@);
            assert(models_of(tools@) =~= Seq::new(tool_table().len(), |i: int| tool_entry(tool_table()[i])));
        }
        let list = object_one("tools", JsonValue::Array(tools));
        Self::success_response(id, list)
    }

    /// What `tools/call` with `params` leads to: an error response when the
    /// parameters or the tool's name are missing, else the tool call.
    pub fn handle_tools_call(&self, id: JsonValue, params: Option<&JsonValue>) -> (r: McpStep)
        ensures
            r@ == tools_call_model(
                id@,
                match params {
                    Some(p) => Some(p@),
                    None => None,
                },
            ),
    {
        let params = match params {
            Some(p) => p,
            None => {
                return McpStep::Reply(
                    Self::error_response(id, INVALID_PARAMS, owned(MISSING_PARAMS), None),
                )
            },
        };
        let tool_name = match params.get_str("name") {
            Some(n) => owned(n),
            None => {
                return McpStep::Reply(
                    Self::error_response(id, INVALID_PARAMS, owned(MISSING_TOOL_NAME), None),
                )
            },
        };
        let arguments = match params.get("arguments") {
            Some(a) => a.deep_copy(),
            None => {
                proof {
                    lemma_fields_of(Seq::<(String, JsonValue)>::empty());
                }
                object(Vec::new())
            },
        };
        McpStep::CallTool(id, tool_name, arguments)
    }

    /// The answer to `tools/call` once the tool is done: its content as
    /// `content_text`, and whether it failed.
    pub fn tools_call_reply(id: JsonValue, content_text: String, is_error: bool) -> (r: JsonRpcResponse)
        ensures
            r@ == success_model(id@, tools_call_result(content_text@, is_error)),
    {
        let item = object_two("type", json_string("text"), "text", JsonValue::String(content_text));
        let result = object_two("content", array_one(item), "isError", JsonValue::Bool(is_error));
        Self::success_response(id, result)
    }

    /// A response that carries `result`.
    pub fn success_response(id: JsonValue, result: JsonValue) -> (r: JsonRpcResponse)
        ensures
            r@ == success_model(id@, result@),
    {
        JsonRpcResponse { jsonrpc: owned(JSONRPC_VERSION), id: Some(id), result: Some(result), error: None }
    }

    /// A response that carries an error.
    pub fn error_response(id: JsonValue, code: i32, message: String, data: Option<JsonValue>) -> (r: JsonRpcResponse)
        ensures
            r@ == (ResponseModel {
                jsonrpc: JSONRPC_VERSION@,
                id: Some(id@),
                result: None,
                error: Some(ErrorModel { code, message: message@, data: opt_model(data) }),
            }),
    {
        JsonRpcResponse {
            jsonrpc: owned(JSONRPC_VERSION),
            id: Some(id),
            result: None,
            error: Some(JsonRpcError { code, message, data }),
        }
    }
}


/// Whether a response carries exactly one of a result and an error.
pub open spec fn result_or_error(r: ResponseModel) -> bool {
    r.result is Some != r.error is Some
}

/// A message gets no answer exactly when it has no id or is an initialized
/// notice; every answer is a JSON-RPC 2.0 response with the request's own id
/// and exactly one of a result and an error; a tool call keeps the
/// request's id.
pub proof fn law_requests_answered_with_their_id(msg: MessageModel)
    ensures
        (step_model(msg) is Silent) <==> (msg.id is None || (msg.method matches Some(m)
            && is_initialized_notice(m))),
        step_model(msg) matches McpStepModel::Reply(r) ==> {
            &&& r.id == msg.id
            &&& r.jsonrpc == JSONRPC_VERSION@
            &&& result_or_error(r)
        },
        step_model(msg) matches McpStepModel::CallTool(id, _, _) ==> msg.id == Some(id),
{
    reveal_strlit("initialize");
    reveal_strlit("initialized");
    reveal_strlit("notifications/initialized");
    if let Some(m) = msg.method {
        if m == "initialize"@ {
            assert(m.len() != "initialized"@.len());
            assert(m.len() != "notifications/initialized"@.len());
        }
    }
}

/// The answer to a finished tool call is a result, never an error, with the
/// request's id; it reports the tool's failure in `isError`.
pub proof fn law_tool_replies_are_results(id: Json, content_text: Seq<char>, is_error: bool)
    ensures
        success_model(id, tools_call_result(content_text, is_error)).id == Some(id),
        result_or_error(success_model(id, tools_call_result(content_text, is_error))),
        json_get(tools_call_result(content_text, is_error), "isError"@) == Some(Json::Bool(is_error)),
{
    reveal_strlit("content");
    reveal_strlit("isError");
    assert("content"@[0] != "isError"@[0]);
    let fields = seq![
        (
            "content"@,
            Json::Array(
                seq![
                    Json::Object(seq![("type"@, Json::Str("text"@)), ("text"@, Json::Str(content_text))]),
                ],
            ),
        ),
        ("isError"@, Json::Bool(is_error)),
    ];
    assert(fields.drop_first()[0] == ("isError"@, Json::Bool(is_error)));
    assert(crate::json::lookup(fields.drop_first(), "isError"@) == Some(Json::Bool(is_error)));
    assert(tools_call_result(content_text, is_error) == Json::Object(fields));
}
} // verus!
