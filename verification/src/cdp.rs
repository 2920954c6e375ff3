//! The Chrome DevTools Protocol side: requests and their replies, finding
//! the Slack page among the debugging targets, and the HTTP exchange that
//! lists them.
use vstd::prelude::*;
use vstd::string::*;
use vstd::utf8::{decode_utf8, valid_utf8};

use crate::json::{
    get_or_null, get_str, get_str_or, get_u64, json_get, json_string, object, object_three,
    owned, Json, JsonNumber, JsonValue, NumberModel,
};
use crate::text::{
    contains, decimal, occurs_in, parse_u16, parse_u16_of, parse_usize, parse_usize_of,
    push_decimal, str_eq,
    strip_prefix, strip_prefix_of, trim, trimmed, IntErrorKind,
};

verus! {

pub const RUNTIME_ENABLE: &'static str = "Runtime.enable";
pub const RUNTIME_EVALUATE: &'static str = "Runtime.evaluate";

// ---------------------------------------------------------------------------
// Startup
// ---------------------------------------------------------------------------

/// The debugging port used when none is set.
pub const DEFAULT_CDP_PORT: u16 = 9222;

/// The debugging port: the setting when it is a port number, else the
/// default.
pub open spec fn port_model(setting: Option<Seq<char>>) -> u16 {
    match setting {
        Some(s) => match parse_u16(s) {
            Ok(p) => p,
            Err(_) => DEFAULT_CDP_PORT,
        },
        None => DEFAULT_CDP_PORT,
    }
}

/// The debugging port, from the text of its setting if there is one.
pub fn cdp_port(setting: Option<&str>) -> (r: u16)
    ensures
        r == port_model(
            match setting {
                Some(s) => Some(s@),
                None => None,
            },
        ),
{
    match setting {
        Some(s) => match parse_u16_of(s) {
            Ok(p) => p,
            Err(_) => DEFAULT_CDP_PORT,
        },
        None => DEFAULT_CDP_PORT,
    }
}

pub const LAUNCH_HINT: &'static str = "   open -a Slack --args --remote-debugging-port=";

/// The command that starts Slack with debugging on `port`.
pub open spec fn launch_hint_model(port: u16) -> Seq<char> {
    LAUNCH_HINT@ + decimal(port as nat)
}

/// The command that starts Slack with debugging on `port`.
pub fn launch_hint(port: u16) -> (r: String)
    ensures
        r@ == launch_hint_model(port),
{
    let mut r = owned(LAUNCH_HINT);
    push_decimal(&mut r, port as u64);
    r
}

/// What is reported when Slack cannot be reached on `port`.
pub open spec fn connect_failure_model(port: u16, error: Seq<char>) -> Seq<char> {
    "Cannot connect to Slack via CDP on port "@ + decimal(port as nat) + ".\nError: "@ + error
        + "\n\nMake sure Slack is running with the remote debugging flag:\n"@ + launch_hint_model(port)
        + "\n\nOr set SLACK_CDP_PORT to a different port."@
}

/// What is reported when Slack cannot be reached on `port`, for `error`.
pub fn connect_failure_message(port: u16, error: &str) -> (r: String)
    ensures
        r@ == connect_failure_model(port, error@),
{
    let mut r = owned("Cannot connect to Slack via CDP on port ");
    push_decimal(&mut r, port as u64);
    r.append(".\nError: ");
    r.append(error);
    r.append("\n\nMake sure Slack is running with the remote debugging flag:\n");
    let hint = launch_hint(port);
    r.append(hint.as_str());
    r.append("\n\nOr set SLACK_CDP_PORT to a different port.");
    assert(r@ =~= connect_failure_model(port, error@));
    r
}

// ---------------------------------------------------------------------------
// Requests and replies
// ---------------------------------------------------------------------------

/// The numbering of the requests sent over one connection.
pub struct CdpSession {
    pub next_id: u64,
}

/// A request that waits for its reply.
#[derive(Debug, PartialEq)]
pub struct PendingRequest {
    pub id: u64,
    pub method: String,
}

/// The body of a request: its id, method and parameters.
pub open spec fn request_model(id: u64, method: Seq<char>, params: Json) -> Json {
    Json::Object(
        seq![
            ("id"@, Json::Number(NumberModel::PosInt(id))),
            ("method"@, Json::Str(method)),
            ("params"@, params),
        ],
    )
}

impl CdpSession {
    /// A session whose first request gets id 1.
    pub fn new() -> (s: Self)
        ensures
            s.next_id == 1,
    {
        CdpSession { next_id: 1 }
    }

    /// Numbers a new request: it gets the next id, and the body to send.
    pub fn begin_request(&mut self, method: &str, params: JsonValue) -> (r: (PendingRequest, JsonValue))
        requires
            old(self).next_id < u64::MAX,
        ensures
            r.0.id == old(self).next_id,
            r.0.method@ == method@,
            final(self).next_id == old(self).next_id + 1,
            r.1@ == request_model(old(self).next_id, method@, params@),
    {
        let id = self.next_id;
        self.next_id = self.next_id + 1;
        let body = object_three(
            "id",
            JsonValue::Number(JsonNumber::PosInt(id)),
            "method",
            json_string(method),
            "params",
            params,
        );
        (PendingRequest { id, method: owned(method) }, body)
    }
}

/// What arrives on the connection while a request waits.
#[derive(Debug, PartialEq)]
pub enum WsEvent {
    /// A text frame, read as JSON (or the reason it is not JSON).
    Text(Result<JsonValue, String>),
    Ping(Vec<u8>),
    /// Any other frame.
    Other,
    Error(String),
    Closed,
}

/// What to do next while a request waits.
#[derive(Debug, PartialEq)]
pub enum CdpStep {
    /// The reply came: this is its result.
    Complete(JsonValue),
    /// The request failed.
    Fail(String),
    /// Answer a ping with these bytes, then keep waiting.
    SendPong(Vec<u8>),
    /// Keep waiting.
    Wait,
}

pub enum WsEventModel {
    Text(Result<Json, Seq<char>>),
    Ping(Seq<u8>),
    Other,
    Error(Seq<char>),
    Closed,
}

pub enum CdpStepModel {
    Complete(Json),
    Fail(Seq<char>),
    SendPong(Seq<u8>),
    Wait,
}

impl View for WsEvent {
    type V = WsEventModel;

    open spec fn view(&self) -> WsEventModel {
        match self {
            WsEvent::Text(Ok(v)) => WsEventModel::Text(Ok(v@)),
            WsEvent::Text(Err(e)) => WsEventModel::Text(Err(e@)),
            WsEvent::Ping(d) => WsEventModel::Ping(d@),
            WsEvent::Other => WsEventModel::Other,
            WsEvent::Error(e) => WsEventModel::Error(e@),
            WsEvent::Closed => WsEventModel::Closed,
        }
    }
}

impl View for CdpStep {
    type V = CdpStepModel;

    open spec fn view(&self) -> CdpStepModel {
        match self {
            CdpStep::Complete(v) => CdpStepModel::Complete(v@),
            CdpStep::Fail(e) => CdpStepModel::Fail(e@),
            CdpStep::SendPong(d) => CdpStepModel::SendPong(d@),
            CdpStep::Wait => CdpStepModel::Wait,
        }
    }
}

/// What a waiting request with `id` and `method` does with `event`: a
/// message with its id ends it, with the message's result or its error;
/// other messages are passed over; pings are answered; a broken or closed
/// connection fails it.
pub open spec fn reply_step(id: u64, method: Seq<char>, event: WsEventModel) -> CdpStepModel {
    match event {
        WsEventModel::Text(Ok(msg)) => if get_u64(msg, "id"@) == Some(id) {
            match json_get(msg, "error"@) {
                Some(err) => CdpStepModel::Fail(
                    "CDP "@ + method + " error: "@ + get_str_or(err, "message"@, "CDP error"@),
                ),
                None => CdpStepModel::Complete(get_or_null(msg, "result"@)),
            }
        } else {
            CdpStepModel::Wait
        },
        WsEventModel::Text(Err(e)) => CdpStepModel::Fail(e),
        WsEventModel::Ping(d) => CdpStepModel::SendPong(d),
        WsEventModel::Other => CdpStepModel::Wait,
        WsEventModel::Error(e) => CdpStepModel::Fail("WebSocket error: "@ + e),
        WsEventModel::Closed => CdpStepModel::Fail("WebSocket closed"@),
    }
}

impl PendingRequest {
    /// What to do with `event` while this request waits for its reply.
    pub fn on_event(&self, event: WsEvent) -> (r: CdpStep)
        ensures
            r@ == reply_step(self.id, self.method@, event@),
    {
        match event {
            WsEvent::Text(Ok(msg)) => {
                if msg.get_u64("id") == Some(self.id) {
                    match msg.get("error") {
                        Some(err) => {
                            let text = match err.get_str("message") {
                                Some(m) => m,
                                None => "CDP error",
                            };
                            let mut m = owned("CDP ");
                            m.append(self.method.as_str());
                            m.append(" error: ");
                            m.append(text);
                            CdpStep::Fail(m)
                        },
                        None => CdpStep::Complete(msg.get_or_null("result")),
                    }
                } else {
                    CdpStep::Wait
                }
            },
            WsEvent::Text(Err(e)) => CdpStep::Fail(e),
            WsEvent::Ping(d) => CdpStep::SendPong(d),
            WsEvent::Other => CdpStep::Wait,
            WsEvent::Error(e) => {
                let mut m = owned("WebSocket error: ");
                m.append(e.as_str());
                CdpStep::Fail(m)
            },
            WsEvent::Closed => CdpStep::Fail(owned("WebSocket closed")),
        }
    }
}

// ---------------------------------------------------------------------------
// Evaluation
// ---------------------------------------------------------------------------

/// The parameters of `Runtime.evaluate` for `expression`: the value is
/// returned by value, and a promise is awaited.
pub open spec fn evaluate_params_model(expression: Seq<char>) -> Json {
    Json::Object(
        seq![
            ("expression"@, Json::Str(expression)),
            ("returnByValue"@, Json::Bool(true)),
            ("awaitPromise"@, Json::Bool(true)),
        ],
    )
}

/// The parameters of `Runtime.evaluate` for `expression`.
pub fn evaluate_params(expression: &str) -> (r: JsonValue)
    ensures
        r@ == evaluate_params_model(expression@),
{
    object_three(
        "expression",
        json_string(expression),
        "returnByValue",
        JsonValue::Bool(true),
        "awaitPromise",
        JsonValue::Bool(true),
    )
}

/// The empty parameters of `Runtime.enable`.
pub fn no_params() -> (r: JsonValue)
    ensures
        r@ == Json::Object(Seq::empty()),
{
    let r = object(Vec::new());
    proof {
        crate::json::lemma_fields_of(Seq::<(String, JsonValue)>::empty());
    }
    r
}

/// What an evaluation's result stands for: the thrown exception's text,
/// or the value that the expression gave (null when there is none).
pub open spec fn evaluation_model(result: Json) -> Result<Json, Seq<char>> {
    match json_get(result, "exceptionDetails"@) {
        Some(ex) => Err("JS exception: "@ + get_str_or(ex, "text"@, "unknown error"@)),
        None => Ok(
            match json_get(result, "result"@) {
                Some(r) => get_or_null(r, "value"@),
                None => Json::Null,
            },
        ),
    }
}

/// The value of an evaluation, or the text of the exception it threw.
pub fn evaluation_outcome(result: &JsonValue) -> (r: Result<JsonValue, String>)
    ensures
        match r {
            Ok(v) => evaluation_model(result@) == Ok::<Json, Seq<char>>(v@),
            Err(e) => evaluation_model(result@) == Err::<Json, Seq<char>>(e@),
        },
{
    match result.get("exceptionDetails") {
        Some(exception) => {
            let text = match exception.get_str("text") {
                Some(t) => t,
                None => "unknown error",
            };
            let mut m = owned("JS exception: ");
            m.append(text);
            Err(m)
        },
        None => match result.get("result") {
            Some(r) => Ok(r.get_or_null("value")),
            None => Ok(JsonValue::Null),
        },
    }
}

// ---------------------------------------------------------------------------
// Targets
// ---------------------------------------------------------------------------

pub open spec fn field_text(t: Json, key: Seq<char>) -> Seq<char> {
    get_str_or(t, key, Seq::empty())
}

/// The Slack web view: its URL is on app.slack.com, or its title names
/// Slack and its URL is on slack.com.
pub open spec fn is_slack_webview(t: Json) -> bool {
    occurs_in("app.slack.com"@, field_text(t, "url"@)) || (occurs_in(
        "Slack"@,
        field_text(t, "title"@),
    ) && occurs_in("slack.com"@, field_text(t, "url"@)))
}

/// A target whose title names Slack.
pub open spec fn is_slack_title(t: Json) -> bool {
    occurs_in("Slack"@, field_text(t, "title"@)) || occurs_in("slack"@, field_text(t, "title"@))
}

/// A page target.
pub open spec fn is_page(t: Json) -> bool {
    field_text(t, "type"@) == "page"@
}

/// The target rules, from the most to the least specific.
pub open spec fn rule_holds(rule: int, t: Json) -> bool {
    if rule == 0 {
        is_slack_webview(t)
    } else if rule == 1 {
        is_slack_title(t)
    } else {
        is_page(t)
    }
}

/// The first target that satisfies `rule`.
pub open spec fn first_match(targets: Seq<Json>, rule: int) -> Option<Json>
    decreases targets.len(),
{
    if targets.len() == 0 {
        None
    } else if rule_holds(rule, targets[0]) {
        Some(targets[0])
    } else {
        first_match(targets.drop_first(), rule)
    }
}

/// The debugger URL that the rules pick, trying them in order from `rule`:
/// a rule picks the URL of the first target that satisfies it, when that
/// target has one.
pub open spec fn selected_url(targets: Seq<Json>, rule: int) -> Option<Seq<char>>
    decreases 3 - rule,
{
    if rule < 0 || rule >= 3 {
        None
    } else {
        match first_match(targets, rule) {
            Some(t) => match get_str(t, "webSocketDebuggerUrl"@) {
                Some(u) => Some(u),
                None => selected_url(targets, rule + 1),
            },
            None => selected_url(targets, rule + 1),
        }
    }
}

/// The message given when no target is found on `port`.
pub open spec fn no_target_message(port: u16) -> Seq<char> {
    "No Slack page target found on port "@ + decimal(port as nat)
        + ". Make sure Slack is running with --remote-debugging-port="@ + decimal(port as nat)
}

/// The models of a list of targets.
pub open spec fn targets_model(targets: Seq<JsonValue>) -> Seq<Json> {
    crate::json::models_of(targets)
}

fn text_or_empty(s: Option<&str>) -> (r: &str)
    ensures
        r@ == match s {
            Some(t) => t@,
            None => Seq::<char>::empty(),
        },
{
    match s {
        Some(t) => t,
        None => {
            proof {
                reveal_strlit("");
            }
            ""
        },
    }
}

fn matches_slack_webview(t: &JsonValue) -> (r: bool)
    ensures
        r == is_slack_webview(t@),
{
    let url = text_or_empty(t.get_str("url"));
    let title = text_or_empty(t.get_str("title"));
    contains(url, "app.slack.com") || contains(title, "Slack") && contains(url, "slack.com")
}

fn matches_slack_title(t: &JsonValue) -> (r: bool)
    ensures
        r == is_slack_title(t@),
{
    let title = text_or_empty(t.get_str("title"));
    contains(title, "Slack") || contains(title, "slack")
}

fn matches_page(t: &JsonValue) -> (r: bool)
    ensures
        r == is_page(t@),
{
    let tp = text_or_empty(t.get_str("type"));
    str_eq(tp, "page")
}

fn rule_matches(rule: u8, t: &JsonValue) -> (r: bool)
    requires
        rule < 3,
    ensures
        r == rule_holds(rule as int, t@),
{
    if rule == 0 {
        matches_slack_webview(t)
    } else if rule == 1 {
        matches_slack_title(t)
    } else {
        matches_page(t)
    }
}

fn find_first(targets: &Vec<JsonValue>, rule: u8) -> (r: Option<usize>)
    requires
        rule < 3,
    ensures
        match r {
            Some(i) => i < targets.len() && first_match(targets_model(targets@), rule as int) == Some(
                targets@[i as int]@,
            ),
            None => first_match(targets_model(targets@), rule as int) is None,
        },
{
    let ghost ts = targets_model(targets@);
    proof {
        crate::json::lemma_models_of(targets@);
    }
    let mut i: usize = 0;
    assert(ts.skip(0) =~= ts);
    while i < targets.len()
        invariant
            0 <= i <= targets.len(),
            rule < 3,
            ts == targets_model(targets@),
            ts.len() == targets.len(),
            forall|j: int| 0 <= j < targets.len() ==> #[trigger] ts[j] == targets@[j]@,
            first_match(ts, rule as int) == first_match(ts.skip(i as int), rule as int),
        decreases targets.len() - i,
    {
        assert(ts.skip(i as int)[0] == ts[i as int]);
        if rule_matches(rule, &targets[i]) {
            return Some(i);
        }
        assert(ts.skip(i as int).drop_first() =~= ts.skip(i + 1));
        i = i + 1;
    }
    assert(ts.skip(i as int).len() == 0);
    None
}

/// The debugger URL of the Slack page among `targets`, found on `port`.
pub fn select_target(targets: &Vec<JsonValue>, port: u16) -> (r: Result<String, String>)
    ensures
        match r {
            Ok(u) => selected_url(targets_model(targets@), 0) == Some(u@),
            Err(e) => selected_url(targets_model(targets@), 0) is None && e@ == no_target_message(port),
        },
{
    let ghost ts = targets_model(targets@);
    let mut rule: u8 = 0;
    while rule < 3
        invariant
            0 <= rule <= 3,
            ts == targets_model(targets@),
            selected_url(ts, 0) == selected_url(ts, rule as int),
        decreases 3 - rule,
    {
        match find_first(targets, rule) {
            Some(i) => match targets[i].get_str("webSocketDebuggerUrl") {
                Some(url) => {
                    return Ok(owned(url));
                },
                None => {},
            },
            None => {},
        }
        rule = rule + 1;
    }
    let mut m = owned("No Slack page target found on port ");
    push_decimal(&mut m, port as u64);
    m.append(". Make sure Slack is running with --remote-debugging-port=");
    push_decimal(&mut m, port as u64);
    assert(m@ =~= no_target_message(port));
    Err(m)
}

// ---------------------------------------------------------------------------
// The HTTP exchange that lists the targets
// ---------------------------------------------------------------------------

/// The address of the debugging port on this machine.
pub open spec fn address_model(port: u16) -> Seq<char> {
    "127.0.0.1:"@ + decimal(port as nat)
}

/// The address of the debugging port on this machine.
pub fn http_address(port: u16) -> (r: String)
    ensures
        r@ == address_model(port),
{
    let mut r = owned("127.0.0.1:");
    push_decimal(&mut r, port as u64);
    r
}

/// A `GET` request for `path` that asks the server to close the connection.
pub open spec fn request_text(path: Seq<char>, port: u16) -> Seq<char> {
    "GET "@ + path + " HTTP/1.1\r\nHost: localhost:"@ + decimal(port as nat)
        + "\r\nConnection: close\r\n\r\n"@
}

/// A `GET` request for `path` that asks the server to close the connection.
pub fn http_request(path: &str, port: u16) -> (r: String)
    ensures
        r@ == request_text(path@, port),
{
    let mut r = owned("GET ");
    r.append(path);
    r.append(" HTTP/1.1\r\nHost: localhost:");
    push_decimal(&mut r, port as u64);
    r.append("\r\nConnection: close\r\n\r\n");
    assert(r@ =~= request_text(path@, port));
    r
}

/// What one header line does to the reading of the response head.
#[derive(Debug, PartialEq, Eq, Structural)]
pub enum HeaderStep {
    /// The head is over.
    End,
    /// Go on reading; the body length announced so far.
    Continue(Option<usize>),
    /// The announced length is no number.
    Invalid(IntErrorKind),
}

/// The value of a `Content-Length` header line (in one of the two
/// spellings that are looked for).
pub open spec fn content_length_value(line: Seq<char>) -> Option<Seq<char>> {
    match strip_prefix(line, "Content-Length:"@) {
        Some(v) => Some(v),
        None => strip_prefix(line, "content-length:"@),
    }
}

/// What the line `line` (of `bytes_read` bytes, 0 at the end of the
/// stream) does when the length announced so far is `length`: an empty or
/// blank line ends the head, a `Content-Length` line announces the length,
/// any other line leaves it as it is.
pub open spec fn header_step_model(length: Option<usize>, line: Seq<char>, bytes_read: nat) -> HeaderStep {
    if bytes_read == 0 || trim(line).len() == 0 {
        HeaderStep::End
    } else {
        match content_length_value(line) {
            Some(v) => match parse_usize(trim(v)) {
                Ok(n) => HeaderStep::Continue(Some(n)),
                Err(k) => HeaderStep::Invalid(k),
            },
            None => HeaderStep::Continue(length),
        }
    }
}

/// Reads one line of a response head.
pub fn header_step(length: Option<usize>, line: &str, bytes_read: usize) -> (r: HeaderStep)
    ensures
        r == header_step_model(length, line@, bytes_read as nat),
{
    if bytes_read == 0 || trimmed(line).as_str().is_empty() {
        return HeaderStep::End;
    }
    let value = match strip_prefix_of(line, "Content-Length:") {
        Some(v) => Some(v),
        None => strip_prefix_of(line, "content-length:"),
    };
    match value {
        Some(v) => {
            let t = trimmed(v.as_str());
            match parse_usize_of(t.as_str()) {
                Ok(n) => HeaderStep::Continue(Some(n)),
                Err(k) => HeaderStep::Invalid(k),
            }
        },
        None => HeaderStep::Continue(length),
    }
}


/// The text that `String::from_utf8_lossy` makes of `bytes`: their UTF-8
/// decoding, with U+FFFD in place of each invalid sequence.
pub uninterp spec fn lossy_utf8(bytes: Seq<u8>) -> Seq<char>;

/// The message of the error that `String::from_utf8` gives for `bytes`.
pub uninterp spec fn utf8_error_text(bytes: Seq<u8>) -> Seq<char>;

/// `String::from_utf8`, with its error as text: it succeeds exactly on
/// valid UTF-8, and then holds the decoded characters.
#[verifier::external_body]
fn utf8_strict(bytes: Vec<u8>) -> (r: Result<String, String>)
    ensures
        r is Ok <==> valid_utf8(bytes@),
        r matches Ok(s) ==> s@ == decode_utf8(bytes@),
        r matches Err(e) ==> e@ == utf8_error_text(bytes@),
{
    String::from_utf8(bytes).map_err(|e| e.to_string())
}

/// `String::from_utf8_lossy(..).to_string()`: the decoding with
/// replacement characters, which on valid UTF-8 is the plain decoding.
#[verifier::external_body]
fn utf8_lossy(bytes: &[u8]) -> (r: String)
    ensures
        r@ == lossy_utf8(bytes@),
        valid_utf8(bytes@) ==> r@ == decode_utf8(bytes@),
{
    String::from_utf8_lossy(bytes).to_string()
}

/// The text of a response body: a body whose length was announced must be
/// valid UTF-8; one read to the end of the stream is decoded leniently.
pub fn decode_body(raw: Vec<u8>, length_announced: bool) -> (r: Result<String, String>)
    ensures
        length_announced ==> (r is Ok <==> valid_utf8(raw@)),
        length_announced ==> (r matches Ok(s) ==> s@ == decode_utf8(raw@)),
        length_announced ==> (r matches Err(e) ==> e@ == utf8_error_text(raw@)),
        !length_announced ==> (r matches Ok(s) && s@ == lossy_utf8(raw@)),
{
    if length_announced {
        utf8_strict(raw)
    } else {
        Ok(utf8_lossy(raw.as_slice()))
    }
}

// ---------------------------------------------------------------------------
// Laws
// ---------------------------------------------------------------------------

/// A request ends with a result only on a message that carries its own id,
/// and the ids of successive requests are distinct.
pub proof fn law_replies_match_their_request(
    first: u64,
    second: u64,
    method: Seq<char>,
    event: WsEventModel,
)
    requires
        second == first + 1,
    ensures
        reply_step(first, method, event) is Complete ==> (event matches WsEventModel::Text(Ok(msg))
            && get_u64(msg, "id"@) == Some(first)),
        reply_step(first, method, event) is Complete ==> !(reply_step(second, method, event) is Complete),
{
}

/// A text that is not JSON, an error or a closed connection always fails a
/// waiting request; a ping is always answered with its own bytes.
pub proof fn law_connection_failures_end_the_request(id: u64, method: Seq<char>, event: WsEventModel)
    ensures
        (event is Error || event is Closed || event matches WsEventModel::Text(Err(_))) ==> reply_step(
            id,
            method,
            event,
        ) is Fail,
        event matches WsEventModel::Ping(d) ==> reply_step(id, method, event) == CdpStepModel::SendPong(d),
{
}
} // verus!
