//! The JSON-RPC exchange with the daemon's control socket.
//!
//! Each call gets the next request id and goes out as one newline-terminated
//! frame `{"jsonrpc": "2.0", "id", "method", "params"}`. Lines read back are
//! skipped while blank or while they answer another id; the first reply with
//! the call's id settles it: its error, its missing result, or its result.

use vstd::prelude::*;

use crate::handlers::{ApiResponse, STATUS_SERVICE_UNAVAILABLE, EXIT_DAEMON_UNREACHABLE, error_envelope, is_failure, envelope_agrees};
use crate::json::{Json, JsonV, NumberV, Number, push_entry, view_fields, lemma_view_fields_empty, field, lemma_lookup_hit};
use crate::text::{signed_decimal, i64_to_decimal, is_blank, is_blank_text, str_eq, is_prefix_of};

verus! {

pub const METHOD_DAEMON_STATUS: &'static str = "daemon/status";
pub const METHOD_DAEMON_HEALTH: &'static str = "daemon/health";
pub const METHOD_DAEMON_START: &'static str = "daemon/start";
pub const METHOD_DAEMON_AGENTS: &'static str = "daemon/agents";
pub const METHOD_DAEMON_LOGS: &'static str = "daemon/logs";
pub const METHOD_WORKFLOW_LIST: &'static str = "workflow/list";
pub const METHOD_WORKFLOW_GET: &'static str = "workflow/get";
pub const METHOD_WORKFLOW_RUN: &'static str = "workflow/run";
pub const METHOD_WORKFLOW_EXECUTE: &'static str = "workflow/execute";
pub const METHOD_WORKFLOW_PAUSE: &'static str = "workflow/pause";
pub const METHOD_WORKFLOW_RESUME: &'static str = "workflow/resume";
pub const METHOD_WORKFLOW_CANCEL: &'static str = "workflow/cancel";
pub const METHOD_QUEUE_LIST: &'static str = "queue/list";
pub const METHOD_QUEUE_STATS: &'static str = "queue/stats";
pub const METHOD_QUEUE_ENQUEUE: &'static str = "queue/enqueue";
pub const METHOD_QUEUE_REORDER: &'static str = "queue/reorder";
pub const METHOD_QUEUE_HOLD: &'static str = "queue/hold";
pub const METHOD_QUEUE_RELEASE: &'static str = "queue/release";
pub const METHOD_QUEUE_DROP: &'static str = "queue/drop";
pub const METHOD_PLUGIN_LIST: &'static str = "plugin/list";
pub const METHOD_PLUGIN_INFO: &'static str = "plugin/info";
pub const METHOD_PLUGIN_INSTALL: &'static str = "plugin/install";
pub const METHOD_PLUGIN_UNINSTALL: &'static str = "plugin/uninstall";
pub const METHOD_PLUGIN_PING: &'static str = "plugin/ping";
pub const METHOD_PLUGIN_CALL: &'static str = "plugin/call";
pub const METHOD_PLUGIN_SEARCH: &'static str = "plugin/search";
pub const METHOD_PLUGIN_BROWSE: &'static str = "plugin/browse";
pub const METHOD_PLUGIN_UPDATE: &'static str = "plugin/update";
pub const METHOD_SUBJECT_LIST: &'static str = "subject/list";
pub const METHOD_SUBJECT_GET: &'static str = "subject/get";
pub const METHOD_SUBJECT_CREATE: &'static str = "subject/create";
pub const METHOD_SUBJECT_UPDATE: &'static str = "subject/update";
pub const METHOD_SUBJECT_NEXT: &'static str = "subject/next";
pub const METHOD_SUBJECT_STATUS: &'static str = "subject/status";
pub const METHOD_AGENT_RUN: &'static str = "agent/run";
pub const METHOD_AGENT_STATUS: &'static str = "agent/status";
pub const METHOD_AGENT_CANCEL: &'static str = "agent/cancel";

/// The id counter of one connection to the control socket.
pub struct ControlClient {
    next_id: u64,
}

/// A call that has been framed and waits for its reply.
pub struct PendingCall {
    pub id: u64,
    pub method: String,
    pub frame: Json,
    /// The shape the result must have.
    pub shape: ResultShape,
}

/// The `error` member of a JSON-RPC reply.
pub struct RpcFailure {
    pub code: i64,
    pub message: String,
}

/// A decoded JSON-RPC reply; absent and `null` members are both `None`.
pub struct RpcReply {
    pub id: Option<Json>,
    pub result: Option<Json>,
    pub error: Option<RpcFailure>,
}

/// What one reply does to a pending call.
pub enum ReplyStep {
    /// The reply answers another request: keep reading.
    Ignore,
    /// The call is settled.
    Complete(Result<Json, String>),
}

/// What one line read back (or the end of the stream) does to a pending call.
pub enum LineStep {
    /// A blank line: keep reading.
    Skip,
    /// Decode the line as a reply and hand it to `on_decoded`.
    Decode,
    /// The call is settled.
    Complete(Result<Json, String>),
}

/// The JSON shape a verb's result must have to decode as its response type:
/// a struct reads from an object, a list from an array, and a unit or an
/// optional value from `null` or an object.
#[derive(Clone, Copy, PartialEq, Eq, Debug, Structural)]
pub enum ResultShape {
    Object,
    Array,
    ObjectOrNull,
    Any,
}

/// The result shape of each verb.
pub open spec fn verb_shape(method: Seq<char>) -> ResultShape {
    if method == METHOD_DAEMON_STATUS@ {
        ResultShape::Object
    } else if method == METHOD_DAEMON_HEALTH@ {
        ResultShape::Object
    } else if method == METHOD_DAEMON_AGENTS@ {
        ResultShape::Object
    } else if method == METHOD_WORKFLOW_LIST@ {
        ResultShape::Object
    } else if method == METHOD_WORKFLOW_GET@ {
        ResultShape::Object
    } else if method == METHOD_WORKFLOW_RUN@ {
        ResultShape::Object
    } else if method == METHOD_WORKFLOW_EXECUTE@ {
        ResultShape::Object
    } else if method == METHOD_QUEUE_LIST@ {
        ResultShape::Object
    } else if method == METHOD_QUEUE_STATS@ {
        ResultShape::Object
    } else if method == METHOD_QUEUE_ENQUEUE@ {
        ResultShape::Object
    } else if method == METHOD_PLUGIN_LIST@ {
        ResultShape::Object
    } else if method == METHOD_PLUGIN_INFO@ {
        ResultShape::Object
    } else if method == METHOD_PLUGIN_INSTALL@ {
        ResultShape::Object
    } else if method == METHOD_PLUGIN_PING@ {
        ResultShape::Object
    } else if method == METHOD_PLUGIN_CALL@ {
        ResultShape::Object
    } else if method == METHOD_PLUGIN_SEARCH@ {
        ResultShape::Object
    } else if method == METHOD_PLUGIN_BROWSE@ {
        ResultShape::Object
    } else if method == METHOD_PLUGIN_UPDATE@ {
        ResultShape::Object
    } else if method == METHOD_SUBJECT_LIST@ {
        ResultShape::Object
    } else if method == METHOD_SUBJECT_GET@ {
        ResultShape::Object
    } else if method == METHOD_SUBJECT_CREATE@ {
        ResultShape::Object
    } else if method == METHOD_SUBJECT_UPDATE@ {
        ResultShape::Object
    } else if method == METHOD_SUBJECT_STATUS@ {
        ResultShape::Object
    } else if method == METHOD_AGENT_RUN@ {
        ResultShape::Object
    } else if method == METHOD_AGENT_STATUS@ {
        ResultShape::Object
    } else if method == METHOD_DAEMON_LOGS@ {
        ResultShape::Array
    } else if method == METHOD_DAEMON_START@ {
        ResultShape::ObjectOrNull
    } else if method == METHOD_WORKFLOW_PAUSE@ {
        ResultShape::ObjectOrNull
    } else if method == METHOD_WORKFLOW_RESUME@ {
        ResultShape::ObjectOrNull
    } else if method == METHOD_WORKFLOW_CANCEL@ {
        ResultShape::ObjectOrNull
    } else if method == METHOD_QUEUE_REORDER@ {
        ResultShape::ObjectOrNull
    } else if method == METHOD_QUEUE_HOLD@ {
        ResultShape::ObjectOrNull
    } else if method == METHOD_QUEUE_RELEASE@ {
        ResultShape::ObjectOrNull
    } else if method == METHOD_QUEUE_DROP@ {
        ResultShape::ObjectOrNull
    } else if method == METHOD_PLUGIN_UNINSTALL@ {
        ResultShape::ObjectOrNull
    } else if method == METHOD_AGENT_CANCEL@ {
        ResultShape::ObjectOrNull
    } else if method == METHOD_SUBJECT_NEXT@ {
        ResultShape::ObjectOrNull
    } else {
        ResultShape::Any
    }
}

/// The value has the shape.
pub open spec fn fits(shape: ResultShape, v: JsonV) -> bool {
    match shape {
        ResultShape::Object => v is Object,
        ResultShape::Array => v is Array,
        ResultShape::ObjectOrNull => v is Object || v is Null,
        ResultShape::Any => true,
    }
}

/// The result shape of a verb.
pub fn shape_of(method: &str) -> (s: ResultShape)
    ensures
        s == verb_shape(method@),
{
    if str_eq(method, METHOD_DAEMON_STATUS) {
        ResultShape::Object
    } else if str_eq(method, METHOD_DAEMON_HEALTH) {
        ResultShape::Object
    } else if str_eq(method, METHOD_DAEMON_AGENTS) {
        ResultShape::Object
    } else if str_eq(method, METHOD_WORKFLOW_LIST) {
        ResultShape::Object
    } else if str_eq(method, METHOD_WORKFLOW_GET) {
        ResultShape::Object
    } else if str_eq(method, METHOD_WORKFLOW_RUN) {
        ResultShape::Object
    } else if str_eq(method, METHOD_WORKFLOW_EXECUTE) {
        ResultShape::Object
    } else if str_eq(method, METHOD_QUEUE_LIST) {
        ResultShape::Object
    } else if str_eq(method, METHOD_QUEUE_STATS) {
        ResultShape::Object
    } else if str_eq(method, METHOD_QUEUE_ENQUEUE) {
        ResultShape::Object
    } else if str_eq(method, METHOD_PLUGIN_LIST) {
        ResultShape::Object
    } else if str_eq(method, METHOD_PLUGIN_INFO) {
        ResultShape::Object
    } else if str_eq(method, METHOD_PLUGIN_INSTALL) {
        ResultShape::Object
    } else if str_eq(method, METHOD_PLUGIN_PING) {
        ResultShape::Object
    } else if str_eq(method, METHOD_PLUGIN_CALL) {
        ResultShape::Object
    } else if str_eq(method, METHOD_PLUGIN_SEARCH) {
        ResultShape::Object
    } else if str_eq(method, METHOD_PLUGIN_BROWSE) {
        ResultShape::Object
    } else if str_eq(method, METHOD_PLUGIN_UPDATE) {
        ResultShape::Object
    } else if str_eq(method, METHOD_SUBJECT_LIST) {
        ResultShape::Object
    } else if str_eq(method, METHOD_SUBJECT_GET) {
        ResultShape::Object
    } else if str_eq(method, METHOD_SUBJECT_CREATE) {
        ResultShape::Object
    } else if str_eq(method, METHOD_SUBJECT_UPDATE) {
        ResultShape::Object
    } else if str_eq(method, METHOD_SUBJECT_STATUS) {
        ResultShape::Object
    } else if str_eq(method, METHOD_AGENT_RUN) {
        ResultShape::Object
    } else if str_eq(method, METHOD_AGENT_STATUS) {
        ResultShape::Object
    } else if str_eq(method, METHOD_DAEMON_LOGS) {
        ResultShape::Array
    } else if str_eq(method, METHOD_DAEMON_START) {
        ResultShape::ObjectOrNull
    } else if str_eq(method, METHOD_WORKFLOW_PAUSE) {
        ResultShape::ObjectOrNull
    } else if str_eq(method, METHOD_WORKFLOW_RESUME) {
        ResultShape::ObjectOrNull
    } else if str_eq(method, METHOD_WORKFLOW_CANCEL) {
        ResultShape::ObjectOrNull
    } else if str_eq(method, METHOD_QUEUE_REORDER) {
        ResultShape::ObjectOrNull
    } else if str_eq(method, METHOD_QUEUE_HOLD) {
        ResultShape::ObjectOrNull
    } else if str_eq(method, METHOD_QUEUE_RELEASE) {
        ResultShape::ObjectOrNull
    } else if str_eq(method, METHOD_QUEUE_DROP) {
        ResultShape::ObjectOrNull
    } else if str_eq(method, METHOD_PLUGIN_UNINSTALL) {
        ResultShape::ObjectOrNull
    } else if str_eq(method, METHOD_AGENT_CANCEL) {
        ResultShape::ObjectOrNull
    } else if str_eq(method, METHOD_SUBJECT_NEXT) {
        ResultShape::ObjectOrNull
    } else {
        ResultShape::Any
    }
}

/// Whether a result has the shape.
pub fn result_fits(shape: ResultShape, v: &Json) -> (r: bool)
    ensures
        r == fits(shape, v.view_json()),
{
    match shape {
        ResultShape::Object => match v {
            Json::Object(_) => true,
            _ => false,
        },
        ResultShape::Array => match v {
            Json::Array(_) => true,
            _ => false,
        },
        ResultShape::ObjectOrNull => match v {
            Json::Object(_) => true,
            Json::Null => true,
            _ => false,
        },
        ResultShape::Any => true,
    }
}

pub open spec fn result_undecodable_text(method: Seq<char>) -> Seq<char> {
    "decode "@ + method + " result"@
}

/// The id after `id`; the counter wraps around.
pub open spec fn next_after(id: u64) -> u64 {
    if id == u64::MAX { 0 } else { (id + 1) as u64 }
}

/// The request frame of a call.
pub open spec fn frame_view(id: u64, method: Seq<char>, params: JsonV) -> JsonV {
    JsonV::Object(seq![
        ("jsonrpc"@, JsonV::Str("2.0"@)),
        ("id"@, JsonV::Num(NumberV::PosInt(id))),
        ("method"@, JsonV::Str(method)),
        ("params"@, params),
    ])
}

/// The client issued `p`, a call of `method` with `params`, as its next request.
pub open spec fn issues(before: ControlClient, after: ControlClient, p: PendingCall, method: Seq<char>, params: JsonV) -> bool {
    &&& p.id == before.next_request_id()
    &&& after.next_request_id() == next_after(before.next_request_id())
    &&& p.method@ == method
    &&& p.frame.view_json() == frame_view(p.id, method, params)
    &&& p.shape == verb_shape(method)
}

/// The `params` member of a call's request frame.
pub open spec fn call_params(p: PendingCall) -> Option<JsonV> {
    field(p.frame.view_json(), "params"@)
}

/// The member `key` of a call's params.
pub open spec fn param(p: PendingCall, key: Seq<char>) -> Option<JsonV> {
    match call_params(p) {
        Some(v) => field(v, key),
        None => None,
    }
}

/// An issued call's frame carries the params it was issued with, under its
/// method's name.
pub proof fn lemma_issued_frame(before: ControlClient, after: ControlClient, p: PendingCall, method: Seq<char>, params: JsonV)
    requires
        issues(before, after, p, method, params),
    ensures
        call_params(p) == Some(params),
        field(p.frame.view_json(), "method"@) == Some(JsonV::Str(method)),
        field(p.frame.view_json(), "id"@) == Some(JsonV::Num(NumberV::PosInt(p.id))),
        field(p.frame.view_json(), "jsonrpc"@) == Some(JsonV::Str("2.0"@)),
{
    reveal_strlit("jsonrpc");
    reveal_strlit("id");
    reveal_strlit("method");
    reveal_strlit("params");
    let f = seq![
        ("jsonrpc"@, JsonV::Str("2.0"@)),
        ("id"@, JsonV::Num(NumberV::PosInt(p.id))),
        ("method"@, JsonV::Str(method)),
        ("params"@, params),
    ];
    assert(f =~= seq![("jsonrpc"@, JsonV::Str("2.0"@))].push(("id"@, JsonV::Num(NumberV::PosInt(p.id))))
        + seq![("method"@, JsonV::Str(method)), ("params"@, params)]);
    let g1 = seq![("method"@, JsonV::Str(method)), ("params"@, params)];
    assert forall|i: int| 0 <= i < g1.len() implies g1[i].0 != "id"@ by {
        assert("method"@.len() != "id"@.len());
        assert("params"@.len() != "id"@.len());
        if i == 0 { assert(g1[i].0 == "method"@); } else { assert(g1[i].0 == "params"@); }
    }
    lemma_lookup_hit(seq![("jsonrpc"@, JsonV::Str("2.0"@))], "id"@, JsonV::Num(NumberV::PosInt(p.id)),
        seq![("method"@, JsonV::Str(method)), ("params"@, params)]);
    assert(f =~= Seq::<(Seq<char>, JsonV)>::empty().push(("jsonrpc"@, JsonV::Str("2.0"@)))
        + seq![("id"@, JsonV::Num(NumberV::PosInt(p.id))), ("method"@, JsonV::Str(method)), ("params"@, params)]);
    let g0 = seq![("id"@, JsonV::Num(NumberV::PosInt(p.id))), ("method"@, JsonV::Str(method)), ("params"@, params)];
    assert forall|i: int| 0 <= i < g0.len() implies g0[i].0 != "jsonrpc"@ by {
        assert("method"@.len() != "jsonrpc"@.len());
        assert("params"@.len() != "jsonrpc"@.len());
        assert("id"@.len() != "jsonrpc"@.len());
        if i == 0 { assert(g0[i].0 == "id"@); } else if i == 1 { assert(g0[i].0 == "method"@); } else { assert(g0[i].0 == "params"@); }
    }
    lemma_lookup_hit(Seq::empty(), "jsonrpc"@, JsonV::Str("2.0"@),
        seq![("id"@, JsonV::Num(NumberV::PosInt(p.id))), ("method"@, JsonV::Str(method)), ("params"@, params)]);
    assert("params"@[0] != "method"@[0]);
    assert(f =~= seq![("jsonrpc"@, JsonV::Str("2.0"@)), ("id"@, JsonV::Num(NumberV::PosInt(p.id)))].push(("method"@, JsonV::Str(method)))
        + seq![("params"@, params)]);
    lemma_lookup_hit(seq![("jsonrpc"@, JsonV::Str("2.0"@)), ("id"@, JsonV::Num(NumberV::PosInt(p.id)))], "method"@, JsonV::Str(method),
        seq![("params"@, params)]);
    assert(f.last() == ("params"@, params));
}

/// The reply carries the id `id` (the number, as `Value::from(id)` writes it).
pub open spec fn reply_matches(reply_id: Option<Json>, id: u64) -> bool {
    match reply_id {
        Some(j) => j.view_json() == JsonV::Num(NumberV::PosInt(id)),
        None => false,
    }
}

pub open spec fn rpc_failure_text(method: Seq<char>, code: i64, message: Seq<char>) -> Seq<char> {
    method + " failed (code "@ + signed_decimal(code as int) + "): "@ + message
}

pub open spec fn missing_result_text(method: Seq<char>) -> Seq<char> {
    method + ": response missing result"@
}

pub open spec fn closed_text(method: Seq<char>) -> Seq<char> {
    "control socket closed while awaiting response for "@ + method
}

pub open spec fn undecodable_text(method: Seq<char>) -> Seq<char> {
    "decode response for "@ + method
}

pub open spec fn unreachable_text(socket: Seq<char>, detail: Seq<char>) -> Seq<char> {
    "could not reach animus daemon at "@ + socket + ": "@ + detail
}

/// The daemon-logs request with the line limit added to it.
pub open spec fn with_limit(request: JsonV, limit: u64) -> JsonV {
    match request {
        JsonV::Object(fields) => JsonV::Object(fields.push(("limit"@, JsonV::Num(NumberV::PosInt(limit))))),
        _ => request,
    }
}

/// What a reply settles, given the pending call's method and id.
pub open spec fn reply_outcome(method: Seq<char>, id: u64, shape: ResultShape, reply: RpcReply, step: ReplyStep) -> bool {
    if !reply_matches(reply.id, id) {
        step is Ignore
    } else {
        match reply.error {
            Some(e) => step matches ReplyStep::Complete(Err(m)) && m@ == rpc_failure_text(method, e.code, e.message@),
            None => match reply.result {
                Some(r) => if fits(shape, r.view_json()) {
                    step == ReplyStep::Complete(Ok(r))
                } else {
                    step matches ReplyStep::Complete(Err(m)) && m@ == result_undecodable_text(method)
                },
                None => step matches ReplyStep::Complete(Err(m)) && m@ == missing_result_text(method),
            },
        }
    }
}

/// The text of a failed call: `"{method} failed (code {code}): {message}"`.
pub fn rpc_error_to_anyhow(method: &str, err: RpcFailure) -> (m: String)
    ensures
        m@ == rpc_failure_text(method@, err.code, err.message@),
{
    let mut m = String::from_str(method);
    m.append(" failed (code ");
    let code = i64_to_decimal(err.code);
    m.append(code.as_str());
    m.append("): ");
    m.append(err.message.as_str());
    m
}

/// The text of a failure to connect to `socket`.
pub fn connect_detail(socket: &str) -> (d: String)
    ensures
        d@ == "connect "@ + socket@,
{
    let mut d = String::from_str("connect ");
    d.append(socket);
    d
}

/// The 503 answered when the control socket cannot be reached.
pub fn connect_failure(socket: &str, detail: &str) -> (r: ApiResponse)
    ensures
        is_failure(r, STATUS_SERVICE_UNAVAILABLE, "daemon_unreachable"@, unreachable_text(socket@, detail@), EXIT_DAEMON_UNREACHABLE),
        envelope_agrees(r),
{
    let mut m = String::from_str("could not reach animus daemon at ");
    m.append(socket);
    m.append(": ");
    m.append(detail);
    ApiResponse {
        status: STATUS_SERVICE_UNAVAILABLE,
        body: error_envelope("daemon_unreachable", m, EXIT_DAEMON_UNREACHABLE),
    }
}

impl PendingCall {
    /// Settles the call with a reply, or ignores a reply to another request.
    pub fn accept(&self, reply: RpcReply) -> (step: ReplyStep)
        ensures
            reply_outcome(self.method@, self.id, self.shape, reply, step),
    {
        let matches = match &reply.id {
            Some(Json::Num(Number::PosInt(n))) => *n == self.id,
            _ => false,
        };
        if !matches {
            return ReplyStep::Ignore;
        }
        match reply.error {
            Some(e) => ReplyStep::Complete(Err(rpc_error_to_anyhow(self.method.as_str(), e))),
            None => match reply.result {
                Some(r) => if result_fits(self.shape, &r) {
                    ReplyStep::Complete(Ok(r))
                } else {
                    let mut m = String::from_str("decode ");
                    m.append(self.method.as_str());
                    m.append(" result");
                    ReplyStep::Complete(Err(m))
                },
                None => {
                    let mut m = self.method.clone();
                    m.append(": response missing result");
                    ReplyStep::Complete(Err(m))
                },
            },
        }
    }

    /// Handles the next line read back; `None` is the end of the stream.
    pub fn on_line(&self, line: Option<&str>) -> (step: LineStep)
        ensures
            match line {
                None => step matches LineStep::Complete(Err(m)) && m@ == closed_text(self.method@),
                Some(l) => if is_blank_text(l@) { step is Skip } else { step is Decode },
            },
    {
        match line {
            None => LineStep::Complete(Err(self.closed_error())),
            Some(l) => if is_blank(l) { LineStep::Skip } else { LineStep::Decode },
        }
    }

    /// Handles a line that was decoded (`Some`) or could not be (`None`).
    pub fn on_decoded(&self, reply: Option<RpcReply>) -> (step: ReplyStep)
        ensures
            match reply {
                None => step matches ReplyStep::Complete(Err(m)) && m@ == undecodable_text(self.method@),
                Some(r) => reply_outcome(self.method@, self.id, self.shape, r, step),
            },
    {
        match reply {
            None => ReplyStep::Complete(Err(self.undecodable_error())),
            Some(r) => self.accept(r),
        }
    }

    /// The failure when the socket closes before the reply arrives.
    pub fn closed_error(&self) -> (m: String)
        ensures
            m@ == closed_text(self.method@),
    {
        let mut m = String::from_str("control socket closed while awaiting response for ");
        m.append(self.method.as_str());
        m
    }

    /// The failure when a line read back is not a JSON-RPC reply.
    pub fn undecodable_error(&self) -> (m: String)
        ensures
            m@ == undecodable_text(self.method@),
    {
        let mut m = String::from_str("decode response for ");
        m.append(self.method.as_str());
        m
    }
}

/// Two calls issued one after the other on a connection carry different ids,
/// so a reply can only settle the call it answers.
pub proof fn lemma_consecutive_ids_differ(
    c0: ControlClient,
    c1: ControlClient,
    c2: ControlClient,
    p1: PendingCall,
    p2: PendingCall,
    m1: Seq<char>,
    m2: Seq<char>,
    a1: JsonV,
    a2: JsonV,
)
    requires
        issues(c0, c1, p1, m1, a1),
        issues(c1, c2, p2, m2, a2),
    ensures
        p1.id != p2.id,
        reply_matches(Some(Json::Num(Number::PosInt(p2.id))), p1.id) == false,
{
}

/// Each call issued on a connection advances the id counter by one.
pub open spec fn issued_in_turn(clients: Seq<ControlClient>, calls: Seq<PendingCall>, methods: Seq<Seq<char>>, params: Seq<JsonV>) -> bool {
    &&& clients.len() == calls.len() + 1
    &&& methods.len() == calls.len()
    &&& params.len() == calls.len()
    &&& forall|i: int| 0 <= i < calls.len() ==> #[trigger] issues(clients[i], clients[i + 1], calls[i], methods[i], params[i])
}

proof fn lemma_counter_after(clients: Seq<ControlClient>, calls: Seq<PendingCall>, methods: Seq<Seq<char>>, params: Seq<JsonV>, n: int)
    requires
        issued_in_turn(clients, calls, methods, params),
        calls.len() < u64::MAX,
        clients[0].next_request_id() == 1,
        0 <= n <= calls.len(),
    ensures
        clients[n].next_request_id() == n + 1,
    decreases n,
{
    if n > 0 {
        lemma_counter_after(clients, calls, methods, params, n - 1);
        assert(issues(clients[n - 1], clients[n], calls[n - 1], methods[n - 1], params[n - 1]));
    }
}

/// On a fresh connection, the i-th call (counting from 1) carries id i, so
/// the ids of all its calls differ, short of wrapping the 64-bit counter.
pub proof fn lemma_ids_count_calls(clients: Seq<ControlClient>, calls: Seq<PendingCall>, methods: Seq<Seq<char>>, params: Seq<JsonV>)
    requires
        issued_in_turn(clients, calls, methods, params),
        calls.len() < u64::MAX,
        clients[0].next_request_id() == 1,
    ensures
        forall|i: int| 0 <= i < calls.len() ==> #[trigger] calls[i].id == i + 1,
        forall|i: int, j: int| 0 <= i < j < calls.len() ==> calls[i].id != calls[j].id,
{
    assert forall|i: int| 0 <= i < calls.len() implies #[trigger] calls[i].id == i + 1 by {
        lemma_counter_after(clients, calls, methods, params, i);
        assert(issues(clients[i], clients[i + 1], calls[i], methods[i], params[i]));
    }
    assert forall|i: int, j: int| 0 <= i < j < calls.len() implies calls[i].id != calls[j].id by {
        assert(calls[i].id == i + 1);
        assert(calls[j].id == j + 1);
    }
}

/// A reply settles a call exactly when it carries the call's id. A settled
/// call fails when the reply carries an error, with a text that starts with
/// the verb and ends with the daemon's message; it fails when the reply has
/// no result; and it succeeds only with the reply's own result, unchanged,
/// when that has the verb's shape.
pub proof fn lemma_reply_settles_own_call(p: PendingCall, reply: RpcReply, step: ReplyStep)
    requires
        reply_outcome(p.method@, p.id, p.shape, reply, step),
    ensures
        step is Complete <==> (reply.id matches Some(j) && j.view_json() == JsonV::Num(NumberV::PosInt(p.id))),
        (step is Complete && reply.error is Some) ==> (step matches ReplyStep::Complete(Err(m))
            && is_prefix_of(p.method@, m@)
            && m@.subrange(m@.len() - reply.error->Some_0.message@.len(), m@.len() as int) == reply.error->Some_0.message@),
        (step is Complete && reply.error is None && reply.result is None) ==> step matches ReplyStep::Complete(Err(_)),
        step matches ReplyStep::Complete(Ok(v)) ==> (reply.error is None && reply.result == Some(v)
            && fits(p.shape, v.view_json())),
{
    if step is Complete && reply.error is Some {
        let e = reply.error->Some_0;
        let m = rpc_failure_text(p.method@, e.code, e.message@);
        let head = p.method@ + " failed (code "@ + signed_decimal(e.code as int) + "): "@;
        assert(m =~= head + e.message@);
        assert(m.subrange(0, p.method@.len() as int) =~= p.method@);
        assert(m.subrange(m.len() - e.message@.len(), m.len() as int) =~= e.message@);
    }
}

/// A verb whose response type is a struct: its result reads from an object.
pub open spec fn struct_response_verb(method: Seq<char>) -> bool {
    method == "daemon/status"@
        || method == "daemon/health"@
        || method == "daemon/agents"@
        || method == "workflow/list"@
        || method == "workflow/get"@
        || method == "workflow/run"@
        || method == "workflow/execute"@
        || method == "queue/list"@
        || method == "queue/stats"@
        || method == "queue/enqueue"@
        || method == "plugin/list"@
        || method == "plugin/info"@
        || method == "plugin/install"@
        || method == "plugin/ping"@
        || method == "plugin/call"@
        || method == "plugin/search"@
        || method == "plugin/browse"@
        || method == "plugin/update"@
        || method == "subject/list"@
        || method == "subject/get"@
        || method == "subject/create"@
        || method == "subject/update"@
        || method == "subject/status"@
        || method == "agent/run"@
        || method == "agent/status"@
}

/// A verb whose response type is a unit: its result reads from `null` or an
/// object.
pub open spec fn unit_response_verb(method: Seq<char>) -> bool {
    method == "daemon/start"@
        || method == "workflow/pause"@
        || method == "workflow/resume"@
        || method == "workflow/cancel"@
        || method == "queue/reorder"@
        || method == "queue/hold"@
        || method == "queue/release"@
        || method == "queue/drop"@
        || method == "plugin/uninstall"@
        || method == "agent/cancel"@
        || method == "subject/next"@
}

/// A call of a verb whose response is a struct settles with the result when
/// the reply with its id carries an object and no error.
pub proof fn lemma_struct_reply_settles(
    before: ControlClient,
    after: ControlClient,
    p: PendingCall,
    method: Seq<char>,
    params: JsonV,
    reply: RpcReply,
    step: ReplyStep,
)
    requires
        issues(before, after, p, method, params),
        struct_response_verb(method),
        reply_matches(reply.id, p.id),
        reply.error is None,
        reply.result matches Some(v) && v.view_json() is Object,
        reply_outcome(p.method@, p.id, p.shape, reply, step),
    ensures
        step == ReplyStep::Complete(Ok(reply.result->Some_0)),
        p.shape == ResultShape::Object,
{
}

/// A call of a verb whose response is a unit settles successfully when the
/// reply with its id carries `null` or an object and no error.
pub proof fn lemma_unit_reply_settles(
    before: ControlClient,
    after: ControlClient,
    p: PendingCall,
    method: Seq<char>,
    params: JsonV,
    reply: RpcReply,
    step: ReplyStep,
)
    requires
        issues(before, after, p, method, params),
        unit_response_verb(method),
        reply_matches(reply.id, p.id),
        reply.error is None,
        reply.result matches Some(v) && (v.view_json() is Object || v.view_json() is Null),
        reply_outcome(p.method@, p.id, p.shape, reply, step),
    ensures
        step == ReplyStep::Complete(Ok(reply.result->Some_0)),
        p.shape == ResultShape::ObjectOrNull,
{
    reveal_strlit("agent/cancel");
    assert("agent/cancel"@.len() == 12);
    reveal_strlit("agent/run");
    assert("agent/run"@.len() == 9);
    reveal_strlit("agent/status");
    assert("agent/status"@.len() == 12);
    reveal_strlit("daemon/agents");
    assert("daemon/agents"@.len() == 13);
    reveal_strlit("daemon/health");
    assert("daemon/health"@.len() == 13);
    reveal_strlit("daemon/logs");
    assert("daemon/logs"@.len() == 11);
    reveal_strlit("daemon/start");
    assert("daemon/start"@.len() == 12);
    reveal_strlit("daemon/status");
    assert("daemon/status"@.len() == 13);
    reveal_strlit("plugin/browse");
    assert("plugin/browse"@.len() == 13);
    reveal_strlit("plugin/call");
    assert("plugin/call"@.len() == 11);
    reveal_strlit("plugin/info");
    assert("plugin/info"@.len() == 11);
    reveal_strlit("plugin/install");
    assert("plugin/install"@.len() == 14);
    reveal_strlit("plugin/list");
    assert("plugin/list"@.len() == 11);
    reveal_strlit("plugin/ping");
    assert("plugin/ping"@.len() == 11);
    reveal_strlit("plugin/search");
    assert("plugin/search"@.len() == 13);
    reveal_strlit("plugin/uninstall");
    assert("plugin/uninstall"@.len() == 16);
    reveal_strlit("plugin/update");
    assert("plugin/update"@.len() == 13);
    reveal_strlit("queue/drop");
    assert("queue/drop"@.len() == 10);
    reveal_strlit("queue/enqueue");
    assert("queue/enqueue"@.len() == 13);
    reveal_strlit("queue/hold");
    assert("queue/hold"@.len() == 10);
    reveal_strlit("queue/list");
    assert("queue/list"@.len() == 10);
    reveal_strlit("queue/release");
    assert("queue/release"@.len() == 13);
    reveal_strlit("queue/reorder");
    assert("queue/reorder"@.len() == 13);
    reveal_strlit("queue/stats");
    assert("queue/stats"@.len() == 11);
    reveal_strlit("subject/create");
    assert("subject/create"@.len() == 14);
    reveal_strlit("subject/get");
    assert("subject/get"@.len() == 11);
    reveal_strlit("subject/list");
    assert("subject/list"@.len() == 12);
    reveal_strlit("subject/next");
    assert("subject/next"@.len() == 12);
    reveal_strlit("subject/status");
    assert("subject/status"@.len() == 14);
    reveal_strlit("subject/update");
    assert("subject/update"@.len() == 14);
    reveal_strlit("workflow/cancel");
    assert("workflow/cancel"@.len() == 15);
    reveal_strlit("workflow/execute");
    assert("workflow/execute"@.len() == 16);
    reveal_strlit("workflow/get");
    assert("workflow/get"@.len() == 12);
    reveal_strlit("workflow/list");
    assert("workflow/list"@.len() == 13);
    reveal_strlit("workflow/pause");
    assert("workflow/pause"@.len() == 14);
    reveal_strlit("workflow/resume");
    assert("workflow/resume"@.len() == 15);
    reveal_strlit("workflow/run");
    assert("workflow/run"@.len() == 12);
    assert("daemon/start"@[0] != "workflow/get"@[0]);
    assert("daemon/start"@[0] != "workflow/run"@[0]);
    assert("daemon/start"@[0] != "subject/list"@[0]);
    assert("daemon/start"@[0] != "agent/status"@[0]);
    assert("workflow/pause"@[0] != "plugin/install"@[0]);
    assert("workflow/pause"@[0] != "subject/create"@[0]);
    assert("workflow/pause"@[0] != "subject/update"@[0]);
    assert("workflow/pause"@[0] != "subject/status"@[0]);
    assert("workflow/cancel"@[9] != "workflow/resume"@[9]);
    assert("queue/reorder"@[0] != "daemon/status"@[0]);
    assert("queue/reorder"@[0] != "daemon/health"@[0]);
    assert("queue/reorder"@[0] != "daemon/agents"@[0]);
    assert("queue/reorder"@[0] != "workflow/list"@[0]);
    assert("queue/reorder"@[6] != "queue/enqueue"@[6]);
    assert("queue/reorder"@[0] != "plugin/search"@[0]);
    assert("queue/reorder"@[0] != "plugin/browse"@[0]);
    assert("queue/reorder"@[0] != "plugin/update"@[0]);
    assert("queue/hold"@[6] != "queue/list"@[6]);
    assert("queue/release"@[0] != "daemon/status"@[0]);
    assert("queue/release"@[0] != "daemon/health"@[0]);
    assert("queue/release"@[0] != "daemon/agents"@[0]);
    assert("queue/release"@[0] != "workflow/list"@[0]);
    assert("queue/release"@[6] != "queue/enqueue"@[6]);
    assert("queue/release"@[0] != "plugin/search"@[0]);
    assert("queue/release"@[0] != "plugin/browse"@[0]);
    assert("queue/release"@[0] != "plugin/update"@[0]);
    assert("queue/release"@[8] != "queue/reorder"@[8]);
    assert("queue/drop"@[6] != "queue/list"@[6]);
    assert("queue/drop"@[6] != "queue/hold"@[6]);
    assert("plugin/uninstall"@[0] != "workflow/execute"@[0]);
    assert("agent/cancel"@[0] != "workflow/get"@[0]);
    assert("agent/cancel"@[0] != "workflow/run"@[0]);
    assert("agent/cancel"@[0] != "subject/list"@[0]);
    assert("agent/cancel"@[6] != "agent/status"@[6]);
    assert("agent/cancel"@[0] != "daemon/start"@[0]);
    assert("subject/next"@[0] != "workflow/get"@[0]);
    assert("subject/next"@[0] != "workflow/run"@[0]);
    assert("subject/next"@[8] != "subject/list"@[8]);
    assert("subject/next"@[0] != "agent/status"@[0]);
    assert("subject/next"@[0] != "daemon/start"@[0]);
    assert("subject/next"@[0] != "agent/cancel"@[0]);
}

/// A `daemon/logs` call settles with the result when the reply with its id
/// carries an array (the log entries) and no error, and fails to decode any
/// other value.
pub proof fn lemma_logs_reply_settles(
    before: ControlClient,
    after: ControlClient,
    p: PendingCall,
    params: JsonV,
    reply: RpcReply,
    step: ReplyStep,
)
    requires
        issues(before, after, p, "daemon/logs"@, params),
        reply_matches(reply.id, p.id),
        reply.error is None,
        reply.result is Some,
        reply_outcome(p.method@, p.id, p.shape, reply, step),
    ensures
        reply.result->Some_0.view_json() is Array ==> step == ReplyStep::Complete(Ok(reply.result->Some_0)),
        !(reply.result->Some_0.view_json() is Array) ==> (step matches ReplyStep::Complete(Err(m))
            && m@ == "decode daemon/logs result"@),
        p.shape == ResultShape::Array,
{
    reveal_strlit("agent/run");
    assert("agent/run"@.len() == 9);
    reveal_strlit("agent/status");
    assert("agent/status"@.len() == 12);
    reveal_strlit("daemon/agents");
    assert("daemon/agents"@.len() == 13);
    reveal_strlit("daemon/health");
    assert("daemon/health"@.len() == 13);
    reveal_strlit("daemon/logs");
    assert("daemon/logs"@.len() == 11);
    reveal_strlit("daemon/status");
    assert("daemon/status"@.len() == 13);
    reveal_strlit("plugin/browse");
    assert("plugin/browse"@.len() == 13);
    reveal_strlit("plugin/call");
    assert("plugin/call"@.len() == 11);
    reveal_strlit("plugin/info");
    assert("plugin/info"@.len() == 11);
    reveal_strlit("plugin/install");
    assert("plugin/install"@.len() == 14);
    reveal_strlit("plugin/list");
    assert("plugin/list"@.len() == 11);
    reveal_strlit("plugin/ping");
    assert("plugin/ping"@.len() == 11);
    reveal_strlit("plugin/search");
    assert("plugin/search"@.len() == 13);
    reveal_strlit("plugin/update");
    assert("plugin/update"@.len() == 13);
    reveal_strlit("queue/enqueue");
    assert("queue/enqueue"@.len() == 13);
    reveal_strlit("queue/list");
    assert("queue/list"@.len() == 10);
    reveal_strlit("queue/stats");
    assert("queue/stats"@.len() == 11);
    reveal_strlit("subject/create");
    assert("subject/create"@.len() == 14);
    reveal_strlit("subject/get");
    assert("subject/get"@.len() == 11);
    reveal_strlit("subject/list");
    assert("subject/list"@.len() == 12);
    reveal_strlit("subject/status");
    assert("subject/status"@.len() == 14);
    reveal_strlit("subject/update");
    assert("subject/update"@.len() == 14);
    reveal_strlit("workflow/execute");
    assert("workflow/execute"@.len() == 16);
    reveal_strlit("workflow/get");
    assert("workflow/get"@.len() == 12);
    reveal_strlit("workflow/list");
    assert("workflow/list"@.len() == 13);
    reveal_strlit("workflow/run");
    assert("workflow/run"@.len() == 12);
    assert("daemon/logs"@[0] != "queue/stats"@[0]);
    assert("daemon/logs"@[0] != "plugin/list"@[0]);
    assert("daemon/logs"@[0] != "plugin/info"@[0]);
    assert("daemon/logs"@[0] != "plugin/ping"@[0]);
    assert("daemon/logs"@[0] != "plugin/call"@[0]);
    assert("daemon/logs"@[0] != "subject/get"@[0]);
    reveal_strlit("decode ");
    reveal_strlit(" result");
    reveal_strlit("decode daemon/logs result");
    assert(result_undecodable_text("daemon/logs"@) =~= "decode daemon/logs result"@);
}

impl ControlClient {
    /// The id the next request will carry.
    pub closed spec fn next_request_id(&self) -> u64 {
        self.next_id
    }

    /// A fresh connection's counter: the first request has id 1.
    pub fn new() -> (c: Self)
        ensures
            c.next_request_id() == 1,
    {
        ControlClient { next_id: 1 }
    }

    /// Frames a call of `method` with `params` under the next id.
    pub fn rpc(&mut self, method: &str, params: Json) -> (p: PendingCall)
        ensures
            issues(*old(self), *final(self), p, method@, params.view_json()),
    {
        let id = self.next_id;
        self.next_id = if self.next_id == u64::MAX { 0 } else { self.next_id + 1 };
        let ghost pv = params.view_json();
        let mut fields: Vec<(String, Json)> = Vec::new();
        proof {
            lemma_view_fields_empty();
        }
        push_entry(&mut fields, "jsonrpc", Json::Str(String::from_str("2.0")));
        push_entry(&mut fields, "id", Json::Num(Number::PosInt(id)));
        push_entry(&mut fields, "method", Json::Str(String::from_str(method)));
        push_entry(&mut fields, "params", params);
        let frame = Json::Object(fields);
        assert(view_fields(fields@) =~= seq![
            ("jsonrpc"@, JsonV::Str("2.0"@)),
            ("id"@, JsonV::Num(NumberV::PosInt(id))),
            ("method"@, JsonV::Str(method@)),
            ("params"@, pv),
        ]);
        PendingCall { id, method: String::from_str(method), frame, shape: shape_of(method) }
    }

    /// Frames a call whose params are `null`.
    pub fn rpc_no_params(&mut self, method: &str) -> (p: PendingCall)
        ensures
            issues(*old(self), *final(self), p, method@, JsonV::Null),
    {
        self.rpc(method, Json::Null)
    }

    /// Frames `daemon/status`, which takes no params.
    pub fn daemon_status(&mut self) -> (p: PendingCall)
        ensures
            issues(*old(self), *final(self), p, METHOD_DAEMON_STATUS@, JsonV::Null),
    {
        self.rpc_no_params(METHOD_DAEMON_STATUS)
    }

    /// Frames `daemon/health`, which takes no params.
    pub fn daemon_health(&mut self) -> (p: PendingCall)
        ensures
            issues(*old(self), *final(self), p, METHOD_DAEMON_HEALTH@, JsonV::Null),
    {
        self.rpc_no_params(METHOD_DAEMON_HEALTH)
    }

    /// Frames `daemon/start`, which takes no params.
    pub fn daemon_start(&mut self) -> (p: PendingCall)
        ensures
            issues(*old(self), *final(self), p, METHOD_DAEMON_START@, JsonV::Null),
    {
        self.rpc_no_params(METHOD_DAEMON_START)
    }

    /// Frames `daemon/agents`, which takes no params.
    pub fn daemon_agents(&mut self) -> (p: PendingCall)
        ensures
            issues(*old(self), *final(self), p, METHOD_DAEMON_AGENTS@, JsonV::Null),
    {
        self.rpc_no_params(METHOD_DAEMON_AGENTS)
    }

    /// Frames `queue/stats`, which takes no params.
    pub fn queue_stats(&mut self) -> (p: PendingCall)
        ensures
            issues(*old(self), *final(self), p, METHOD_QUEUE_STATS@, JsonV::Null),
    {
        self.rpc_no_params(METHOD_QUEUE_STATS)
    }

    /// Frames `daemon/logs`: the request with `limit` added when it is an object.
    pub fn daemon_logs(&mut self, request: Json, limit: usize) -> (p: PendingCall)
        ensures
            issues(*old(self), *final(self), p, METHOD_DAEMON_LOGS@, with_limit(request.view_json(), limit as u64)),
    {
        let params = match request {
            Json::Object(fields) => {
                let mut fields = fields;
                push_entry(&mut fields, "limit", Json::Num(Number::PosInt(limit as u64)));
                Json::Object(fields)
            },
            other => other,
        };
        self.rpc(METHOD_DAEMON_LOGS, params)
    }

    /// Frames `workflow/list` with the given request as params.
    pub fn workflow_list(&mut self, request: Json) -> (p: PendingCall)
        ensures
            issues(*old(self), *final(self), p, METHOD_WORKFLOW_LIST@, request.view_json()),
    {
        self.rpc(METHOD_WORKFLOW_LIST, request)
    }

    /// Frames `workflow/get` with the given request as params.
    pub fn workflow_get(&mut self, request: Json) -> (p: PendingCall)
        ensures
            issues(*old(self), *final(self), p, METHOD_WORKFLOW_GET@, request.view_json()),
    {
        self.rpc(METHOD_WORKFLOW_GET, request)
    }

    /// Frames `workflow/run` with the given request as params.
    pub fn workflow_run(&mut self, request: Json) -> (p: PendingCall)
        ensures
            issues(*old(self), *final(self), p, METHOD_WORKFLOW_RUN@, request.view_json()),
    {
        self.rpc(METHOD_WORKFLOW_RUN, request)
    }

    /// Frames `workflow/execute` with the given request as params.
    pub fn workflow_execute(&mut self, request: Json) -> (p: PendingCall)
        ensures
            issues(*old(self), *final(self), p, METHOD_WORKFLOW_EXECUTE@, request.view_json()),
    {
        self.rpc(METHOD_WORKFLOW_EXECUTE, request)
    }

    /// Frames `workflow/pause` with the given request as params.
    pub fn workflow_pause(&mut self, request: Json) -> (p: PendingCall)
        ensures
            issues(*old(self), *final(self), p, METHOD_WORKFLOW_PAUSE@, request.view_json()),
    {
        self.rpc(METHOD_WORKFLOW_PAUSE, request)
    }

    /// Frames `workflow/resume` with the given request as params.
    pub fn workflow_resume(&mut self, request: Json) -> (p: PendingCall)
        ensures
            issues(*old(self), *final(self), p, METHOD_WORKFLOW_RESUME@, request.view_json()),
    {
        self.rpc(METHOD_WORKFLOW_RESUME, request)
    }

    /// Frames `workflow/cancel` with the given request as params.
    pub fn workflow_cancel(&mut self, request: Json) -> (p: PendingCall)
        ensures
            issues(*old(self), *final(self), p, METHOD_WORKFLOW_CANCEL@, request.view_json()),
    {
        self.rpc(METHOD_WORKFLOW_CANCEL, request)
    }

    /// Frames `queue/list` with the given request as params.
    pub fn queue_list(&mut self, request: Json) -> (p: PendingCall)
        ensures
            issues(*old(self), *final(self), p, METHOD_QUEUE_LIST@, request.view_json()),
    {
        self.rpc(METHOD_QUEUE_LIST, request)
    }

    /// Frames `queue/enqueue` with the given request as params.
    pub fn queue_enqueue(&mut self, request: Json) -> (p: PendingCall)
        ensures
            issues(*old(self), *final(self), p, METHOD_QUEUE_ENQUEUE@, request.view_json()),
    {
        self.rpc(METHOD_QUEUE_ENQUEUE, request)
    }

    /// Frames `queue/reorder` with the given request as params.
    pub fn queue_reorder(&mut self, request: Json) -> (p: PendingCall)
        ensures
            issues(*old(self), *final(self), p, METHOD_QUEUE_REORDER@, request.view_json()),
    {
        self.rpc(METHOD_QUEUE_REORDER, request)
    }

    /// Frames `queue/hold` with the given request as params.
    pub fn queue_hold(&mut self, request: Json) -> (p: PendingCall)
        ensures
            issues(*old(self), *final(self), p, METHOD_QUEUE_HOLD@, request.view_json()),
    {
        self.rpc(METHOD_QUEUE_HOLD, request)
    }

    /// Frames `queue/release` with the given request as params.
    pub fn queue_release(&mut self, request: Json) -> (p: PendingCall)
        ensures
            issues(*old(self), *final(self), p, METHOD_QUEUE_RELEASE@, request.view_json()),
    {
        self.rpc(METHOD_QUEUE_RELEASE, request)
    }

    /// Frames `queue/drop` with the given request as params.
    pub fn queue_drop(&mut self, request: Json) -> (p: PendingCall)
        ensures
            issues(*old(self), *final(self), p, METHOD_QUEUE_DROP@, request.view_json()),
    {
        self.rpc(METHOD_QUEUE_DROP, request)
    }

    /// Frames `plugin/list` with the given request as params.
    pub fn plugin_list(&mut self, request: Json) -> (p: PendingCall)
        ensures
            issues(*old(self), *final(self), p, METHOD_PLUGIN_LIST@, request.view_json()),
    {
        self.rpc(METHOD_PLUGIN_LIST, request)
    }

    /// Frames `plugin/info` with the given request as params.
    pub fn plugin_info(&mut self, request: Json) -> (p: PendingCall)
        ensures
            issues(*old(self), *final(self), p, METHOD_PLUGIN_INFO@, request.view_json()),
    {
        self.rpc(METHOD_PLUGIN_INFO, request)
    }

    /// Frames `plugin/install` with the given request as params.
    pub fn plugin_install(&mut self, request: Json) -> (p: PendingCall)
        ensures
            issues(*old(self), *final(self), p, METHOD_PLUGIN_INSTALL@, request.view_json()),
    {
        self.rpc(METHOD_PLUGIN_INSTALL, request)
    }

    /// Frames `plugin/uninstall` with the given request as params.
    pub fn plugin_uninstall(&mut self, request: Json) -> (p: PendingCall)
        ensures
            issues(*old(self), *final(self), p, METHOD_PLUGIN_UNINSTALL@, request.view_json()),
    {
        self.rpc(METHOD_PLUGIN_UNINSTALL, request)
    }

    /// Frames `plugin/ping` with the given request as params.
    pub fn plugin_ping(&mut self, request: Json) -> (p: PendingCall)
        ensures
            issues(*old(self), *final(self), p, METHOD_PLUGIN_PING@, request.view_json()),
    {
        self.rpc(METHOD_PLUGIN_PING, request)
    }

    /// Frames `plugin/call` with the given request as params.
    pub fn plugin_call(&mut self, request: Json) -> (p: PendingCall)
        ensures
            issues(*old(self), *final(self), p, METHOD_PLUGIN_CALL@, request.view_json()),
    {
        self.rpc(METHOD_PLUGIN_CALL, request)
    }

    /// Frames `plugin/search` with the given request as params.
    pub fn plugin_search(&mut self, request: Json) -> (p: PendingCall)
        ensures
            issues(*old(self), *final(self), p, METHOD_PLUGIN_SEARCH@, request.view_json()),
    {
        self.rpc(METHOD_PLUGIN_SEARCH, request)
    }

    /// Frames `plugin/browse` with the given request as params.
    pub fn plugin_browse(&mut self, request: Json) -> (p: PendingCall)
        ensures
            issues(*old(self), *final(self), p, METHOD_PLUGIN_BROWSE@, request.view_json()),
    {
        self.rpc(METHOD_PLUGIN_BROWSE, request)
    }

    /// Frames `plugin/update` with the given request as params.
    pub fn plugin_update(&mut self, request: Json) -> (p: PendingCall)
        ensures
            issues(*old(self), *final(self), p, METHOD_PLUGIN_UPDATE@, request.view_json()),
    {
        self.rpc(METHOD_PLUGIN_UPDATE, request)
    }

    /// Frames `subject/list` with the given request as params.
    pub fn subject_list(&mut self, request: Json) -> (p: PendingCall)
        ensures
            issues(*old(self), *final(self), p, METHOD_SUBJECT_LIST@, request.view_json()),
    {
        self.rpc(METHOD_SUBJECT_LIST, request)
    }

    /// Frames `subject/get` with the given request as params.
    pub fn subject_get(&mut self, request: Json) -> (p: PendingCall)
        ensures
            issues(*old(self), *final(self), p, METHOD_SUBJECT_GET@, request.view_json()),
    {
        self.rpc(METHOD_SUBJECT_GET, request)
    }

    /// Frames `subject/create` with the given request as params.
    pub fn subject_create(&mut self, request: Json) -> (p: PendingCall)
        ensures
            issues(*old(self), *final(self), p, METHOD_SUBJECT_CREATE@, request.view_json()),
    {
        self.rpc(METHOD_SUBJECT_CREATE, request)
    }

    /// Frames `subject/update` with the given request as params.
    pub fn subject_update(&mut self, request: Json) -> (p: PendingCall)
        ensures
            issues(*old(self), *final(self), p, METHOD_SUBJECT_UPDATE@, request.view_json()),
    {
        self.rpc(METHOD_SUBJECT_UPDATE, request)
    }

    /// Frames `subject/next` with the given request as params.
    pub fn subject_next(&mut self, request: Json) -> (p: PendingCall)
        ensures
            issues(*old(self), *final(self), p, METHOD_SUBJECT_NEXT@, request.view_json()),
    {
        self.rpc(METHOD_SUBJECT_NEXT, request)
    }

    /// Frames `subject/status` with the given request as params.
    pub fn subject_status(&mut self, request: Json) -> (p: PendingCall)
        ensures
            issues(*old(self), *final(self), p, METHOD_SUBJECT_STATUS@, request.view_json()),
    {
        self.rpc(METHOD_SUBJECT_STATUS, request)
    }

    /// Frames `agent/run` with the given request as params.
    pub fn agent_run(&mut self, request: Json) -> (p: PendingCall)
        ensures
            issues(*old(self), *final(self), p, METHOD_AGENT_RUN@, request.view_json()),
    {
        self.rpc(METHOD_AGENT_RUN, request)
    }

    /// Frames `agent/status` with the given request as params.
    pub fn agent_status(&mut self, request: Json) -> (p: PendingCall)
        ensures
            issues(*old(self), *final(self), p, METHOD_AGENT_STATUS@, request.view_json()),
    {
        self.rpc(METHOD_AGENT_STATUS, request)
    }

    /// Frames `agent/cancel` with the given request as params.
    pub fn agent_cancel(&mut self, request: Json) -> (p: PendingCall)
        ensures
            issues(*old(self), *final(self), p, METHOD_AGENT_CANCEL@, request.view_json()),
    {
        self.rpc(METHOD_AGENT_CANCEL, request)
    }
}

} // verus!
