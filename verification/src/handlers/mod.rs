//! The response envelope every route answers with, and the request flow that
//! ties a route's inputs to one control call.
//!
//! Success: `{"ok": true, "data": ...}`; failure:
//! `{"ok": false, "error": {"code", "message", "exit_code"}}`.

pub mod daemon;
pub mod plugin;
pub mod queue;
pub mod subject;
pub mod subject_ops;
pub mod workflows;

use vstd::prelude::*;

use crate::control_client::{
    ControlClient, PendingCall, issues, next_after, connect_failure, unreachable_text, METHOD_DAEMON_STATUS, METHOD_DAEMON_HEALTH,
    METHOD_DAEMON_START, METHOD_DAEMON_AGENTS, METHOD_DAEMON_LOGS, METHOD_WORKFLOW_LIST,
    METHOD_WORKFLOW_GET, METHOD_WORKFLOW_RUN, METHOD_WORKFLOW_EXECUTE, METHOD_WORKFLOW_PAUSE,
    METHOD_WORKFLOW_RESUME, METHOD_WORKFLOW_CANCEL, METHOD_QUEUE_LIST, METHOD_QUEUE_STATS,
    METHOD_QUEUE_HOLD, METHOD_QUEUE_RELEASE,
    METHOD_QUEUE_DROP, METHOD_PLUGIN_LIST, METHOD_PLUGIN_INFO, METHOD_PLUGIN_INSTALL,
    METHOD_PLUGIN_UNINSTALL, METHOD_PLUGIN_PING, METHOD_PLUGIN_CALL, METHOD_PLUGIN_SEARCH,
    METHOD_PLUGIN_BROWSE, METHOD_PLUGIN_UPDATE, METHOD_SUBJECT_GET, call_params, param, lemma_issued_frame,
};
use crate::json::{Json, JsonV, Number, NumberV, push_entry, view_fields, lemma_view_fields_empty, lemma_lookup_push_hit,
    lemma_lookup_push_other, field, lookup};
use crate::server::{Operation, control_method_of};

verus! {

pub const STATUS_OK: u16 = 200;
pub const STATUS_BAD_REQUEST: u16 = 400;
pub const STATUS_NOT_IMPLEMENTED: u16 = 501;
pub const STATUS_BAD_GATEWAY: u16 = 502;
pub const STATUS_SERVICE_UNAVAILABLE: u16 = 503;

/// Exit code that the CLI uses for rejected input.
pub const EXIT_INVALID_INPUT: i32 = 2;
/// Exit code that the CLI uses when the daemon cannot be reached.
pub const EXIT_DAEMON_UNREACHABLE: i32 = 20;
/// Exit code for any other failure.
pub const EXIT_FAILURE: i32 = 1;

/// The `error` object of a failed request.
pub struct ErrorBody {
    pub code: String,
    pub message: String,
    pub exit_code: i32,
}

/// What a route answers: data, or an error.
pub enum Envelope {
    Success(Json),
    Failure(ErrorBody),
}

/// An HTTP status together with the envelope sent as the body.
pub struct ApiResponse {
    pub status: u16,
    pub body: Envelope,
}

/// A JSON integer as `serde_json` writes an `i32`.
pub open spec fn int_v(n: i32) -> JsonV {
    if n < 0 {
        JsonV::Num(NumberV::NegInt(n as i64))
    } else {
        JsonV::Num(NumberV::PosInt(n as u64))
    }
}

/// The JSON document of an envelope.
pub open spec fn envelope_view(e: Envelope) -> JsonV {
    match e {
        Envelope::Success(data) => JsonV::Object(
            seq![("ok"@, JsonV::Bool(true)), ("data"@, data.view_json())],
        ),
        Envelope::Failure(err) => JsonV::Object(
            seq![
                ("ok"@, JsonV::Bool(false)),
                ("error"@, JsonV::Object(seq![
                    ("code"@, JsonV::Str(err.code@)),
                    ("message"@, JsonV::Str(err.message@)),
                    ("exit_code"@, int_v(err.exit_code)),
                ])),
            ],
        ),
    }
}

/// The envelope says `"ok": true` exactly when the status is 200.
pub open spec fn envelope_agrees(r: ApiResponse) -> bool {
    (r.status == STATUS_OK) <==> (r.body is Success)
}

/// A failed response with the given status, error code, message and exit code.
pub open spec fn is_failure(r: ApiResponse, status: u16, code: Seq<char>, message: Seq<char>, exit_code: i32) -> bool {
    &&& r.status == status
    &&& r.body matches Envelope::Failure(e)
    &&& e.code@ == code
    &&& e.message@ == message
    &&& e.exit_code == exit_code
}

/// A rejection of the request's input: 400, `invalid_input`, exit code 2.
pub open spec fn is_invalid_input(r: ApiResponse, message: Seq<char>) -> bool {
    is_failure(r, STATUS_BAD_REQUEST, "invalid_input"@, message, EXIT_INVALID_INPUT)
}

/// The response for what the daemon answered: its data under 200, or its
/// error under 502.
pub open spec fn wire_outcome(r: ApiResponse, result: Result<Json, String>) -> bool {
    match result {
        Ok(data) => r.status == STATUS_OK && r.body == Envelope::Success(data),
        Err(message) => is_failure(r, STATUS_BAD_GATEWAY, "wire_error"@, message@, EXIT_FAILURE),
    }
}

/// Builds the `error` half of an envelope.
pub fn error_envelope(code: &str, message: String, exit_code: i32) -> (e: Envelope)
    ensures
        e matches Envelope::Failure(b) && b.code@ == code@ && b.message@ == message@
            && b.exit_code == exit_code,
{
    Envelope::Failure(ErrorBody { code: String::from_str(code), message, exit_code })
}

/// A 400 response rejecting the request's input.
pub fn invalid_input(message: String) -> (r: ApiResponse)
    ensures
        is_invalid_input(r, message@),
        envelope_agrees(r),
{
    ApiResponse { status: STATUS_BAD_REQUEST, body: error_envelope("invalid_input", message, EXIT_INVALID_INPUT) }
}

/// A 501 response for a route that has no control verb behind it.
pub fn not_implemented(message: String) -> (r: ApiResponse)
    ensures
        is_failure(r, STATUS_NOT_IMPLEMENTED, "not_implemented"@, message@, EXIT_FAILURE),
        envelope_agrees(r),
{
    ApiResponse { status: STATUS_NOT_IMPLEMENTED, body: error_envelope("not_implemented", message, EXIT_FAILURE) }
}

/// Wraps what the daemon answered (or the failure of the exchange).
pub fn wire_response(result: Result<Json, String>) -> (r: ApiResponse)
    ensures
        wire_outcome(r, result),
        envelope_agrees(r),
{
    match result {
        Ok(data) => ApiResponse { status: STATUS_OK, body: Envelope::Success(data) },
        Err(message) => ApiResponse {
            status: STATUS_BAD_GATEWAY,
            body: error_envelope("wire_error", message, EXIT_FAILURE),
        },
    }
}

fn int_json(n: i32) -> (j: Json)
    ensures
        j.view_json() == int_v(n),
{
    if n < 0 {
        Json::Num(Number::NegInt(n as i64))
    } else {
        Json::Num(Number::PosInt(n as u64))
    }
}

impl ApiResponse {
    /// The JSON document sent as the response body.
    pub fn into_json(self) -> (j: Json)
        ensures
            j.view_json() == envelope_view(self.body),
    {
        let mut fields: Vec<(String, Json)> = Vec::new();
        proof {
            lemma_view_fields_empty();
        }
        match self.body {
            Envelope::Success(data) => {
                push_entry(&mut fields, "ok", Json::Bool(true));
                push_entry(&mut fields, "data", data);
            },
            Envelope::Failure(err) => {
                let mut inner: Vec<(String, Json)> = Vec::new();
                push_entry(&mut inner, "code", Json::Str(err.code));
                push_entry(&mut inner, "message", Json::Str(err.message));
                push_entry(&mut inner, "exit_code", int_json(err.exit_code));
                push_entry(&mut fields, "ok", Json::Bool(false));
                push_entry(&mut fields, "error", Json::Object(inner));
                assert(view_fields(inner@) =~= seq![
                    ("code"@, JsonV::Str(err.code@)),
                    ("message"@, JsonV::Str(err.message@)),
                    ("exit_code"@, int_v(err.exit_code)),
                ]);
            },
        }
        assert(view_fields(fields@) =~= match envelope_view(self.body) {
            JsonV::Object(f) => f,
            _ => Seq::empty(),
        });
        Json::Object(fields)
    }
}

/// The request was refused with a 400 before anything was sent.
pub open spec fn refused(before: ControlClient, after: ControlClient, r: Result<PendingCall, ApiResponse>, message: Seq<char>) -> bool {
    r matches Err(e) && is_invalid_input(e, message) && after == before
}

/// The request went out as a call of `method` with `params`.
pub open spec fn sent(before: ControlClient, after: ControlClient, r: Result<PendingCall, ApiResponse>, method: Seq<char>, params: JsonV) -> bool {
    r matches Ok(p) && issues(before, after, p, method, params)
}

/// `{"id": id}`.
pub open spec fn id_params(id: Seq<char>) -> JsonV {
    JsonV::Object(seq![("id"@, JsonV::Str(id))])
}

/// `{"id": id}` as a request.
pub fn id_request(id: String) -> (r: Json)
    ensures
        r.view_json() == id_params(id@),
{
    let mut fields: Vec<(String, Json)> = Vec::new();
    proof {
        lemma_view_fields_empty();
    }
    push_entry(&mut fields, "id", Json::Str(id));
    assert(view_fields(fields@) =~= seq![("id"@, JsonV::Str(id@))]);
    Json::Object(fields)
}

/// A request on one route, with the inputs taken from its path, query and body.
pub enum Endpoint {
    DaemonStatus,
    DaemonHealth,
    DaemonStart,
    DaemonAgents,
    DaemonLogs(daemon::LogsQuery),
    DaemonClearLogs,
    WorkflowList(workflows::ListQuery),
    WorkflowRun(workflows::RunBody),
    WorkflowExecute(Json),
    WorkflowGet(String),
    WorkflowPause(String),
    WorkflowResume(String, Option<workflows::ResumeBody>),
    WorkflowCancel(String),
    QueueList(queue::ListQuery),
    QueueStats,
    /// The body decoded as the enqueue request, or why it does not decode.
    QueueEnqueue(Result<Json, String>),
    /// The body decoded as the reorder request, or why it does not decode.
    QueueReorder(Result<Json, String>),
    QueueHold(String, Option<Json>),
    QueueRelease(String),
    QueueDrop(String),
    PluginList(Vec<(String, String)>),
    PluginInfo(String),
    PluginInstall(Json),
    PluginUninstall(String),
    PluginPing(String),
    PluginCall(Json),
    PluginSearch(Vec<(String, String)>),
    PluginBrowse(Vec<(String, String)>),
    PluginUpdate(Json),
    SubjectList(subject_ops::ListQuery),
    SubjectCreate(subject_ops::CreateBody),
    SubjectNext(subject_ops::NextQuery),
    SubjectGet(String),
    SubjectUpdate(String, subject_ops::UpdateBody),
    SubjectStatus(String, subject_ops::StatusBody),
    SubjectCall(String, Json),
}

/// The route a request came in on.
pub open spec fn endpoint_operation(ep: Endpoint) -> Operation {
    match ep {
        Endpoint::DaemonStatus => Operation::DaemonStatus,
        Endpoint::DaemonHealth => Operation::DaemonHealth,
        Endpoint::DaemonStart => Operation::DaemonStart,
        Endpoint::DaemonAgents => Operation::DaemonAgents,
        Endpoint::DaemonLogs(..) => Operation::DaemonLogs,
        Endpoint::DaemonClearLogs => Operation::DaemonClearLogs,
        Endpoint::WorkflowList(..) => Operation::WorkflowList,
        Endpoint::WorkflowRun(..) => Operation::WorkflowRun,
        Endpoint::WorkflowExecute(..) => Operation::WorkflowExecute,
        Endpoint::WorkflowGet(..) => Operation::WorkflowGet,
        Endpoint::WorkflowPause(..) => Operation::WorkflowPause,
        Endpoint::WorkflowResume(..) => Operation::WorkflowResume,
        Endpoint::WorkflowCancel(..) => Operation::WorkflowCancel,
        Endpoint::QueueList(..) => Operation::QueueList,
        Endpoint::QueueStats => Operation::QueueStats,
        Endpoint::QueueEnqueue(..) => Operation::QueueEnqueue,
        Endpoint::QueueReorder(..) => Operation::QueueReorder,
        Endpoint::QueueHold(..) => Operation::QueueHold,
        Endpoint::QueueRelease(..) => Operation::QueueRelease,
        Endpoint::QueueDrop(..) => Operation::QueueDrop,
        Endpoint::PluginList(..) => Operation::PluginList,
        Endpoint::PluginInfo(..) => Operation::PluginInfo,
        Endpoint::PluginInstall(..) => Operation::PluginInstall,
        Endpoint::PluginUninstall(..) => Operation::PluginUninstall,
        Endpoint::PluginPing(..) => Operation::PluginPing,
        Endpoint::PluginCall(..) => Operation::PluginCall,
        Endpoint::PluginSearch(..) => Operation::PluginSearch,
        Endpoint::PluginBrowse(..) => Operation::PluginBrowse,
        Endpoint::PluginUpdate(..) => Operation::PluginUpdate,
        Endpoint::SubjectList(..) => Operation::SubjectList,
        Endpoint::SubjectCreate(..) => Operation::SubjectCreate,
        Endpoint::SubjectNext(..) => Operation::SubjectNext,
        Endpoint::SubjectGet(..) => Operation::SubjectGet,
        Endpoint::SubjectUpdate(..) => Operation::SubjectUpdate,
        Endpoint::SubjectStatus(..) => Operation::SubjectStatus,
        Endpoint::SubjectCall(..) => Operation::SubjectCall,
    }
}

/// What the route answers before contacting the daemon, if anything: `list`
/// and `next` on subjects need a non-empty kind, and clearing the logs has no
/// control verb.
pub open spec fn early_answer_outcome(ep: Endpoint, r: Option<ApiResponse>) -> bool {
    match ep {
        Endpoint::SubjectList(q) => match subject_ops::nonempty_kind(q.kind) {
            None => r matches Some(e) && is_invalid_input(e, subject_ops::LIST_KIND_REQUIRED@),
            Some(_) => r is None,
        },
        Endpoint::SubjectNext(q) => match subject_ops::nonempty_kind(q.kind) {
            None => r matches Some(e) && is_invalid_input(e, subject_ops::NEXT_KIND_REQUIRED@),
            Some(_) => r is None,
        },
        Endpoint::DaemonClearLogs => r matches Some(e) && is_failure(e, STATUS_NOT_IMPLEMENTED,
            "not_implemented"@, daemon::CLEAR_LOGS_UNSUPPORTED@, EXIT_FAILURE),
        _ => r is None,
    }
}

/// What a route does once the daemon is reachable: the call it sends, or the
/// answer that refuses the request.
pub open spec fn dispatch_outcome(ep: Endpoint, b: ControlClient, a: ControlClient, r: Result<PendingCall, ApiResponse>) -> bool {
    match ep {
        Endpoint::DaemonStatus => sent(b, a, r, METHOD_DAEMON_STATUS@, JsonV::Null),
        Endpoint::DaemonHealth => sent(b, a, r, METHOD_DAEMON_HEALTH@, JsonV::Null),
        Endpoint::DaemonStart => sent(b, a, r, METHOD_DAEMON_START@, JsonV::Null),
        Endpoint::DaemonAgents => sent(b, a, r, METHOD_DAEMON_AGENTS@, JsonV::Null),
        Endpoint::DaemonLogs(q) => sent(b, a, r, METHOD_DAEMON_LOGS@, JsonV::Object(seq![("limit"@, JsonV::Num(NumberV::PosInt(daemon::log_limit(q) as u64)))])),
        Endpoint::DaemonClearLogs => r matches Err(e) && is_failure(e, STATUS_NOT_IMPLEMENTED, "not_implemented"@, daemon::CLEAR_LOGS_UNSUPPORTED@, EXIT_FAILURE) && a == b,
        Endpoint::WorkflowList(q) => sent(b, a, r, METHOD_WORKFLOW_LIST@, workflows::list_params(q)),
        Endpoint::WorkflowRun(body) => sent(b, a, r, METHOD_WORKFLOW_RUN@, workflows::run_params(body)),
        Endpoint::WorkflowExecute(body) => sent(b, a, r, METHOD_WORKFLOW_EXECUTE@, body.view_json()),
        Endpoint::WorkflowGet(id) => sent(b, a, r, METHOD_WORKFLOW_GET@, id_params(id@)),
        Endpoint::WorkflowPause(id) => sent(b, a, r, METHOD_WORKFLOW_PAUSE@, id_params(id@)),
        Endpoint::WorkflowResume(id, body) => sent(b, a, r, METHOD_WORKFLOW_RESUME@, workflows::resume_params(id@, body)),
        Endpoint::WorkflowCancel(id) => sent(b, a, r, METHOD_WORKFLOW_CANCEL@, id_params(id@)),
        Endpoint::QueueList(q) => sent(b, a, r, METHOD_QUEUE_LIST@, queue::list_params(q)),
        Endpoint::QueueStats => sent(b, a, r, METHOD_QUEUE_STATS@, JsonV::Null),
        Endpoint::QueueEnqueue(body) => queue::enqueue_outcome(body, b, a, r),
        Endpoint::QueueReorder(body) => queue::reorder_outcome(body, b, a, r),
        Endpoint::QueueHold(id, body) => sent(b, a, r, METHOD_QUEUE_HOLD@, queue::hold_params(id@, queue::hold_reason(body))),
        Endpoint::QueueRelease(id) => sent(b, a, r, METHOD_QUEUE_RELEASE@, id_params(id@)),
        Endpoint::QueueDrop(id) => sent(b, a, r, METHOD_QUEUE_DROP@, id_params(id@)),
        Endpoint::PluginList(query) => sent(b, a, r, METHOD_PLUGIN_LIST@, plugin::query_params(query@)),
        Endpoint::PluginInfo(name) => sent(b, a, r, METHOD_PLUGIN_INFO@, plugin::name_params(name@)),
        Endpoint::PluginInstall(body) => sent(b, a, r, METHOD_PLUGIN_INSTALL@, body.view_json()),
        Endpoint::PluginUninstall(name) => sent(b, a, r, METHOD_PLUGIN_UNINSTALL@, plugin::name_params(name@)),
        Endpoint::PluginPing(name) => sent(b, a, r, METHOD_PLUGIN_PING@, plugin::name_params(name@)),
        Endpoint::PluginCall(body) => sent(b, a, r, METHOD_PLUGIN_CALL@, body.view_json()),
        Endpoint::PluginSearch(query) => sent(b, a, r, METHOD_PLUGIN_SEARCH@, plugin::query_params(query@)),
        Endpoint::PluginBrowse(query) => sent(b, a, r, METHOD_PLUGIN_BROWSE@, plugin::query_params(query@)),
        Endpoint::PluginUpdate(body) => sent(b, a, r, METHOD_PLUGIN_UPDATE@, body.view_json()),
        Endpoint::SubjectList(q) => subject_ops::list_outcome(q, b, a, r),
        Endpoint::SubjectCreate(body) => subject_ops::create_outcome(body, b, a, r),
        Endpoint::SubjectNext(q) => subject_ops::next_outcome(q, b, a, r),
        Endpoint::SubjectGet(id) => sent(b, a, r, METHOD_SUBJECT_GET@, id_params(id@)),
        Endpoint::SubjectUpdate(id, body) => subject_ops::update_outcome(id@, body, b, a, r),
        Endpoint::SubjectStatus(id, body) => subject_ops::status_outcome(id@, body, b, a, r),
        Endpoint::SubjectCall(plugin, body) => subject::call_outcome(plugin@, body.view_json(), b, a, r),
    }
}

impl Endpoint {
    pub fn operation(&self) -> (op: Operation)
        ensures
            op == endpoint_operation(*self),
    {
        match self {
            Endpoint::DaemonStatus => Operation::DaemonStatus,
            Endpoint::DaemonHealth => Operation::DaemonHealth,
            Endpoint::DaemonStart => Operation::DaemonStart,
            Endpoint::DaemonAgents => Operation::DaemonAgents,
            Endpoint::DaemonLogs(..) => Operation::DaemonLogs,
            Endpoint::DaemonClearLogs => Operation::DaemonClearLogs,
            Endpoint::WorkflowList(..) => Operation::WorkflowList,
            Endpoint::WorkflowRun(..) => Operation::WorkflowRun,
            Endpoint::WorkflowExecute(..) => Operation::WorkflowExecute,
            Endpoint::WorkflowGet(..) => Operation::WorkflowGet,
            Endpoint::WorkflowPause(..) => Operation::WorkflowPause,
            Endpoint::WorkflowResume(..) => Operation::WorkflowResume,
            Endpoint::WorkflowCancel(..) => Operation::WorkflowCancel,
            Endpoint::QueueList(..) => Operation::QueueList,
            Endpoint::QueueStats => Operation::QueueStats,
            Endpoint::QueueEnqueue(..) => Operation::QueueEnqueue,
            Endpoint::QueueReorder(..) => Operation::QueueReorder,
            Endpoint::QueueHold(..) => Operation::QueueHold,
            Endpoint::QueueRelease(..) => Operation::QueueRelease,
            Endpoint::QueueDrop(..) => Operation::QueueDrop,
            Endpoint::PluginList(..) => Operation::PluginList,
            Endpoint::PluginInfo(..) => Operation::PluginInfo,
            Endpoint::PluginInstall(..) => Operation::PluginInstall,
            Endpoint::PluginUninstall(..) => Operation::PluginUninstall,
            Endpoint::PluginPing(..) => Operation::PluginPing,
            Endpoint::PluginCall(..) => Operation::PluginCall,
            Endpoint::PluginSearch(..) => Operation::PluginSearch,
            Endpoint::PluginBrowse(..) => Operation::PluginBrowse,
            Endpoint::PluginUpdate(..) => Operation::PluginUpdate,
            Endpoint::SubjectList(..) => Operation::SubjectList,
            Endpoint::SubjectCreate(..) => Operation::SubjectCreate,
            Endpoint::SubjectNext(..) => Operation::SubjectNext,
            Endpoint::SubjectGet(..) => Operation::SubjectGet,
            Endpoint::SubjectUpdate(..) => Operation::SubjectUpdate,
            Endpoint::SubjectStatus(..) => Operation::SubjectStatus,
            Endpoint::SubjectCall(..) => Operation::SubjectCall,
        }
    }

    /// The answer given before connecting to the daemon, if any.
    pub fn early_answer(&self) -> (r: Option<ApiResponse>)
        ensures
            early_answer_outcome(*self, r),
            r matches Some(e) ==> envelope_agrees(e),
    {
        match self {
            Endpoint::SubjectList(q) => match &q.kind {
                Some(k) => if k.as_str().unicode_len() > 0 {
                    None
                } else {
                    Some(invalid_input(String::from_str(subject_ops::LIST_KIND_REQUIRED)))
                },
                None => Some(invalid_input(String::from_str(subject_ops::LIST_KIND_REQUIRED))),
            },
            Endpoint::SubjectNext(q) => match &q.kind {
                Some(k) => if k.as_str().unicode_len() > 0 {
                    None
                } else {
                    Some(invalid_input(String::from_str(subject_ops::NEXT_KIND_REQUIRED)))
                },
                None => Some(invalid_input(String::from_str(subject_ops::NEXT_KIND_REQUIRED))),
            },
            Endpoint::DaemonClearLogs => Some(daemon::clear_logs()),
            _ => None,
        }
    }

    /// Builds the control call of the request on a connected client.
    pub fn dispatch(self, client: &mut ControlClient) -> (r: Result<PendingCall, ApiResponse>)
        ensures
            dispatch_outcome(self, *old(client), *final(client), r),
    {
        match self {
            Endpoint::DaemonStatus => Ok(daemon::status(client)),
            Endpoint::DaemonHealth => Ok(daemon::health(client)),
            Endpoint::DaemonStart => Ok(daemon::start(client)),
            Endpoint::DaemonAgents => Ok(daemon::agents(client)),
            Endpoint::DaemonLogs(q) => Ok(daemon::logs(client, q)),
            Endpoint::DaemonClearLogs => Err(daemon::clear_logs()),
            Endpoint::WorkflowList(q) => Ok(workflows::list(client, q)),
            Endpoint::WorkflowRun(body) => Ok(workflows::run(client, body)),
            Endpoint::WorkflowExecute(body) => Ok(workflows::execute(client, body)),
            Endpoint::WorkflowGet(id) => Ok(workflows::get(client, id)),
            Endpoint::WorkflowPause(id) => Ok(workflows::pause(client, id)),
            Endpoint::WorkflowResume(id, body) => Ok(workflows::resume(client, id, body)),
            Endpoint::WorkflowCancel(id) => Ok(workflows::cancel(client, id)),
            Endpoint::QueueList(q) => Ok(queue::list(client, q)),
            Endpoint::QueueStats => Ok(queue::stats(client)),
            Endpoint::QueueEnqueue(body) => queue::enqueue(client, body),
            Endpoint::QueueReorder(body) => queue::reorder(client, body),
            Endpoint::QueueHold(id, body) => Ok(queue::hold(client, id, body)),
            Endpoint::QueueRelease(id) => Ok(queue::release(client, id)),
            Endpoint::QueueDrop(id) => Ok(queue::drop(client, id)),
            Endpoint::PluginList(query) => Ok(plugin::list(client, query)),
            Endpoint::PluginInfo(name) => Ok(plugin::info(client, name)),
            Endpoint::PluginInstall(body) => Ok(plugin::install(client, body)),
            Endpoint::PluginUninstall(name) => Ok(plugin::uninstall(client, name)),
            Endpoint::PluginPing(name) => Ok(plugin::ping(client, name)),
            Endpoint::PluginCall(body) => Ok(plugin::call(client, body)),
            Endpoint::PluginSearch(query) => Ok(plugin::search(client, query)),
            Endpoint::PluginBrowse(query) => Ok(plugin::browse(client, query)),
            Endpoint::PluginUpdate(body) => Ok(plugin::update(client, body)),
            Endpoint::SubjectList(q) => subject_ops::list(client, q),
            Endpoint::SubjectCreate(body) => subject_ops::create(client, body),
            Endpoint::SubjectNext(q) => subject_ops::next(client, q),
            Endpoint::SubjectGet(id) => Ok(subject_ops::get(client, id)),
            Endpoint::SubjectUpdate(id, body) => subject_ops::update(client, id, body),
            Endpoint::SubjectStatus(id, body) => subject_ops::status(client, id, body),
            Endpoint::SubjectCall(plugin, body) => subject::call(client, plugin, body),
        }
    }
}

/// A route that sends a call sends the control verb the route table lists
/// for it.
pub proof fn lemma_dispatch_calls_listed_verb(ep: Endpoint, b: ControlClient, a: ControlClient, r: Result<PendingCall, ApiResponse>)
    requires
        dispatch_outcome(ep, b, a, r),
        r is Ok,
    ensures
        control_method_of(endpoint_operation(ep)) == Some(r->Ok_0.method@),
        r->Ok_0.id == b.next_request_id(),
        a.next_request_id() == next_after(b.next_request_id()),
{
}

/// A refused request sent nothing: the client's id counter is untouched, and
/// the answer is a 400, or the 501 of clearing the logs.
pub proof fn lemma_refusal_sends_nothing(ep: Endpoint, b: ControlClient, a: ControlClient, r: Result<PendingCall, ApiResponse>)
    requires
        dispatch_outcome(ep, b, a, r),
        r is Err,
    ensures
        a == b,
        envelope_agrees(r->Err_0),
        r->Err_0.status == STATUS_BAD_REQUEST || (ep is DaemonClearLogs && r->Err_0.status == STATUS_NOT_IMPLEMENTED),
{
}

} // verus!

verus! {

/// The kind that subject `list` and `next` need is settled before the daemon
/// is contacted: a request that gets no early answer is never refused for
/// its kind afterwards (`next` is always sent, `list` only refused for a
/// status that names none).
pub proof fn lemma_kind_settled_early(ep: Endpoint, b: ControlClient, a: ControlClient, r: Result<PendingCall, ApiResponse>)
    requires
        early_answer_outcome(ep, None),
        dispatch_outcome(ep, b, a, r),
    ensures
        ep is SubjectNext ==> r is Ok,
        ep matches Endpoint::SubjectList(q) ==> (r is Err <==> !subject_ops::opt_status_ok(q.status)),
{
}

} // verus!

verus! {

/// A route needs the daemon unless it is answered early: subject `list` and
/// `next` without a kind, and clearing the logs.
pub open spec fn needs_daemon(ep: Endpoint) -> bool {
    match ep {
        Endpoint::SubjectList(q) => subject_ops::nonempty_kind(q.kind) is Some,
        Endpoint::SubjectNext(q) => subject_ops::nonempty_kind(q.kind) is Some,
        Endpoint::DaemonClearLogs => false,
        _ => true,
    }
}

/// A route is answered early exactly when it does not need the daemon.
pub proof fn lemma_early_answer_iff_no_daemon(ep: Endpoint, r: Option<ApiResponse>)
    requires
        early_answer_outcome(ep, r),
    ensures
        r is None <==> needs_daemon(ep),
{
}

impl Endpoint {
    /// The answer when the daemon cannot be reached at `socket` (the connect
    /// failure reading `detail`): every route that needs the daemon answers
    /// 503 `daemon_unreachable`; the others give their early answer.
    pub fn answer_without_daemon(&self, socket: &str, detail: &str) -> (r: ApiResponse)
        ensures
            needs_daemon(*self) ==> is_failure(r, STATUS_SERVICE_UNAVAILABLE, "daemon_unreachable"@,
                unreachable_text(socket@, detail@), EXIT_DAEMON_UNREACHABLE),
            !needs_daemon(*self) ==> early_answer_outcome(*self, Some(r)),
            envelope_agrees(r),
    {
        match self.early_answer() {
            Some(r) => r,
            None => connect_failure(socket, detail),
        }
    }
}


/// Each route that takes a path id, a plugin name or a whole body, or no
/// input at all, is always sent, and sends its own verb: the id as
/// `{"id": ...}`, the name as `{"name": ...}`, the body as the params
/// unchanged, and `null` params where there is no input.
pub proof fn lemma_routes_send_their_inputs(ep: Endpoint, b: ControlClient, a: ControlClient, r: Result<PendingCall, ApiResponse>)
    requires
        dispatch_outcome(ep, b, a, r),
    ensures
        ep matches Endpoint::WorkflowGet(id) ==> (r matches Ok(p) && p.method@ == "workflow/get"@
            && param(p, "id"@) == Some(JsonV::Str(id@))),
        ep matches Endpoint::WorkflowPause(id) ==> (r matches Ok(p) && p.method@ == "workflow/pause"@
            && param(p, "id"@) == Some(JsonV::Str(id@))),
        ep matches Endpoint::WorkflowCancel(id) ==> (r matches Ok(p) && p.method@ == "workflow/cancel"@
            && param(p, "id"@) == Some(JsonV::Str(id@))),
        ep matches Endpoint::QueueRelease(id) ==> (r matches Ok(p) && p.method@ == "queue/release"@
            && param(p, "id"@) == Some(JsonV::Str(id@))),
        ep matches Endpoint::QueueDrop(id) ==> (r matches Ok(p) && p.method@ == "queue/drop"@
            && param(p, "id"@) == Some(JsonV::Str(id@))),
        ep matches Endpoint::SubjectGet(id) ==> (r matches Ok(p) && p.method@ == "subject/get"@
            && param(p, "id"@) == Some(JsonV::Str(id@))),
        ep matches Endpoint::PluginInfo(name) ==> (r matches Ok(p) && p.method@ == "plugin/info"@
            && param(p, "name"@) == Some(JsonV::Str(name@))),
        ep matches Endpoint::PluginUninstall(name) ==> (r matches Ok(p) && p.method@ == "plugin/uninstall"@
            && param(p, "name"@) == Some(JsonV::Str(name@))),
        ep matches Endpoint::PluginPing(name) ==> (r matches Ok(p) && p.method@ == "plugin/ping"@
            && param(p, "name"@) == Some(JsonV::Str(name@))),
        ep matches Endpoint::WorkflowExecute(body) ==> (r matches Ok(p) && p.method@ == "workflow/execute"@
            && call_params(p) == Some(body.view_json())),
        ep matches Endpoint::PluginInstall(body) ==> (r matches Ok(p) && p.method@ == "plugin/install"@
            && call_params(p) == Some(body.view_json())),
        ep matches Endpoint::PluginCall(body) ==> (r matches Ok(p) && p.method@ == "plugin/call"@
            && call_params(p) == Some(body.view_json())),
        ep matches Endpoint::PluginUpdate(body) ==> (r matches Ok(p) && p.method@ == "plugin/update"@
            && call_params(p) == Some(body.view_json())),
        ep is DaemonStatus ==> (r matches Ok(p) && p.method@ == "daemon/status"@ && call_params(p) == Some(JsonV::Null)),
        ep is DaemonHealth ==> (r matches Ok(p) && p.method@ == "daemon/health"@ && call_params(p) == Some(JsonV::Null)),
        ep is DaemonStart ==> (r matches Ok(p) && p.method@ == "daemon/start"@ && call_params(p) == Some(JsonV::Null)),
        ep is DaemonAgents ==> (r matches Ok(p) && p.method@ == "daemon/agents"@ && call_params(p) == Some(JsonV::Null)),
        ep is QueueStats ==> (r matches Ok(p) && p.method@ == "queue/stats"@ && call_params(p) == Some(JsonV::Null)),
{
    reveal_strlit("workflow/get");
    reveal_strlit("workflow/pause");
    reveal_strlit("workflow/cancel");
    reveal_strlit("queue/release");
    reveal_strlit("queue/drop");
    reveal_strlit("subject/get");
    reveal_strlit("plugin/info");
    reveal_strlit("plugin/uninstall");
    reveal_strlit("plugin/ping");
    reveal_strlit("workflow/execute");
    reveal_strlit("plugin/install");
    reveal_strlit("plugin/call");
    reveal_strlit("plugin/update");
    reveal_strlit("daemon/status");
    reveal_strlit("daemon/health");
    reveal_strlit("daemon/start");
    reveal_strlit("daemon/agents");
    reveal_strlit("queue/stats");
    reveal_strlit("id");
    reveal_strlit("name");
    match ep {
        Endpoint::WorkflowGet(id) => {
            lemma_issued_frame(b, a, r->Ok_0, METHOD_WORKFLOW_GET@, id_params(id@));
            lemma_lookup_push_hit(Seq::empty(), "id"@, JsonV::Str(id@));
            assert(seq![("id"@, JsonV::Str(id@))] =~= Seq::<(Seq<char>, JsonV)>::empty().push(("id"@, JsonV::Str(id@))));
        },
        Endpoint::WorkflowPause(id) => {
            lemma_issued_frame(b, a, r->Ok_0, METHOD_WORKFLOW_PAUSE@, id_params(id@));
            lemma_lookup_push_hit(Seq::empty(), "id"@, JsonV::Str(id@));
            assert(seq![("id"@, JsonV::Str(id@))] =~= Seq::<(Seq<char>, JsonV)>::empty().push(("id"@, JsonV::Str(id@))));
        },
        Endpoint::WorkflowCancel(id) => {
            lemma_issued_frame(b, a, r->Ok_0, METHOD_WORKFLOW_CANCEL@, id_params(id@));
            lemma_lookup_push_hit(Seq::empty(), "id"@, JsonV::Str(id@));
            assert(seq![("id"@, JsonV::Str(id@))] =~= Seq::<(Seq<char>, JsonV)>::empty().push(("id"@, JsonV::Str(id@))));
        },
        Endpoint::QueueRelease(id) => {
            lemma_issued_frame(b, a, r->Ok_0, METHOD_QUEUE_RELEASE@, id_params(id@));
            lemma_lookup_push_hit(Seq::empty(), "id"@, JsonV::Str(id@));
            assert(seq![("id"@, JsonV::Str(id@))] =~= Seq::<(Seq<char>, JsonV)>::empty().push(("id"@, JsonV::Str(id@))));
        },
        Endpoint::QueueDrop(id) => {
            lemma_issued_frame(b, a, r->Ok_0, METHOD_QUEUE_DROP@, id_params(id@));
            lemma_lookup_push_hit(Seq::empty(), "id"@, JsonV::Str(id@));
            assert(seq![("id"@, JsonV::Str(id@))] =~= Seq::<(Seq<char>, JsonV)>::empty().push(("id"@, JsonV::Str(id@))));
        },
        Endpoint::SubjectGet(id) => {
            lemma_issued_frame(b, a, r->Ok_0, METHOD_SUBJECT_GET@, id_params(id@));
            lemma_lookup_push_hit(Seq::empty(), "id"@, JsonV::Str(id@));
            assert(seq![("id"@, JsonV::Str(id@))] =~= Seq::<(Seq<char>, JsonV)>::empty().push(("id"@, JsonV::Str(id@))));
        },
        Endpoint::PluginInfo(name) => {
            lemma_issued_frame(b, a, r->Ok_0, METHOD_PLUGIN_INFO@, plugin::name_params(name@));
            lemma_lookup_push_hit(Seq::empty(), "name"@, JsonV::Str(name@));
            assert(seq![("name"@, JsonV::Str(name@))] =~= Seq::<(Seq<char>, JsonV)>::empty().push(("name"@, JsonV::Str(name@))));
        },
        Endpoint::PluginUninstall(name) => {
            lemma_issued_frame(b, a, r->Ok_0, METHOD_PLUGIN_UNINSTALL@, plugin::name_params(name@));
            lemma_lookup_push_hit(Seq::empty(), "name"@, JsonV::Str(name@));
            assert(seq![("name"@, JsonV::Str(name@))] =~= Seq::<(Seq<char>, JsonV)>::empty().push(("name"@, JsonV::Str(name@))));
        },
        Endpoint::PluginPing(name) => {
            lemma_issued_frame(b, a, r->Ok_0, METHOD_PLUGIN_PING@, plugin::name_params(name@));
            lemma_lookup_push_hit(Seq::empty(), "name"@, JsonV::Str(name@));
            assert(seq![("name"@, JsonV::Str(name@))] =~= Seq::<(Seq<char>, JsonV)>::empty().push(("name"@, JsonV::Str(name@))));
        },
        Endpoint::WorkflowExecute(body) => {
            lemma_issued_frame(b, a, r->Ok_0, METHOD_WORKFLOW_EXECUTE@, body.view_json());
        },
        Endpoint::PluginInstall(body) => {
            lemma_issued_frame(b, a, r->Ok_0, METHOD_PLUGIN_INSTALL@, body.view_json());
        },
        Endpoint::PluginCall(body) => {
            lemma_issued_frame(b, a, r->Ok_0, METHOD_PLUGIN_CALL@, body.view_json());
        },
        Endpoint::PluginUpdate(body) => {
            lemma_issued_frame(b, a, r->Ok_0, METHOD_PLUGIN_UPDATE@, body.view_json());
        },
        Endpoint::DaemonStatus => {
            lemma_issued_frame(b, a, r->Ok_0, METHOD_DAEMON_STATUS@, JsonV::Null);
        },
        Endpoint::DaemonHealth => {
            lemma_issued_frame(b, a, r->Ok_0, METHOD_DAEMON_HEALTH@, JsonV::Null);
        },
        Endpoint::DaemonStart => {
            lemma_issued_frame(b, a, r->Ok_0, METHOD_DAEMON_START@, JsonV::Null);
        },
        Endpoint::DaemonAgents => {
            lemma_issued_frame(b, a, r->Ok_0, METHOD_DAEMON_AGENTS@, JsonV::Null);
        },
        Endpoint::QueueStats => {
            lemma_issued_frame(b, a, r->Ok_0, METHOD_QUEUE_STATS@, JsonV::Null);
        },
        _ => {},
    }
}


/// The member `key` of the `error` object of a response's JSON.
pub open spec fn error_member(r: ApiResponse, key: Seq<char>) -> Option<JsonV> {
    match field(envelope_view(r.body), "error"@) {
        Some(e) => field(e, key),
        None => None,
    }
}

proof fn lemma_envelope_members(body: Envelope)
    ensures
        body matches Envelope::Success(d) ==> field(envelope_view(body), "ok"@) == Some(JsonV::Bool(true))
            && field(envelope_view(body), "data"@) == Some(d.view_json()),
        body matches Envelope::Failure(err) ==> field(envelope_view(body), "ok"@) == Some(JsonV::Bool(false))
            && field(envelope_view(body), "error"@) == Some(JsonV::Object(seq![
                ("code"@, JsonV::Str(err.code@)),
                ("message"@, JsonV::Str(err.message@)),
                ("exit_code"@, int_v(err.exit_code)),
            ])),
{
    match body {
        Envelope::Success(d) => {
            reveal_strlit("ok");
            reveal_strlit("data");
            assert("ok"@.len() != "data"@.len());
            let s0 = Seq::<(Seq<char>, JsonV)>::empty();
            let s1 = s0.push(("ok"@, JsonV::Bool(true)));
            let s2 = s1.push(("data"@, d.view_json()));
            lemma_lookup_push_hit(s0, "ok"@, JsonV::Bool(true));
            lemma_lookup_push_other(s1, "data"@, d.view_json(), "ok"@);
            lemma_lookup_push_hit(s1, "data"@, d.view_json());
            lemma_lookup_push_other(s0, "ok"@, JsonV::Bool(true), "data"@);
            assert(s2 =~= seq![("ok"@, JsonV::Bool(true)), ("data"@, d.view_json())]);
        },
        Envelope::Failure(err) => {
            let inner = JsonV::Object(seq![
                ("code"@, JsonV::Str(err.code@)),
                ("message"@, JsonV::Str(err.message@)),
                ("exit_code"@, int_v(err.exit_code)),
            ]);
            reveal_strlit("ok");
            reveal_strlit("error");
            assert("ok"@.len() != "error"@.len());
            let f0 = Seq::<(Seq<char>, JsonV)>::empty();
            let f1 = f0.push(("ok"@, JsonV::Bool(false)));
            let f2 = f1.push(("error"@, inner));
            lemma_lookup_push_hit(f0, "ok"@, JsonV::Bool(false));
            lemma_lookup_push_other(f1, "error"@, inner, "ok"@);
            lemma_lookup_push_hit(f1, "error"@, inner);
            lemma_lookup_push_other(f0, "ok"@, JsonV::Bool(false), "error"@);
            assert(f2 =~= seq![("ok"@, JsonV::Bool(false)), ("error"@, inner)]);
        },
    }
}

proof fn lemma_error_members(err: ErrorBody)
    ensures
        ({
            let f = seq![
                ("code"@, JsonV::Str(err.code@)),
                ("message"@, JsonV::Str(err.message@)),
                ("exit_code"@, int_v(err.exit_code)),
            ];
            &&& lookup(f, "code"@) == Some(JsonV::Str(err.code@))
            &&& lookup(f, "message"@) == Some(JsonV::Str(err.message@))
            &&& lookup(f, "exit_code"@) == Some(int_v(err.exit_code))
        }),
{
    reveal_strlit("code");
    reveal_strlit("message");
    reveal_strlit("exit_code");
    assert("code"@.len() != "message"@.len());
    assert("code"@.len() != "exit_code"@.len());
    assert("message"@.len() != "exit_code"@.len());
    let g0 = Seq::<(Seq<char>, JsonV)>::empty();
    let g1 = g0.push(("code"@, JsonV::Str(err.code@)));
    let g2 = g1.push(("message"@, JsonV::Str(err.message@)));
    let g3 = g2.push(("exit_code"@, int_v(err.exit_code)));
    lemma_lookup_push_hit(g0, "code"@, JsonV::Str(err.code@));
    lemma_lookup_push_other(g1, "message"@, JsonV::Str(err.message@), "code"@);
    lemma_lookup_push_other(g2, "exit_code"@, int_v(err.exit_code), "code"@);
    lemma_lookup_push_hit(g1, "message"@, JsonV::Str(err.message@));
    lemma_lookup_push_other(g0, "code"@, JsonV::Str(err.code@), "message"@);
    lemma_lookup_push_other(g2, "exit_code"@, int_v(err.exit_code), "message"@);
    lemma_lookup_push_hit(g2, "exit_code"@, int_v(err.exit_code));
    lemma_lookup_push_other(g0, "code"@, JsonV::Str(err.code@), "exit_code"@);
    lemma_lookup_push_other(g1, "message"@, JsonV::Str(err.message@), "exit_code"@);
    assert(g3 =~= seq![
        ("code"@, JsonV::Str(err.code@)),
        ("message"@, JsonV::Str(err.message@)),
        ("exit_code"@, int_v(err.exit_code)),
    ]);
}

/// What the daemon answered reaches the client: its data under
/// `"ok": true` with a 200; a failure of the exchange as a 502 whose error is
/// `wire_error` with the failure's text and exit code 1.
pub proof fn lemma_wire_answer(result: Result<Json, String>, r: ApiResponse)
    requires
        wire_outcome(r, result),
    ensures
        result matches Ok(d) ==> r.status == 200 && field(envelope_view(r.body), "ok"@) == Some(JsonV::Bool(true))
            && field(envelope_view(r.body), "data"@) == Some(d.view_json()),
        result matches Err(m) ==> r.status == 502 && field(envelope_view(r.body), "ok"@) == Some(JsonV::Bool(false))
            && error_member(r, "code"@) == Some(JsonV::Str("wire_error"@))
            && error_member(r, "message"@) == Some(JsonV::Str(m@))
            && error_member(r, "exit_code"@) == Some(JsonV::Num(NumberV::PosInt(1))),
{
    lemma_envelope_members(r.body);
    if r.body is Failure {
        lemma_error_members(r.body->Failure_0);
    }
}

/// A refused input is answered with a 400 whose error is `invalid_input`,
/// with the reason as its message and exit code 2.
pub proof fn lemma_invalid_input_answer(r: ApiResponse, message: Seq<char>)
    requires
        is_invalid_input(r, message),
    ensures
        r.status == 400,
        field(envelope_view(r.body), "ok"@) == Some(JsonV::Bool(false)),
        error_member(r, "code"@) == Some(JsonV::Str("invalid_input"@)),
        error_member(r, "message"@) == Some(JsonV::Str(message)),
        error_member(r, "exit_code"@) == Some(JsonV::Num(NumberV::PosInt(2))),
{
    lemma_envelope_members(r.body);
    lemma_error_members(r.body->Failure_0);
}

/// A daemon that cannot be reached is answered with a 503 whose error is
/// `daemon_unreachable`, with exit code 20.
pub proof fn lemma_unreachable_answer(r: ApiResponse, message: Seq<char>)
    requires
        is_failure(r, STATUS_SERVICE_UNAVAILABLE, "daemon_unreachable"@, message, EXIT_DAEMON_UNREACHABLE),
    ensures
        r.status == 503,
        field(envelope_view(r.body), "ok"@) == Some(JsonV::Bool(false)),
        error_member(r, "code"@) == Some(JsonV::Str("daemon_unreachable"@)),
        error_member(r, "message"@) == Some(JsonV::Str(message)),
        error_member(r, "exit_code"@) == Some(JsonV::Num(NumberV::PosInt(20))),
{
    lemma_envelope_members(r.body);
    lemma_error_members(r.body->Failure_0);
}


/// A route with no control verb is answered with a 501 whose error is
/// `not_implemented`, with exit code 1.
pub proof fn lemma_not_implemented_answer(r: ApiResponse, message: Seq<char>)
    requires
        is_failure(r, STATUS_NOT_IMPLEMENTED, "not_implemented"@, message, EXIT_FAILURE),
    ensures
        r.status == 501,
        field(envelope_view(r.body), "ok"@) == Some(JsonV::Bool(false)),
        error_member(r, "code"@) == Some(JsonV::Str("not_implemented"@)),
        error_member(r, "message"@) == Some(JsonV::Str(message)),
        error_member(r, "exit_code"@) == Some(JsonV::Num(NumberV::PosInt(1))),
{
    lemma_envelope_members(r.body);
    lemma_error_members(r.body->Failure_0);
}

} // verus!
