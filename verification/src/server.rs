//! The route table and the server-wide rules around it.
//!
//! Every route lives under `/api/v1`, answers with one operation and, but for
//! clearing the daemon logs, calls one control verb. Cross-origin requests are
//! allowed from local origins only.

use vstd::prelude::*;

use crate::config::HttpTransportSettings;
use crate::control_client::{
    METHOD_DAEMON_AGENTS, METHOD_DAEMON_HEALTH, METHOD_DAEMON_LOGS, METHOD_DAEMON_START, METHOD_DAEMON_STATUS, METHOD_PLUGIN_BROWSE, METHOD_PLUGIN_CALL, METHOD_PLUGIN_INFO, METHOD_PLUGIN_INSTALL, METHOD_PLUGIN_LIST, METHOD_PLUGIN_PING, METHOD_PLUGIN_SEARCH, METHOD_PLUGIN_UNINSTALL, METHOD_PLUGIN_UPDATE, METHOD_QUEUE_DROP, METHOD_QUEUE_ENQUEUE, METHOD_QUEUE_HOLD, METHOD_QUEUE_LIST, METHOD_QUEUE_RELEASE, METHOD_QUEUE_REORDER, METHOD_QUEUE_STATS, METHOD_SUBJECT_CREATE, METHOD_SUBJECT_GET, METHOD_SUBJECT_LIST, METHOD_SUBJECT_NEXT, METHOD_SUBJECT_STATUS, METHOD_SUBJECT_UPDATE, METHOD_WORKFLOW_CANCEL, METHOD_WORKFLOW_EXECUTE, METHOD_WORKFLOW_GET, METHOD_WORKFLOW_LIST, METHOD_WORKFLOW_PAUSE, METHOD_WORKFLOW_RESUME, METHOD_WORKFLOW_RUN,
};
use crate::text::{is_prefix_of, str_starts_with};

verus! {

/// The prefix every route is mounted under.
pub const API_PREFIX: &'static str = "/api/v1";

/// State shared by every route.
#[derive(Clone)]
pub struct AppState {
    pub settings: HttpTransportSettings,
}

/// The HTTP methods the routes use.
#[derive(Clone, Copy, PartialEq, Eq, Debug, Structural)]
pub enum Method {
    Get,
    Post,
    Delete,
}

/// One route of the REST surface.
#[derive(Clone, Copy, PartialEq, Eq, Debug, Structural)]
pub enum Operation {
    DaemonStatus,
    DaemonHealth,
    DaemonStart,
    DaemonAgents,
    DaemonLogs,
    DaemonClearLogs,
    WorkflowList,
    WorkflowRun,
    WorkflowExecute,
    WorkflowGet,
    WorkflowPause,
    WorkflowResume,
    WorkflowCancel,
    QueueList,
    QueueStats,
    QueueEnqueue,
    QueueReorder,
    QueueHold,
    QueueRelease,
    QueueDrop,
    PluginList,
    PluginInfo,
    PluginInstall,
    PluginUninstall,
    PluginPing,
    PluginCall,
    PluginSearch,
    PluginBrowse,
    PluginUpdate,
    SubjectList,
    SubjectCreate,
    SubjectNext,
    SubjectGet,
    SubjectUpdate,
    SubjectStatus,
    SubjectCall,
}

/// The method a route answers.
pub open spec fn route_method(op: Operation) -> Method {
    match op {
        Operation::DaemonStatus => Method::Get,
        Operation::DaemonHealth => Method::Get,
        Operation::DaemonStart => Method::Post,
        Operation::DaemonAgents => Method::Get,
        Operation::DaemonLogs => Method::Get,
        Operation::DaemonClearLogs => Method::Delete,
        Operation::WorkflowList => Method::Get,
        Operation::WorkflowRun => Method::Post,
        Operation::WorkflowExecute => Method::Post,
        Operation::WorkflowGet => Method::Get,
        Operation::WorkflowPause => Method::Post,
        Operation::WorkflowResume => Method::Post,
        Operation::WorkflowCancel => Method::Post,
        Operation::QueueList => Method::Get,
        Operation::QueueStats => Method::Get,
        Operation::QueueEnqueue => Method::Post,
        Operation::QueueReorder => Method::Post,
        Operation::QueueHold => Method::Post,
        Operation::QueueRelease => Method::Post,
        Operation::QueueDrop => Method::Delete,
        Operation::PluginList => Method::Get,
        Operation::PluginInfo => Method::Get,
        Operation::PluginInstall => Method::Post,
        Operation::PluginUninstall => Method::Delete,
        Operation::PluginPing => Method::Post,
        Operation::PluginCall => Method::Post,
        Operation::PluginSearch => Method::Get,
        Operation::PluginBrowse => Method::Get,
        Operation::PluginUpdate => Method::Post,
        Operation::SubjectList => Method::Get,
        Operation::SubjectCreate => Method::Post,
        Operation::SubjectNext => Method::Get,
        Operation::SubjectGet => Method::Get,
        Operation::SubjectUpdate => Method::Post,
        Operation::SubjectStatus => Method::Post,
        Operation::SubjectCall => Method::Post,
    }
}

/// The path template of a route, below `/api/v1`.
pub open spec fn route_path(op: Operation) -> Seq<char> {
    match op {
        Operation::DaemonStatus => "/daemon/status"@,
        Operation::DaemonHealth => "/daemon/health"@,
        Operation::DaemonStart => "/daemon/start"@,
        Operation::DaemonAgents => "/daemon/agents"@,
        Operation::DaemonLogs => "/daemon/logs"@,
        Operation::DaemonClearLogs => "/daemon/logs"@,
        Operation::WorkflowList => "/workflows"@,
        Operation::WorkflowRun => "/workflows/run"@,
        Operation::WorkflowExecute => "/workflows/execute"@,
        Operation::WorkflowGet => "/workflows/{id}"@,
        Operation::WorkflowPause => "/workflows/{id}/pause"@,
        Operation::WorkflowResume => "/workflows/{id}/resume"@,
        Operation::WorkflowCancel => "/workflows/{id}/cancel"@,
        Operation::QueueList => "/queue"@,
        Operation::QueueStats => "/queue/stats"@,
        Operation::QueueEnqueue => "/queue/enqueue"@,
        Operation::QueueReorder => "/queue/reorder"@,
        Operation::QueueHold => "/queue/hold/{id}"@,
        Operation::QueueRelease => "/queue/release/{id}"@,
        Operation::QueueDrop => "/queue/drop/{id}"@,
        Operation::PluginList => "/plugin/list"@,
        Operation::PluginInfo => "/plugin/info/{name}"@,
        Operation::PluginInstall => "/plugin/install"@,
        Operation::PluginUninstall => "/plugin/uninstall/{name}"@,
        Operation::PluginPing => "/plugin/ping/{name}"@,
        Operation::PluginCall => "/plugin/call"@,
        Operation::PluginSearch => "/plugin/search"@,
        Operation::PluginBrowse => "/plugin/browse"@,
        Operation::PluginUpdate => "/plugin/update"@,
        Operation::SubjectList => "/subjects"@,
        Operation::SubjectCreate => "/subjects"@,
        Operation::SubjectNext => "/subjects/next"@,
        Operation::SubjectGet => "/subjects/{id}"@,
        Operation::SubjectUpdate => "/subjects/{id}"@,
        Operation::SubjectStatus => "/subjects/{id}/status"@,
        Operation::SubjectCall => "/subject/{plugin}/call"@,
    }
}

/// The control verb a route calls; clearing the logs calls none.
pub open spec fn control_method_of(op: Operation) -> Option<Seq<char>> {
    match op {
        Operation::DaemonStatus => Some(METHOD_DAEMON_STATUS@),
        Operation::DaemonHealth => Some(METHOD_DAEMON_HEALTH@),
        Operation::DaemonStart => Some(METHOD_DAEMON_START@),
        Operation::DaemonAgents => Some(METHOD_DAEMON_AGENTS@),
        Operation::DaemonLogs => Some(METHOD_DAEMON_LOGS@),
        Operation::DaemonClearLogs => None,
        Operation::WorkflowList => Some(METHOD_WORKFLOW_LIST@),
        Operation::WorkflowRun => Some(METHOD_WORKFLOW_RUN@),
        Operation::WorkflowExecute => Some(METHOD_WORKFLOW_EXECUTE@),
        Operation::WorkflowGet => Some(METHOD_WORKFLOW_GET@),
        Operation::WorkflowPause => Some(METHOD_WORKFLOW_PAUSE@),
        Operation::WorkflowResume => Some(METHOD_WORKFLOW_RESUME@),
        Operation::WorkflowCancel => Some(METHOD_WORKFLOW_CANCEL@),
        Operation::QueueList => Some(METHOD_QUEUE_LIST@),
        Operation::QueueStats => Some(METHOD_QUEUE_STATS@),
        Operation::QueueEnqueue => Some(METHOD_QUEUE_ENQUEUE@),
        Operation::QueueReorder => Some(METHOD_QUEUE_REORDER@),
        Operation::QueueHold => Some(METHOD_QUEUE_HOLD@),
        Operation::QueueRelease => Some(METHOD_QUEUE_RELEASE@),
        Operation::QueueDrop => Some(METHOD_QUEUE_DROP@),
        Operation::PluginList => Some(METHOD_PLUGIN_LIST@),
        Operation::PluginInfo => Some(METHOD_PLUGIN_INFO@),
        Operation::PluginInstall => Some(METHOD_PLUGIN_INSTALL@),
        Operation::PluginUninstall => Some(METHOD_PLUGIN_UNINSTALL@),
        Operation::PluginPing => Some(METHOD_PLUGIN_PING@),
        Operation::PluginCall => Some(METHOD_PLUGIN_CALL@),
        Operation::PluginSearch => Some(METHOD_PLUGIN_SEARCH@),
        Operation::PluginBrowse => Some(METHOD_PLUGIN_BROWSE@),
        Operation::PluginUpdate => Some(METHOD_PLUGIN_UPDATE@),
        Operation::SubjectList => Some(METHOD_SUBJECT_LIST@),
        Operation::SubjectCreate => Some(METHOD_SUBJECT_CREATE@),
        Operation::SubjectNext => Some(METHOD_SUBJECT_NEXT@),
        Operation::SubjectGet => Some(METHOD_SUBJECT_GET@),
        Operation::SubjectUpdate => Some(METHOD_SUBJECT_UPDATE@),
        Operation::SubjectStatus => Some(METHOD_SUBJECT_STATUS@),
        Operation::SubjectCall => Some(METHOD_PLUGIN_CALL@),
    }
}

/// Every route, in the order they are mounted.
pub open spec fn all_operations() -> Seq<Operation> {
    seq![
        Operation::DaemonStatus,
        Operation::DaemonHealth,
        Operation::DaemonStart,
        Operation::DaemonAgents,
        Operation::DaemonLogs,
        Operation::DaemonClearLogs,
        Operation::WorkflowList,
        Operation::WorkflowRun,
        Operation::WorkflowExecute,
        Operation::WorkflowGet,
        Operation::WorkflowPause,
        Operation::WorkflowResume,
        Operation::WorkflowCancel,
        Operation::QueueList,
        Operation::QueueStats,
        Operation::QueueEnqueue,
        Operation::QueueReorder,
        Operation::QueueHold,
        Operation::QueueRelease,
        Operation::QueueDrop,
        Operation::PluginList,
        Operation::PluginInfo,
        Operation::PluginInstall,
        Operation::PluginUninstall,
        Operation::PluginPing,
        Operation::PluginCall,
        Operation::PluginSearch,
        Operation::PluginBrowse,
        Operation::PluginUpdate,
        Operation::SubjectList,
        Operation::SubjectCreate,
        Operation::SubjectNext,
        Operation::SubjectGet,
        Operation::SubjectUpdate,
        Operation::SubjectStatus,
        Operation::SubjectCall
    ]
}

/// Characters that tell the route paths apart.
pub open spec fn path_signature(p: Seq<char>) -> (int, char, char, char, char) {
    (p.len() as int, p[1], p[8], p[11], p[16])
}

impl Operation {
    pub fn method(&self) -> (m: Method)
        ensures
            m == route_method(*self),
    {
        match self {
            Operation::DaemonStatus => Method::Get,
            Operation::DaemonHealth => Method::Get,
            Operation::DaemonStart => Method::Post,
            Operation::DaemonAgents => Method::Get,
            Operation::DaemonLogs => Method::Get,
            Operation::DaemonClearLogs => Method::Delete,
            Operation::WorkflowList => Method::Get,
            Operation::WorkflowRun => Method::Post,
            Operation::WorkflowExecute => Method::Post,
            Operation::WorkflowGet => Method::Get,
            Operation::WorkflowPause => Method::Post,
            Operation::WorkflowResume => Method::Post,
            Operation::WorkflowCancel => Method::Post,
            Operation::QueueList => Method::Get,
            Operation::QueueStats => Method::Get,
            Operation::QueueEnqueue => Method::Post,
            Operation::QueueReorder => Method::Post,
            Operation::QueueHold => Method::Post,
            Operation::QueueRelease => Method::Post,
            Operation::QueueDrop => Method::Delete,
            Operation::PluginList => Method::Get,
            Operation::PluginInfo => Method::Get,
            Operation::PluginInstall => Method::Post,
            Operation::PluginUninstall => Method::Delete,
            Operation::PluginPing => Method::Post,
            Operation::PluginCall => Method::Post,
            Operation::PluginSearch => Method::Get,
            Operation::PluginBrowse => Method::Get,
            Operation::PluginUpdate => Method::Post,
            Operation::SubjectList => Method::Get,
            Operation::SubjectCreate => Method::Post,
            Operation::SubjectNext => Method::Get,
            Operation::SubjectGet => Method::Get,
            Operation::SubjectUpdate => Method::Post,
            Operation::SubjectStatus => Method::Post,
            Operation::SubjectCall => Method::Post,
        }
    }

    pub fn path(&self) -> (p: &'static str)
        ensures
            p@ == route_path(*self),
    {
        match self {
            Operation::DaemonStatus => "/daemon/status",
            Operation::DaemonHealth => "/daemon/health",
            Operation::DaemonStart => "/daemon/start",
            Operation::DaemonAgents => "/daemon/agents",
            Operation::DaemonLogs => "/daemon/logs",
            Operation::DaemonClearLogs => "/daemon/logs",
            Operation::WorkflowList => "/workflows",
            Operation::WorkflowRun => "/workflows/run",
            Operation::WorkflowExecute => "/workflows/execute",
            Operation::WorkflowGet => "/workflows/{id}",
            Operation::WorkflowPause => "/workflows/{id}/pause",
            Operation::WorkflowResume => "/workflows/{id}/resume",
            Operation::WorkflowCancel => "/workflows/{id}/cancel",
            Operation::QueueList => "/queue",
            Operation::QueueStats => "/queue/stats",
            Operation::QueueEnqueue => "/queue/enqueue",
            Operation::QueueReorder => "/queue/reorder",
            Operation::QueueHold => "/queue/hold/{id}",
            Operation::QueueRelease => "/queue/release/{id}",
            Operation::QueueDrop => "/queue/drop/{id}",
            Operation::PluginList => "/plugin/list",
            Operation::PluginInfo => "/plugin/info/{name}",
            Operation::PluginInstall => "/plugin/install",
            Operation::PluginUninstall => "/plugin/uninstall/{name}",
            Operation::PluginPing => "/plugin/ping/{name}",
            Operation::PluginCall => "/plugin/call",
            Operation::PluginSearch => "/plugin/search",
            Operation::PluginBrowse => "/plugin/browse",
            Operation::PluginUpdate => "/plugin/update",
            Operation::SubjectList => "/subjects",
            Operation::SubjectCreate => "/subjects",
            Operation::SubjectNext => "/subjects/next",
            Operation::SubjectGet => "/subjects/{id}",
            Operation::SubjectUpdate => "/subjects/{id}",
            Operation::SubjectStatus => "/subjects/{id}/status",
            Operation::SubjectCall => "/subject/{plugin}/call",
        }
    }

    pub fn control_method(&self) -> (m: Option<&'static str>)
        ensures
            match m {
                Some(s) => control_method_of(*self) == Some(s@),
                None => control_method_of(*self) is None,
            },
    {
        match self {
            Operation::DaemonStatus => Some(METHOD_DAEMON_STATUS),
            Operation::DaemonHealth => Some(METHOD_DAEMON_HEALTH),
            Operation::DaemonStart => Some(METHOD_DAEMON_START),
            Operation::DaemonAgents => Some(METHOD_DAEMON_AGENTS),
            Operation::DaemonLogs => Some(METHOD_DAEMON_LOGS),
            Operation::DaemonClearLogs => None,
            Operation::WorkflowList => Some(METHOD_WORKFLOW_LIST),
            Operation::WorkflowRun => Some(METHOD_WORKFLOW_RUN),
            Operation::WorkflowExecute => Some(METHOD_WORKFLOW_EXECUTE),
            Operation::WorkflowGet => Some(METHOD_WORKFLOW_GET),
            Operation::WorkflowPause => Some(METHOD_WORKFLOW_PAUSE),
            Operation::WorkflowResume => Some(METHOD_WORKFLOW_RESUME),
            Operation::WorkflowCancel => Some(METHOD_WORKFLOW_CANCEL),
            Operation::QueueList => Some(METHOD_QUEUE_LIST),
            Operation::QueueStats => Some(METHOD_QUEUE_STATS),
            Operation::QueueEnqueue => Some(METHOD_QUEUE_ENQUEUE),
            Operation::QueueReorder => Some(METHOD_QUEUE_REORDER),
            Operation::QueueHold => Some(METHOD_QUEUE_HOLD),
            Operation::QueueRelease => Some(METHOD_QUEUE_RELEASE),
            Operation::QueueDrop => Some(METHOD_QUEUE_DROP),
            Operation::PluginList => Some(METHOD_PLUGIN_LIST),
            Operation::PluginInfo => Some(METHOD_PLUGIN_INFO),
            Operation::PluginInstall => Some(METHOD_PLUGIN_INSTALL),
            Operation::PluginUninstall => Some(METHOD_PLUGIN_UNINSTALL),
            Operation::PluginPing => Some(METHOD_PLUGIN_PING),
            Operation::PluginCall => Some(METHOD_PLUGIN_CALL),
            Operation::PluginSearch => Some(METHOD_PLUGIN_SEARCH),
            Operation::PluginBrowse => Some(METHOD_PLUGIN_BROWSE),
            Operation::PluginUpdate => Some(METHOD_PLUGIN_UPDATE),
            Operation::SubjectList => Some(METHOD_SUBJECT_LIST),
            Operation::SubjectCreate => Some(METHOD_SUBJECT_CREATE),
            Operation::SubjectNext => Some(METHOD_SUBJECT_NEXT),
            Operation::SubjectGet => Some(METHOD_SUBJECT_GET),
            Operation::SubjectUpdate => Some(METHOD_SUBJECT_UPDATE),
            Operation::SubjectStatus => Some(METHOD_SUBJECT_STATUS),
            Operation::SubjectCall => Some(METHOD_PLUGIN_CALL),
        }
    }
}

/// The route table.
pub fn routes() -> (v: Vec<Operation>)
    ensures
        v@ == all_operations(),
{
    let mut v: Vec<Operation> = Vec::new();
    v.push(Operation::DaemonStatus);
    v.push(Operation::DaemonHealth);
    v.push(Operation::DaemonStart);
    v.push(Operation::DaemonAgents);
    v.push(Operation::DaemonLogs);
    v.push(Operation::DaemonClearLogs);
    v.push(Operation::WorkflowList);
    v.push(Operation::WorkflowRun);
    v.push(Operation::WorkflowExecute);
    v.push(Operation::WorkflowGet);
    v.push(Operation::WorkflowPause);
    v.push(Operation::WorkflowResume);
    v.push(Operation::WorkflowCancel);
    v.push(Operation::QueueList);
    v.push(Operation::QueueStats);
    v.push(Operation::QueueEnqueue);
    v.push(Operation::QueueReorder);
    v.push(Operation::QueueHold);
    v.push(Operation::QueueRelease);
    v.push(Operation::QueueDrop);
    v.push(Operation::PluginList);
    v.push(Operation::PluginInfo);
    v.push(Operation::PluginInstall);
    v.push(Operation::PluginUninstall);
    v.push(Operation::PluginPing);
    v.push(Operation::PluginCall);
    v.push(Operation::PluginSearch);
    v.push(Operation::PluginBrowse);
    v.push(Operation::PluginUpdate);
    v.push(Operation::SubjectList);
    v.push(Operation::SubjectCreate);
    v.push(Operation::SubjectNext);
    v.push(Operation::SubjectGet);
    v.push(Operation::SubjectUpdate);
    v.push(Operation::SubjectStatus);
    v.push(Operation::SubjectCall);
    assert(v@ =~= all_operations());
    v
}

/// The method of each route: DELETE clears the daemon logs, drops a queue
/// entry and uninstalls a plugin; GET serves the reads (status, health,
/// agents, logs, the workflow, queue, plugin and subject listings and
/// lookups, and the next subject); every other route is a POST.
pub proof fn lemma_route_methods(op: Operation)
    ensures
        route_method(op) == Method::Delete <==> (op == Operation::DaemonClearLogs || op == Operation::QueueDrop
            || op == Operation::PluginUninstall),
        route_method(op) == Method::Get <==> (op == Operation::DaemonStatus || op == Operation::DaemonHealth
            || op == Operation::DaemonAgents || op == Operation::DaemonLogs || op == Operation::WorkflowList
            || op == Operation::WorkflowGet || op == Operation::QueueList || op == Operation::QueueStats
            || op == Operation::PluginList || op == Operation::PluginInfo || op == Operation::PluginSearch
            || op == Operation::PluginBrowse || op == Operation::SubjectList || op == Operation::SubjectNext
            || op == Operation::SubjectGet),
        route_method(op) == Method::Post <==> !(route_method(op) == Method::Delete || route_method(op) == Method::Get),
{
}

/// The route table as it is published: each route's path below `/api/v1`
/// and the control verb it calls.
pub proof fn lemma_route_table(op: Operation)
    ensures
        (route_path(op), control_method_of(op)) == (match op {
            Operation::DaemonStatus => ("/daemon/status"@, Some("daemon/status"@)),
            Operation::DaemonHealth => ("/daemon/health"@, Some("daemon/health"@)),
            Operation::DaemonStart => ("/daemon/start"@, Some("daemon/start"@)),
            Operation::DaemonAgents => ("/daemon/agents"@, Some("daemon/agents"@)),
            Operation::DaemonLogs => ("/daemon/logs"@, Some("daemon/logs"@)),
            Operation::DaemonClearLogs => ("/daemon/logs"@, None),
            Operation::WorkflowList => ("/workflows"@, Some("workflow/list"@)),
            Operation::WorkflowRun => ("/workflows/run"@, Some("workflow/run"@)),
            Operation::WorkflowExecute => ("/workflows/execute"@, Some("workflow/execute"@)),
            Operation::WorkflowGet => ("/workflows/{id}"@, Some("workflow/get"@)),
            Operation::WorkflowPause => ("/workflows/{id}/pause"@, Some("workflow/pause"@)),
            Operation::WorkflowResume => ("/workflows/{id}/resume"@, Some("workflow/resume"@)),
            Operation::WorkflowCancel => ("/workflows/{id}/cancel"@, Some("workflow/cancel"@)),
            Operation::QueueList => ("/queue"@, Some("queue/list"@)),
            Operation::QueueStats => ("/queue/stats"@, Some("queue/stats"@)),
            Operation::QueueEnqueue => ("/queue/enqueue"@, Some("queue/enqueue"@)),
            Operation::QueueReorder => ("/queue/reorder"@, Some("queue/reorder"@)),
            Operation::QueueHold => ("/queue/hold/{id}"@, Some("queue/hold"@)),
            Operation::QueueRelease => ("/queue/release/{id}"@, Some("queue/release"@)),
            Operation::QueueDrop => ("/queue/drop/{id}"@, Some("queue/drop"@)),
            Operation::PluginList => ("/plugin/list"@, Some("plugin/list"@)),
            Operation::PluginInfo => ("/plugin/info/{name}"@, Some("plugin/info"@)),
            Operation::PluginInstall => ("/plugin/install"@, Some("plugin/install"@)),
            Operation::PluginUninstall => ("/plugin/uninstall/{name}"@, Some("plugin/uninstall"@)),
            Operation::PluginPing => ("/plugin/ping/{name}"@, Some("plugin/ping"@)),
            Operation::PluginCall => ("/plugin/call"@, Some("plugin/call"@)),
            Operation::PluginSearch => ("/plugin/search"@, Some("plugin/search"@)),
            Operation::PluginBrowse => ("/plugin/browse"@, Some("plugin/browse"@)),
            Operation::PluginUpdate => ("/plugin/update"@, Some("plugin/update"@)),
            Operation::SubjectList => ("/subjects"@, Some("subject/list"@)),
            Operation::SubjectCreate => ("/subjects"@, Some("subject/create"@)),
            Operation::SubjectNext => ("/subjects/next"@, Some("subject/next"@)),
            Operation::SubjectGet => ("/subjects/{id}"@, Some("subject/get"@)),
            Operation::SubjectUpdate => ("/subjects/{id}"@, Some("subject/update"@)),
            Operation::SubjectStatus => ("/subjects/{id}/status"@, Some("subject/status"@)),
            Operation::SubjectCall => ("/subject/{plugin}/call"@, Some("plugin/call"@)),
        }),
{
}

/// No two routes share a method and a path, so mounting the table never
/// registers a route twice.
pub proof fn lemma_routes_distinct(a: Operation, b: Operation)
    requires
        a != b,
    ensures
        route_method(a) != route_method(b) || route_path(a) != route_path(b),
{
    reveal_strlit("/daemon/agents");
    reveal_strlit("/daemon/health");
    reveal_strlit("/daemon/logs");
    reveal_strlit("/daemon/start");
    reveal_strlit("/daemon/status");
    reveal_strlit("/plugin/browse");
    reveal_strlit("/plugin/call");
    reveal_strlit("/plugin/info/{name}");
    reveal_strlit("/plugin/install");
    reveal_strlit("/plugin/list");
    reveal_strlit("/plugin/ping/{name}");
    reveal_strlit("/plugin/search");
    reveal_strlit("/plugin/uninstall/{name}");
    reveal_strlit("/plugin/update");
    reveal_strlit("/queue");
    reveal_strlit("/queue/drop/{id}");
    reveal_strlit("/queue/enqueue");
    reveal_strlit("/queue/hold/{id}");
    reveal_strlit("/queue/release/{id}");
    reveal_strlit("/queue/reorder");
    reveal_strlit("/queue/stats");
    reveal_strlit("/subject/{plugin}/call");
    reveal_strlit("/subjects");
    reveal_strlit("/subjects/next");
    reveal_strlit("/subjects/{id}");
    reveal_strlit("/subjects/{id}/status");
    reveal_strlit("/workflows");
    reveal_strlit("/workflows/execute");
    reveal_strlit("/workflows/run");
    reveal_strlit("/workflows/{id}");
    reveal_strlit("/workflows/{id}/cancel");
    reveal_strlit("/workflows/{id}/pause");
    reveal_strlit("/workflows/{id}/resume");
    if route_method(a) == route_method(b) {
        assert(path_signature(route_path(a)) != path_signature(route_path(b)));
    }
}

/// The route table holds every route, each once.
pub proof fn lemma_table_complete(op: Operation)
    ensures
        all_operations().contains(op),
        all_operations().no_duplicates(),
{
    let ops = all_operations();
    assert(ops[route_index(op)] == op);
}

/// The position of a route in the table.
pub open spec fn route_index(op: Operation) -> int {
    choose|i: int| 0 <= i < all_operations().len() && all_operations()[i] == op
}

/// No route is mounted under `/agent`: agents are not served over HTTP.
pub proof fn lemma_no_agent_routes(op: Operation)
    ensures
        !is_prefix_of("/agent"@, route_path(op)),
{
    reveal_strlit("/daemon/agents");
    reveal_strlit("/daemon/health");
    reveal_strlit("/daemon/logs");
    reveal_strlit("/daemon/start");
    reveal_strlit("/daemon/status");
    reveal_strlit("/plugin/browse");
    reveal_strlit("/plugin/call");
    reveal_strlit("/plugin/info/{name}");
    reveal_strlit("/plugin/install");
    reveal_strlit("/plugin/list");
    reveal_strlit("/plugin/ping/{name}");
    reveal_strlit("/plugin/search");
    reveal_strlit("/plugin/uninstall/{name}");
    reveal_strlit("/plugin/update");
    reveal_strlit("/queue");
    reveal_strlit("/queue/drop/{id}");
    reveal_strlit("/queue/enqueue");
    reveal_strlit("/queue/hold/{id}");
    reveal_strlit("/queue/release/{id}");
    reveal_strlit("/queue/reorder");
    reveal_strlit("/queue/stats");
    reveal_strlit("/subject/{plugin}/call");
    reveal_strlit("/subjects");
    reveal_strlit("/subjects/next");
    reveal_strlit("/subjects/{id}");
    reveal_strlit("/subjects/{id}/status");
    reveal_strlit("/workflows");
    reveal_strlit("/workflows/execute");
    reveal_strlit("/workflows/run");
    reveal_strlit("/workflows/{id}");
    reveal_strlit("/workflows/{id}/cancel");
    reveal_strlit("/workflows/{id}/pause");
    reveal_strlit("/workflows/{id}/resume");
    reveal_strlit("/agent");
    assert(route_path(op).len() >= 6);
    assert(route_path(op)[1] != 'a');
    assert(route_path(op).subrange(0, 6)[1] != "/agent"@[1]);
}

/// Every route but `DELETE /daemon/logs` calls a control verb.
pub proof fn lemma_routes_call_daemon(op: Operation)
    ensures
        control_method_of(op) is None <==> op == Operation::DaemonClearLogs,
{
}

/// Whether a browser origin may call the API: local origins only.
pub open spec fn origin_permitted(origin: Option<Seq<char>>) -> bool {
    match origin {
        Some(o) => is_prefix_of("http://localhost"@, o) || is_prefix_of("http://127.0.0.1"@, o),
        None => false,
    }
}

/// The CORS origin rule; `None` stands for an origin header that is not
/// visible ASCII text.
pub fn origin_allowed(origin: Option<&str>) -> (r: bool)
    ensures
        r == origin_permitted(match origin {
            Some(o) => Some(o@),
            None => None,
        }),
{
    match origin {
        Some(o) => str_starts_with(o, "http://localhost") || str_starts_with(o, "http://127.0.0.1"),
        None => false,
    }
}

/// Cross-origin requests are allowed from local origins only: an origin is
/// allowed exactly when it begins with `http://localhost` or
/// `http://127.0.0.1`.
pub proof fn lemma_cors_local_only(origin: Option<Seq<char>>)
    ensures
        origin_permitted(origin) <==> (origin matches Some(o) && (
            (o.len() >= 16 && o.subrange(0, 16) == "http://localhost"@)
            || (o.len() >= 16 && o.subrange(0, 16) == "http://127.0.0.1"@))),
{
    reveal_strlit("http://localhost");
    reveal_strlit("http://127.0.0.1");
}

/// How long a browser may cache the CORS preflight answer.
pub const CORS_MAX_AGE_SECS: u64 = 3600;

/// The methods a CORS preflight allows.
#[derive(Clone, Copy, PartialEq, Eq, Debug, Structural)]
pub enum CorsMethod {
    Get,
    Post,
    Delete,
    Options,
}

/// The methods a cross-origin request may use: the routes' own, and OPTIONS.
pub fn cors_allowed_methods() -> (v: Vec<CorsMethod>)
    ensures
        v@ == seq![CorsMethod::Get, CorsMethod::Post, CorsMethod::Delete, CorsMethod::Options],
{
    let mut v: Vec<CorsMethod> = Vec::new();
    v.push(CorsMethod::Get);
    v.push(CorsMethod::Post);
    v.push(CorsMethod::Delete);
    v.push(CorsMethod::Options);
    assert(v@ =~= seq![CorsMethod::Get, CorsMethod::Post, CorsMethod::Delete, CorsMethod::Options]);
    v
}

/// The request headers a cross-origin request may send.
pub fn cors_allowed_headers() -> (v: Vec<&'static str>)
    ensures
        v@.len() == 2,
        v@[0]@ == "content-type"@,
        v@[1]@ == "authorization"@,
{
    let mut v: Vec<&'static str> = Vec::new();
    v.push("content-type");
    v.push("authorization");
    v
}

/// Every route's method is one a cross-origin request may use.
pub proof fn lemma_cors_covers_routes(op: Operation)
    ensures
        seq![CorsMethod::Get, CorsMethod::Post, CorsMethod::Delete, CorsMethod::Options].contains(
            match route_method(op) {
                Method::Get => CorsMethod::Get,
                Method::Post => CorsMethod::Post,
                Method::Delete => CorsMethod::Delete,
            },
        ),
{
    let s = seq![CorsMethod::Get, CorsMethod::Post, CorsMethod::Delete, CorsMethod::Options];
    match route_method(op) {
        Method::Get => assert(s[0] == CorsMethod::Get),
        Method::Post => assert(s[1] == CorsMethod::Post),
        Method::Delete => assert(s[2] == CorsMethod::Delete),
    }
}

} // verus!
