//! `/api/v1/daemon/*`: status, health, start, agents and logs. Clearing the
//! logs has no control verb and is answered 501 without contacting the daemon.

use vstd::prelude::*;

use crate::control_client::{
    ControlClient, PendingCall, issues, param, lemma_issued_frame, METHOD_DAEMON_STATUS, METHOD_DAEMON_HEALTH,
    METHOD_DAEMON_START, METHOD_DAEMON_AGENTS, METHOD_DAEMON_LOGS,
};
use crate::handlers::{ApiResponse, STATUS_NOT_IMPLEMENTED, EXIT_FAILURE, is_failure, not_implemented};
use crate::json::{Json, JsonV, NumberV, lemma_view_fields_empty, lemma_lookup_push_hit};

verus! {

/// Query of `GET /daemon/logs`.
pub struct LogsQuery {
    pub limit: Option<usize>,
}

/// Lines returned when the query names no limit.
pub const DEFAULT_LOG_LIMIT: usize = 100;

pub const CLEAR_LOGS_UNSUPPORTED: &'static str = "clearing daemon logs has no control verb yet";

/// The number of log lines asked for.
pub open spec fn log_limit(q: LogsQuery) -> usize {
    match q.limit {
        Some(n) => n,
        None => DEFAULT_LOG_LIMIT,
    }
}

pub fn status(client: &mut ControlClient) -> (p: PendingCall)
    ensures
        issues(*old(client), *final(client), p, METHOD_DAEMON_STATUS@, JsonV::Null),
{
    client.daemon_status()
}

pub fn health(client: &mut ControlClient) -> (p: PendingCall)
    ensures
        issues(*old(client), *final(client), p, METHOD_DAEMON_HEALTH@, JsonV::Null),
{
    client.daemon_health()
}

/// `POST /daemon/start`: with the daemon reachable, starting it is a no-op.
pub fn start(client: &mut ControlClient) -> (p: PendingCall)
    ensures
        issues(*old(client), *final(client), p, METHOD_DAEMON_START@, JsonV::Null),
{
    client.daemon_start()
}

pub fn agents(client: &mut ControlClient) -> (p: PendingCall)
    ensures
        issues(*old(client), *final(client), p, METHOD_DAEMON_AGENTS@, JsonV::Null),
{
    client.daemon_agents()
}

pub fn logs(client: &mut ControlClient, q: LogsQuery) -> (p: PendingCall)
    ensures
        issues(*old(client), *final(client), p, METHOD_DAEMON_LOGS@,
            JsonV::Object(seq![("limit"@, JsonV::Num(NumberV::PosInt(log_limit(q) as u64)))])),
{
    let limit = match q.limit {
        Some(n) => n,
        None => DEFAULT_LOG_LIMIT,
    };
    let request: Vec<(String, Json)> = Vec::new();
    proof {
        lemma_view_fields_empty();
        assert(Seq::<(Seq<char>, JsonV)>::empty().push(("limit"@, JsonV::Num(NumberV::PosInt(limit as u64))))
            =~= seq![("limit"@, JsonV::Num(NumberV::PosInt(limit as u64)))]);
    }
    client.daemon_logs(Json::Object(request), limit)
}

/// `DELETE /daemon/logs`.
pub fn clear_logs() -> (r: ApiResponse)
    ensures
        is_failure(r, STATUS_NOT_IMPLEMENTED, "not_implemented"@, CLEAR_LOGS_UNSUPPORTED@, EXIT_FAILURE),
{
    not_implemented(String::from_str(CLEAR_LOGS_UNSUPPORTED))
}


/// Reading the logs sends `daemon/logs` asking for the query's limit of
/// lines, or 100 when the query names none.
pub proof fn lemma_logs_sends_limit(q: LogsQuery, before: ControlClient, after: ControlClient, p: PendingCall)
    requires
        issues(before, after, p, METHOD_DAEMON_LOGS@,
            JsonV::Object(seq![("limit"@, JsonV::Num(NumberV::PosInt(log_limit(q) as u64)))])),
    ensures
        p.method@ == "daemon/logs"@,
        param(p, "limit"@) == Some(JsonV::Num(NumberV::PosInt(match q.limit {
            Some(n) => n as u64,
            None => 100,
        }))),
{
    reveal_strlit("daemon/logs");
    let v = JsonV::Num(NumberV::PosInt(log_limit(q) as u64));
    lemma_issued_frame(before, after, p, METHOD_DAEMON_LOGS@, JsonV::Object(seq![("limit"@, v)]));
    assert(seq![("limit"@, v)] =~= Seq::<(Seq<char>, JsonV)>::empty().push(("limit"@, v)));
    lemma_lookup_push_hit(Seq::empty(), "limit"@, v);
}

} // verus!
