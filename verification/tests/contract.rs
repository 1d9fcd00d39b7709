//! Route contract: which method and path reach which operation, what is
//! refused before the daemon is contacted, and the 503 envelope when the
//! daemon cannot be reached.

use animus_transport_http::control_client::{connect_detail, ControlClient};
use animus_transport_http::handlers::subject_ops::{ListQuery, NextQuery};
use animus_transport_http::handlers::Endpoint;
use animus_transport_http::json::{Json, Number};
use animus_transport_http::server::{routes, Method, Operation, API_PREFIX};

fn segments(path: &str) -> Vec<&str> {
    path.split('/').skip(1).collect()
}

fn template_matches(template: &str, path: &str) -> bool {
    let t = segments(template);
    let p = segments(path);
    t.len() == p.len()
        && t.iter().zip(p.iter()).all(|(ts, ps)| {
            if ts.starts_with('{') && ts.ends_with('}') {
                !ps.is_empty()
            } else {
                ts == ps
            }
        })
}

/// Static segments win over parameters, as in the router.
fn more_specific(a: &str, b: &str) -> bool {
    for (x, y) in segments(a).iter().zip(segments(b).iter()) {
        let xp = x.starts_with('{');
        let yp = y.starts_with('{');
        if xp != yp {
            return !xp;
        }
    }
    false
}

/// The operation a request reaches, or `None` for a 404/405.
fn resolve(method: Method, uri: &str) -> Option<Operation> {
    let path = uri.split('?').next().unwrap();
    let rest = path.strip_prefix(API_PREFIX)?;
    let mut best: Option<&'static str> = None;
    for op in routes() {
        let t = op.path();
        if template_matches(t, rest) {
            best = match best {
                Some(b) if !more_specific(t, b) => Some(b),
                _ => Some(t),
            };
        }
    }
    let template = best?;
    routes().into_iter().find(|op| op.path() == template && op.method() == method)
}

fn text(s: &str) -> Json {
    Json::Str(s.to_string())
}

fn member<'a>(j: &'a Json, key: &str) -> &'a Json {
    j.get(key).expect("member present")
}

#[test]
fn daemon_status_route_exists() {
    assert_eq!(resolve(Method::Get, "/api/v1/daemon/status"), Some(Operation::DaemonStatus));
}

#[test]
fn workflows_list_route_exists() {
    assert_eq!(resolve(Method::Get, "/api/v1/workflows"), Some(Operation::WorkflowList));
}

#[test]
fn queue_stats_route_exists() {
    assert_eq!(resolve(Method::Get, "/api/v1/queue/stats"), Some(Operation::QueueStats));
}

#[test]
fn plugin_list_route_exists() {
    assert_eq!(resolve(Method::Get, "/api/v1/plugin/list"), Some(Operation::PluginList));
}

#[test]
fn subject_call_route_exists() {
    assert_eq!(resolve(Method::Post, "/api/v1/subject/markdown/call"), Some(Operation::SubjectCall));
    let body = Json::Object(vec![
        ("method".to_string(), text("list")),
        ("params".to_string(), Json::Object(vec![])),
    ]);
    let ep = Endpoint::SubjectCall("markdown".to_string(), body);
    assert!(ep.early_answer().is_none());
    let mut client = ControlClient::new();
    let pending = ep.dispatch(&mut client).ok().expect("call is sent");
    assert_eq!(pending.method, "plugin/call");
}

#[test]
fn subjects_list_route_exists() {
    assert_eq!(resolve(Method::Get, "/api/v1/subjects?kind=task"), Some(Operation::SubjectList));
    let ep = Endpoint::SubjectList(ListQuery {
        kind: Some("task".to_string()),
        status: None,
        assignee: None,
        cursor: None,
        limit: None,
    });
    assert!(ep.early_answer().is_none());
}

#[test]
fn subjects_next_route_exists() {
    assert_eq!(resolve(Method::Get, "/api/v1/subjects/next?kind=task"), Some(Operation::SubjectNext));
    let ep = Endpoint::SubjectNext(NextQuery { kind: Some("task".to_string()) });
    assert!(ep.early_answer().is_none());
}

#[test]
fn subjects_list_without_kind_is_400() {
    assert_eq!(resolve(Method::Get, "/api/v1/subjects"), Some(Operation::SubjectList));
    let ep = Endpoint::SubjectList(ListQuery { kind: None, status: None, assignee: None, cursor: None, limit: None });
    let r = ep.early_answer().expect("refused before connecting");
    assert_eq!(r.status, 400);
}

#[test]
fn subjects_next_without_kind_is_400() {
    assert_eq!(resolve(Method::Get, "/api/v1/subjects/next"), Some(Operation::SubjectNext));
    let ep = Endpoint::SubjectNext(NextQuery { kind: None });
    let r = ep.early_answer().expect("refused before connecting");
    assert_eq!(r.status, 400);
}

#[test]
fn subjects_create_route_exists() {
    assert_eq!(resolve(Method::Post, "/api/v1/subjects"), Some(Operation::SubjectCreate));
}

#[test]
fn subjects_get_route_exists() {
    assert_eq!(resolve(Method::Get, "/api/v1/subjects/task:T-1"), Some(Operation::SubjectGet));
}

#[test]
fn subjects_status_route_exists() {
    assert_eq!(resolve(Method::Post, "/api/v1/subjects/task:T-1/status"), Some(Operation::SubjectStatus));
}

#[test]
fn workflows_execute_route_exists() {
    assert_eq!(resolve(Method::Post, "/api/v1/workflows/execute"), Some(Operation::WorkflowExecute));
}

#[test]
fn daemon_start_route_exists() {
    assert_eq!(resolve(Method::Post, "/api/v1/daemon/start"), Some(Operation::DaemonStart));
}

#[test]
fn agent_routes_removed() {
    assert_eq!(resolve(Method::Post, "/api/v1/agent/run"), None);
    assert!(routes().iter().all(|op| !op.path().starts_with("/agent")));
}

#[test]
fn unknown_route_404s() {
    assert_eq!(resolve(Method::Get, "/api/v1/totally-not-a-route"), None);
}

#[test]
fn unreachable_daemon_returns_503_envelope() {
    assert_eq!(resolve(Method::Get, "/api/v1/daemon/health"), Some(Operation::DaemonHealth));
    let socket = "/tmp/animus-transport-http-nonexistent.sock";
    let ep = Endpoint::DaemonHealth;
    assert!(ep.early_answer().is_none());
    let r = ep.answer_without_daemon(socket, &connect_detail(socket));
    assert_eq!(r.status, 503);
    let v = r.into_json();
    assert!(matches!(member(&v, "ok"), Json::Bool(false)));
    let err = member(&v, "error");
    assert!(matches!(member(err, "code"), Json::Str(c) if c == "daemon_unreachable"));
    assert!(matches!(member(err, "exit_code"), Json::Num(Number::PosInt(20))));
    assert!(matches!(member(err, "message"), Json::Str(m)
        if m == "could not reach animus daemon at /tmp/animus-transport-http-nonexistent.sock: connect /tmp/animus-transport-http-nonexistent.sock"));
}

#[test]
fn post_to_static_get_path_is_not_an_update() {
    // `/subjects/next` is a GET route; a POST there does not reach the
    // `/subjects/{id}` update route.
    assert_eq!(resolve(Method::Post, "/api/v1/subjects/next"), None);
}

#[test]
fn every_route_that_needs_the_daemon_answers_503_without_it() {
    let eps = vec![
        Endpoint::DaemonStatus,
        Endpoint::DaemonStart,
        Endpoint::QueueStats,
        Endpoint::WorkflowGet("wf".to_string()),
        Endpoint::SubjectNext(NextQuery { kind: Some("task".to_string()) }),
    ];
    for ep in eps {
        assert_eq!(ep.answer_without_daemon("/s.sock", "connect /s.sock").status, 503);
    }
    let early = Endpoint::SubjectNext(NextQuery { kind: None });
    assert_eq!(early.answer_without_daemon("/s.sock", "connect /s.sock").status, 400);
    assert_eq!(Endpoint::DaemonClearLogs.answer_without_daemon("/s.sock", "x").status, 501);
}
