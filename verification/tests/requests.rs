//! The requests each route sends, the replies that settle them, and the
//! envelopes sent back.

use animus_transport_http::control_client::{ControlClient, LineStep, ReplyStep, RpcFailure, RpcReply};
use animus_transport_http::handlers::subject_ops::{self, CreateBody, ListQuery, StatusBody, UpdateBody};
use animus_transport_http::handlers::{daemon, plugin, queue, subject, wire_response, workflows, Endpoint};
use animus_transport_http::json::{is_last_of_key, Json, Number};
use serde_json::Value;

fn to_value(j: Json) -> Value {
    match j {
        Json::Null => Value::Null,
        Json::Bool(b) => Value::Bool(b),
        Json::Num(Number::PosInt(u)) => Value::from(u),
        Json::Num(Number::NegInt(i)) => Value::from(i),
        Json::Num(Number::Float(t)) => Value::from(t.parse::<f64>().unwrap()),
        Json::Str(s) => Value::String(s),
        Json::Array(items) => Value::Array(items.into_iter().map(to_value).collect()),
        Json::Object(fields) => {
            let mut m = serde_json::Map::new();
            for (k, v) in fields {
                m.insert(k, to_value(v));
            }
            Value::Object(m)
        }
    }
}

fn from_value(v: Value) -> Json {
    match v {
        Value::Null => Json::Null,
        Value::Bool(b) => Json::Bool(b),
        Value::Number(n) => match (n.as_u64(), n.as_i64()) {
            (Some(u), _) => Json::Num(Number::PosInt(u)),
            (None, Some(i)) => Json::Num(Number::NegInt(i)),
            _ => Json::Num(Number::Float(n.to_string())),
        },
        Value::String(s) => Json::Str(s),
        Value::Array(a) => Json::Array(a.into_iter().map(from_value).collect()),
        Value::Object(m) => Json::Object(m.into_iter().map(|(k, v)| (k, from_value(v))).collect()),
    }
}

fn parse(text: &str) -> Value {
    serde_json::from_str(text).unwrap()
}

fn json(text: &str) -> Json {
    from_value(parse(text))
}

fn params(frame: Json) -> Value {
    let v = to_value(frame);
    v["params"].clone()
}

#[test]
fn frame_carries_version_id_method_and_params() {
    let mut client = ControlClient::new();
    let p = workflows::get(&mut client, "wf-7".to_string());
    assert_eq!(p.id, 1);
    assert_eq!(p.method, "workflow/get");
    assert_eq!(
        to_value(p.frame),
        parse(r#"{"jsonrpc":"2.0","id":1,"method":"workflow/get","params":{"id":"wf-7"}}"#)
    );
}

#[test]
fn consecutive_requests_get_distinct_ids() {
    let mut client = ControlClient::new();
    let a = daemon::status(&mut client);
    let b = daemon::health(&mut client);
    let c = queue::stats(&mut client);
    assert_eq!((a.id, b.id, c.id), (1, 2, 3));
    assert_eq!(params(b.frame), Value::Null);
}

#[test]
fn reply_for_another_id_is_ignored() {
    let mut client = ControlClient::new();
    let p = daemon::status(&mut client);
    let reply = RpcReply { id: Some(Json::Num(Number::PosInt(2))), result: Some(Json::Bool(true)), error: None };
    assert!(matches!(p.accept(reply), ReplyStep::Ignore));
    let no_id = RpcReply { id: None, result: Some(Json::Bool(true)), error: None };
    assert!(matches!(p.accept(no_id), ReplyStep::Ignore));
    let float_id = RpcReply { id: Some(Json::Num(Number::Float("1.0".to_string()))), result: None, error: None };
    assert!(matches!(p.accept(float_id), ReplyStep::Ignore));
}

#[test]
fn matching_reply_settles_with_result_error_or_missing_result() {
    let mut client = ControlClient::new();
    let p = queue::stats(&mut client);
    let id = || Some(Json::Num(Number::PosInt(1)));
    match p.accept(RpcReply { id: id(), result: Some(json(r#"{"depth":3}"#)), error: None }) {
        ReplyStep::Complete(Ok(v)) => assert_eq!(to_value(v), parse(r#"{"depth":3}"#)),
        _ => panic!("expected the result"),
    }
    let err = RpcFailure { code: -32601, message: "method not found".to_string() };
    match p.accept(RpcReply { id: id(), result: None, error: Some(err) }) {
        ReplyStep::Complete(Err(m)) => assert_eq!(m, "queue/stats failed (code -32601): method not found"),
        _ => panic!("expected the error"),
    }
    match p.accept(RpcReply { id: id(), result: None, error: None }) {
        ReplyStep::Complete(Err(m)) => assert_eq!(m, "queue/stats: response missing result"),
        _ => panic!("expected the missing-result error"),
    }
    assert_eq!(p.closed_error(), "control socket closed while awaiting response for queue/stats");
    assert_eq!(p.undecodable_error(), "decode response for queue/stats");
}

#[test]
fn wire_response_wraps_data_and_errors() {
    let ok = wire_response(Ok(json(r#"[1,2]"#)));
    assert_eq!(ok.status, 200);
    assert_eq!(to_value(ok.into_json()), parse(r#"{"ok":true,"data":[1,2]}"#));
    let err = wire_response(Err("queue/list failed (code 7): no".to_string()));
    assert_eq!(err.status, 502);
    assert_eq!(
        to_value(err.into_json()),
        parse(r#"{"ok":false,"error":{"code":"wire_error","message":"queue/list failed (code 7): no","exit_code":1}}"#)
    );
}

#[test]
fn workflow_list_sends_present_filters_only() {
    let mut client = ControlClient::new();
    let q = workflows::ListQuery {
        status: Some("running".to_string()),
        task_id: None,
        workflow_ref: Some("build".to_string()),
        limit: Some(10),
        offset: None,
    };
    let p = workflows::list(&mut client, q);
    assert_eq!(params(p.frame), parse(r#"{"status":"running","workflow_ref":"build","limit":10}"#));
}

#[test]
fn workflow_run_and_resume_requests() {
    let mut client = ControlClient::new();
    let body = workflows::RunBody { task_id: "T-1".to_string(), definition: None, params: Json::Null };
    let p = workflows::run(&mut client, body);
    assert_eq!(params(p.frame), parse(r#"{"task_id":"T-1","params":null}"#));
    let p = workflows::resume(&mut client, "wf".to_string(), Some(workflows::ResumeBody { feedback: Some("go".to_string()) }));
    assert_eq!(params(p.frame), parse(r#"{"id":"wf","feedback":"go"}"#));
    let p = workflows::resume(&mut client, "wf".to_string(), None);
    assert_eq!(params(p.frame), parse(r#"{"id":"wf"}"#));
}

#[test]
fn queue_hold_takes_a_string_reason_only() {
    let mut client = ControlClient::new();
    let p = queue::hold(&mut client, "q1".to_string(), Some(json(r#"{"reason":"busy"}"#)));
    assert_eq!(params(p.frame), parse(r#"{"id":"q1","reason":"busy"}"#));
    let p = queue::hold(&mut client, "q1".to_string(), Some(json(r#"{"reason":5}"#)));
    assert_eq!(params(p.frame), parse(r#"{"id":"q1"}"#));
    let p = queue::hold(&mut client, "q1".to_string(), None);
    assert_eq!(params(p.frame), parse(r#"{"id":"q1"}"#));
}

#[test]
fn queue_list_and_enqueue_requests() {
    let mut client = ControlClient::new();
    let p = queue::list(&mut client, queue::ListQuery { status: None, limit: Some(5) });
    assert_eq!(params(p.frame), parse(r#"{"limit":5}"#));
    let p = queue::enqueue(&mut client, Ok(json(r#"{"task_id":"T-9"}"#))).ok().unwrap();
    assert_eq!(p.method, "queue/enqueue");
    assert_eq!(params(p.frame), parse(r#"{"task_id":"T-9"}"#));
}

#[test]
fn daemon_logs_default_limit() {
    let mut client = ControlClient::new();
    let p = daemon::logs(&mut client, daemon::LogsQuery { limit: None });
    assert_eq!(params(p.frame), parse(r#"{"limit":100}"#));
    let p = daemon::logs(&mut client, daemon::LogsQuery { limit: Some(3) });
    assert_eq!(params(p.frame), parse(r#"{"limit":3}"#));
}

#[test]
fn daemon_logs_limit_added_to_object_requests_only() {
    let mut client = ControlClient::new();
    let p = client.daemon_logs(json(r#"{"level":"warn","limit":1}"#), 50);
    assert_eq!(params(p.frame), parse(r#"{"level":"warn","limit":50}"#));
    let p = client.daemon_logs(Json::Null, 50);
    assert_eq!(params(p.frame), Value::Null);
}

#[test]
fn clearing_logs_is_not_implemented() {
    let r = Endpoint::DaemonClearLogs.early_answer().expect("answered without the daemon");
    assert_eq!(r.status, 501);
    assert_eq!(to_value(r.into_json())["error"]["code"], "not_implemented");
}

#[test]
fn plugin_requests() {
    let mut client = ControlClient::new();
    let p = plugin::search(&mut client, vec![("query".to_string(), "git".to_string())]);
    assert_eq!(p.method, "plugin/search");
    assert_eq!(params(p.frame), parse(r#"{"query":"git"}"#));
    let p = plugin::ping(&mut client, "markdown".to_string());
    assert_eq!(params(p.frame), parse(r#"{"name":"markdown"}"#));
}

#[test]
fn subject_call_adds_the_plugin_and_needs_an_object() {
    let mut client = ControlClient::new();
    let p = subject::call(&mut client, "markdown".to_string(), json(r#"{"method":"list","params":{}}"#)).ok().unwrap();
    assert_eq!(params(p.frame), parse(r#"{"method":"list","params":{},"plugin":"markdown"}"#));
    let r = subject::call(&mut client, "markdown".to_string(), json(r#"[1]"#)).err().unwrap();
    assert_eq!(r.status, 400);
    assert_eq!(
        to_value(r.into_json()),
        parse(r#"{"ok":false,"error":{"code":"invalid_input","message":"subject call body must be a JSON object","exit_code":2}}"#)
    );
    let p = ControlClient::new();
    let _ = p;
}

#[test]
fn status_names_parse() {
    assert!(matches!(subject_ops::parse_status("ready"), Ok(subject_ops::SubjectStatus::Ready)));
    assert!(matches!(subject_ops::parse_status("in_progress"), Ok(subject_ops::SubjectStatus::InProgress)));
    match subject_ops::parse_status("Ready") {
        Err(m) => assert_eq!(
            m,
            "invalid status `Ready`: unknown variant `Ready`, expected one of `backlog`, `ready`, `in_progress`, `blocked`, `done`, `cancelled`"
        ),
        Ok(_) => panic!("status names are case sensitive"),
    }
}

#[test]
fn subject_list_filter() {
    let mut client = ControlClient::new();
    let q = ListQuery {
        kind: Some("task".to_string()),
        status: Some("ready".to_string()),
        assignee: None,
        cursor: Some("c1".to_string()),
        limit: Some(20),
    };
    let p = subject_ops::list(&mut client, q).ok().unwrap();
    assert_eq!(
        params(p.frame),
        parse(r#"{"filter":{"kind":["task"],"status":["ready"],"assignee":[],"cursor":"c1","limit":20}}"#)
    );
}

#[test]
fn subject_list_with_bad_status_is_400_and_sends_nothing() {
    let mut client = ControlClient::new();
    let q = ListQuery { kind: Some("task".to_string()), status: Some("nope".to_string()), assignee: None, cursor: None, limit: None };
    let r = subject_ops::list(&mut client, q).err().unwrap();
    assert_eq!(r.status, 400);
    assert_eq!(daemon::status(&mut client).id, 1);
}

#[test]
fn subject_list_with_empty_kind_is_400() {
    let ep = Endpoint::SubjectList(ListQuery { kind: Some(String::new()), status: None, assignee: None, cursor: None, limit: None });
    assert_eq!(ep.early_answer().unwrap().status, 400);
}

#[test]
fn subject_create_needs_kind_and_title() {
    let mut client = ControlClient::new();
    let body = CreateBody {
        kind: "task".to_string(),
        title: String::new(),
        body: None,
        status: None,
        priority: None,
        labels: vec![],
        assignee: None,
        custom: vec![],
    };
    let r = subject_ops::create(&mut client, body).err().unwrap();
    assert_eq!(
        to_value(r.into_json())["error"]["message"],
        "subject create requires non-empty `kind` and `title`"
    );
}

#[test]
fn subject_create_request() {
    let mut client = ControlClient::new();
    let body = CreateBody {
        kind: "task".to_string(),
        title: "hello".to_string(),
        body: None,
        status: Some("backlog".to_string()),
        priority: Some(2),
        labels: vec!["a".to_string(), "b".to_string()],
        assignee: None,
        custom: vec![("team".to_string(), Json::Str("core".to_string()))],
    };
    let p = subject_ops::create(&mut client, body).ok().unwrap();
    assert_eq!(
        params(p.frame),
        parse(r#"{"kind":"task","title":"hello","status":"backlog","priority":2,"labels":["a","b"],"custom":{"team":"core"}}"#)
    );
}

fn update_body(assignee: Option<Option<String>>) -> UpdateBody {
    UpdateBody { status: None, assignee, labels_add: vec![], labels_remove: vec![], comment: None, custom: vec![] }
}

#[test]
fn update_patch_leaves_absent_assignee_untouched() {
    let mut client = ControlClient::new();
    let p = subject_ops::update(&mut client, "task:T-1".to_string(), update_body(None)).ok().unwrap();
    let v = params(p.frame);
    assert!(v["patch"].get("assignee").is_none());
    assert_eq!(v["id"], "task:T-1");
}

#[test]
fn update_patch_clears_assignee_on_null() {
    let mut client = ControlClient::new();
    let p = subject_ops::update(&mut client, "task:T-1".to_string(), update_body(Some(None))).ok().unwrap();
    let v = params(p.frame);
    assert_eq!(v["patch"].get("assignee"), Some(&Value::Null));
}

#[test]
fn update_patch_sets_assignee_on_value() {
    let mut client = ControlClient::new();
    let p = subject_ops::update(&mut client, "task:T-1".to_string(), update_body(Some(Some("alice".to_string()))))
        .ok()
        .unwrap();
    let v = params(p.frame);
    assert_eq!(
        v["patch"],
        parse(r#"{"assignee":"alice","labels_add":[],"labels_remove":[],"custom":{}}"#)
    );
}

#[test]
fn subject_status_and_next_requests() {
    let mut client = ControlClient::new();
    let p = subject_ops::status(&mut client, "task:T-1".to_string(), StatusBody { status: "done".to_string() })
        .ok()
        .unwrap();
    assert_eq!(params(p.frame), parse(r#"{"id":"task:T-1","status":"done"}"#));
    let bad = subject_ops::status(&mut client, "task:T-1".to_string(), StatusBody { status: "finished".to_string() });
    assert_eq!(bad.err().unwrap().status, 400);
    let p = subject_ops::next(&mut client, subject_ops::NextQuery { kind: Some("task".to_string()) }).ok().unwrap();
    assert_eq!(params(p.frame), parse(r#"{"kind":"task"}"#));
}

#[test]
fn lines_read_back_settle_in_order() {
    let mut client = ControlClient::new();
    let p = queue::stats(&mut client);
    assert!(matches!(p.on_line(Some("  \n")), LineStep::Skip));
    assert!(matches!(p.on_line(Some("{\"id\":1}\n")), LineStep::Decode));
    match p.on_line(None) {
        LineStep::Complete(Err(m)) => assert_eq!(m, "control socket closed while awaiting response for queue/stats"),
        _ => panic!("end of stream settles the call"),
    }
    match p.on_decoded(None) {
        ReplyStep::Complete(Err(m)) => assert_eq!(m, "decode response for queue/stats"),
        _ => panic!("an undecodable line settles the call"),
    }
    let other = RpcReply { id: Some(Json::Num(Number::PosInt(9))), result: Some(Json::Null), error: None };
    assert!(matches!(p.on_decoded(Some(other)), ReplyStep::Ignore));
}

#[test]
fn queue_enqueue_and_reorder_refuse_undecodable_bodies() {
    let mut client = ControlClient::new();
    let why = "invalid type: integer `5`, expected struct QueueEnqueueRequest".to_string();
    let r = queue::enqueue(&mut client, Err(why)).err().unwrap();
    assert_eq!(r.status, 400);
    assert_eq!(
        to_value(r.into_json()),
        parse(r#"{"ok":false,"error":{"code":"invalid_input","message":"invalid type: integer `5`, expected struct QueueEnqueueRequest","exit_code":2}}"#)
    );
    let why = "missing field `order`".to_string();
    let r = queue::reorder(&mut client, Err(why)).err().unwrap();
    assert_eq!(to_value(r.into_json())["error"]["message"], "missing field `order`");
    // nothing was sent: the next call still carries id 1
    assert_eq!(queue::stats(&mut client).id, 1);
    let p = queue::reorder(&mut client, Ok(json(r#"{"order":["a","b"]}"#))).ok().unwrap();
    assert_eq!(p.method, "queue/reorder");
    assert_eq!(params(p.frame), parse(r#"{"order":["a","b"]}"#));
}

#[test]
fn result_must_have_the_verbs_shape() {
    let mut client = ControlClient::new();
    let stats = queue::stats(&mut client);
    let id = |n: u64| Some(Json::Num(Number::PosInt(n)));
    match stats.accept(RpcReply { id: id(1), result: Some(json("42")), error: None }) {
        ReplyStep::Complete(Err(m)) => assert_eq!(m, "decode queue/stats result"),
        _ => panic!("a number is not queue stats"),
    }
    let logs = daemon::logs(&mut client, daemon::LogsQuery { limit: None });
    match logs.accept(RpcReply { id: id(2), result: Some(json(r#"{"lines":[]}"#)), error: None }) {
        ReplyStep::Complete(Err(m)) => assert_eq!(m, "decode daemon/logs result"),
        _ => panic!("log entries come as a list"),
    }
    match logs.accept(RpcReply { id: id(2), result: Some(json(r#"[{"msg":"up"}]"#)), error: None }) {
        ReplyStep::Complete(Ok(v)) => assert_eq!(to_value(v), parse(r#"[{"msg":"up"}]"#)),
        _ => panic!("a list of entries decodes"),
    }
    let pause = workflows::pause(&mut client, "wf".to_string());
    assert!(matches!(
        pause.accept(RpcReply { id: id(3), result: Some(Json::Null), error: None }),
        ReplyStep::Complete(Ok(Json::Null))
    ));
    match pause.accept(RpcReply { id: id(3), result: Some(json("\"done\"")), error: None }) {
        ReplyStep::Complete(Err(m)) => assert_eq!(m, "decode workflow/pause result"),
        _ => panic!("a string is not a unit result"),
    }
}

#[test]
fn ids_count_the_calls_of_a_connection() {
    let mut client = ControlClient::new();
    let ids: Vec<u64> = (0..5).map(|_| daemon::status(&mut client).id).collect();
    assert_eq!(ids, vec![1, 2, 3, 4, 5]);
}

#[test]
fn frame_text_keeps_member_order() {
    let mut client = ControlClient::new();
    let p = daemon::status(&mut client);
    match p.frame {
        Json::Object(fields) => {
            let keys: Vec<&str> = fields.iter().map(|(k, _)| k.as_str()).collect();
            assert_eq!(keys, vec!["jsonrpc", "id", "method", "params"]);
        }
        _ => panic!("a frame is an object"),
    }
}

#[test]
fn written_objects_keep_the_last_entry_of_a_key() {
    let fields = vec![
        ("limit".to_string(), Json::Num(Number::PosInt(1))),
        ("level".to_string(), Json::Str("warn".to_string())),
        ("limit".to_string(), Json::Num(Number::PosInt(50))),
    ];
    let kept: Vec<bool> = (0..4).map(|i| is_last_of_key(&fields, i)).collect();
    assert_eq!(kept, vec![false, true, true, false]);
}
