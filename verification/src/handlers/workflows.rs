//! `/api/v1/workflows/*`: the requests sent for each workflow route.

use vstd::prelude::*;

use crate::control_client::{
    ControlClient, PendingCall, issues, param, lemma_issued_frame, METHOD_WORKFLOW_LIST, METHOD_WORKFLOW_GET,
    METHOD_WORKFLOW_RUN, METHOD_WORKFLOW_EXECUTE, METHOD_WORKFLOW_PAUSE, METHOD_WORKFLOW_RESUME,
    METHOD_WORKFLOW_CANCEL,
};
use crate::handlers::{id_params, id_request};
use crate::json::{
    Json, JsonV, NumberV, opt_entry, opt_str, opt_u64, push_entry, push_opt_str, push_opt_u64,
    view_fields, lemma_view_fields_empty, lookup, lemma_lookup_opt_other, lemma_lookup_opt_hit,
    lemma_lookup_push_other, lemma_lookup_push_hit,
};

verus! {

/// Query of `GET /workflows`.
pub struct ListQuery {
    pub status: Option<String>,
    pub task_id: Option<String>,
    pub workflow_ref: Option<String>,
    pub limit: Option<usize>,
    pub offset: Option<usize>,
}

/// Body of `POST /workflows/run`; `params` is `null` when the body has none.
pub struct RunBody {
    pub task_id: String,
    pub definition: Option<String>,
    pub params: Json,
}

/// Optional body of `POST /workflows/{id}/resume`.
pub struct ResumeBody {
    pub feedback: Option<String>,
}

pub open spec fn opt_usize(n: Option<usize>) -> Option<JsonV> {
    match n {
        Some(v) => Some(JsonV::Num(NumberV::PosInt(v as u64))),
        None => None,
    }
}

/// The `workflow/list` request: the query's filters that are present.
pub open spec fn list_params(q: ListQuery) -> JsonV {
    JsonV::Object(
        opt_entry("status"@, opt_str(q.status))
            + opt_entry("task_id"@, opt_str(q.task_id))
            + opt_entry("workflow_ref"@, opt_str(q.workflow_ref))
            + opt_entry("limit"@, opt_usize(q.limit))
            + opt_entry("offset"@, opt_usize(q.offset)),
    )
}

/// The `workflow/run` request.
pub open spec fn run_params(body: RunBody) -> JsonV {
    JsonV::Object(
        seq![("task_id"@, JsonV::Str(body.task_id@))]
            + opt_entry("definition"@, opt_str(body.definition))
            + seq![("params"@, body.params.view_json())],
    )
}

/// The `workflow/resume` request; the feedback comes from the body, if any.
pub open spec fn resume_params(id: Seq<char>, body: Option<ResumeBody>) -> JsonV {
    let feedback = match body {
        Some(b) => b.feedback,
        None => None,
    };
    JsonV::Object(seq![("id"@, JsonV::Str(id))] + opt_entry("feedback"@, opt_str(feedback)))
}

fn opt_usize_u64(n: Option<usize>) -> (r: Option<u64>)
    ensures
        opt_u64(r) == opt_usize(n),
{
    match n {
        Some(v) => Some(v as u64),
        None => None,
    }
}

pub fn list(client: &mut ControlClient, q: ListQuery) -> (p: PendingCall)
    ensures
        issues(*old(client), *final(client), p, METHOD_WORKFLOW_LIST@, list_params(q)),
{
    let ghost gq = q;
    let mut fields: Vec<(String, Json)> = Vec::new();
    proof {
        lemma_view_fields_empty();
    }
    push_opt_str(&mut fields, "status", q.status);
    push_opt_str(&mut fields, "task_id", q.task_id);
    push_opt_str(&mut fields, "workflow_ref", q.workflow_ref);
    push_opt_u64(&mut fields, "limit", opt_usize_u64(q.limit));
    push_opt_u64(&mut fields, "offset", opt_usize_u64(q.offset));
    assert(view_fields(fields@) =~= match list_params(gq) {
        JsonV::Object(f) => f,
        _ => Seq::empty(),
    });
    client.workflow_list(Json::Object(fields))
}

pub fn get(client: &mut ControlClient, id: String) -> (p: PendingCall)
    ensures
        issues(*old(client), *final(client), p, METHOD_WORKFLOW_GET@, id_params(id@)),
{
    client.workflow_get(id_request(id))
}

pub fn run(client: &mut ControlClient, body: RunBody) -> (p: PendingCall)
    ensures
        issues(*old(client), *final(client), p, METHOD_WORKFLOW_RUN@, run_params(body)),
{
    let ghost gb = body;
    let mut fields: Vec<(String, Json)> = Vec::new();
    proof {
        lemma_view_fields_empty();
    }
    push_entry(&mut fields, "task_id", Json::Str(body.task_id));
    push_opt_str(&mut fields, "definition", body.definition);
    push_entry(&mut fields, "params", body.params);
    assert(view_fields(fields@) =~= match run_params(gb) {
        JsonV::Object(f) => f,
        _ => Seq::empty(),
    });
    client.workflow_run(Json::Object(fields))
}

/// `POST /workflows/execute`: the body is the request.
pub fn execute(client: &mut ControlClient, body: Json) -> (p: PendingCall)
    ensures
        issues(*old(client), *final(client), p, METHOD_WORKFLOW_EXECUTE@, body.view_json()),
{
    client.workflow_execute(body)
}

pub fn pause(client: &mut ControlClient, id: String) -> (p: PendingCall)
    ensures
        issues(*old(client), *final(client), p, METHOD_WORKFLOW_PAUSE@, id_params(id@)),
{
    client.workflow_pause(id_request(id))
}

pub fn resume(client: &mut ControlClient, id: String, body: Option<ResumeBody>) -> (p: PendingCall)
    ensures
        issues(*old(client), *final(client), p, METHOD_WORKFLOW_RESUME@, resume_params(id@, body)),
{
    let ghost gb = body;
    let feedback = match body {
        Some(b) => b.feedback,
        None => None,
    };
    let mut fields: Vec<(String, Json)> = Vec::new();
    proof {
        lemma_view_fields_empty();
    }
    push_entry(&mut fields, "id", Json::Str(id));
    push_opt_str(&mut fields, "feedback", feedback);
    assert(view_fields(fields@) =~= match resume_params(id@, gb) {
        JsonV::Object(f) => f,
        _ => Seq::empty(),
    });
    client.workflow_resume(Json::Object(fields))
}

pub fn cancel(client: &mut ControlClient, id: String) -> (p: PendingCall)
    ensures
        issues(*old(client), *final(client), p, METHOD_WORKFLOW_CANCEL@, id_params(id@)),
{
    client.workflow_cancel(id_request(id))
}


/// Listing workflows sends `workflow/list` with each filter of the query that
/// is present, under its own name and with the query's value, and no member
/// for a filter that is absent.
pub proof fn lemma_workflow_list_sends_filters(q: ListQuery, before: ControlClient, after: ControlClient, p: PendingCall)
    requires
        issues(before, after, p, METHOD_WORKFLOW_LIST@, list_params(q)),
    ensures
        p.method@ == "workflow/list"@,
        param(p, "status"@) == (match q.status { Some(t) => Some(JsonV::Str(t@)), None => None }),
        param(p, "task_id"@) == (match q.task_id { Some(t) => Some(JsonV::Str(t@)), None => None }),
        param(p, "workflow_ref"@) == (match q.workflow_ref { Some(t) => Some(JsonV::Str(t@)), None => None }),
        param(p, "limit"@) == (match q.limit { Some(n) => Some(JsonV::Num(NumberV::PosInt(n as u64))), None => None }),
        param(p, "offset"@) == (match q.offset { Some(n) => Some(JsonV::Num(NumberV::PosInt(n as u64))), None => None }),
{
    reveal_strlit("status");
    reveal_strlit("task_id");
    reveal_strlit("workflow_ref");
    reveal_strlit("limit");
    reveal_strlit("offset");
    reveal_strlit("workflow/list");
    lemma_issued_frame(before, after, p, METHOD_WORKFLOW_LIST@, list_params(q));
    let e0 = Seq::<(Seq<char>, JsonV)>::empty();
    let e1 = e0 + opt_entry("status"@, opt_str(q.status));
    let e2 = e1 + opt_entry("task_id"@, opt_str(q.task_id));
    let e3 = e2 + opt_entry("workflow_ref"@, opt_str(q.workflow_ref));
    let e4 = e3 + opt_entry("limit"@, opt_usize(q.limit));
    let e5 = e4 + opt_entry("offset"@, opt_usize(q.offset));
    assert(e5 =~= opt_entry("status"@, opt_str(q.status)) + opt_entry("task_id"@, opt_str(q.task_id)) + opt_entry("workflow_ref"@, opt_str(q.workflow_ref)) + opt_entry("limit"@, opt_usize(q.limit)) + opt_entry("offset"@, opt_usize(q.offset)));
    assert("status"@.len() != "task_id"@.len());
    assert("status"@.len() != "workflow_ref"@.len());
    assert("status"@.len() != "limit"@.len());
    assert("status"@[0] != "offset"@[0]);
    assert("task_id"@.len() != "workflow_ref"@.len());
    assert("task_id"@.len() != "limit"@.len());
    assert("task_id"@.len() != "offset"@.len());
    assert("workflow_ref"@.len() != "limit"@.len());
    assert("workflow_ref"@.len() != "offset"@.len());
    assert("limit"@.len() != "offset"@.len());
    lemma_lookup_opt_hit(e0, "status"@, opt_str(q.status));
    lemma_lookup_opt_other(e1, "task_id"@, opt_str(q.task_id), "status"@);
    lemma_lookup_opt_other(e2, "workflow_ref"@, opt_str(q.workflow_ref), "status"@);
    lemma_lookup_opt_other(e3, "limit"@, opt_usize(q.limit), "status"@);
    lemma_lookup_opt_other(e4, "offset"@, opt_usize(q.offset), "status"@);
    lemma_lookup_opt_hit(e1, "task_id"@, opt_str(q.task_id));
    lemma_lookup_opt_other(e0, "status"@, opt_str(q.status), "task_id"@);
    lemma_lookup_opt_other(e2, "workflow_ref"@, opt_str(q.workflow_ref), "task_id"@);
    lemma_lookup_opt_other(e3, "limit"@, opt_usize(q.limit), "task_id"@);
    lemma_lookup_opt_other(e4, "offset"@, opt_usize(q.offset), "task_id"@);
    lemma_lookup_opt_hit(e2, "workflow_ref"@, opt_str(q.workflow_ref));
    lemma_lookup_opt_other(e0, "status"@, opt_str(q.status), "workflow_ref"@);
    lemma_lookup_opt_other(e1, "task_id"@, opt_str(q.task_id), "workflow_ref"@);
    lemma_lookup_opt_other(e3, "limit"@, opt_usize(q.limit), "workflow_ref"@);
    lemma_lookup_opt_other(e4, "offset"@, opt_usize(q.offset), "workflow_ref"@);
    lemma_lookup_opt_hit(e3, "limit"@, opt_usize(q.limit));
    lemma_lookup_opt_other(e0, "status"@, opt_str(q.status), "limit"@);
    lemma_lookup_opt_other(e1, "task_id"@, opt_str(q.task_id), "limit"@);
    lemma_lookup_opt_other(e2, "workflow_ref"@, opt_str(q.workflow_ref), "limit"@);
    lemma_lookup_opt_other(e4, "offset"@, opt_usize(q.offset), "limit"@);
    lemma_lookup_opt_hit(e4, "offset"@, opt_usize(q.offset));
    lemma_lookup_opt_other(e0, "status"@, opt_str(q.status), "offset"@);
    lemma_lookup_opt_other(e1, "task_id"@, opt_str(q.task_id), "offset"@);
    lemma_lookup_opt_other(e2, "workflow_ref"@, opt_str(q.workflow_ref), "offset"@);
    lemma_lookup_opt_other(e3, "limit"@, opt_usize(q.limit), "offset"@);
}


/// Running a workflow sends `workflow/run` with the body's task id, its
/// definition when it names one, and its params as given.
pub proof fn lemma_run_sends_body(body: RunBody, before: ControlClient, after: ControlClient, p: PendingCall)
    requires
        issues(before, after, p, METHOD_WORKFLOW_RUN@, run_params(body)),
    ensures
        p.method@ == "workflow/run"@,
        param(p, "task_id"@) == Some(JsonV::Str(body.task_id@)),
        param(p, "definition"@) == (match body.definition {
            Some(d) => Some(JsonV::Str(d@)),
            None => None,
        }),
        param(p, "params"@) == Some(body.params.view_json()),
{
    reveal_strlit("workflow/run");
    lemma_issued_frame(before, after, p, METHOD_WORKFLOW_RUN@, run_params(body));
    reveal_strlit("task_id");
    reveal_strlit("definition");
    reveal_strlit("params");
    assert("task_id"@.len() != "definition"@.len());
    assert("task_id"@.len() != "params"@.len());
    assert("definition"@.len() != "params"@.len());
    let e0 = Seq::<(Seq<char>, JsonV)>::empty();
    let e1 = e0.push(("task_id"@, JsonV::Str(body.task_id@)));
    let e2 = e1 + opt_entry("definition"@, opt_str(body.definition));
    let e3 = e2.push(("params"@, body.params.view_json()));
    lemma_lookup_push_hit(e0, "task_id"@, JsonV::Str(body.task_id@));
    lemma_lookup_opt_other(e1, "definition"@, opt_str(body.definition), "task_id"@);
    lemma_lookup_push_other(e2, "params"@, body.params.view_json(), "task_id"@);
    lemma_lookup_opt_hit(e1, "definition"@, opt_str(body.definition));
    lemma_lookup_push_other(e0, "task_id"@, JsonV::Str(body.task_id@), "definition"@);
    lemma_lookup_push_other(e2, "params"@, body.params.view_json(), "definition"@);
    lemma_lookup_push_hit(e2, "params"@, body.params.view_json());
    lemma_lookup_push_other(e0, "task_id"@, JsonV::Str(body.task_id@), "params"@);
    lemma_lookup_opt_other(e1, "definition"@, opt_str(body.definition), "params"@);
    assert(e3 =~= seq![("task_id"@, JsonV::Str(body.task_id@))]
        + opt_entry("definition"@, opt_str(body.definition))
        + seq![("params"@, body.params.view_json())]);
}

/// Resuming a workflow sends `workflow/resume` with the path's id and the
/// feedback of the body when it carries one, and no feedback otherwise.
pub proof fn lemma_resume_sends_feedback(id: String, body: Option<ResumeBody>, before: ControlClient, after: ControlClient, p: PendingCall)
    requires
        issues(before, after, p, METHOD_WORKFLOW_RESUME@, resume_params(id@, body)),
    ensures
        p.method@ == "workflow/resume"@,
        param(p, "id"@) == Some(JsonV::Str(id@)),
        param(p, "feedback"@) == (match body {
            Some(b) => match b.feedback {
                Some(f) => Some(JsonV::Str(f@)),
                None => None,
            },
            None => None,
        }),
{
    reveal_strlit("workflow/resume");
    lemma_issued_frame(before, after, p, METHOD_WORKFLOW_RESUME@, resume_params(id@, body));
    let feedback = match body {
        Some(b) => b.feedback,
        None => None,
    };
    reveal_strlit("id");
    reveal_strlit("feedback");
    assert("id"@.len() != "feedback"@.len());
    let e0 = Seq::<(Seq<char>, JsonV)>::empty();
    let e1 = e0.push(("id"@, JsonV::Str(id@)));
    let e2 = e1 + opt_entry("feedback"@, opt_str(feedback));
    lemma_lookup_push_hit(e0, "id"@, JsonV::Str(id@));
    lemma_lookup_opt_other(e1, "feedback"@, opt_str(feedback), "id"@);
    lemma_lookup_opt_hit(e1, "feedback"@, opt_str(feedback));
    lemma_lookup_push_other(e0, "id"@, JsonV::Str(id@), "feedback"@);
    assert(e2 =~= seq![("id"@, JsonV::Str(id@))] + opt_entry("feedback"@, opt_str(feedback)));
}

} // verus!
