//! `/api/v1/queue/*`: the requests sent for each queue route.

use vstd::prelude::*;

use crate::control_client::{
    ControlClient, PendingCall, issues, param, call_params, lemma_issued_frame, METHOD_QUEUE_LIST, METHOD_QUEUE_STATS, METHOD_QUEUE_ENQUEUE,
    METHOD_QUEUE_REORDER, METHOD_QUEUE_HOLD, METHOD_QUEUE_RELEASE, METHOD_QUEUE_DROP,
};
use crate::handlers::{ApiResponse, id_params, id_request, invalid_input, is_invalid_input, refused, sent};
use crate::handlers::workflows::opt_usize;
use crate::json::{
    Json, JsonV, NumberV, lookup, opt_entry, opt_str, push_entry, push_opt_str, push_opt_u64,
    view_fields, lemma_view_fields_empty, field, lemma_lookup_opt_other, lemma_lookup_opt_hit,
    lemma_lookup_push_other, lemma_lookup_push_hit,
};

verus! {

/// Query of `GET /queue`.
pub struct ListQuery {
    pub status: Option<String>,
    pub limit: Option<usize>,
}

/// The `queue/list` request: the query's filters that are present.
pub open spec fn list_params(q: ListQuery) -> JsonV {
    JsonV::Object(opt_entry("status"@, opt_str(q.status)) + opt_entry("limit"@, opt_usize(q.limit)))
}

/// The hold reason: the body's `reason` member when it is a string.
pub open spec fn hold_reason(body: Option<Json>) -> Option<Seq<char>> {
    match body {
        Some(b) => match b.view_json() {
            JsonV::Object(fields) => match lookup(fields, "reason"@) {
                Some(JsonV::Str(s)) => Some(s),
                _ => None,
            },
            _ => None,
        },
        None => None,
    }
}

/// The `queue/hold` request.
pub open spec fn hold_params(id: Seq<char>, reason: Option<Seq<char>>) -> JsonV {
    JsonV::Object(
        seq![("id"@, JsonV::Str(id))] + match reason {
            Some(r) => seq![("reason"@, JsonV::Str(r))],
            None => Seq::empty(),
        },
    )
}

pub fn list(client: &mut ControlClient, q: ListQuery) -> (p: PendingCall)
    ensures
        issues(*old(client), *final(client), p, METHOD_QUEUE_LIST@, list_params(q)),
{
    let ghost gq = q;
    let mut fields: Vec<(String, Json)> = Vec::new();
    proof {
        lemma_view_fields_empty();
    }
    push_opt_str(&mut fields, "status", q.status);
    let limit = match q.limit {
        Some(v) => Some(v as u64),
        None => None,
    };
    push_opt_u64(&mut fields, "limit", limit);
    assert(view_fields(fields@) =~= match list_params(gq) {
        JsonV::Object(f) => f,
        _ => Seq::empty(),
    });
    client.queue_list(Json::Object(fields))
}

pub fn stats(client: &mut ControlClient) -> (p: PendingCall)
    ensures
        issues(*old(client), *final(client), p, METHOD_QUEUE_STATS@, JsonV::Null),
{
    client.queue_stats()
}

/// `POST /queue/enqueue`: the body decoded as the enqueue request (`Ok`), or
/// the text of why it does not decode (`Err`), which is refused with a 400.
pub open spec fn enqueue_outcome(decoded: Result<Json, String>, before: ControlClient, after: ControlClient, r: Result<PendingCall, ApiResponse>) -> bool {
    match decoded {
        Ok(request) => sent(before, after, r, METHOD_QUEUE_ENQUEUE@, request.view_json()),
        Err(reason) => refused(before, after, r, reason@),
    }
}

/// `POST /queue/reorder`: as for enqueue, with the reorder request.
pub open spec fn reorder_outcome(decoded: Result<Json, String>, before: ControlClient, after: ControlClient, r: Result<PendingCall, ApiResponse>) -> bool {
    match decoded {
        Ok(request) => sent(before, after, r, METHOD_QUEUE_REORDER@, request.view_json()),
        Err(reason) => refused(before, after, r, reason@),
    }
}

pub fn enqueue(client: &mut ControlClient, decoded: Result<Json, String>) -> (r: Result<PendingCall, ApiResponse>)
    ensures
        enqueue_outcome(decoded, *old(client), *final(client), r),
{
    match decoded {
        Ok(request) => Ok(client.queue_enqueue(request)),
        Err(reason) => Err(invalid_input(reason)),
    }
}

pub fn reorder(client: &mut ControlClient, decoded: Result<Json, String>) -> (r: Result<PendingCall, ApiResponse>)
    ensures
        reorder_outcome(decoded, *old(client), *final(client), r),
{
    match decoded {
        Ok(request) => Ok(client.queue_reorder(request)),
        Err(reason) => Err(invalid_input(reason)),
    }
}

/// The hold reason carried by an optional body.
pub fn reason_of(body: &Option<Json>) -> (r: Option<String>)
    ensures
        match r {
            Some(s) => hold_reason(*body) == Some(s@),
            None => hold_reason(*body) is None,
        },
{
    match body {
        Some(b) => match b.get("reason") {
            Some(Json::Str(s)) => Some(s.clone()),
            _ => None,
        },
        None => None,
    }
}

pub fn hold(client: &mut ControlClient, id: String, body: Option<Json>) -> (p: PendingCall)
    ensures
        issues(*old(client), *final(client), p, METHOD_QUEUE_HOLD@, hold_params(id@, hold_reason(body))),
{
    let reason = reason_of(&body);
    let mut fields: Vec<(String, Json)> = Vec::new();
    proof {
        lemma_view_fields_empty();
    }
    push_entry(&mut fields, "id", Json::Str(id));
    push_opt_str(&mut fields, "reason", reason);
    assert(view_fields(fields@) =~= match hold_params(id@, hold_reason(body)) {
        JsonV::Object(f) => f,
        _ => Seq::empty(),
    });
    client.queue_hold(Json::Object(fields))
}

pub fn release(client: &mut ControlClient, id: String) -> (p: PendingCall)
    ensures
        issues(*old(client), *final(client), p, METHOD_QUEUE_RELEASE@, id_params(id@)),
{
    client.queue_release(id_request(id))
}

pub fn drop(client: &mut ControlClient, id: String) -> (p: PendingCall)
    ensures
        issues(*old(client), *final(client), p, METHOD_QUEUE_DROP@, id_params(id@)),
{
    client.queue_drop(id_request(id))
}


/// Listing the queue sends `queue/list` with the query's status and limit
/// when present, and nothing for either when absent.
pub proof fn lemma_list_sends_filters(q: ListQuery, before: ControlClient, after: ControlClient, p: PendingCall)
    requires
        issues(before, after, p, METHOD_QUEUE_LIST@, list_params(q)),
    ensures
        p.method@ == "queue/list"@,
        param(p, "status"@) == (match q.status {
            Some(t) => Some(JsonV::Str(t@)),
            None => None,
        }),
        param(p, "limit"@) == (match q.limit {
            Some(n) => Some(JsonV::Num(NumberV::PosInt(n as u64))),
            None => None,
        }),
{
    reveal_strlit("queue/list");
    lemma_issued_frame(before, after, p, METHOD_QUEUE_LIST@, list_params(q));
    reveal_strlit("status");
    reveal_strlit("limit");
    assert("status"@.len() != "limit"@.len());
    let e0 = Seq::<(Seq<char>, JsonV)>::empty();
    let e1 = e0 + opt_entry("status"@, opt_str(q.status));
    let e2 = e1 + opt_entry("limit"@, opt_usize(q.limit));
    lemma_lookup_opt_hit(e0, "status"@, opt_str(q.status));
    lemma_lookup_opt_other(e1, "limit"@, opt_usize(q.limit), "status"@);
    lemma_lookup_opt_hit(e1, "limit"@, opt_usize(q.limit));
    lemma_lookup_opt_other(e0, "status"@, opt_str(q.status), "limit"@);
    assert(e2 =~= opt_entry("status"@, opt_str(q.status)) + opt_entry("limit"@, opt_usize(q.limit)));
}

/// Holding a queue entry sends `queue/hold` with the path's id and, when the
/// body is an object whose `reason` is a string, that reason; nothing else
/// in the body is sent.
pub proof fn lemma_hold_sends_reason(id: String, body: Option<Json>, before: ControlClient, after: ControlClient, p: PendingCall)
    requires
        issues(before, after, p, METHOD_QUEUE_HOLD@, hold_params(id@, hold_reason(body))),
    ensures
        p.method@ == "queue/hold"@,
        param(p, "id"@) == Some(JsonV::Str(id@)),
        param(p, "reason"@) == (match body {
            Some(b) => match field(b.view_json(), "reason"@) {
                Some(JsonV::Str(t)) => Some(JsonV::Str(t)),
                _ => None,
            },
            None => None,
        }),
{
    reveal_strlit("queue/hold");
    lemma_issued_frame(before, after, p, METHOD_QUEUE_HOLD@, hold_params(id@, hold_reason(body)));
    let rj = match hold_reason(body) {
        Some(t) => Some(JsonV::Str(t)),
        None => None,
    };
    reveal_strlit("id");
    reveal_strlit("reason");
    assert("id"@.len() != "reason"@.len());
    let e0 = Seq::<(Seq<char>, JsonV)>::empty();
    let e1 = e0.push(("id"@, JsonV::Str(id@)));
    let e2 = e1 + opt_entry("reason"@, rj);
    lemma_lookup_push_hit(e0, "id"@, JsonV::Str(id@));
    lemma_lookup_opt_other(e1, "reason"@, rj, "id"@);
    lemma_lookup_opt_hit(e1, "reason"@, rj);
    lemma_lookup_push_other(e0, "id"@, JsonV::Str(id@), "reason"@);
    assert(e2 =~= seq![("id"@, JsonV::Str(id@))] + match hold_reason(body) {
        Some(t) => seq![("reason"@, JsonV::Str(t))],
        None => Seq::empty(),
    });
}


/// Enqueueing sends `queue/enqueue` with the decoded request unchanged; a
/// body that does not decode is refused with a 400 carrying the reason, and
/// nothing is sent.
pub proof fn lemma_enqueue_sends_decoded(
    decoded: Result<Json, String>,
    before: ControlClient,
    after: ControlClient,
    r: Result<PendingCall, ApiResponse>,
)
    requires
        enqueue_outcome(decoded, before, after, r),
    ensures
        r is Ok <==> decoded is Ok,
        r matches Ok(p) ==> p.method@ == "queue/enqueue"@ && call_params(p) == Some(decoded->Ok_0.view_json()),
        decoded matches Err(reason) ==> after == before && is_invalid_input(r->Err_0, reason@),
{
    reveal_strlit("queue/enqueue");
    if decoded is Ok {
        lemma_issued_frame(before, after, r->Ok_0, METHOD_QUEUE_ENQUEUE@, decoded->Ok_0.view_json());
    }
}

/// Reordering sends `queue/reorder` with the decoded request unchanged; a
/// body that does not decode is refused with a 400 carrying the reason, and
/// nothing is sent.
pub proof fn lemma_reorder_sends_decoded(
    decoded: Result<Json, String>,
    before: ControlClient,
    after: ControlClient,
    r: Result<PendingCall, ApiResponse>,
)
    requires
        reorder_outcome(decoded, before, after, r),
    ensures
        r is Ok <==> decoded is Ok,
        r matches Ok(p) ==> p.method@ == "queue/reorder"@ && call_params(p) == Some(decoded->Ok_0.view_json()),
        decoded matches Err(reason) ==> after == before && is_invalid_input(r->Err_0, reason@),
{
    reveal_strlit("queue/reorder");
    if decoded is Ok {
        lemma_issued_frame(before, after, r->Ok_0, METHOD_QUEUE_REORDER@, decoded->Ok_0.view_json());
    }
}

} // verus!
