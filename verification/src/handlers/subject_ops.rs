//! `/api/v1/subjects/*`: typed subject CRUD over the daemon's `subject/*`
//! verbs. `list` and `next` need a non-empty `kind` (the daemon routes on it);
//! statuses given as text must name a normalized status.

use vstd::prelude::*;

use crate::control_client::{
    ControlClient, PendingCall, issues, param, lemma_issued_frame, METHOD_SUBJECT_LIST, METHOD_SUBJECT_GET,
    METHOD_SUBJECT_CREATE, METHOD_SUBJECT_UPDATE, METHOD_SUBJECT_NEXT, METHOD_SUBJECT_STATUS,
};
use crate::handlers::{ApiResponse, Envelope, invalid_input, is_invalid_input, id_params, id_request, refused, sent};
use crate::json::{
    Json, JsonV, NumberV, opt_entry, opt_str, str_array, push_entry, push_opt_str, push_opt_u64,
    view_fields, lemma_view_fields_empty, field, lookup, lemma_lookup_push_other, lemma_lookup_opt_other,
    lemma_lookup_opt_hit, lemma_lookup_push_hit,
};
use crate::text::{str_eq, is_prefix_of};

verus! {

/// A subject's normalized status.
#[derive(Clone, Copy, PartialEq, Eq, Debug)]
pub enum SubjectStatus {
    Backlog,
    Ready,
    InProgress,
    Blocked,
    Done,
    Cancelled,
}

pub open spec fn status_name(s: SubjectStatus) -> Seq<char> {
    match s {
        SubjectStatus::Backlog => "backlog"@,
        SubjectStatus::Ready => "ready"@,
        SubjectStatus::InProgress => "in_progress"@,
        SubjectStatus::Blocked => "blocked"@,
        SubjectStatus::Done => "done"@,
        SubjectStatus::Cancelled => "cancelled"@,
    }
}

/// The status a text names, if any.
pub open spec fn status_named(t: Seq<char>) -> Option<SubjectStatus> {
    if t == "backlog"@ {
        Some(SubjectStatus::Backlog)
    } else if t == "ready"@ {
        Some(SubjectStatus::Ready)
    } else if t == "in_progress"@ {
        Some(SubjectStatus::InProgress)
    } else if t == "blocked"@ {
        Some(SubjectStatus::Blocked)
    } else if t == "done"@ {
        Some(SubjectStatus::Done)
    } else if t == "cancelled"@ {
        Some(SubjectStatus::Cancelled)
    } else {
        None
    }
}

pub open spec fn invalid_status_text(t: Seq<char>) -> Seq<char> {
    "invalid status `"@ + t + "`: unknown variant `"@ + t
        + "`, expected one of `backlog`, `ready`, `in_progress`, `blocked`, `done`, `cancelled`"@
}

pub const LIST_KIND_REQUIRED: &'static str = "subject list requires a `kind` query parameter (e.g. ?kind=task)";
pub const NEXT_KIND_REQUIRED: &'static str = "subject next requires a `kind` query parameter (e.g. ?kind=task)";
pub const CREATE_FIELDS_REQUIRED: &'static str = "subject create requires non-empty `kind` and `title`";

impl SubjectStatus {
    /// The status's wire name.
    pub fn name(&self) -> (r: &'static str)
        ensures
            r@ == status_name(*self),
    {
        match self {
            SubjectStatus::Backlog => "backlog",
            SubjectStatus::Ready => "ready",
            SubjectStatus::InProgress => "in_progress",
            SubjectStatus::Blocked => "blocked",
            SubjectStatus::Done => "done",
            SubjectStatus::Cancelled => "cancelled",
        }
    }
}

/// The six wire names, and nothing else, name a status, each its own: reading
/// a status's name gives that status back, and a text that reads as a status
/// is that status's name.
pub proof fn lemma_status_round_trip(s: SubjectStatus, t: Seq<char>)
    ensures
        status_named(status_name(s)) == Some(s),
        status_named(t) matches Some(u) ==> t == status_name(u),
        status_named(t) is Some <==> (t == "backlog"@ || t == "ready"@ || t == "in_progress"@
            || t == "blocked"@ || t == "done"@ || t == "cancelled"@),
{
    reveal_strlit("backlog");
    reveal_strlit("ready");
    reveal_strlit("in_progress");
    reveal_strlit("blocked");
    reveal_strlit("done");
    reveal_strlit("cancelled");
    assert("backlog"@[0] != "ready"@[0]);
    assert("backlog"@[0] != "in_progress"@[0]);
    assert("backlog"@[1] != "blocked"@[1]);
    assert("backlog"@[0] != "done"@[0]);
    assert("backlog"@[0] != "cancelled"@[0]);
    assert("ready"@[0] != "in_progress"@[0]);
    assert("ready"@[0] != "blocked"@[0]);
    assert("ready"@[0] != "done"@[0]);
    assert("ready"@[0] != "cancelled"@[0]);
    assert("in_progress"@[0] != "blocked"@[0]);
    assert("in_progress"@[0] != "done"@[0]);
    assert("in_progress"@[0] != "cancelled"@[0]);
    assert("blocked"@[0] != "done"@[0]);
    assert("blocked"@[0] != "cancelled"@[0]);
    assert("done"@[0] != "cancelled"@[0]);
}

/// Reads a status from its wire name.
pub fn parse_status(s: &str) -> (r: Result<SubjectStatus, String>)
    ensures
        match r {
            Ok(st) => status_named(s@) == Some(st) && s@ == status_name(st),
            Err(m) => status_named(s@) is None && m@ == invalid_status_text(s@),
        },
{
    proof {
        if status_named(s@) is Some {
            lemma_status_round_trip(status_named(s@)->Some_0, s@);
        }
    }
    if str_eq(s, "backlog") {
        Ok(SubjectStatus::Backlog)
    } else if str_eq(s, "ready") {
        Ok(SubjectStatus::Ready)
    } else if str_eq(s, "in_progress") {
        Ok(SubjectStatus::InProgress)
    } else if str_eq(s, "blocked") {
        Ok(SubjectStatus::Blocked)
    } else if str_eq(s, "done") {
        Ok(SubjectStatus::Done)
    } else if str_eq(s, "cancelled") {
        Ok(SubjectStatus::Cancelled)
    } else {
        let mut m = String::from_str("invalid status `");
        m.append(s);
        m.append("`: unknown variant `");
        m.append(s);
        m.append("`, expected one of `backlog`, `ready`, `in_progress`, `blocked`, `done`, `cancelled`");
        Err(m)
    }
}

/// The outcome of reading an optional status text.
pub open spec fn opt_status_ok(t: Option<String>) -> bool {
    match t {
        Some(s) => status_named(s@) is Some,
        None => true,
    }
}

pub open spec fn opt_status(t: Option<String>) -> Option<SubjectStatus> {
    match t {
        Some(s) => status_named(s@),
        None => None,
    }
}

pub open spec fn status_json(s: Option<SubjectStatus>) -> Option<JsonV> {
    match s {
        Some(st) => Some(JsonV::Str(status_name(st))),
        None => None,
    }
}

/// The text of a status that failed to read.
pub open spec fn opt_status_text(t: Option<String>) -> Seq<char> {
    match t {
        Some(s) => s@,
        None => Seq::empty(),
    }
}

/// Reads an optional status.
pub fn parse_opt_status(t: Option<String>) -> (r: Result<Option<SubjectStatus>, ApiResponse>)
    ensures
        match r {
            Ok(s) => opt_status_ok(t) && s == opt_status(t),
            Err(e) => !opt_status_ok(t) && is_invalid_input(e, invalid_status_text(opt_status_text(t))),
        },
{
    match t {
        Some(s) => match parse_status(s.as_str()) {
            Ok(st) => Ok(Some(st)),
            Err(m) => Err(invalid_input(m)),
        },
        None => Ok(None),
    }
}

/// A present, non-empty kind.
pub open spec fn nonempty_kind(kind: Option<String>) -> Option<Seq<char>> {
    match kind {
        Some(k) => if k@.len() > 0 { Some(k@) } else { None },
        None => None,
    }
}

/// Query of `GET /subjects`.
pub struct ListQuery {
    /// Restrict to a single subject kind (e.g. `task`).
    pub kind: Option<String>,
    /// Restrict to a single normalized status (e.g. `ready`).
    pub status: Option<String>,
    pub assignee: Option<String>,
    pub cursor: Option<String>,
    pub limit: Option<u32>,
}

/// Body of `POST /subjects`.
pub struct CreateBody {
    pub kind: String,
    pub title: String,
    pub body: Option<String>,
    pub status: Option<String>,
    pub priority: Option<u8>,
    pub labels: Vec<String>,
    pub assignee: Option<String>,
    pub custom: Vec<(String, Json)>,
}

/// Body of `POST /subjects/{id}`.
pub struct UpdateBody {
    pub status: Option<String>,
    /// Set, change, or clear the assignee: `Some(None)` clears it, `None`
    /// leaves it untouched.
    pub assignee: Option<Option<String>>,
    pub labels_add: Vec<String>,
    pub labels_remove: Vec<String>,
    pub comment: Option<String>,
    pub custom: Vec<(String, Json)>,
}

/// Query of `GET /subjects/next`.
pub struct NextQuery {
    pub kind: Option<String>,
}

/// Body of `POST /subjects/{id}/status`.
pub struct StatusBody {
    pub status: String,
}

pub open spec fn opt_seq(s: Option<JsonV>) -> Seq<JsonV> {
    match s {
        Some(v) => seq![v],
        None => Seq::empty(),
    }
}

pub open spec fn opt_u32(n: Option<u32>) -> Option<JsonV> {
    match n {
        Some(v) => Some(JsonV::Num(NumberV::PosInt(v as u64))),
        None => None,
    }
}

pub open spec fn opt_u8(n: Option<u8>) -> Option<JsonV> {
    match n {
        Some(v) => Some(JsonV::Num(NumberV::PosInt(v as u64))),
        None => None,
    }
}

/// The `subject/list` request: one kind, at most one status and assignee.
pub open spec fn list_params(kind: Seq<char>, status: Option<SubjectStatus>, q: ListQuery) -> JsonV {
    JsonV::Object(seq![("filter"@, JsonV::Object(
        seq![
            ("kind"@, JsonV::Array(seq![JsonV::Str(kind)])),
            ("status"@, JsonV::Array(opt_seq(status_json(status)))),
            ("assignee"@, JsonV::Array(opt_seq(opt_str(q.assignee)))),
        ] + opt_entry("cursor"@, opt_str(q.cursor)) + opt_entry("limit"@, opt_u32(q.limit)),
    ))])
}

/// The `subject/create` request.
pub open spec fn create_params(status: Option<SubjectStatus>, b: CreateBody) -> JsonV {
    JsonV::Object(
        seq![("kind"@, JsonV::Str(b.kind@)), ("title"@, JsonV::Str(b.title@))]
            + opt_entry("body"@, opt_str(b.body))
            + opt_entry("status"@, status_json(status))
            + opt_entry("priority"@, opt_u8(b.priority))
            + seq![("labels"@, str_array(b.labels@))]
            + opt_entry("assignee"@, opt_str(b.assignee))
            + seq![("custom"@, JsonV::Object(view_fields(b.custom@)))],
    )
}

/// The patch's assignee entry: absent leaves the assignee untouched, `null`
/// clears it, a string sets it.
pub open spec fn assignee_entry(a: Option<Option<String>>) -> Seq<(Seq<char>, JsonV)> {
    match a {
        None => Seq::empty(),
        Some(None) => seq![("assignee"@, JsonV::Null)],
        Some(Some(s)) => seq![("assignee"@, JsonV::Str(s@))],
    }
}

/// The `subject/update` request.
pub open spec fn update_params(id: Seq<char>, status: Option<SubjectStatus>, b: UpdateBody) -> JsonV {
    JsonV::Object(seq![
        ("id"@, JsonV::Str(id)),
        ("patch"@, JsonV::Object(
            opt_entry("status"@, status_json(status))
                + assignee_entry(b.assignee)
                + seq![
                    ("labels_add"@, str_array(b.labels_add@)),
                    ("labels_remove"@, str_array(b.labels_remove@)),
                ]
                + opt_entry("comment"@, opt_str(b.comment))
                + seq![("custom"@, JsonV::Object(view_fields(b.custom@)))],
        )),
    ])
}

/// The `subject/next` request.
pub open spec fn next_params(kind: Seq<char>) -> JsonV {
    JsonV::Object(seq![("kind"@, JsonV::Str(kind))])
}

/// The `subject/status` request.
pub open spec fn status_params(id: Seq<char>, status: SubjectStatus) -> JsonV {
    JsonV::Object(seq![("id"@, JsonV::Str(id)), ("status"@, JsonV::Str(status_name(status)))])
}

pub open spec fn list_outcome(q: ListQuery, before: ControlClient, after: ControlClient, r: Result<PendingCall, ApiResponse>) -> bool {
    match nonempty_kind(q.kind) {
        None => refused(before, after, r, LIST_KIND_REQUIRED@),
        Some(k) => if !opt_status_ok(q.status) {
            refused(before, after, r, invalid_status_text(opt_status_text(q.status)))
        } else {
            sent(before, after, r, METHOD_SUBJECT_LIST@, list_params(k, opt_status(q.status), q))
        },
    }
}

pub open spec fn create_outcome(body: CreateBody, before: ControlClient, after: ControlClient, r: Result<PendingCall, ApiResponse>) -> bool {
    if body.kind@.len() == 0 || body.title@.len() == 0 {
        refused(before, after, r, CREATE_FIELDS_REQUIRED@)
    } else if !opt_status_ok(body.status) {
        refused(before, after, r, invalid_status_text(opt_status_text(body.status)))
    } else {
        sent(before, after, r, METHOD_SUBJECT_CREATE@, create_params(opt_status(body.status), body))
    }
}

pub open spec fn update_outcome(id: Seq<char>, body: UpdateBody, before: ControlClient, after: ControlClient, r: Result<PendingCall, ApiResponse>) -> bool {
    if !opt_status_ok(body.status) {
        refused(before, after, r, invalid_status_text(opt_status_text(body.status)))
    } else {
        sent(before, after, r, METHOD_SUBJECT_UPDATE@, update_params(id, opt_status(body.status), body))
    }
}

pub open spec fn next_outcome(q: NextQuery, before: ControlClient, after: ControlClient, r: Result<PendingCall, ApiResponse>) -> bool {
    match nonempty_kind(q.kind) {
        None => refused(before, after, r, NEXT_KIND_REQUIRED@),
        Some(k) => sent(before, after, r, METHOD_SUBJECT_NEXT@, next_params(k)),
    }
}

pub open spec fn status_outcome(id: Seq<char>, body: StatusBody, before: ControlClient, after: ControlClient, r: Result<PendingCall, ApiResponse>) -> bool {
    match status_named(body.status@) {
        None => refused(before, after, r, invalid_status_text(body.status@)),
        Some(st) => sent(before, after, r, METHOD_SUBJECT_STATUS@, status_params(id, st)),
    }
}

/// The non-empty kind a query names.
pub fn kind_of(kind: Option<String>) -> (r: Option<String>)
    ensures
        match r {
            Some(k) => nonempty_kind(kind) == Some(k@),
            None => nonempty_kind(kind) is None,
        },
{
    match kind {
        Some(k) => if k.as_str().unicode_len() > 0 { Some(k) } else { None },
        None => None,
    }
}

fn status_entry_json(status: Option<SubjectStatus>) -> (r: Option<String>)
    ensures
        opt_str(r) == status_json(status),
{
    match status {
        Some(st) => Some(String::from_str(st.name())),
        None => None,
    }
}

fn opt_array(s: Option<String>) -> (r: Json)
    ensures
        r.view_json() == JsonV::Array(opt_seq(opt_str(s))),
{
    let mut items: Vec<Json> = Vec::new();
    match s {
        Some(t) => {
            let ghost tv = t@;
            items.push(Json::Str(t));
            assert(crate::json::view_items(items@) =~= seq![JsonV::Str(tv)]);
        },
        None => {
            assert(crate::json::view_items(items@) =~= Seq::<JsonV>::empty());
        },
    }
    Json::Array(items)
}

/// `GET /subjects`: needs a non-empty kind and, when given, a known status.
pub fn list(client: &mut ControlClient, q: ListQuery) -> (r: Result<PendingCall, ApiResponse>)
    ensures
        list_outcome(q, *old(client), *final(client), r),
{
    let ghost gq = q;
    let kind = match kind_of(q.kind) {
        Some(k) => k,
        None => return Err(invalid_input(String::from_str(LIST_KIND_REQUIRED))),
    };
    let status = match parse_opt_status(q.status) {
        Ok(s) => s,
        Err(e) => return Err(e),
    };
    let mut kinds: Vec<Json> = Vec::new();
    let ghost kv = kind@;
    kinds.push(Json::Str(kind));
    assert(crate::json::view_items(kinds@) =~= seq![JsonV::Str(kv)]);
    let mut filter: Vec<(String, Json)> = Vec::new();
    proof {
        lemma_view_fields_empty();
    }
    push_entry(&mut filter, "kind", Json::Array(kinds));
    push_entry(&mut filter, "status", opt_array(status_entry_json(status)));
    push_entry(&mut filter, "assignee", opt_array(q.assignee));
    push_opt_str(&mut filter, "cursor", q.cursor);
    let limit = match q.limit {
        Some(v) => Some(v as u64),
        None => None,
    };
    push_opt_u64(&mut filter, "limit", limit);
    assert(view_fields(filter@) =~= seq![
        ("kind"@, JsonV::Array(seq![JsonV::Str(kv)])),
        ("status"@, JsonV::Array(opt_seq(status_json(status)))),
        ("assignee"@, JsonV::Array(opt_seq(opt_str(gq.assignee)))),
    ] + opt_entry("cursor"@, opt_str(gq.cursor)) + opt_entry("limit"@, opt_u32(gq.limit)));
    let mut fields: Vec<(String, Json)> = Vec::new();
    push_entry(&mut fields, "filter", Json::Object(filter));
    assert(view_fields(fields@) =~= match list_params(kv, status, gq) {
        JsonV::Object(f) => f,
        _ => Seq::empty(),
    });
    Ok(client.subject_list(Json::Object(fields)))
}

/// `GET /subjects/{id}`.
pub fn get(client: &mut ControlClient, id: String) -> (p: PendingCall)
    ensures
        issues(*old(client), *final(client), p, METHOD_SUBJECT_GET@, id_params(id@)),
{
    client.subject_get(id_request(id))
}

/// `POST /subjects`: needs a non-empty kind and title and, when given, a known status.
pub fn create(client: &mut ControlClient, body: CreateBody) -> (r: Result<PendingCall, ApiResponse>)
    ensures
        create_outcome(body, *old(client), *final(client), r),
{
    let ghost gb = body;
    if body.kind.as_str().unicode_len() == 0 || body.title.as_str().unicode_len() == 0 {
        return Err(invalid_input(String::from_str(CREATE_FIELDS_REQUIRED)));
    }
    let status = match parse_opt_status(body.status) {
        Ok(s) => s,
        Err(e) => return Err(e),
    };
    let mut fields: Vec<(String, Json)> = Vec::new();
    proof {
        lemma_view_fields_empty();
    }
    push_entry(&mut fields, "kind", Json::Str(body.kind));
    push_entry(&mut fields, "title", Json::Str(body.title));
    push_opt_str(&mut fields, "body", body.body);
    push_opt_str(&mut fields, "status", status_entry_json(status));
    let priority = match body.priority {
        Some(v) => Some(v as u64),
        None => None,
    };
    push_opt_u64(&mut fields, "priority", priority);
    push_entry(&mut fields, "labels", Json::string_array(&body.labels));
    push_opt_str(&mut fields, "assignee", body.assignee);
    push_entry(&mut fields, "custom", Json::Object(body.custom));
    assert(view_fields(fields@) =~= match create_params(status, gb) {
        JsonV::Object(f) => f,
        _ => Seq::empty(),
    });
    Ok(client.subject_create(Json::Object(fields)))
}

/// `POST /subjects/{id}`: needs, when given, a known status.
pub fn update(client: &mut ControlClient, id: String, body: UpdateBody) -> (r: Result<PendingCall, ApiResponse>)
    ensures
        update_outcome(id@, body, *old(client), *final(client), r),
{
    let ghost gb = body;
    let status = match parse_opt_status(body.status) {
        Ok(s) => s,
        Err(e) => return Err(e),
    };
    let mut patch: Vec<(String, Json)> = Vec::new();
    proof {
        lemma_view_fields_empty();
    }
    push_opt_str(&mut patch, "status", status_entry_json(status));
    match body.assignee {
        Some(Some(a)) => push_entry(&mut patch, "assignee", Json::Str(a)),
        Some(None) => push_entry(&mut patch, "assignee", Json::Null),
        None => {},
    }
    push_entry(&mut patch, "labels_add", Json::string_array(&body.labels_add));
    push_entry(&mut patch, "labels_remove", Json::string_array(&body.labels_remove));
    push_opt_str(&mut patch, "comment", body.comment);
    push_entry(&mut patch, "custom", Json::Object(body.custom));
    let ghost pv = view_fields(patch@);
    let mut fields: Vec<(String, Json)> = Vec::new();
    push_entry(&mut fields, "id", Json::Str(id));
    push_entry(&mut fields, "patch", Json::Object(patch));
    assert(pv =~= match update_params(id@, status, gb) {
        JsonV::Object(f) => match f[1].1 {
            JsonV::Object(g) => g,
            _ => Seq::empty(),
        },
        _ => Seq::empty(),
    });
    assert(view_fields(fields@) =~= match update_params(id@, status, gb) {
        JsonV::Object(f) => f,
        _ => Seq::empty(),
    });
    Ok(client.subject_update(Json::Object(fields)))
}

/// `GET /subjects/next`: needs a non-empty kind.
pub fn next(client: &mut ControlClient, q: NextQuery) -> (r: Result<PendingCall, ApiResponse>)
    ensures
        next_outcome(q, *old(client), *final(client), r),
{
    let kind = match kind_of(q.kind) {
        Some(k) => k,
        None => return Err(invalid_input(String::from_str(NEXT_KIND_REQUIRED))),
    };
    let ghost kv = kind@;
    let mut fields: Vec<(String, Json)> = Vec::new();
    proof {
        lemma_view_fields_empty();
    }
    push_entry(&mut fields, "kind", Json::Str(kind));
    assert(view_fields(fields@) =~= seq![("kind"@, JsonV::Str(kv))]);
    Ok(client.subject_next(Json::Object(fields)))
}

/// `POST /subjects/{id}/status`: needs a known status.
pub fn status(client: &mut ControlClient, id: String, body: StatusBody) -> (r: Result<PendingCall, ApiResponse>)
    ensures
        status_outcome(id@, body, *old(client), *final(client), r),
{
    let st = match parse_status(body.status.as_str()) {
        Ok(s) => s,
        Err(m) => return Err(invalid_input(m)),
    };
    let mut fields: Vec<(String, Json)> = Vec::new();
    proof {
        lemma_view_fields_empty();
    }
    push_entry(&mut fields, "id", Json::Str(id));
    push_entry(&mut fields, "status", Json::Str(String::from_str(st.name())));
    assert(view_fields(fields@) =~= seq![("id"@, JsonV::Str(id@)), ("status"@, JsonV::Str(status_name(st)))]);
    Ok(client.subject_status(Json::Object(fields)))
}

/// The value is a JSON array of exactly these strings, in order.
pub open spec fn lists_strings(v: Option<JsonV>, items: Seq<String>) -> bool {
    &&& v matches Some(JsonV::Array(a))
    &&& a.len() == items.len()
    &&& forall|i: int| 0 <= i < items.len() ==> a[i] == JsonV::Str(items[i]@)
}

/// One of the six wire names of a status.
pub open spec fn status_word(t: Seq<char>) -> bool {
    t == "backlog"@ || t == "ready"@ || t == "in_progress"@ || t == "blocked"@ || t == "done"@ || t == "cancelled"@
}

/// The member `key` of the patch a request sent, if it sent one.
pub open spec fn patch_member(r: Result<PendingCall, ApiResponse>, key: Seq<char>) -> Option<JsonV> {
    nested_param(r, "patch"@, key)
}

/// The member `key` of the params member `outer` of the call a request sent.
pub open spec fn nested_param(r: Result<PendingCall, ApiResponse>, outer: Seq<char>, key: Seq<char>) -> Option<JsonV> {
    match r {
        Ok(p) => match param(p, outer) {
            Some(patch) => field(patch, key),
            None => None,
        },
        Err(_) => None,
    }
}

/// What a patch entry reads for the part before the labels: the status entry
/// then the assignee entry.
proof fn lemma_patch_front(sj: Option<JsonV>, a: Option<Option<String>>, key: Seq<char>)
    requires
        key != "status"@,
        key != "assignee"@,
    ensures
        lookup(opt_entry("status"@, sj) + assignee_entry(a), key) is None,
{
    let s0 = Seq::<(Seq<char>, JsonV)>::empty() + opt_entry("status"@, sj);
    assert(opt_entry("status"@, sj) =~= s0);
    lemma_lookup_opt_other(Seq::empty(), "status"@, sj, key);
    match a {
        None => {
            assert(s0 + assignee_entry(a) =~= s0);
        },
        Some(None) => {
            assert(s0 + assignee_entry(a) =~= s0.push(("assignee"@, JsonV::Null)));
            lemma_lookup_push_other(s0, "assignee"@, JsonV::Null, key);
        },
        Some(Some(x)) => {
            assert(s0 + assignee_entry(a) =~= s0.push(("assignee"@, JsonV::Str(x@))));
            lemma_lookup_push_other(s0, "assignee"@, JsonV::Str(x@), key);
        },
    }
}

/// Updating a subject sends `subject/update` for the path's id, with a patch
/// that carries the body's fields as given: the status text, the assignee to
/// set (`null` to clear it, nothing to leave it), the labels to add under
/// `labels_add` and those to remove under `labels_remove`, the comment, and
/// the custom fields.
pub proof fn lemma_update_patch_carries_body(
    id: String,
    body: UpdateBody,
    before: ControlClient,
    after: ControlClient,
    r: Result<PendingCall, ApiResponse>,
)
    requires
        update_outcome(id@, body, before, after, r),
        opt_status_ok(body.status),
    ensures
        r matches Ok(p) && p.method@ == "subject/update"@ && param(p, "id"@) == Some(JsonV::Str(id@)),
        lists_strings(patch_member(r, "labels_add"@), body.labels_add@),
        lists_strings(patch_member(r, "labels_remove"@), body.labels_remove@),
        patch_member(r, "status"@) == (match body.status {
            Some(t) => Some(JsonV::Str(t@)),
            None => None,
        }),
        patch_member(r, "assignee"@) == (match body.assignee {
            None => None,
            Some(None) => Some(JsonV::Null),
            Some(Some(a)) => Some(JsonV::Str(a@)),
        }),
        patch_member(r, "comment"@) == (match body.comment {
            Some(c) => Some(JsonV::Str(c@)),
            None => None,
        }),
        patch_member(r, "custom"@) == Some(JsonV::Object(view_fields(body.custom@))),
{
    reveal_strlit("id");
    reveal_strlit("patch");
    reveal_strlit("status");
    reveal_strlit("assignee");
    reveal_strlit("labels_add");
    reveal_strlit("labels_remove");
    reveal_strlit("comment");
    reveal_strlit("custom");
    reveal_strlit("subject/update");
    let p = r->Ok_0;
    let st = opt_status(body.status);
    let sj = status_json(st);
    lemma_issued_frame(before, after, p, METHOD_SUBJECT_UPDATE@, update_params(id@, st, body));
    let front = opt_entry("status"@, sj) + assignee_entry(body.assignee);
    let la = ("labels_add"@, str_array(body.labels_add@));
    let lr = ("labels_remove"@, str_array(body.labels_remove@));
    let cm = opt_entry("comment"@, opt_str(body.comment));
    let cu = ("custom"@, JsonV::Object(view_fields(body.custom@)));
    let y = front.push(la).push(lr);
    let z = y + cm;
    let patch = z.push(cu);
    assert(opt_entry("status"@, sj) + assignee_entry(body.assignee) + seq![la, lr] + cm + seq![cu] =~= patch);
    let top = seq![("id"@, JsonV::Str(id@)), ("patch"@, JsonV::Object(patch))];
    assert(top.drop_last() =~= seq![("id"@, JsonV::Str(id@))]);
    assert("patch"@.len() != "id"@.len());
    assert(param(p, "patch"@) == Some(JsonV::Object(patch)));
    assert(lookup(seq![("id"@, JsonV::Str(id@))], "id"@) == Some(JsonV::Str(id@)));
    assert(param(p, "id"@) == Some(JsonV::Str(id@)));
    // custom
    assert(lookup(patch, "custom"@) == Some(cu.1));
    // comment
    assert("custom"@.len() != "comment"@.len());
    lemma_lookup_push_other(z, "custom"@, cu.1, "comment"@);
    lemma_lookup_opt_hit(y, "comment"@, opt_str(body.comment));
    assert("labels_remove"@.len() != "comment"@.len());
    assert("labels_add"@.len() != "comment"@.len());
    assert("assignee"@.len() != "comment"@.len());
    assert("status"@.len() != "comment"@.len());
    lemma_lookup_push_other(front.push(la), "labels_remove"@, lr.1, "comment"@);
    lemma_lookup_push_other(front, "labels_add"@, la.1, "comment"@);
    lemma_patch_front(sj, body.assignee, "comment"@);
    // labels
    assert("custom"@.len() != "labels_add"@.len());
    assert("custom"@.len() != "labels_remove"@.len());
    assert("labels_add"@.len() != "labels_remove"@.len());
    lemma_lookup_push_other(z, "custom"@, cu.1, "labels_add"@);
    lemma_lookup_push_other(z, "custom"@, cu.1, "labels_remove"@);
    lemma_lookup_opt_other(y, "comment"@, opt_str(body.comment), "labels_add"@);
    lemma_lookup_opt_other(y, "comment"@, opt_str(body.comment), "labels_remove"@);
    lemma_lookup_push_other(front.push(la), "labels_remove"@, lr.1, "labels_add"@);
    assert(y.last() == lr);
    assert(front.push(la).last() == la);
    // assignee and status
    assert("custom"@[1] != "assignee"@[1]);
    assert("custom"@[0] != "status"@[0]);
    assert("labels_add"@.len() != "status"@.len());
    assert("labels_remove"@.len() != "status"@.len());
    assert("labels_add"@.len() != "assignee"@.len());
    assert("labels_remove"@.len() != "assignee"@.len());
    assert("assignee"@.len() != "status"@.len());
    lemma_lookup_push_other(z, "custom"@, cu.1, "assignee"@);
    lemma_lookup_push_other(z, "custom"@, cu.1, "status"@);
    lemma_lookup_opt_other(y, "comment"@, opt_str(body.comment), "assignee"@);
    lemma_lookup_opt_other(y, "comment"@, opt_str(body.comment), "status"@);
    lemma_lookup_push_other(front.push(la), "labels_remove"@, lr.1, "assignee"@);
    lemma_lookup_push_other(front.push(la), "labels_remove"@, lr.1, "status"@);
    lemma_lookup_push_other(front, "labels_add"@, la.1, "assignee"@);
    lemma_lookup_push_other(front, "labels_add"@, la.1, "status"@);
    let s0 = Seq::<(Seq<char>, JsonV)>::empty() + opt_entry("status"@, sj);
    assert(opt_entry("status"@, sj) =~= s0);
    lemma_lookup_opt_hit(Seq::empty(), "status"@, sj);
    match body.assignee {
        None => {
            assert(front =~= s0);
        },
        Some(None) => {
            assert(front =~= s0.push(("assignee"@, JsonV::Null)));
            lemma_lookup_push_other(s0, "assignee"@, JsonV::Null, "status"@);
            lemma_lookup_opt_other(Seq::empty(), "status"@, sj, "assignee"@);
        },
        Some(Some(x)) => {
            assert(front =~= s0.push(("assignee"@, JsonV::Str(x@))));
            lemma_lookup_push_other(s0, "assignee"@, JsonV::Str(x@), "status"@);
        },
    }
    match body.status {
        Some(t) => {
            lemma_status_round_trip(st->Some_0, t@);
        },
        None => {},
    }
    lemma_lookup_opt_other(Seq::empty(), "status"@, sj, "assignee"@);
}

/// Setting a status sends `subject/status` exactly when the body names one of
/// the six statuses, and then sends the path's id and the very name given;
/// any other text is refused with a 400 and nothing is sent.
pub proof fn lemma_status_sends_given_name(
    id: String,
    body: StatusBody,
    before: ControlClient,
    after: ControlClient,
    r: Result<PendingCall, ApiResponse>,
)
    requires
        status_outcome(id@, body, before, after, r),
    ensures
        r is Ok <==> status_word(body.status@),
        r matches Ok(p) ==> p.method@ == "subject/status"@ && param(p, "id"@) == Some(JsonV::Str(id@))
            && param(p, "status"@) == Some(JsonV::Str(body.status@)),
        r matches Err(e) ==> after == before && e.status == 400,
{
    reveal_strlit("id");
    reveal_strlit("status");
    reveal_strlit("subject/status");
    lemma_status_round_trip(SubjectStatus::Done, body.status@);
    if r is Ok {
        let p = r->Ok_0;
        let st = status_named(body.status@)->Some_0;
        lemma_issued_frame(before, after, p, METHOD_SUBJECT_STATUS@, status_params(id@, st));
        let f = seq![("id"@, JsonV::Str(id@)), ("status"@, JsonV::Str(status_name(st)))];
        assert(f.drop_last() =~= seq![("id"@, JsonV::Str(id@))]);
        assert("status"@.len() != "id"@.len());
        assert(lookup(seq![("id"@, JsonV::Str(id@))], "id"@) == Some(JsonV::Str(id@)));
    }
}


/// Listing subjects is refused with a 400, sending nothing, unless the query
/// names a non-empty kind and, if it names a status, one of the six; then it
/// sends `subject/list` with a filter of that one kind, the status text given
/// (or none), the assignee given (or none), and the cursor and limit when
/// present.
pub proof fn lemma_list_sends_filter(
    q: ListQuery,
    before: ControlClient,
    after: ControlClient,
    r: Result<PendingCall, ApiResponse>,
)
    requires
        list_outcome(q, before, after, r),
    ensures
        r is Ok <==> (q.kind matches Some(k) && k@.len() > 0 && (q.status matches Some(t) ==> status_word(t@))),
        r matches Err(e) ==> after == before && e.status == 400,
        r matches Ok(p) ==> p.method@ == "subject/list"@,
        r is Ok ==> nested_param(r, "filter"@, "kind"@) == Some(JsonV::Array(seq![JsonV::Str(q.kind->Some_0@)])),
        r is Ok ==> nested_param(r, "filter"@, "status"@) == Some(JsonV::Array(match q.status {
            Some(t) => seq![JsonV::Str(t@)],
            None => Seq::empty(),
        })),
        r is Ok ==> nested_param(r, "filter"@, "assignee"@) == Some(JsonV::Array(match q.assignee {
            Some(a) => seq![JsonV::Str(a@)],
            None => Seq::empty(),
        })),
        r is Ok ==> nested_param(r, "filter"@, "cursor"@) == (match q.cursor { Some(t) => Some(JsonV::Str(t@)), None => None }),
        r is Ok ==> nested_param(r, "filter"@, "limit"@) == (match q.limit { Some(n) => Some(JsonV::Num(NumberV::PosInt(n as u64))), None => None }),
{
    reveal_strlit("filter");
    reveal_strlit("subject/list");
    if q.status is Some {
        lemma_status_round_trip(SubjectStatus::Done, q.status->Some_0@);
    }
    if r is Ok {
        let p = r->Ok_0;
        let k = q.kind->Some_0@;
        let st = opt_status(q.status);
        lemma_issued_frame(before, after, p, METHOD_SUBJECT_LIST@, list_params(k, st, q));
        reveal_strlit("kind");
        reveal_strlit("status");
        reveal_strlit("assignee");
        reveal_strlit("cursor");
        reveal_strlit("limit");
        assert("kind"@.len() != "status"@.len());
        assert("kind"@.len() != "assignee"@.len());
        assert("kind"@.len() != "cursor"@.len());
        assert("kind"@.len() != "limit"@.len());
        assert("status"@.len() != "assignee"@.len());
        assert("status"@[0] != "cursor"@[0]);
        assert("status"@.len() != "limit"@.len());
        assert("assignee"@.len() != "cursor"@.len());
        assert("assignee"@.len() != "limit"@.len());
        assert("cursor"@.len() != "limit"@.len());
        let e0 = Seq::<(Seq<char>, JsonV)>::empty();
        let e1 = e0.push(("kind"@, JsonV::Array(seq![JsonV::Str(k)])));
        let e2 = e1.push(("status"@, JsonV::Array(opt_seq(status_json(st)))));
        let e3 = e2.push(("assignee"@, JsonV::Array(opt_seq(opt_str(q.assignee)))));
        let e4 = e3 + opt_entry("cursor"@, opt_str(q.cursor));
        let e5 = e4 + opt_entry("limit"@, opt_u32(q.limit));
        lemma_lookup_push_hit(e0, "kind"@, JsonV::Array(seq![JsonV::Str(k)]));
        lemma_lookup_push_other(e1, "status"@, JsonV::Array(opt_seq(status_json(st))), "kind"@);
        lemma_lookup_push_other(e2, "assignee"@, JsonV::Array(opt_seq(opt_str(q.assignee))), "kind"@);
        lemma_lookup_opt_other(e3, "cursor"@, opt_str(q.cursor), "kind"@);
        lemma_lookup_opt_other(e4, "limit"@, opt_u32(q.limit), "kind"@);
        lemma_lookup_push_hit(e1, "status"@, JsonV::Array(opt_seq(status_json(st))));
        lemma_lookup_push_other(e0, "kind"@, JsonV::Array(seq![JsonV::Str(k)]), "status"@);
        lemma_lookup_push_other(e2, "assignee"@, JsonV::Array(opt_seq(opt_str(q.assignee))), "status"@);
        lemma_lookup_opt_other(e3, "cursor"@, opt_str(q.cursor), "status"@);
        lemma_lookup_opt_other(e4, "limit"@, opt_u32(q.limit), "status"@);
        lemma_lookup_push_hit(e2, "assignee"@, JsonV::Array(opt_seq(opt_str(q.assignee))));
        lemma_lookup_push_other(e0, "kind"@, JsonV::Array(seq![JsonV::Str(k)]), "assignee"@);
        lemma_lookup_push_other(e1, "status"@, JsonV::Array(opt_seq(status_json(st))), "assignee"@);
        lemma_lookup_opt_other(e3, "cursor"@, opt_str(q.cursor), "assignee"@);
        lemma_lookup_opt_other(e4, "limit"@, opt_u32(q.limit), "assignee"@);
        lemma_lookup_opt_hit(e3, "cursor"@, opt_str(q.cursor));
        lemma_lookup_push_other(e0, "kind"@, JsonV::Array(seq![JsonV::Str(k)]), "cursor"@);
        lemma_lookup_push_other(e1, "status"@, JsonV::Array(opt_seq(status_json(st))), "cursor"@);
        lemma_lookup_push_other(e2, "assignee"@, JsonV::Array(opt_seq(opt_str(q.assignee))), "cursor"@);
        lemma_lookup_opt_other(e4, "limit"@, opt_u32(q.limit), "cursor"@);
        lemma_lookup_opt_hit(e4, "limit"@, opt_u32(q.limit));
        lemma_lookup_push_other(e0, "kind"@, JsonV::Array(seq![JsonV::Str(k)]), "limit"@);
        lemma_lookup_push_other(e1, "status"@, JsonV::Array(opt_seq(status_json(st))), "limit"@);
        lemma_lookup_push_other(e2, "assignee"@, JsonV::Array(opt_seq(opt_str(q.assignee))), "limit"@);
        lemma_lookup_opt_other(e3, "cursor"@, opt_str(q.cursor), "limit"@);
        assert(e5 =~= seq![
            ("kind"@, JsonV::Array(seq![JsonV::Str(k)])),
            ("status"@, JsonV::Array(opt_seq(status_json(st)))),
            ("assignee"@, JsonV::Array(opt_seq(opt_str(q.assignee)))),
        ] + opt_entry("cursor"@, opt_str(q.cursor)) + opt_entry("limit"@, opt_u32(q.limit)));
        lemma_lookup_push_hit(Seq::empty(), "filter"@, JsonV::Object(e5));
        assert(seq![("filter"@, JsonV::Object(e5))] =~= Seq::<(Seq<char>, JsonV)>::empty().push(("filter"@, JsonV::Object(e5))));
        match q.status {
            Some(t) => {
                assert(opt_seq(status_json(st)) =~= seq![JsonV::Str(t@)]);
            },
            None => {
                assert(opt_seq(status_json(st)) =~= Seq::<JsonV>::empty());
            },
        }
        assert(opt_seq(opt_str(q.assignee)) =~= match q.assignee {
            Some(a) => seq![JsonV::Str(a@)],
            None => Seq::empty(),
        });
    }
}


/// Creating a subject is refused with a 400, sending nothing, unless the kind
/// and the title are non-empty and a status, if given, is one of the six;
/// then it sends `subject/create` with the body's kind, title, text, status
/// text, priority, labels, assignee and custom fields as given.
pub proof fn lemma_create_sends_body(
    body: CreateBody,
    before: ControlClient,
    after: ControlClient,
    r: Result<PendingCall, ApiResponse>,
)
    requires
        create_outcome(body, before, after, r),
    ensures
        r is Ok <==> (body.kind@.len() > 0 && body.title@.len() > 0
            && (body.status matches Some(t) ==> status_word(t@))),
        r matches Err(e) ==> after == before && e.status == 400,
        r matches Ok(p) ==> p.method@ == "subject/create"@
            && param(p, "kind"@) == Some(JsonV::Str(body.kind@))
            && param(p, "title"@) == Some(JsonV::Str(body.title@))
            && param(p, "body"@) == (match body.body { Some(t) => Some(JsonV::Str(t@)), None => None })
            && param(p, "status"@) == (match body.status { Some(t) => Some(JsonV::Str(t@)), None => None })
            && param(p, "priority"@) == (match body.priority { Some(n) => Some(JsonV::Num(NumberV::PosInt(n as u64))), None => None })
            && lists_strings(param(p, "labels"@), body.labels@)
            && param(p, "assignee"@) == (match body.assignee { Some(t) => Some(JsonV::Str(t@)), None => None })
            && param(p, "custom"@) == Some(JsonV::Object(view_fields(body.custom@))),
{
    reveal_strlit("subject/create");
    if body.status is Some {
        lemma_status_round_trip(SubjectStatus::Done, body.status->Some_0@);
    }
    if r is Ok {
        let p = r->Ok_0;
        let st = opt_status(body.status);
        lemma_issued_frame(before, after, p, METHOD_SUBJECT_CREATE@, create_params(st, body));
        reveal_strlit("kind");
        reveal_strlit("title");
        reveal_strlit("body");
        reveal_strlit("status");
        reveal_strlit("priority");
        reveal_strlit("labels");
        reveal_strlit("assignee");
        reveal_strlit("custom");
        assert("kind"@.len() != "title"@.len());
        assert("kind"@[0] != "body"@[0]);
        assert("kind"@.len() != "status"@.len());
        assert("kind"@.len() != "priority"@.len());
        assert("kind"@.len() != "labels"@.len());
        assert("kind"@.len() != "assignee"@.len());
        assert("kind"@.len() != "custom"@.len());
        assert("title"@.len() != "body"@.len());
        assert("title"@.len() != "status"@.len());
        assert("title"@.len() != "priority"@.len());
        assert("title"@.len() != "labels"@.len());
        assert("title"@.len() != "assignee"@.len());
        assert("title"@.len() != "custom"@.len());
        assert("body"@.len() != "status"@.len());
        assert("body"@.len() != "priority"@.len());
        assert("body"@.len() != "labels"@.len());
        assert("body"@.len() != "assignee"@.len());
        assert("body"@.len() != "custom"@.len());
        assert("status"@.len() != "priority"@.len());
        assert("status"@[0] != "labels"@[0]);
        assert("status"@.len() != "assignee"@.len());
        assert("status"@[0] != "custom"@[0]);
        assert("priority"@.len() != "labels"@.len());
        assert("priority"@[0] != "assignee"@[0]);
        assert("priority"@.len() != "custom"@.len());
        assert("labels"@.len() != "assignee"@.len());
        assert("labels"@[0] != "custom"@[0]);
        assert("assignee"@.len() != "custom"@.len());
        let e0 = Seq::<(Seq<char>, JsonV)>::empty();
        let e1 = e0.push(("kind"@, JsonV::Str(body.kind@)));
        let e2 = e1.push(("title"@, JsonV::Str(body.title@)));
        let e3 = e2 + opt_entry("body"@, opt_str(body.body));
        let e4 = e3 + opt_entry("status"@, status_json(st));
        let e5 = e4 + opt_entry("priority"@, opt_u8(body.priority));
        let e6 = e5.push(("labels"@, str_array(body.labels@)));
        let e7 = e6 + opt_entry("assignee"@, opt_str(body.assignee));
        let e8 = e7.push(("custom"@, JsonV::Object(view_fields(body.custom@))));
        lemma_lookup_push_hit(e0, "kind"@, JsonV::Str(body.kind@));
        lemma_lookup_push_other(e1, "title"@, JsonV::Str(body.title@), "kind"@);
        lemma_lookup_opt_other(e2, "body"@, opt_str(body.body), "kind"@);
        lemma_lookup_opt_other(e3, "status"@, status_json(st), "kind"@);
        lemma_lookup_opt_other(e4, "priority"@, opt_u8(body.priority), "kind"@);
        lemma_lookup_push_other(e5, "labels"@, str_array(body.labels@), "kind"@);
        lemma_lookup_opt_other(e6, "assignee"@, opt_str(body.assignee), "kind"@);
        lemma_lookup_push_other(e7, "custom"@, JsonV::Object(view_fields(body.custom@)), "kind"@);
        lemma_lookup_push_hit(e1, "title"@, JsonV::Str(body.title@));
        lemma_lookup_push_other(e0, "kind"@, JsonV::Str(body.kind@), "title"@);
        lemma_lookup_opt_other(e2, "body"@, opt_str(body.body), "title"@);
        lemma_lookup_opt_other(e3, "status"@, status_json(st), "title"@);
        lemma_lookup_opt_other(e4, "priority"@, opt_u8(body.priority), "title"@);
        lemma_lookup_push_other(e5, "labels"@, str_array(body.labels@), "title"@);
        lemma_lookup_opt_other(e6, "assignee"@, opt_str(body.assignee), "title"@);
        lemma_lookup_push_other(e7, "custom"@, JsonV::Object(view_fields(body.custom@)), "title"@);
        lemma_lookup_opt_hit(e2, "body"@, opt_str(body.body));
        lemma_lookup_push_other(e0, "kind"@, JsonV::Str(body.kind@), "body"@);
        lemma_lookup_push_other(e1, "title"@, JsonV::Str(body.title@), "body"@);
        lemma_lookup_opt_other(e3, "status"@, status_json(st), "body"@);
        lemma_lookup_opt_other(e4, "priority"@, opt_u8(body.priority), "body"@);
        lemma_lookup_push_other(e5, "labels"@, str_array(body.labels@), "body"@);
        lemma_lookup_opt_other(e6, "assignee"@, opt_str(body.assignee), "body"@);
        lemma_lookup_push_other(e7, "custom"@, JsonV::Object(view_fields(body.custom@)), "body"@);
        lemma_lookup_opt_hit(e3, "status"@, status_json(st));
        lemma_lookup_push_other(e0, "kind"@, JsonV::Str(body.kind@), "status"@);
        lemma_lookup_push_other(e1, "title"@, JsonV::Str(body.title@), "status"@);
        lemma_lookup_opt_other(e2, "body"@, opt_str(body.body), "status"@);
        lemma_lookup_opt_other(e4, "priority"@, opt_u8(body.priority), "status"@);
        lemma_lookup_push_other(e5, "labels"@, str_array(body.labels@), "status"@);
        lemma_lookup_opt_other(e6, "assignee"@, opt_str(body.assignee), "status"@);
        lemma_lookup_push_other(e7, "custom"@, JsonV::Object(view_fields(body.custom@)), "status"@);
        lemma_lookup_opt_hit(e4, "priority"@, opt_u8(body.priority));
        lemma_lookup_push_other(e0, "kind"@, JsonV::Str(body.kind@), "priority"@);
        lemma_lookup_push_other(e1, "title"@, JsonV::Str(body.title@), "priority"@);
        lemma_lookup_opt_other(e2, "body"@, opt_str(body.body), "priority"@);
        lemma_lookup_opt_other(e3, "status"@, status_json(st), "priority"@);
        lemma_lookup_push_other(e5, "labels"@, str_array(body.labels@), "priority"@);
        lemma_lookup_opt_other(e6, "assignee"@, opt_str(body.assignee), "priority"@);
        lemma_lookup_push_other(e7, "custom"@, JsonV::Object(view_fields(body.custom@)), "priority"@);
        lemma_lookup_push_hit(e5, "labels"@, str_array(body.labels@));
        lemma_lookup_push_other(e0, "kind"@, JsonV::Str(body.kind@), "labels"@);
        lemma_lookup_push_other(e1, "title"@, JsonV::Str(body.title@), "labels"@);
        lemma_lookup_opt_other(e2, "body"@, opt_str(body.body), "labels"@);
        lemma_lookup_opt_other(e3, "status"@, status_json(st), "labels"@);
        lemma_lookup_opt_other(e4, "priority"@, opt_u8(body.priority), "labels"@);
        lemma_lookup_opt_other(e6, "assignee"@, opt_str(body.assignee), "labels"@);
        lemma_lookup_push_other(e7, "custom"@, JsonV::Object(view_fields(body.custom@)), "labels"@);
        lemma_lookup_opt_hit(e6, "assignee"@, opt_str(body.assignee));
        lemma_lookup_push_other(e0, "kind"@, JsonV::Str(body.kind@), "assignee"@);
        lemma_lookup_push_other(e1, "title"@, JsonV::Str(body.title@), "assignee"@);
        lemma_lookup_opt_other(e2, "body"@, opt_str(body.body), "assignee"@);
        lemma_lookup_opt_other(e3, "status"@, status_json(st), "assignee"@);
        lemma_lookup_opt_other(e4, "priority"@, opt_u8(body.priority), "assignee"@);
        lemma_lookup_push_other(e5, "labels"@, str_array(body.labels@), "assignee"@);
        lemma_lookup_push_other(e7, "custom"@, JsonV::Object(view_fields(body.custom@)), "assignee"@);
        lemma_lookup_push_hit(e7, "custom"@, JsonV::Object(view_fields(body.custom@)));
        lemma_lookup_push_other(e0, "kind"@, JsonV::Str(body.kind@), "custom"@);
        lemma_lookup_push_other(e1, "title"@, JsonV::Str(body.title@), "custom"@);
        lemma_lookup_opt_other(e2, "body"@, opt_str(body.body), "custom"@);
        lemma_lookup_opt_other(e3, "status"@, status_json(st), "custom"@);
        lemma_lookup_opt_other(e4, "priority"@, opt_u8(body.priority), "custom"@);
        lemma_lookup_push_other(e5, "labels"@, str_array(body.labels@), "custom"@);
        lemma_lookup_opt_other(e6, "assignee"@, opt_str(body.assignee), "custom"@);
        assert(e8 =~= seq![("kind"@, JsonV::Str(body.kind@)), ("title"@, JsonV::Str(body.title@))]
            + opt_entry("body"@, opt_str(body.body))
            + opt_entry("status"@, status_json(st))
            + opt_entry("priority"@, opt_u8(body.priority))
            + seq![("labels"@, str_array(body.labels@))]
            + opt_entry("assignee"@, opt_str(body.assignee))
            + seq![("custom"@, JsonV::Object(view_fields(body.custom@)))]);
    }
}

/// Asking for the next subject is refused with a 400, sending nothing,
/// unless the query names a non-empty kind; then it sends `subject/next` with
/// that kind.
pub proof fn lemma_next_sends_kind(
    q: NextQuery,
    before: ControlClient,
    after: ControlClient,
    r: Result<PendingCall, ApiResponse>,
)
    requires
        next_outcome(q, before, after, r),
    ensures
        r is Ok <==> (q.kind matches Some(k) && k@.len() > 0),
        r matches Err(e) ==> after == before && e.status == 400,
        r matches Ok(p) ==> p.method@ == "subject/next"@ && param(p, "kind"@) == Some(JsonV::Str(q.kind->Some_0@)),
{
    reveal_strlit("subject/next");
    reveal_strlit("kind");
    if r is Ok {
        let p = r->Ok_0;
        lemma_issued_frame(before, after, p, METHOD_SUBJECT_NEXT@, next_params(q.kind->Some_0@));
        assert(seq![("kind"@, JsonV::Str(q.kind->Some_0@))] =~= Seq::<(Seq<char>, JsonV)>::empty().push(("kind"@, JsonV::Str(q.kind->Some_0@))));
        lemma_lookup_push_hit(Seq::empty(), "kind"@, JsonV::Str(q.kind->Some_0@));
    }
}


/// Updating a subject is refused with a 400, sending nothing, exactly when
/// the body names a status that is none of the six; the refusal quotes the
/// text given.
pub proof fn lemma_update_refuses_unknown_status(
    id: String,
    body: UpdateBody,
    before: ControlClient,
    after: ControlClient,
    r: Result<PendingCall, ApiResponse>,
)
    requires
        update_outcome(id@, body, before, after, r),
    ensures
        r is Ok <==> (body.status matches Some(t) ==> status_word(t@)),
        r matches Err(e) ==> after == before && e.status == 400 && (e.body matches Envelope::Failure(b)
            && is_prefix_of("invalid status `"@ + body.status->Some_0@ + "`"@, b.message@)),
{
    if body.status is Some {
        let t = body.status->Some_0@;
        lemma_status_round_trip(SubjectStatus::Done, t);
        if r is Err {
            let m = invalid_status_text(t);
            let head = "invalid status `"@ + t + "`"@;
            reveal_strlit("`");
            reveal_strlit("`: unknown variant `");
            assert(m.subrange(0, head.len() as int) =~= head) by {
                assert(m =~= ("invalid status `"@ + t) + ("`: unknown variant `"@ + t
                    + "`, expected one of `backlog`, `ready`, `in_progress`, `blocked`, `done`, `cancelled`"@));
                assert("`: unknown variant `"@[0] == '`');
            }
        }
    }
}

} // verus!
