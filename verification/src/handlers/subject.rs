//! `POST /api/v1/subject/{plugin}/call`: a thin wrapper over `plugin/call`
//! that targets the subject backend named in the path.

use vstd::prelude::*;

use crate::control_client::{ControlClient, PendingCall, METHOD_PLUGIN_CALL, param, lemma_issued_frame};
use crate::handlers::{ApiResponse, invalid_input, refused, sent};
use crate::json::{Json, JsonV, push_entry, field, lemma_lookup_push_hit, lemma_lookup_push_other};

verus! {

pub const CALL_BODY_NOT_OBJECT: &'static str = "subject call body must be a JSON object";

/// The `plugin/call` request: the body's members with `plugin` set to the
/// backend named in the path.
pub open spec fn call_params(plugin: Seq<char>, body: JsonV) -> Option<JsonV> {
    match body {
        JsonV::Object(fields) => Some(JsonV::Object(fields.push(("plugin"@, JsonV::Str(plugin))))),
        _ => None,
    }
}

pub open spec fn call_outcome(plugin: Seq<char>, body: JsonV, before: ControlClient, after: ControlClient, r: Result<PendingCall, ApiResponse>) -> bool {
    match call_params(plugin, body) {
        None => refused(before, after, r, CALL_BODY_NOT_OBJECT@),
        Some(params) => sent(before, after, r, METHOD_PLUGIN_CALL@, params),
    }
}

pub fn call(client: &mut ControlClient, plugin: String, body: Json) -> (r: Result<PendingCall, ApiResponse>)
    ensures
        call_outcome(plugin@, body.view_json(), *old(client), *final(client), r),
{
    match body {
        Json::Object(fields) => {
            let mut fields = fields;
            push_entry(&mut fields, "plugin", Json::Str(plugin));
            Ok(client.plugin_call(Json::Object(fields)))
        },
        _ => Err(invalid_input(String::from_str(CALL_BODY_NOT_OBJECT))),
    }
}


/// Calling a subject backend is refused with a 400, sending nothing, unless
/// the body is a JSON object; then it sends `plugin/call` with every member
/// of the body as given, and `plugin` set to the backend named in the path
/// (replacing any `plugin` member of the body).
pub proof fn lemma_call_targets_backend(
    plugin: String,
    body: JsonV,
    before: ControlClient,
    after: ControlClient,
    r: Result<PendingCall, ApiResponse>,
)
    requires
        call_outcome(plugin@, body, before, after, r),
    ensures
        r is Ok <==> body is Object,
        r matches Err(e) ==> after == before && e.status == 400,
        r matches Ok(p) ==> p.method@ == "plugin/call"@ && param(p, "plugin"@) == Some(JsonV::Str(plugin@)),
        r matches Ok(p) ==> forall|k: Seq<char>| k != "plugin"@ ==> #[trigger] param(p, k) == field(body, k),
{
    reveal_strlit("plugin/call");
    if r is Ok {
        let p = r->Ok_0;
        let fields = body->Object_0;
        let v = JsonV::Str(plugin@);
        lemma_issued_frame(before, after, p, METHOD_PLUGIN_CALL@, JsonV::Object(fields.push(("plugin"@, v))));
        lemma_lookup_push_hit(fields, "plugin"@, v);
        assert forall|k: Seq<char>| k != "plugin"@ implies #[trigger] param(p, k) == field(body, k) by {
            lemma_lookup_push_other(fields, "plugin"@, v, k);
        }
    }
}

} // verus!
