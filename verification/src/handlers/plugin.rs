//! `/api/v1/plugin/*`: plugin management. Path names become `{"name": ...}`,
//! query parameters become an object of strings, bodies go through as they are.

use vstd::prelude::*;

use crate::control_client::{
    ControlClient, PendingCall, issues, param, lemma_issued_frame, METHOD_PLUGIN_LIST, METHOD_PLUGIN_INFO,
    METHOD_PLUGIN_INSTALL, METHOD_PLUGIN_UNINSTALL, METHOD_PLUGIN_PING, METHOD_PLUGIN_CALL,
    METHOD_PLUGIN_SEARCH, METHOD_PLUGIN_BROWSE, METHOD_PLUGIN_UPDATE,
};
use crate::json::{Json, JsonV, push_entry, view_fields, lemma_view_fields_empty, lemma_view_fields_push, lemma_lookup_last_entry};

verus! {

/// A query string's parameters as an object of strings.
pub open spec fn query_params(pairs: Seq<(String, String)>) -> JsonV {
    JsonV::Object(Seq::new(pairs.len(), |i: int| (pairs[i].0@, JsonV::Str(pairs[i].1@))))
}

/// `{"name": name}`.
pub open spec fn name_params(name: Seq<char>) -> JsonV {
    JsonV::Object(seq![("name"@, JsonV::Str(name))])
}

/// The query parameters as a request.
pub fn query_request(pairs: Vec<(String, String)>) -> (r: Json)
    ensures
        r.view_json() == query_params(pairs@),
{
    let ghost src = pairs@;
    let mut fields: Vec<(String, Json)> = Vec::new();
    proof {
        lemma_view_fields_empty();
    }
    let n = pairs.len();
    let mut i: usize = 0;
    while i < n
        invariant
            n == pairs@.len(),
            i <= n,
            view_fields(fields@) =~= Seq::new(i as nat, |k: int| (pairs@[k].0@, JsonV::Str(pairs@[k].1@))),
        decreases n - i,
    {
        let k = pairs[i].0.clone();
        let v = pairs[i].1.clone();
        proof {
            lemma_view_fields_push(fields@, (k, Json::Str(v)));
        }
        fields.push((k, Json::Str(v)));
        i = i + 1;
    }
    Json::Object(fields)
}

/// `{"name": name}` as a request.
pub fn name_request(name: String) -> (r: Json)
    ensures
        r.view_json() == name_params(name@),
{
    let mut fields: Vec<(String, Json)> = Vec::new();
    proof {
        lemma_view_fields_empty();
    }
    push_entry(&mut fields, "name", Json::Str(name));
    assert(view_fields(fields@) =~= seq![("name"@, JsonV::Str(name@))]);
    Json::Object(fields)
}

pub fn list(client: &mut ControlClient, query: Vec<(String, String)>) -> (p: PendingCall)
    ensures
        issues(*old(client), *final(client), p, METHOD_PLUGIN_LIST@, query_params(query@)),
{
    client.plugin_list(query_request(query))
}

pub fn info(client: &mut ControlClient, name: String) -> (p: PendingCall)
    ensures
        issues(*old(client), *final(client), p, METHOD_PLUGIN_INFO@, name_params(name@)),
{
    client.plugin_info(name_request(name))
}

pub fn install(client: &mut ControlClient, body: Json) -> (p: PendingCall)
    ensures
        issues(*old(client), *final(client), p, METHOD_PLUGIN_INSTALL@, body.view_json()),
{
    client.plugin_install(body)
}

pub fn uninstall(client: &mut ControlClient, name: String) -> (p: PendingCall)
    ensures
        issues(*old(client), *final(client), p, METHOD_PLUGIN_UNINSTALL@, name_params(name@)),
{
    client.plugin_uninstall(name_request(name))
}

pub fn ping(client: &mut ControlClient, name: String) -> (p: PendingCall)
    ensures
        issues(*old(client), *final(client), p, METHOD_PLUGIN_PING@, name_params(name@)),
{
    client.plugin_ping(name_request(name))
}

pub fn call(client: &mut ControlClient, body: Json) -> (p: PendingCall)
    ensures
        issues(*old(client), *final(client), p, METHOD_PLUGIN_CALL@, body.view_json()),
{
    client.plugin_call(body)
}

pub fn search(client: &mut ControlClient, query: Vec<(String, String)>) -> (p: PendingCall)
    ensures
        issues(*old(client), *final(client), p, METHOD_PLUGIN_SEARCH@, query_params(query@)),
{
    client.plugin_search(query_request(query))
}

pub fn browse(client: &mut ControlClient, query: Vec<(String, String)>) -> (p: PendingCall)
    ensures
        issues(*old(client), *final(client), p, METHOD_PLUGIN_BROWSE@, query_params(query@)),
{
    client.plugin_browse(query_request(query))
}

pub fn update(client: &mut ControlClient, body: Json) -> (p: PendingCall)
    ensures
        issues(*old(client), *final(client), p, METHOD_PLUGIN_UPDATE@, body.view_json()),
{
    client.plugin_update(body)
}


/// A plugin listing, search or browse sends each query parameter under its
/// own name with its value as a string, the last one given winning when a
/// name repeats, and nothing under a name the query does not give.
pub proof fn lemma_query_sent_by_name(
    method: Seq<char>,
    query: Seq<(String, String)>,
    before: ControlClient,
    after: ControlClient,
    p: PendingCall,
    key: Seq<char>,
)
    requires
        issues(before, after, p, method, query_params(query)),
    ensures
        forall|i: int| 0 <= i < query.len() && query[i].0@ == key
            && (forall|j: int| i < j < query.len() ==> query[j].0@ != key)
            ==> param(p, key) == Some(JsonV::Str(query[i].1@)),
        (forall|i: int| 0 <= i < query.len() ==> query[i].0@ != key) ==> param(p, key) is None,
{
    lemma_issued_frame(before, after, p, method, query_params(query));
    let f = Seq::new(query.len(), |i: int| (query[i].0@, JsonV::Str(query[i].1@)));
    lemma_lookup_last_entry(f, key);
    assert forall|i: int| 0 <= i < query.len() && query[i].0@ == key
        && (forall|j: int| i < j < query.len() ==> query[j].0@ != key)
        implies param(p, key) == Some(JsonV::Str(query[i].1@)) by {
        assert(f[i].0 == key);
        assert forall|j: int| i < j < f.len() implies f[j].0 != key by {
            assert(f[j].0 == query[j].0@);
        }
    }
    if forall|i: int| 0 <= i < query.len() ==> query[i].0@ != key {
        assert forall|i: int| 0 <= i < f.len() implies f[i].0 != key by {
            assert(f[i].0 == query[i].0@);
        }
    }
}

} // verus!
