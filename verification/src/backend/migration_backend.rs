//! The migration media backend: the in-process graph runtime, driven by
//! JSON commands.

use vstd::prelude::*;
use super::{BackendKind, BackendStatus};
use crate::backend::gstpop::protocol::{json_parse, parse_json};
use crate::json::{
    entries_view, json_get, json_object_len, json_text, lemma_entries_view, Json, JsonValue,
};
use crate::text::{decimal, push_decimal, push_str, str_eq};

verus! {

/// The backend that drives the in-process migration graph runtime.
#[derive(Debug, Default)]
pub struct MigrationBackend;

/// The command document `{ <action>: <params> }`.
pub open spec fn command_json(action: Seq<char>, params: Json) -> Json {
    Json::Object(seq![(action, params)])
}

/// What a runtime reply to `action` yields: the `result` member when it is
/// `"success"` or an object without an `error` string; otherwise an error.
pub open spec fn command_outcome(action: Seq<char>, response_json: Seq<char>, parsed: Option<Json>) -> Result<Json, Seq<char>> {
    match parsed {
        None => Err("failed to parse response for "@ + action + ": "@ + response_json),
        Some(root) => match json_get(root, "result"@) {
            None => Err(action + " missing result field"@),
            Some(result) => match result {
                Json::Str(s) => if s == "success"@ {
                    Ok(result)
                } else {
                    Err(action + " unsupported result shape: "@ + response_json)
                },
                Json::Object(_) => match json_get(result, "error"@) {
                    Some(Json::Str(err)) => Err(action + " error: "@ + err),
                    _ => Ok(result),
                },
                _ => Err(action + " unsupported result shape: "@ + response_json),
            },
        },
    }
}

/// The number of nodes a `getinfo` reply lists under `info.nodes` (0 when
/// it lists none).
pub open spec fn node_count(response: Json) -> nat {
    match json_get(response, "info"@) {
        Some(info) => match json_get(info, "nodes"@) {
            Some(nodes) => match json_object_len(nodes) {
                Some(n) => n,
                None => 0,
            },
            None => 0,
        },
        None => 0,
    }
}

impl MigrationBackend {
    pub fn new() -> (b: MigrationBackend) {
        MigrationBackend
    }

    /// The kind of this backend.
    pub fn kind(&self) -> (k: BackendKind)
        ensures
            k == BackendKind::Migration,
    {
        BackendKind::Migration
    }

    /// The command text sent to the runtime for `action` with `params`.
    pub fn command_payload(action: &str, params: JsonValue) -> (s: String)
        ensures
            s@ == json_text(command_json(action@, params@)),
    {
        let ghost pv = params@;
        let es = vec![(action.to_owned(), params)];
        proof {
            lemma_entries_view(es@);
            assert(entries_view(es@) =~= seq![(action@, pv)]);
        }
        JsonValue::Object(es).to_json_text()
    }

    /// Reads a runtime reply (see [`command_outcome`]), given the reply
    /// text and its parse.
    pub fn interpret_response(action: &str, response_json: &str, parsed: Option<JsonValue>) -> (r: Result<JsonValue, String>)
        ensures
            match r {
                Ok(v) => command_outcome(action@, response_json@, match parsed { Some(p) => Some(p@), None => None }) == Ok::<Json, Seq<char>>(v@),
                Err(e) => command_outcome(action@, response_json@, match parsed { Some(p) => Some(p@), None => None }) == Err::<Json, Seq<char>>(e@),
            },
    {
        let root = match parsed {
            None => {
                let mut m = String::new();
                push_str(&mut m, "failed to parse response for ");
                push_str(&mut m, action);
                push_str(&mut m, ": ");
                push_str(&mut m, response_json);
                assert(m@ =~= "failed to parse response for "@ + action@ + ": "@ + response_json@);
                return Err(m);
            },
            Some(root) => root,
        };
        let result = match root.get("result") {
            None => {
                let mut m = String::new();
                push_str(&mut m, action);
                push_str(&mut m, " missing result field");
                assert(m@ =~= action@ + " missing result field"@);
                return Err(m);
            },
            Some(result) => result,
        };
        let mut shape_error = String::new();
        push_str(&mut shape_error, action);
        push_str(&mut shape_error, " unsupported result shape: ");
        push_str(&mut shape_error, response_json);
        assert(shape_error@ =~= action@ + " unsupported result shape: "@ + response_json@);
        match result {
            JsonValue::Str(s) => {
                if str_eq(s.as_str(), "success") {
                    Ok(result.duplicate())
                } else {
                    Err(shape_error)
                }
            },
            JsonValue::Object(_) => {
                match result.get("error") {
                    Some(JsonValue::Str(err)) => {
                        let mut m = String::new();
                        push_str(&mut m, action);
                        push_str(&mut m, " error: ");
                        push_str(&mut m, err.as_str());
                        assert(m@ =~= action@ + " error: "@ + err@);
                        Err(m)
                    },
                    _ => Ok(result.duplicate()),
                }
            },
            _ => Err(shape_error),
        }
    }

    /// Reads a runtime reply text: its parse (serde_json) decides as
    /// [`MigrationBackend::interpret_response`] says.
    pub fn dispatch_outcome(action: &str, response_json: &str) -> (r: Result<JsonValue, String>)
        ensures
            match r {
                Ok(v) => command_outcome(action@, response_json@, json_parse(response_json@)) == Ok::<Json, Seq<char>>(v@),
                Err(e) => command_outcome(action@, response_json@, json_parse(response_json@)) == Err::<Json, Seq<char>>(e@),
            },
    {
        let parsed = parse_json(response_json);
        MigrationBackend::interpret_response(action, response_json, parsed)
    }

    /// The number of nodes in a `getinfo` reply.
    pub fn count_nodes(response: &JsonValue) -> (n: usize)
        ensures
            n as nat == node_count(response@),
    {
        match response.get("info") {
            Some(info) => match info.get("nodes") {
                Some(nodes) => match nodes.object_len() {
                    Some(n) => n,
                    None => 0,
                },
                None => 0,
            },
            None => 0,
        }
    }

    /// The probe status of a running runtime: `Migration runtime ready -
    /// nodes=<n>`.
    pub fn ready_status(response: &JsonValue) -> (st: BackendStatus)
        ensures
            st.status_text@ == "Migration runtime ready - nodes="@ + decimal(node_count(response@)),
            st.error_text@.len() == 0,
            st.is_connected,
    {
        let n = MigrationBackend::count_nodes(response);
        let mut text = String::new();
        push_str(&mut text, "Migration runtime ready - nodes=");
        push_decimal(&mut text, n as u64);
        assert(text@ =~= "Migration runtime ready - nodes="@ + decimal(node_count(response@)));
        BackendStatus { status_text: text, error_text: String::new(), is_connected: true }
    }

    /// The probe status when the runtime is not running.
    pub fn stopped_status() -> (st: BackendStatus)
        ensures
            st.status_text@ == "Migration runtime stopped"@,
            st.error_text@.len() == 0,
            !st.is_connected,
    {
        BackendStatus {
            status_text: "Migration runtime stopped".to_owned(),
            error_text: String::new(),
            is_connected: false,
        }
    }
}

/// A runtime reply whose result is an object carrying an `error` string
/// is a failure naming the action and that error, never a success; and a
/// successful outcome is never such an object.
pub proof fn law_runtime_errors_surface(action: Seq<char>, response_json: Seq<char>, root: Json, err: Seq<char>)
    ensures
        json_get(root, "result"@) matches Some(result) && result is Object
            && json_get(result, "error"@) == Some(Json::Str(err))
            ==> command_outcome(action, response_json, Some(root)) == Err::<Json, Seq<char>>(action + " error: "@ + err),
        command_outcome(action, response_json, Some(root)) matches Ok(v)
            ==> !(v is Object && json_get(v, "error"@) matches Some(Json::Str(_))),
{
}

/// A reply whose result is the string `success` succeeds with that
/// result; a reply that does not parse, or has no result, fails.
pub proof fn law_runtime_success_and_malformed(action: Seq<char>, response_json: Seq<char>, root: Json)
    ensures
        json_get(root, "result"@) == Some(Json::Str("success"@))
            ==> command_outcome(action, response_json, Some(root)) == Ok::<Json, Seq<char>>(Json::Str("success"@)),
        json_get(root, "result"@) is None ==> command_outcome(action, response_json, Some(root)) is Err,
        command_outcome(action, response_json, None) is Err,
{
}

} // verus!
