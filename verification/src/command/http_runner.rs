//! Talking to the media-graph runtime: replies of its HTTP command server
//! and of its in-process command entry point.

use vstd::prelude::*;
use crate::backend::gstpop::protocol::{json_read, read_json};
use crate::json::{json_get, Json, JsonValue};
use crate::text::{owned, push_str, str_eq, trim, trimmed};

verus! {

/// What a reply of the HTTP command server yields, given how its body
/// read as JSON: the whole reply, unless it is not JSON, has no `result`,
/// or its result carries an `error` string.
pub open spec fn server_reply_from(body: Seq<char>, parsed: Result<Json, Seq<char>>) -> Result<Json, Seq<char>> {
    match parsed {
        Err(err) => Err("Failed to parse migrated server response: "@ + err + "; raw="@ + body),
        Ok(response) => match json_get(response, "result"@) {
            None => Err("Missing result in migrated server response: "@ + body),
            Some(result) => match json_get(result, "error"@) {
                Some(Json::Str(err)) => Err("Migrated server command error: "@ + err),
                _ => Ok(response),
            },
        },
    }
}

/// What a reply body of the HTTP command server yields.
pub open spec fn server_reply_outcome(body: Seq<char>) -> Result<Json, Seq<char>> {
    server_reply_from(body, json_read(body))
}

/// The view of a parse or command result.
pub open spec fn result_view(r: Result<JsonValue, String>) -> Result<Json, Seq<char>> {
    match r {
        Ok(v) => Ok(v@),
        Err(e) => Err(e@),
    }
}

/// Decides a reply of the HTTP command server from its body and how the
/// body read as JSON (see [`server_reply_from`]).
pub fn server_reply_from_parsed(body: &str, parsed: Result<JsonValue, String>) -> (r: Result<JsonValue, String>)
    ensures
        result_view(r) == server_reply_from(body@, result_view(parsed)),
{
    let response = match parsed {
        Ok(v) => v,
        Err(err) => {
            let mut m = owned("Failed to parse migrated server response: ");
            push_str(&mut m, err.as_str());
            push_str(&mut m, "; raw=");
            push_str(&mut m, body);
            return Err(m);
        },
    };
    let failure = match response.get("result") {
        None => {
            let mut m = owned("Missing result in migrated server response: ");
            push_str(&mut m, body);
            Some(m)
        },
        Some(result) => match result.get("error") {
            Some(JsonValue::Str(err)) => {
                let mut m = owned("Migrated server command error: ");
                push_str(&mut m, err.as_str());
                Some(m)
            },
            _ => None,
        },
    };
    match failure {
        Some(m) => Err(m),
        None => Ok(response),
    }
}

/// Reads a reply body of the HTTP command server (see
/// [`server_reply_outcome`]).
pub fn graph_http_reply(body: &str) -> (r: Result<JsonValue, String>)
    ensures
        result_view(r) == server_reply_outcome(body@),
{
    server_reply_from_parsed(body, read_json(body))
}

/// What the runtime's in-process reply to `action` yields, given how the
/// reply read as JSON: its `result` when that is `"success"` or an object
/// without an `error` string.
pub open spec fn runtime_reply_from(action: Seq<char>, reply: Seq<char>, parsed: Result<Json, Seq<char>>) -> Result<Json, Seq<char>> {
    match parsed {
        Err(err) => Err(action + " parse failure: "@ + err + "; raw="@ + reply),
        Ok(root) => match json_get(root, "result"@) {
            None => Err(action + " missing result field; raw="@ + reply),
            Some(result) => match result {
                Json::Str(s) => if s == "success"@ {
                    Ok(result)
                } else {
                    Err(action + " unsupported result shape: "@ + reply)
                },
                Json::Object(_) => match json_get(result, "error"@) {
                    Some(Json::Str(err)) => Err(action + " error: "@ + err),
                    _ => Ok(result),
                },
                _ => Err(action + " unsupported result shape: "@ + reply),
            },
        },
    }
}

/// What the runtime's in-process reply to `action` yields.
pub open spec fn runtime_reply_outcome(action: Seq<char>, reply: Seq<char>) -> Result<Json, Seq<char>> {
    runtime_reply_from(action, reply, json_read(reply))
}

/// Decides the runtime's in-process reply to `action` from the reply and
/// how it read as JSON (see [`runtime_reply_from`]).
pub fn runtime_reply_from_parsed(action: &str, reply: &str, parsed: Result<JsonValue, String>) -> (r: Result<JsonValue, String>)
    ensures
        result_view(r) == runtime_reply_from(action@, reply@, result_view(parsed)),
{
    let root = match parsed {
        Ok(v) => v,
        Err(err) => {
            let mut m = owned(action);
            push_str(&mut m, " parse failure: ");
            push_str(&mut m, err.as_str());
            push_str(&mut m, "; raw=");
            push_str(&mut m, reply);
            return Err(m);
        },
    };
    let result = match root.get("result") {
        None => {
            let mut m = owned(action);
            push_str(&mut m, " missing result field; raw=");
            push_str(&mut m, reply);
            return Err(m);
        },
        Some(result) => result,
    };
    let mut shape = owned(action);
    push_str(&mut shape, " unsupported result shape: ");
    push_str(&mut shape, reply);
    match result {
        JsonValue::Str(s) => {
            if str_eq(s.as_str(), "success") {
                Ok(result.duplicate())
            } else {
                Err(shape)
            }
        },
        JsonValue::Object(_) => match result.get("error") {
            Some(JsonValue::Str(err)) => {
                let mut m = owned(action);
                push_str(&mut m, " error: ");
                push_str(&mut m, err.as_str());
                Err(m)
            },
            _ => Ok(result.duplicate()),
        },
        _ => Err(shape),
    }
}

/// Reads the runtime's in-process reply to `action` (see
/// [`runtime_reply_outcome`]).
pub fn graph_command_outcome(action: &str, reply: &str) -> (r: Result<JsonValue, String>)
    ensures
        result_view(r) == runtime_reply_outcome(action@, reply@),
{
    runtime_reply_from_parsed(action, reply, read_json(reply))
}

/// The message once the command server is up on `bind_addr` and its
/// health check answered `health_body` (shown trimmed).
pub fn server_started_message(bind_addr: &str, health_body: &str) -> (m: String)
    ensures
        m@ == "migrated server active bind="@ + bind_addr@ + " health="@ + trimmed(health_body@),
{
    let mut m = owned("migrated server active bind=");
    push_str(&mut m, bind_addr);
    push_str(&mut m, " health=");
    push_str(&mut m, trim(health_body).as_str());
    m
}

/// The message when the graph runtime could not be started.
pub fn runtime_start_failure(err: &str) -> (m: String)
    ensures
        m@ == "Failed to start migrated graph runtime: "@ + err@,
{
    let mut m = owned("Failed to start migrated graph runtime: ");
    push_str(&mut m, err);
    m
}

} // verus!
