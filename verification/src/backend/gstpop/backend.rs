//! The gst-pop media backend: mapping of graph verbs onto daemon
//! methods, and the reading of daemon replies.

use vstd::prelude::*;
use crate::backend::BackendStatus;
use crate::backend::gstpop::protocol::{rpc_error_text, Response};
use crate::json::{
    entries_lookup, entries_view, json_get, json_str, json_u64, lemma_entries_view, Json,
    JsonValue,
};
use crate::text::{chars_of, decimal, key_lt, push_decimal, push_str, seq_lt, str_eq};

verus! {

/// A backend that talks to a gst-pop daemon over WebSocket JSON-RPC.
pub struct GstPopBackend {
    pub url: String,
    pub api_key: Option<String>,
    pub pipeline_id: String,
}

impl GstPopBackend {
    /// A backend for the daemon at `url`, acting on `pipeline_id`.
    pub fn new(url: String, api_key: Option<String>, pipeline_id: String) -> (b: GstPopBackend)
        ensures
            b.url == url,
            b.api_key == api_key,
            b.pipeline_id == pipeline_id,
    {
        GstPopBackend { url, api_key, pipeline_id }
    }
}

// ---------------------------------------------------------------------
// Key order of JSON objects
// ---------------------------------------------------------------------

/// Where a new key goes among object entries kept in key order: before the
/// first key it sorts before.
pub open spec fn insert_pos(entries: Seq<(Seq<char>, Json)>, key: Seq<char>) -> int
    decreases entries.len(),
{
    if entries.len() == 0 {
        0
    } else if seq_lt(key, entries[0].0) {
        0
    } else {
        1 + insert_pos(entries.drop_first(), key)
    }
}

proof fn lemma_insert_pos_skip(entries: Seq<(Seq<char>, Json)>, key: Seq<char>, i: int)
    requires
        0 <= i <= entries.len(),
        forall|j: int| 0 <= j < i ==> !seq_lt(key, entries[j].0),
    ensures
        insert_pos(entries, key) == i + insert_pos(entries.subrange(i, entries.len() as int), key),
        0 <= insert_pos(entries, key) <= entries.len(),
    decreases i,
{
    lemma_insert_pos_bounds(entries, key);
    if i > 0 {
        let rest = entries.drop_first();
        assert forall|j: int| 0 <= j < i - 1 implies !seq_lt(key, rest[j].0) by {
            assert(rest[j] == entries[j + 1]);
        }
        lemma_insert_pos_skip(rest, key, i - 1);
        assert(rest.subrange(i - 1, rest.len() as int) =~= entries.subrange(i, entries.len() as int));
    } else {
        assert(entries.subrange(0, entries.len() as int) =~= entries);
    }
}

proof fn lemma_insert_pos_bounds(entries: Seq<(Seq<char>, Json)>, key: Seq<char>)
    ensures
        0 <= insert_pos(entries, key) <= entries.len(),
    decreases entries.len(),
{
    if entries.len() > 0 {
        lemma_insert_pos_bounds(entries.drop_first(), key);
    }
}

/// Object entries with a new key inserted in key order (how a sorted JSON
/// map takes a key it does not hold).
pub open spec fn insert_entry(entries: Seq<(Seq<char>, Json)>, key: Seq<char>, value: Json) -> Seq<(Seq<char>, Json)> {
    entries.insert(insert_pos(entries, key), (key, value))
}

/// Inserts `key: value` into object entries in key order.
fn insert_sorted(entries: &mut Vec<(String, JsonValue)>, key: String, value: JsonValue)
    ensures
        entries_view(final(entries)@) == insert_entry(entries_view(old(entries)@), key@, value@),
{
    let kc = chars_of(key.as_str());
    proof { lemma_entries_view(entries@); }
    let ghost es = entries_view(entries@);
    let mut i: usize = 0;
    while i < entries.len()
        invariant
            i <= entries.len(),
            es == entries_view(entries@),
            es.len() == entries.len(),
            forall|j: int| 0 <= j < entries.len() ==> #[trigger] es[j] == (entries@[j].0@, crate::json::json_view(entries@[j].1)),
            forall|j: int| 0 <= j < i ==> !seq_lt(kc@, es[j].0),
            kc@ == key@,
        ensures
            i <= entries.len(),
            i < entries.len() ==> seq_lt(kc@, es[i as int].0),
            forall|j: int| 0 <= j < i ==> !seq_lt(kc@, es[j].0),
        decreases entries.len() - i,
    {
        let ec = chars_of(entries[i].0.as_str());
        if key_lt(&kc, &ec) {
            break;
        }
        i = i + 1;
    }
    proof {
        lemma_insert_pos_skip(es, key@, i as int);
        if i < es.len() {
            let rest = es.subrange(i as int, es.len() as int);
            assert(rest[0] == es[i as int]);
        }
    }
    let ghost vv = value@;
    entries.insert(i, (key, value));
    proof {
        lemma_entries_view(entries@);
        assert(entries_view(entries@) =~= es.insert(i as int, (key@, vv)));
    }
}

/// Adds the pipeline id to call parameters: into an object lacking a
/// `pipeline_id` member, as the sole member in place of `null`, or beside
/// any other value under `value`.
pub open spec fn merge_pid_json(params: Json, pid: Seq<char>) -> Json {
    match params {
        Json::Object(entries) => if entries_lookup(entries, "pipeline_id"@) is Some {
            params
        } else {
            Json::Object(insert_entry(entries, "pipeline_id"@, Json::Str(pid)))
        },
        Json::Null => Json::Object(seq![("pipeline_id"@, Json::Str(pid))]),
        other => Json::Object(seq![("pipeline_id"@, Json::Str(pid)), ("value"@, other)]),
    }
}

/// Adds the pipeline id to call parameters (see [`merge_pid_json`]).
pub fn merge_pid(params: JsonValue, pipeline_id: &str) -> (r: JsonValue)
    ensures
        r@ == merge_pid_json(params@, pipeline_id@),
{
    match params {
        JsonValue::Object(entries) => {
            let obj = JsonValue::Object(entries);
            if obj.get("pipeline_id").is_some() {
                return obj;
            }
            match obj {
                JsonValue::Object(mut es) => {
                    insert_sorted(&mut es, "pipeline_id".to_owned(), JsonValue::string(pipeline_id));
                    JsonValue::Object(es)
                },
                other => other,
            }
        },
        JsonValue::Null => {
            let es = vec![("pipeline_id".to_owned(), JsonValue::string(pipeline_id))];
            proof {
                lemma_entries_view(es@);
                assert(entries_view(es@) =~= seq![("pipeline_id"@, Json::Str(pipeline_id@))]);
            }
            JsonValue::Object(es)
        },
        other => {
            let ghost ov = other@;
            let es = vec![("pipeline_id".to_owned(), JsonValue::string(pipeline_id)), ("value".to_owned(), other)];
            proof {
                lemma_entries_view(es@);
                assert(entries_view(es@) =~= seq![("pipeline_id"@, Json::Str(pipeline_id@)), ("value"@, ov)]);
            }
            JsonValue::Object(es)
        },
    }
}

/// Migration graph verbs that have no gst-pop counterpart.
pub open spec fn is_unsupported_verb(action: Seq<char>) -> bool {
    action == "createsource"@ || action == "createmixer"@ || action == "createdestination"@
        || action == "connect"@ || action == "disconnect"@
}

/// The refusal for a verb gst-pop does not support.
pub open spec fn unsupported_verb_text(action: Seq<char>) -> Seq<char> {
    "gst-pop backend does not support migration verb `"@ + action
        + "` - re-pose as createpipeline {description}"@
}

/// How a graph verb and its parameters become a gst-pop method call:
/// lifecycle verbs gain the pipeline id, graph-building verbs of the
/// migration backend are refused, and any other verb passes through.
pub open spec fn translate_spec(action: Seq<char>, params: Json, pid: Seq<char>) -> Result<(Seq<char>, Json), Seq<char>> {
    if action == "start"@ {
        Ok(("play"@, merge_pid_json(params, pid)))
    } else if action == "stop"@ {
        Ok(("stop"@, merge_pid_json(params, pid)))
    } else if action == "pause"@ {
        Ok(("pause"@, merge_pid_json(params, pid)))
    } else if action == "getinfo"@ {
        Ok(("get_pipeline_info"@, merge_pid_json(params, pid)))
    } else if action == "list"@ {
        Ok(("list_pipelines"@, Json::Object(Seq::empty())))
    } else if action == "remove"@ {
        Ok(("remove_pipeline"@, merge_pid_json(params, pid)))
    } else if action == "createpipeline"@ {
        Ok(("create_pipeline"@, params))
    } else if is_unsupported_verb(action) {
        Err(unsupported_verb_text(action))
    } else {
        Ok((action, params))
    }
}

fn method_call(method: &str, params: JsonValue) -> (r: Result<(String, JsonValue), String>)
    ensures
        r matches Ok((m, p)) && m@ == method@ && p@ == params@,
{
    Ok((method.to_owned(), params))
}

/// Maps a graph verb onto a gst-pop method and parameters (see
/// [`translate_spec`]).
pub fn translate(action: &str, params: JsonValue, pipeline_id: &str) -> (r: Result<(String, JsonValue), String>)
    ensures
        match r {
            Ok((m, p)) => translate_spec(action@, params@, pipeline_id@) == Ok::<(Seq<char>, Json), Seq<char>>((m@, p@)),
            Err(e) => translate_spec(action@, params@, pipeline_id@) == Err::<(Seq<char>, Json), Seq<char>>(e@),
        },
{
    if str_eq(action, "start") {
        method_call("play", merge_pid(params, pipeline_id))
    } else if str_eq(action, "stop") {
        method_call("stop", merge_pid(params, pipeline_id))
    } else if str_eq(action, "pause") {
        method_call("pause", merge_pid(params, pipeline_id))
    } else if str_eq(action, "getinfo") {
        method_call("get_pipeline_info", merge_pid(params, pipeline_id))
    } else if str_eq(action, "list") {
        let empty: Vec<(String, JsonValue)> = Vec::new();
        proof {
            assert(entries_view(empty@) =~= Seq::<(Seq<char>, Json)>::empty());
        }
        method_call("list_pipelines", JsonValue::Object(empty))
    } else if str_eq(action, "remove") {
        method_call("remove_pipeline", merge_pid(params, pipeline_id))
    } else if str_eq(action, "createpipeline") {
        method_call("create_pipeline", params)
    } else if str_eq(action, "createsource") || str_eq(action, "createmixer")
        || str_eq(action, "createdestination") || str_eq(action, "connect")
        || str_eq(action, "disconnect") {
        let mut msg = String::new();
        push_str(&mut msg, "gst-pop backend does not support migration verb `");
        push_str(&mut msg, action);
        push_str(&mut msg, "` - re-pose as createpipeline {description}");
        assert(msg@ =~= unsupported_verb_text(action@));
        Err(msg)
    } else {
        Ok((action.to_owned(), params))
    }
}

/// The version a `get_version` reply reports, `<unknown>` when it has none.
pub open spec fn reported_version(info: Json) -> Seq<char> {
    match json_get(info, "version"@) {
        Some(v) => match json_str(v) {
            Some(s) => s,
            None => "<unknown>"@,
        },
        None => "<unknown>"@,
    }
}

/// The count a `get_pipeline_count` reply reports, 0 when it has none.
pub open spec fn reported_count(count_value: Json) -> nat {
    match json_get(count_value, "count"@) {
        Some(v) => match json_u64(v) {
            Some(n) => n,
            None => 0,
        },
        None => 0,
    }
}

/// The status line of a probe: `gst-pop <version> - <count> pipeline(s)`.
pub open spec fn probe_text(info: Json, count_value: Json) -> Seq<char> {
    "gst-pop "@ + reported_version(info) + " - "@ + decimal(reported_count(count_value)) + " pipeline(s)"@
}

/// The probe status built from the replies to `get_version` and
/// `get_pipeline_count`.
pub fn probe_status(info: &JsonValue, count_value: &JsonValue) -> (st: BackendStatus)
    ensures
        st.status_text@ == probe_text(info@, count_value@),
        st.error_text@.len() == 0,
        st.is_connected,
{
    let mut text = String::new();
    push_str(&mut text, "gst-pop ");
    match info.get("version") {
        Some(v) => match v.as_str() {
            Some(s) => push_str(&mut text, s.as_str()),
            None => push_str(&mut text, "<unknown>"),
        },
        None => push_str(&mut text, "<unknown>"),
    }
    push_str(&mut text, " - ");
    let count: u64 = match count_value.get("count") {
        Some(v) => match v.as_u64() {
            Some(n) => n,
            None => 0,
        },
        None => 0,
    };
    push_decimal(&mut text, count);
    push_str(&mut text, " pipeline(s)");
    assert(text@ =~= probe_text(info@, count_value@));
    BackendStatus { status_text: text, error_text: String::new(), is_connected: true }
}

/// What a call returns given the daemon's response: the daemon's error as
/// `<method>: <error>`, else the result, else a complaint that there was
/// neither.
pub open spec fn call_outcome_spec(method: Seq<char>, error: Option<(int, Seq<char>)>, result: Option<Json>) -> Result<Json, Seq<char>> {
    match error {
        Some((code, message)) => Err(method + ": "@ + rpc_error_text(code, message)),
        None => match result {
            Some(v) => Ok(v),
            None => Err(method + ": response had neither result nor error"@),
        },
    }
}

/// Reads the response to a call of `method` (see [`call_outcome_spec`]).
pub fn call_outcome(method: &str, response: Response) -> (r: Result<JsonValue, String>)
    ensures
        match r {
            Ok(v) => call_outcome_spec(method@, response@.error, response@.result) == Ok::<Json, Seq<char>>(v@),
            Err(e) => call_outcome_spec(method@, response@.error, response@.result) == Err::<Json, Seq<char>>(e@),
        },
{
    match response.error {
        Some(err) => {
            let mut msg = String::new();
            push_str(&mut msg, method);
            push_str(&mut msg, ": ");
            let d = err.display_string();
            push_str(&mut msg, d.as_str());
            assert(msg@ =~= method@ + ": "@ + rpc_error_text(err.code as int, err.message@));
            Err(msg)
        },
        None => match response.result {
            Some(v) => Ok(v),
            None => {
                let mut msg = String::new();
                push_str(&mut msg, method);
                push_str(&mut msg, ": response had neither result nor error");
                assert(msg@ =~= method@ + ": response had neither result nor error"@);
                Err(msg)
            },
        },
    }
}


/// The parameters of the call that removes the backend's pipeline when the
/// backend shuts down: `{"pipeline_id": <id>}`.
pub fn remove_pipeline_params(pipeline_id: &str) -> (v: JsonValue)
    ensures
        v@ == Json::Object(seq![("pipeline_id"@, Json::Str(pipeline_id@))]),
{
    crate::json::object1("pipeline_id", JsonValue::string(pipeline_id))
}

/// A step of probing the daemon.
#[derive(Clone, Copy, Debug, PartialEq, Eq, Structural)]
pub enum ProbeStage {
    Version,
    PipelineCount,
}

/// The daemon method a probe step calls.
pub fn probe_method(stage: ProbeStage) -> (m: &'static str)
    ensures
        m@ == match stage {
            ProbeStage::Version => "get_version"@,
            ProbeStage::PipelineCount => "get_pipeline_count"@,
        },
{
    match stage {
        ProbeStage::Version => "get_version",
        ProbeStage::PipelineCount => "get_pipeline_count",
    }
}

/// The message shown when a probe step fails.
pub fn probe_failure_text(stage: ProbeStage) -> (m: &'static str)
    ensures
        m@ == match stage {
            ProbeStage::Version => "probe: get_version (is the gst-pop service running?)"@,
            ProbeStage::PipelineCount => "probe: get_pipeline_count"@,
        },
{
    match stage {
        ProbeStage::Version => "probe: get_version (is the gst-pop service running?)",
        ProbeStage::PipelineCount => "probe: get_pipeline_count",
    }
}

/// What a call to the daemon does first with the cached connection.
#[derive(Clone, Copy, Debug, PartialEq, Eq, Structural)]
pub enum CallStep {
    /// No connection is cached: connect (and cache it) before calling.
    Connect,
    /// Call through the cached connection.
    UseCached,
}

/// The first step of a call: connect lazily, only when no connection is
/// cached.
pub open spec fn call_step_for(has_client: bool) -> CallStep {
    if has_client { CallStep::UseCached } else { CallStep::Connect }
}

/// The first step of a call, given whether a connection is cached.
pub fn call_step(has_client: bool) -> (s: CallStep)
    ensures
        s == call_step_for(has_client),
{
    if has_client { CallStep::UseCached } else { CallStep::Connect }
}

/// Whether the connection stays cached after a call: a failed call drops
/// it, a successful one keeps it.
pub fn keep_client_after(call_ok: bool) -> (keep: bool)
    ensures
        keep == call_ok,
{
    call_ok
}

/// After a failed call the next call connects anew; after a successful
/// one it reuses the connection.
pub proof fn law_failed_call_reconnects(call_ok: bool)
    ensures
        call_step_for(call_ok) == if call_ok { CallStep::UseCached } else { CallStep::Connect },
{
}

/// A key not held by object entries is found, with its value, once
/// inserted anywhere among them.
proof fn lemma_lookup_inserted(entries: Seq<(Seq<char>, Json)>, k: int, key: Seq<char>, value: Json)
    requires
        0 <= k <= entries.len(),
        entries_lookup(entries, key) is None,
    ensures
        entries_lookup(entries.insert(k, (key, value)), key) == Some(value),
    decreases entries.len(),
{
    let ins = entries.insert(k, (key, value));
    if k > 0 {
        assert(ins[0] == entries[0]);
        assert(ins.drop_first() =~= entries.drop_first().insert(k - 1, (key, value)));
        lemma_lookup_inserted(entries.drop_first(), k - 1, key, value);
    } else {
        assert(ins[0] == (key, value));
    }
}

/// `p` is `params` with the pipeline id `pid` merged in: parameters that
/// name a pipeline are kept as they are, and any others come out naming
/// `pid`.
pub open spec fn names_pipeline(params: Json, p: Json, pid: Seq<char>) -> bool {
    &&& json_get(params, "pipeline_id"@) is Some ==> p == params
    &&& json_get(params, "pipeline_id"@) is None ==> json_get(p, "pipeline_id"@) == Some(Json::Str(pid))
}

/// Merging the pipeline id always leaves parameters that name a pipeline:
/// their own, or `pid`.
proof fn lemma_merge_names_pipeline(params: Json, pid: Seq<char>)
    ensures
        names_pipeline(params, merge_pid_json(params, pid), pid),
{
    reveal_strlit("pipeline_id");
    reveal_strlit("value");
    match params {
        Json::Object(entries) => {
            if entries_lookup(entries, "pipeline_id"@) is None {
                lemma_insert_pos_bounds(entries, "pipeline_id"@);
                lemma_lookup_inserted(entries, insert_pos(entries, "pipeline_id"@), "pipeline_id"@, Json::Str(pid));
            }
        },
        _ => {},
    }
}

/// Each lifecycle verb becomes its gst-pop method, with the pipeline id
/// merged into its parameters: `start` plays, `stop` stops, `pause`
/// pauses, `getinfo` asks for the pipeline's info and `remove` removes
/// the pipeline.
pub proof fn law_lifecycle_verbs(params: Json, pid: Seq<char>)
    ensures
        translate_spec("start"@, params, pid) matches Ok((m, p)) && m == "play"@ && names_pipeline(params, p, pid),
        translate_spec("stop"@, params, pid) matches Ok((m, p)) && m == "stop"@ && names_pipeline(params, p, pid),
        translate_spec("pause"@, params, pid) matches Ok((m, p)) && m == "pause"@ && names_pipeline(params, p, pid),
        translate_spec("getinfo"@, params, pid) matches Ok((m, p)) && m == "get_pipeline_info"@
            && names_pipeline(params, p, pid),
        translate_spec("remove"@, params, pid) matches Ok((m, p)) && m == "remove_pipeline"@
            && names_pipeline(params, p, pid),
{
    lemma_merge_names_pipeline(params, pid);
    reveal_strlit("start");
    reveal_strlit("stop");
    reveal_strlit("pause");
    reveal_strlit("getinfo");
    reveal_strlit("remove");
    assert("stop"@[1] != "start"@[1] || "stop"@[2] != "start"@[2]);
    assert("pause"@[0] != "start"@[0]);
    assert("pause"@[0] != "stop"@[0]);
    assert("getinfo"@[0] != "start"@[0]);
    assert("getinfo"@[0] != "stop"@[0]);
    assert("getinfo"@[0] != "pause"@[0]);
    assert("remove"@[0] != "start"@[0]);
    assert("remove"@[0] != "stop"@[0]);
    assert("remove"@[0] != "pause"@[0]);
    assert("remove"@[0] != "getinfo"@[0]);
    assert("remove"@.len() != "list"@.len()) by { reveal_strlit("list"); }
}

/// The other verbs: `list` lists the pipelines with no parameters,
/// `createpipeline` creates one with the parameters as given, the
/// graph-building verbs of the migration backend are refused by name, and
/// a verb gst-pop knows by itself passes through unchanged.
pub proof fn law_other_verbs(action: Seq<char>, params: Json, pid: Seq<char>)
    ensures
        translate_spec("list"@, params, pid) == Ok::<(Seq<char>, Json), Seq<char>>(("list_pipelines"@, Json::Object(Seq::empty()))),
        translate_spec("createpipeline"@, params, pid) == Ok::<(Seq<char>, Json), Seq<char>>(("create_pipeline"@, params)),
        is_unsupported_verb(action) ==> translate_spec(action, params, pid) is Err,
        !is_unsupported_verb(action) ==> translate_spec(action, params, pid) is Ok,
        translate_spec(action, params, pid) matches Err(e) ==> e == unsupported_verb_text(action),
{
    reveal_strlit("start");
    reveal_strlit("stop");
    reveal_strlit("pause");
    reveal_strlit("getinfo");
    reveal_strlit("remove");
    reveal_strlit("list");
    reveal_strlit("createpipeline");
    reveal_strlit("createsource");
    reveal_strlit("createmixer");
    reveal_strlit("createdestination");
    reveal_strlit("connect");
    reveal_strlit("disconnect");
    assert("list"@[0] != "start"@[0] && "list"@[0] != "stop"@[0] && "list"@[0] != "pause"@[0]
        && "list"@[0] != "getinfo"@[0]);
    assert("createpipeline"@[0] != "start"@[0] && "createpipeline"@[0] != "stop"@[0]
        && "createpipeline"@[0] != "pause"@[0] && "createpipeline"@[0] != "getinfo"@[0]
        && "createpipeline"@[0] != "list"@[0] && "createpipeline"@[0] != "remove"@[0]);
    if is_unsupported_verb(action) {
        assert(action[0] == 'c' || action[0] == 'd');
        assert(action != "start"@ && action != "stop"@ && action != "pause"@ && action != "getinfo"@
            && action != "list"@ && action != "remove"@);
        assert(action.len() != "createpipeline"@.len() || action[6] != 'p');
    }
}

} // verus!
