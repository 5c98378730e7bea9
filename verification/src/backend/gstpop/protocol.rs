//! The gst-pop JSON-RPC wire protocol: requests, responses, events, and the
//! classification of incoming text frames.

use vstd::prelude::*;
use crate::json::{
    entries_lookup, entries_view, json_get, json_text, lemma_entries_view, lemma_items_view,
    items_view, number_int, Json, JsonValue,
};
use crate::text::{all_digits, chars_of, digits_to_u64, digits_value, is_digit, push_decimal, push_signed_decimal, push_str, signed_decimal};

verus! {

/// Name for what serde_json reads from a text: the parsed document, or the
/// text of the error that rejects it.
pub uninterp spec fn json_read(text: Seq<char>) -> Result<Json, Seq<char>>;

/// The document a text holds, if it is JSON.
pub open spec fn json_parse(text: Seq<char>) -> Option<Json> {
    match json_read(text) {
        Ok(j) => Some(j),
        Err(_) => None,
    }
}

/// Reads JSON text (serde_json `from_str` into a `Value`), converting the
/// document one for one into a [`JsonValue`] and the error into its text.
/// The contract claims that the result is the named reading of the text;
/// how serde_json parses is not restated here.
#[verifier::external_body]
pub(crate) fn read_json(text: &str) -> (r: Result<JsonValue, String>)
    ensures
        match r {
            Ok(v) => json_read(text@) == Ok::<Json, Seq<char>>(v@),
            Err(e) => json_read(text@) == Err::<Json, Seq<char>>(e@),
        },
{
    match serde_json::from_str::<serde_json::Value>(text) {
        Ok(v) => Ok(crate::json::from_serde(&v)),
        Err(e) => Err(e.to_string()),
    }
}

/// Parses JSON text: the document, or `None` when the text is not JSON.
pub fn parse_json(text: &str) -> (r: Option<JsonValue>)
    ensures
        match r {
            Some(v) => json_parse(text@) == Some(v@),
            None => json_parse(text@) is None,
        },
{
    match read_json(text) {
        Ok(v) => Some(v),
        Err(_) => None,
    }
}

/// A JSON-RPC request to the daemon.
pub struct Request {
    pub id: String,
    pub method: String,
    pub params: JsonValue,
}

/// The JSON document of a request: fields `id`, `method`, `params` in that
/// order.
pub open spec fn request_json(id: Seq<char>, method: Seq<char>, params: Json) -> Json {
    Json::Object(seq![("id"@, Json::Str(id)), ("method"@, Json::Str(method)), ("params"@, params)])
}

impl Request {
    /// A request with a fresh random id.
    pub fn new(method: &str, params: JsonValue) -> (r: Request)
        ensures
            r.method@ == method@,
            r.params@ == params@,
            crate::ident::is_uuid_text(r.id@),
    {
        Request { id: crate::ident::new_uuid_v4_string(), method: method.to_owned(), params }
    }

    /// The request as sent on the wire.
    pub fn to_json_text(&self) -> (out: String)
        ensures
            out@ == json_text(request_json(self.id@, self.method@, self.params@)),
    {
        let es = vec![
            ("id".to_owned(), JsonValue::Str(self.id.clone())),
            ("method".to_owned(), JsonValue::Str(self.method.clone())),
            ("params".to_owned(), self.params.duplicate()),
        ];
        proof {
            reveal_strlit("id");
            reveal_strlit("method");
            reveal_strlit("params");
            lemma_entries_view(es@);
            assert(entries_view(es@) =~= seq![("id"@, Json::Str(self.id@)), ("method"@, Json::Str(self.method@)), ("params"@, self.params@)]);
        }
        let doc = JsonValue::Object(es);
        doc.to_json_text()
    }
}

/// An error object returned by the daemon.
#[derive(Debug)]
pub struct RpcError {
    pub code: i32,
    pub message: String,
}

/// The text `gst-pop error (<code>): <message>`.
pub open spec fn rpc_error_text(code: int, message: Seq<char>) -> Seq<char> {
    "gst-pop error ("@ + signed_decimal(code) + "): "@ + message
}

impl RpcError {
    /// The human-readable form of the error.
    pub fn display_string(&self) -> (s: String)
        ensures
            s@ == rpc_error_text(self.code as int, self.message@),
    {
        let mut s = String::new();
        push_str(&mut s, "gst-pop error (");
        push_signed_decimal(&mut s, self.code as i64);
        push_str(&mut s, "): ");
        push_str(&mut s, self.message.as_str());
        assert(s@ =~= rpc_error_text(self.code as int, self.message@));
        s
    }
}

/// A response frame from the daemon.
pub struct Response {
    pub id: JsonValue,
    pub result: Option<JsonValue>,
    pub error: Option<RpcError>,
}

/// The mathematical form of a [`Response`].
pub ghost struct ResponseView {
    pub id: Json,
    pub result: Option<Json>,
    pub error: Option<(int, Seq<char>)>,
}

impl View for Response {
    type V = ResponseView;

    open spec fn view(&self) -> ResponseView {
        ResponseView {
            id: self.id@,
            result: match self.result {
                Some(r) => Some(r@),
                None => None,
            },
            error: match self.error {
                Some(e) => Some((e.code as int, e.message@)),
                None => None,
            },
        }
    }
}

/// The response id as text: a string id as is, a missing id as nothing, any
/// other id as its JSON text.
pub open spec fn id_text(id: Json) -> Option<Seq<char>> {
    match id {
        Json::Str(s) => Some(s),
        Json::Null => None,
        other => Some(json_text(other)),
    }
}

impl Response {
    /// The response id as a string, for matching it to its request.
    pub fn id_as_str(&self) -> (r: Option<String>)
        ensures
            match r {
                Some(s) => id_text(self.id@) == Some(s@),
                None => id_text(self.id@) is None,
            },
    {
        match &self.id {
            JsonValue::Str(s) => Some(s.clone()),
            JsonValue::Null => None,
            other => Some(other.to_json_text()),
        }
    }
}

/// A daemon event.
#[derive(Clone, Debug)]
pub enum Event {
    StateChanged { pipeline_id: String, old_state: String, new_state: String },
    Error { pipeline_id: String, message: String },
    Unsupported { pipeline_id: String, message: String },
    Eos { pipeline_id: String },
    PipelineAdded { pipeline_id: String, description: String },
    PipelineUpdated { pipeline_id: String, description: String },
    PipelineRemoved { pipeline_id: String },
    Other,
}

/// The mathematical form of an [`Event`].
pub ghost enum EventView {
    StateChanged { pipeline_id: Seq<char>, old_state: Seq<char>, new_state: Seq<char> },
    Error { pipeline_id: Seq<char>, message: Seq<char> },
    Unsupported { pipeline_id: Seq<char>, message: Seq<char> },
    Eos { pipeline_id: Seq<char> },
    PipelineAdded { pipeline_id: Seq<char>, description: Seq<char> },
    PipelineUpdated { pipeline_id: Seq<char>, description: Seq<char> },
    PipelineRemoved { pipeline_id: Seq<char> },
    Other,
}

impl View for Event {
    type V = EventView;

    open spec fn view(&self) -> EventView {
        match self {
            Event::StateChanged { pipeline_id, old_state, new_state } => EventView::StateChanged {
                pipeline_id: pipeline_id@,
                old_state: old_state@,
                new_state: new_state@,
            },
            Event::Error { pipeline_id, message } => EventView::Error { pipeline_id: pipeline_id@, message: message@ },
            Event::Unsupported { pipeline_id, message } => EventView::Unsupported { pipeline_id: pipeline_id@, message: message@ },
            Event::Eos { pipeline_id } => EventView::Eos { pipeline_id: pipeline_id@ },
            Event::PipelineAdded { pipeline_id, description } => EventView::PipelineAdded { pipeline_id: pipeline_id@, description: description@ },
            Event::PipelineUpdated { pipeline_id, description } => EventView::PipelineUpdated { pipeline_id: pipeline_id@, description: description@ },
            Event::PipelineRemoved { pipeline_id } => EventView::PipelineRemoved { pipeline_id: pipeline_id@ },
            Event::Other => EventView::Other,
        }
    }
}

/// A string field of a struct-shaped payload: by name in an object, or by
/// position in an array holding exactly `n` items.
pub open spec fn struct_str_field(data: Json, name: Seq<char>, pos: int, n: int) -> Option<Seq<char>> {
    match data {
        Json::Object(entries) => match entries_lookup(entries, name) {
            Some(Json::Str(s)) => Some(s),
            _ => None,
        },
        Json::Array(items) => if items.len() == n {
            match items[pos] {
                Json::Str(s) => Some(s),
                _ => None,
            }
        } else {
            None
        },
        _ => None,
    }
}

/// An integer field fitting an `i32`, by name or by position as above.
pub open spec fn struct_i32_field(data: Json, name: Seq<char>, pos: int, n: int) -> Option<int> {
    let v = match data {
        Json::Object(entries) => entries_lookup(entries, name),
        Json::Array(items) => if items.len() == n { Some(items[pos]) } else { None },
        _ => None,
    };
    match v {
        Some(Json::Number(t)) => match number_int(t) {
            Some(k) => if i32::MIN <= k <= i32::MAX { Some(k) } else { None },
            None => None,
        },
        _ => None,
    }
}

/// The event named by the `event` tag with its fields from `data`; any
/// frame that does not decode is [`EventView::Other`].
pub open spec fn decode_event(v: Json) -> EventView {
    let data = json_get(v, "data"@);
    match json_get(v, "event"@) {
        Some(Json::Str(tag)) => match data {
            Some(d) => if tag == "state_changed"@ {
                match (struct_str_field(d, "pipeline_id"@, 0, 3), struct_str_field(d, "old_state"@, 1, 3), struct_str_field(d, "new_state"@, 2, 3)) {
                    (Some(p), Some(o), Some(nw)) => EventView::StateChanged { pipeline_id: p, old_state: o, new_state: nw },
                    _ => EventView::Other,
                }
            } else if tag == "error"@ || tag == "unsupported"@ {
                match (struct_str_field(d, "pipeline_id"@, 0, 2), struct_str_field(d, "message"@, 1, 2)) {
                    (Some(p), Some(m)) => if tag == "error"@ {
                        EventView::Error { pipeline_id: p, message: m }
                    } else {
                        EventView::Unsupported { pipeline_id: p, message: m }
                    },
                    _ => EventView::Other,
                }
            } else if tag == "pipeline_added"@ || tag == "pipeline_updated"@ {
                match (struct_str_field(d, "pipeline_id"@, 0, 2), struct_str_field(d, "description"@, 1, 2)) {
                    (Some(p), Some(ds)) => if tag == "pipeline_added"@ {
                        EventView::PipelineAdded { pipeline_id: p, description: ds }
                    } else {
                        EventView::PipelineUpdated { pipeline_id: p, description: ds }
                    },
                    _ => EventView::Other,
                }
            } else if tag == "eos"@ || tag == "pipeline_removed"@ {
                match struct_str_field(d, "pipeline_id"@, 0, 1) {
                    Some(p) => if tag == "eos"@ {
                        EventView::Eos { pipeline_id: p }
                    } else {
                        EventView::PipelineRemoved { pipeline_id: p }
                    },
                    None => EventView::Other,
                }
            } else {
                EventView::Other
            },
            None => EventView::Other,
        },
        _ => EventView::Other,
    }
}

/// An optional field: absent or `null` reads as nothing.
pub open spec fn optional_field(v: Json, name: Seq<char>) -> Option<Json> {
    match json_get(v, name) {
        Some(Json::Null) => None,
        other => other,
    }
}

/// The error object of a response, when it decodes.
pub open spec fn decode_rpc_error(e: Json) -> Option<(int, Seq<char>)> {
    match (struct_i32_field(e, "code"@, 0, 2), struct_str_field(e, "message"@, 1, 2)) {
        (Some(c), Some(m)) => Some((c, m)),
        _ => None,
    }
}

/// The response carried by an object frame, or `None` when its `error`
/// member does not decode.
pub open spec fn decode_response(v: Json) -> Option<ResponseView> {
    let id = match json_get(v, "id"@) {
        Some(x) => x,
        None => Json::Null,
    };
    match optional_field(v, "error"@) {
        None => Some(ResponseView { id, result: optional_field(v, "result"@), error: None }),
        Some(e) => match decode_rpc_error(e) {
            Some(err) => Some(ResponseView { id, result: optional_field(v, "result"@), error: Some(err) }),
            None => None,
        },
    }
}

/// What an incoming frame is.
pub enum ClassifiedFrame {
    Response(Response),
    Event(Event),
    Garbage,
}

/// The mathematical form of a [`ClassifiedFrame`].
pub ghost enum FrameView {
    Response(ResponseView),
    Event(EventView),
    Garbage,
}

impl View for ClassifiedFrame {
    type V = FrameView;

    open spec fn view(&self) -> FrameView {
        match self {
            ClassifiedFrame::Response(r) => FrameView::Response(r@),
            ClassifiedFrame::Event(e) => FrameView::Event(e@),
            ClassifiedFrame::Garbage => FrameView::Garbage,
        }
    }
}

/// How a parsed frame is classified: a frame with an `event` member is an
/// event, else one with an `id` member is a response, else garbage.
pub open spec fn classify_json(parsed: Option<Json>) -> FrameView {
    match parsed {
        None => FrameView::Garbage,
        Some(v) => if json_get(v, "event"@) is Some {
            FrameView::Event(decode_event(v))
        } else if json_get(v, "id"@) is Some {
            match decode_response(v) {
                Some(r) => FrameView::Response(r),
                None => FrameView::Garbage,
            }
        } else {
            FrameView::Garbage
        },
    }
}

/// The `i32` written by a number text, when it is an integer in range.
pub fn number_to_i32(t: &String) -> (r: Option<i32>)
    ensures
        match r {
            Some(k) => number_int(t@) == Some(k as int),
            None => match number_int(t@) {
                Some(k) => !(i32::MIN <= k <= i32::MAX),
                None => true,
            },
        },
{
    let tc = chars_of(t.as_str());
    let n = tc.len();
    assert(tc@.subrange(0, n as int) =~= tc@);
    if n > 0 && crate::text::all_digits_in(&tc, 0, n) {
        match digits_to_u64(&tc, 0, n) {
            Some(v) => if v <= 2147483647 { Some(v as i32) } else { None },
            None => None,
        }
    } else if n > 1 && tc[0] == '-' {
        assert(tc@.subrange(1, n as int) =~= tc@.drop_first());
        if crate::text::all_digits_in(&tc, 1, n) {
            match digits_to_u64(&tc, 1, n) {
                Some(v) => if v <= 2147483648 {
                    let k: i64 = -(v as i64);
                    Some(k as i32)
                } else {
                    None
                },
                None => None,
            }
        } else {
            None
        }
    } else {
        None
    }
}

/// A string field of a struct-shaped payload (see [`struct_str_field`]).
pub fn str_field(data: &JsonValue, name: &str, pos: usize, n: usize) -> (r: Option<String>)
    requires
        pos < n,
    ensures
        match r {
            Some(s) => struct_str_field(data@, name@, pos as int, n as int) == Some(s@),
            None => struct_str_field(data@, name@, pos as int, n as int) is None,
        },
{
    match data {
        JsonValue::Object(_) => match data.get(name) {
            Some(JsonValue::Str(s)) => Some(s.clone()),
            _ => None,
        },
        JsonValue::Array(items) => {
            proof { lemma_items_view(items@); }
            if items.len() == n {
                match &items[pos] {
                    JsonValue::Str(s) => Some(s.clone()),
                    _ => None,
                }
            } else {
                None
            }
        },
        _ => None,
    }
}

/// An `i32` field of a struct-shaped payload (see [`struct_i32_field`]).
pub fn i32_field(data: &JsonValue, name: &str, pos: usize, n: usize) -> (r: Option<i32>)
    requires
        pos < n,
    ensures
        match r {
            Some(k) => struct_i32_field(data@, name@, pos as int, n as int) == Some(k as int),
            None => struct_i32_field(data@, name@, pos as int, n as int) is None,
        },
{
    let v: Option<&JsonValue> = match data {
        JsonValue::Object(_) => data.get(name),
        JsonValue::Array(items) => {
            proof { lemma_items_view(items@); }
            if items.len() == n { Some(&items[pos]) } else { None }
        },
        _ => None,
    };
    match v {
        Some(JsonValue::Number(t)) => number_to_i32(t),
        _ => None,
    }
}

/// Decodes an event frame (see [`decode_event`]).
pub fn event_from_json(v: &JsonValue) -> (e: Event)
    ensures
        e@ == decode_event(v@),
{
    let data = v.get("data");
    match v.get("event") {
        Some(JsonValue::Str(tag)) => match data {
            Some(d) => {
                let t = tag.as_str();
                if crate::text::str_eq(t, "state_changed") {
                    match (str_field(d, "pipeline_id", 0, 3), str_field(d, "old_state", 1, 3), str_field(d, "new_state", 2, 3)) {
                        (Some(p), Some(o), Some(nw)) => Event::StateChanged { pipeline_id: p, old_state: o, new_state: nw },
                        _ => Event::Other,
                    }
                } else if crate::text::str_eq(t, "error") || crate::text::str_eq(t, "unsupported") {
                    match (str_field(d, "pipeline_id", 0, 2), str_field(d, "message", 1, 2)) {
                        (Some(p), Some(m)) => if crate::text::str_eq(t, "error") {
                            Event::Error { pipeline_id: p, message: m }
                        } else {
                            Event::Unsupported { pipeline_id: p, message: m }
                        },
                        _ => Event::Other,
                    }
                } else if crate::text::str_eq(t, "pipeline_added") || crate::text::str_eq(t, "pipeline_updated") {
                    match (str_field(d, "pipeline_id", 0, 2), str_field(d, "description", 1, 2)) {
                        (Some(p), Some(ds)) => if crate::text::str_eq(t, "pipeline_added") {
                            Event::PipelineAdded { pipeline_id: p, description: ds }
                        } else {
                            Event::PipelineUpdated { pipeline_id: p, description: ds }
                        },
                        _ => Event::Other,
                    }
                } else if crate::text::str_eq(t, "eos") || crate::text::str_eq(t, "pipeline_removed") {
                    match str_field(d, "pipeline_id", 0, 1) {
                        Some(p) => if crate::text::str_eq(t, "eos") {
                            Event::Eos { pipeline_id: p }
                        } else {
                            Event::PipelineRemoved { pipeline_id: p }
                        },
                        None => Event::Other,
                    }
                } else {
                    Event::Other
                }
            },
            None => Event::Other,
        },
        _ => Event::Other,
    }
}

/// An optional member: absent or `null` reads as nothing.
fn optional_member<'a>(v: &'a JsonValue, name: &str) -> (r: Option<&'a JsonValue>)
    ensures
        match r {
            Some(x) => optional_field(v@, name@) == Some(x@),
            None => optional_field(v@, name@) is None,
        },
{
    match v.get(name) {
        Some(x) => if x.is_null() { None } else { Some(x) },
        None => None,
    }
}

/// Decodes a response frame (see [`decode_response`]).
pub fn response_from_json(v: &JsonValue) -> (r: Option<Response>)
    ensures
        match r {
            Some(resp) => decode_response(v@) == Some(resp@),
            None => decode_response(v@) is None,
        },
{
    let id = match v.get("id") {
        Some(x) => x.duplicate(),
        None => JsonValue::Null,
    };
    let result = match optional_member(v, "result") {
        Some(x) => Some(x.duplicate()),
        None => None,
    };
    match optional_member(v, "error") {
        None => Some(Response { id, result, error: None }),
        Some(e) => match (i32_field(e, "code", 0, 2), str_field(e, "message", 1, 2)) {
            (Some(code), Some(message)) => Some(Response { id, result, error: Some(RpcError { code, message }) }),
            _ => None,
        },
    }
}

/// Classifies an already-parsed frame (see [`classify_json`]).
pub fn classify_value(parsed: Option<JsonValue>) -> (f: ClassifiedFrame)
    ensures
        f@ == classify_json(match parsed {
            Some(v) => Some(v@),
            None => None,
        }),
{
    match parsed {
        None => ClassifiedFrame::Garbage,
        Some(v) => {
            if v.get("event").is_some() {
                ClassifiedFrame::Event(event_from_json(&v))
            } else if v.get("id").is_some() {
                match response_from_json(&v) {
                    Some(r) => ClassifiedFrame::Response(r),
                    None => ClassifiedFrame::Garbage,
                }
            } else {
                ClassifiedFrame::Garbage
            }
        },
    }
}

/// Classifies an incoming text frame: not JSON is garbage; otherwise as
/// [`classify_value`] says.
pub fn classify(text: &str) -> (f: ClassifiedFrame)
    ensures
        f@ == classify_json(json_parse(text@)),
{
    classify_value(parse_json(text))
}

/// A frame tagged `error` or `unsupported` whose data object names the
/// pipeline and the message decodes to the event of that tag carrying
/// exactly those two strings: `error` gives the error event,
/// `unsupported` the unsupported one, and the two are never confused.
pub proof fn law_error_frames_decode(v: Json, d: Json, p: Seq<char>, m: Seq<char>)
    requires
        json_get(v, "data"@) == Some(d),
        json_get(d, "pipeline_id"@) == Some(Json::Str(p)),
        json_get(d, "message"@) == Some(Json::Str(m)),
    ensures
        json_get(v, "event"@) == Some(Json::Str("error"@)) ==> classify_json(Some(v))
            == FrameView::Event(EventView::Error { pipeline_id: p, message: m }),
        json_get(v, "event"@) == Some(Json::Str("unsupported"@)) ==> classify_json(Some(v))
            == FrameView::Event(EventView::Unsupported { pipeline_id: p, message: m }),
{
    reveal_strlit("error");
    reveal_strlit("unsupported");
    reveal_strlit("state_changed");
    assert("error"@[0] != "state_changed"@[0]);
    assert("unsupported"@[0] != "state_changed"@[0]);
    assert("unsupported"@[0] != "error"@[0]);
}

/// Each other event tag decodes to its own event, carrying the strings
/// its data object names: `state_changed` the pipeline and both states,
/// `eos` and `pipeline_removed` the pipeline, `pipeline_added` and
/// `pipeline_updated` the pipeline and its description.
pub proof fn law_event_tags_decode(v: Json, d: Json, p: Seq<char>, a: Seq<char>, b: Seq<char>)
    requires
        json_get(v, "data"@) == Some(d),
        json_get(d, "pipeline_id"@) == Some(Json::Str(p)),
    ensures
        json_get(v, "event"@) == Some(Json::Str("state_changed"@))
            && json_get(d, "old_state"@) == Some(Json::Str(a)) && json_get(d, "new_state"@) == Some(Json::Str(b))
            ==> classify_json(Some(v)) == FrameView::Event(EventView::StateChanged { pipeline_id: p, old_state: a, new_state: b }),
        json_get(v, "event"@) == Some(Json::Str("eos"@))
            ==> classify_json(Some(v)) == FrameView::Event(EventView::Eos { pipeline_id: p }),
        json_get(v, "event"@) == Some(Json::Str("pipeline_removed"@))
            ==> classify_json(Some(v)) == FrameView::Event(EventView::PipelineRemoved { pipeline_id: p }),
        json_get(v, "event"@) == Some(Json::Str("pipeline_added"@)) && json_get(d, "description"@) == Some(Json::Str(a))
            ==> classify_json(Some(v)) == FrameView::Event(EventView::PipelineAdded { pipeline_id: p, description: a }),
        json_get(v, "event"@) == Some(Json::Str("pipeline_updated"@)) && json_get(d, "description"@) == Some(Json::Str(a))
            ==> classify_json(Some(v)) == FrameView::Event(EventView::PipelineUpdated { pipeline_id: p, description: a }),
{
    reveal_strlit("error");
    reveal_strlit("unsupported");
    reveal_strlit("state_changed");
    reveal_strlit("eos");
    reveal_strlit("pipeline_removed");
    reveal_strlit("pipeline_added");
    reveal_strlit("pipeline_updated");
    assert("eos"@[0] != "state_changed"@[0] && "eos"@[1] != "error"@[1] && "eos"@[0] != "unsupported"@[0]
        && "eos"@[0] != "pipeline_added"@[0]);
    assert("pipeline_removed"@[0] != "state_changed"@[0] && "pipeline_removed"@[0] != "error"@[0]
        && "pipeline_removed"@[0] != "unsupported"@[0] && "pipeline_removed"@[9] != "pipeline_added"@[9]
        && "pipeline_removed"@[9] != "pipeline_updated"@[9] && "pipeline_removed"@[0] != "eos"@[0]);
    assert("pipeline_added"@[0] != "state_changed"@[0] && "pipeline_added"@[0] != "error"@[0]
        && "pipeline_added"@[0] != "unsupported"@[0] && "pipeline_added"@[9] != "pipeline_updated"@[9]);
    assert("pipeline_updated"@[0] != "state_changed"@[0] && "pipeline_updated"@[0] != "error"@[0]
        && "pipeline_updated"@[0] != "unsupported"@[0]);
}

} // verus!
