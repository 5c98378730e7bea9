//! The gst-pop JSON-RPC client: the key it authenticates with, where each
//! frame read from the daemon goes, and how a call that got no answer
//! fails. The socket, the pending-call table and the event channel belong
//! to the platform.

use vstd::prelude::*;
use super::protocol::{
    classify, classify_json, id_text, json_parse, ClassifiedFrame, Event, EventView, FrameView,
    Response, ResponseView,
};
use crate::backend::lifecycle::{opt_view, usable_key};
use crate::text::{owned, push_str};

verus! {

/// How long a call waits for its response, in seconds.
pub const REQUEST_TIMEOUT_SECS: u64 = 30;

/// How many events the client buffers for its subscribers.
pub const EVENT_CAPACITY: usize = 64;

/// The key sent in the `Authorization` header: the API key, unless it is
/// absent or empty.
pub fn authorization_key(api_key: &Option<String>) -> (r: Option<String>)
    ensures
        opt_view(r) == usable_key(*api_key),
{
    match api_key {
        Some(k) => if k.as_str().is_empty() { None } else { Some(k.clone()) },
        None => None,
    }
}

/// Where a text frame from the daemon goes.
pub enum FrameRoute {
    /// To the pending call with this id.
    Deliver { id: String, response: Response },
    /// To the event subscribers.
    Publish(Event),
    /// Nowhere: a response without an id.
    Skip,
    /// Nowhere, with a warning: the frame is neither.
    Garbage,
}

/// Where a frame goes.
pub ghost enum RouteView {
    Deliver { id: Seq<char>, response: ResponseView },
    Publish(EventView),
    Skip,
    Garbage,
}

impl View for FrameRoute {
    type V = RouteView;

    open spec fn view(&self) -> RouteView {
        match self {
            FrameRoute::Deliver { id, response } => RouteView::Deliver { id: id@, response: response@ },
            FrameRoute::Publish(e) => RouteView::Publish(e@),
            FrameRoute::Skip => RouteView::Skip,
            FrameRoute::Garbage => RouteView::Garbage,
        }
    }
}

/// Where the frame `text` goes: a response to the call its id names (a
/// response without an id is dropped), an event to the subscribers,
/// anything else nowhere.
pub open spec fn route_of(text: Seq<char>) -> RouteView {
    match classify_json(json_parse(text)) {
        FrameView::Response(r) => match id_text(r.id) {
            Some(id) => RouteView::Deliver { id, response: r },
            None => RouteView::Skip,
        },
        FrameView::Event(e) => RouteView::Publish(e),
        FrameView::Garbage => RouteView::Garbage,
    }
}

/// Where the text frame `text` goes (see [`route_of`]).
pub fn route_frame(text: &str) -> (r: FrameRoute)
    ensures
        r@ == route_of(text@),
{
    match classify(text) {
        ClassifiedFrame::Response(response) => match response.id_as_str() {
            Some(id) => FrameRoute::Deliver { id, response },
            None => FrameRoute::Skip,
        },
        ClassifiedFrame::Event(e) => FrameRoute::Publish(e),
        ClassifiedFrame::Garbage => FrameRoute::Garbage,
    }
}

/// Why a call got no response.
#[derive(Clone, Copy, Debug, PartialEq, Eq, Structural)]
pub enum CallFailure {
    /// The reader stopped: the socket was closed.
    ChannelClosed,
    /// No response came within [`REQUEST_TIMEOUT_SECS`].
    TimedOut,
}

/// The error of a call of `method` that got no response.
pub fn call_failure_text(method: &str, failure: CallFailure) -> (s: String)
    ensures
        s@ == match failure {
            CallFailure::ChannelClosed => method@ + ": channel closed (ws likely disconnected)"@,
            CallFailure::TimedOut => method@ + " timed out after 30s"@,
        },
{
    let mut s = owned(method);
    match failure {
        CallFailure::ChannelClosed => push_str(&mut s, ": channel closed (ws likely disconnected)"),
        CallFailure::TimedOut => push_str(&mut s, " timed out after 30s"),
    }
    s
}

} // verus!
