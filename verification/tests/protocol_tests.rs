use fcastsender::backend::gstpop::client::{authorization_key, call_failure_text, route_frame, CallFailure, FrameRoute};
use fcastsender::backend::gstpop::protocol::{classify, ClassifiedFrame, Event};
use fcastsender::json::JsonValue;

#[test]
fn classifies_state_changed_event() {
    let text = r#"{"event":"state_changed","data":{"pipeline_id":"0","old_state":"paused","new_state":"playing"}}"#;
    match classify(text) {
        ClassifiedFrame::Event(Event::StateChanged { pipeline_id, new_state, .. }) => {
            assert_eq!(pipeline_id, "0");
            assert_eq!(new_state, "playing");
        }
        _ => panic!("unexpected frame"),
    }
}

#[test]
fn classifies_response_with_string_id() {
    let text = r#"{"id":"abc","result":{"pipeline_id":"0"}}"#;
    match classify(text) {
        ClassifiedFrame::Response(response) => {
            assert_eq!(response.id_as_str(), Some("abc".to_owned()));
            assert!(response.error.is_none());
        }
        _ => panic!("unexpected frame"),
    }
}

#[test]
fn unknown_event_falls_back_to_other() {
    let text = r#"{"event":"future_unknown","data":{}}"#;
    match classify(text) {
        ClassifiedFrame::Event(Event::Other) => {}
        _ => panic!("unexpected frame"),
    }
}

#[test]
fn deserializes_a_full_pipeline_added_event() {
    let text = r#"{"event":"pipeline_added","data":{"pipeline_id":"7","description":"videotestsrc ! autovideosink"}}"#;
    match classify(text) {
        ClassifiedFrame::Event(Event::PipelineAdded { pipeline_id, description }) => {
            assert_eq!(pipeline_id, "7");
            assert_eq!(description, "videotestsrc ! autovideosink");
        }
        _ => panic!("unexpected frame"),
    }
}

#[test]
fn response_with_error_does_not_yield_result() {
    let text = r#"{"id":"abc","error":{"code":-32000,"message":"Pipeline not found"}}"#;
    match classify(text) {
        ClassifiedFrame::Response(response) => {
            assert!(response.result.is_none());
            assert_eq!(response.error.as_ref().unwrap().code, -32000);
        }
        _ => panic!("unexpected frame"),
    }
}

#[test]
fn integer_id_responses_round_trip_to_string() {
    let text = r#"{"id":42,"result":{}}"#;
    match classify(text) {
        ClassifiedFrame::Response(response) => {
            assert_eq!(response.id_as_str(), Some("42".to_owned()));
        }
        _ => panic!("unexpected frame"),
    }
}

#[test]
fn garbage_and_id_less_frames_go_nowhere() {
    assert!(matches!(classify("not json"), ClassifiedFrame::Garbage));
    assert!(matches!(classify(r#"{"foo":1}"#), ClassifiedFrame::Garbage));
    assert!(matches!(route_frame("not json"), FrameRoute::Garbage));
    assert!(matches!(route_frame(r#"{"id":null,"result":{}}"#), FrameRoute::Skip));
}

#[test]
fn responses_are_delivered_to_their_call() {
    match route_frame(r#"{"id":"r1","result":{"count":2}}"#) {
        FrameRoute::Deliver { id, response } => {
            assert_eq!(id, "r1");
            let result = response.result.unwrap();
            assert_eq!(result.get("count").and_then(|c| c.as_u64()), Some(2));
        }
        _ => panic!("expected a delivery"),
    }
    match route_frame(r#"{"event":"eos","data":{"pipeline_id":"3"}}"#) {
        FrameRoute::Publish(Event::Eos { pipeline_id }) => assert_eq!(pipeline_id, "3"),
        _ => panic!("expected an event"),
    }
}

#[test]
fn empty_api_key_sends_no_authorization() {
    assert_eq!(authorization_key(&None), None);
    assert_eq!(authorization_key(&Some(String::new())), None);
    assert_eq!(authorization_key(&Some("mock-key".to_owned())), Some("mock-key".to_owned()));
}

#[test]
fn call_failures_name_the_method() {
    assert_eq!(
        call_failure_text("get_version", CallFailure::ChannelClosed),
        "get_version: channel closed (ws likely disconnected)"
    );
    assert_eq!(call_failure_text("play", CallFailure::TimedOut), "play timed out after 30s");
}

#[test]
fn json_text_matches_serde_compact_form() {
    let v = JsonValue::Object(vec![
        ("a".to_owned(), JsonValue::Str("x\"y\n".to_owned())),
        ("b".to_owned(), JsonValue::Array(vec![JsonValue::Null, JsonValue::Bool(true)])),
    ]);
    assert_eq!(v.to_json_text(), r#"{"a":"x\"y\n","b":[null,true]}"#);
}
