use fcastsender::command::legacy_tests::{crossfade_report, crossfade_script, GraphScript};
use fcastsender::command::script_run::{ScriptAction, ScriptRun};
use fcastsender::json::JsonValue;

/// Drives `run` with replies from `answer`, recording every command sent.
fn drive(
    mut run: ScriptRun,
    mut answer: impl FnMut(usize, &str) -> Result<JsonValue, String>,
) -> (Vec<(String, String)>, Result<JsonValue, String>) {
    let mut sent = Vec::new();
    loop {
        match run.next() {
            ScriptAction::Send { action, params } => {
                let id = params
                    .get("id")
                    .and_then(|v| v.as_str())
                    .cloned()
                    .unwrap_or_default();
                let reply = answer(sent.len(), &action);
                sent.push((action, id));
                run.on_reply(reply);
            }
            ScriptAction::Finish(outcome) => return (sent, outcome),
        }
    }
}

fn actions(sent: &[(String, String)]) -> Vec<&str> {
    sent.iter().map(|(a, _)| a.as_str()).collect()
}

#[test]
fn crossfade_run_passes_and_removes_everything() {
    let (sent, outcome) = drive(ScriptRun::new(crossfade_script(7)), |_, _| Ok(JsonValue::Null));
    assert_eq!(
        actions(&sent),
        vec![
            "createmixer", "createdestination", "connect", "start", "start",
            "createvideogenerator", "connect", "start", "getinfo", "remove", "remove", "remove",
        ]
    );
    assert_eq!(sent[9].1, "legacy-source-slot-7");
    assert_eq!(sent[10].1, "legacy-output-7");
    assert_eq!(sent[11].1, "legacy-channel-7");
    let report = crossfade_report(7, &outcome);
    assert!(report.starts_with("PASS legacy crossfade bootstrap ok mixer=legacy-channel-7"));
}

#[test]
fn crossfade_run_stops_at_first_failure_and_removes_created() {
    let (sent, outcome) = drive(ScriptRun::new(crossfade_script(7)), |i, _| {
        if i == 2 { Err("link refused".to_owned()) } else { Ok(JsonValue::Null) }
    });
    assert_eq!(actions(&sent), vec!["createmixer", "createdestination", "connect", "remove", "remove"]);
    assert_eq!(sent[3].1, "legacy-output-7");
    assert_eq!(sent[4].1, "legacy-channel-7");
    assert_eq!(crossfade_report(7, &outcome), "FAIL link refused");
}

#[test]
fn crossfade_run_failing_first_command_sends_no_removal() {
    let (sent, outcome) = drive(ScriptRun::new(crossfade_script(7)), |_, _| Err("down".to_owned()));
    assert_eq!(actions(&sent), vec!["createmixer"]);
    assert_eq!(crossfade_report(7, &outcome), "FAIL down");
}

#[test]
fn server_start_failure_sends_nothing() {
    match ScriptRun::after_server_start(crossfade_script(7), Err("bind failed".to_owned())) {
        Ok(_) => panic!("a run without a server"),
        Err(e) => assert_eq!(crossfade_report(7, &Err(e)), "FAIL bind failed"),
    }
    assert!(ScriptRun::after_server_start(crossfade_script(7), Ok(())).is_ok());
}

#[test]
fn empty_script_finishes_with_null() {
    let script = GraphScript { steps: Vec::new(), cleanup: Vec::new() };
    let (sent, outcome) = drive(ScriptRun::new(script), |_, _| Ok(JsonValue::Null));
    assert!(sent.is_empty());
    assert!(matches!(outcome, Ok(JsonValue::Null)));
}
