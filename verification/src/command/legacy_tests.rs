//! The debug UI's migration smoke tests: their log names, command scripts,
//! and how their outcomes are reported.

use vstd::prelude::*;
use crate::backend::migration_backend::node_count;
use crate::json::{
    empty_object, entries_view, json_get, number_u64, object1, push_entry, Json, JsonValue,
};
use crate::text::{decimal, owned, push_decimal, push_str, str_eq, str_starts_with, starts_with_seq};

verus! {

/// The log name of a migration test id.
pub open spec fn test_log_name(test_id: Seq<char>) -> Seq<char> {
    if test_id == "getinfo"@ {
        "legacy-getinfo"@
    } else if test_id == "crossfade"@ {
        "legacy-crossfade"@
    } else if test_id == "smoke"@ {
        "graph-smoke"@
    } else {
        "unknown"@
    }
}

/// The name under which the outcome of migration test `test_id` is logged:
/// each known test has its own, every other id logs as `unknown`.
pub fn migration_test_log_name(test_id: &str) -> (r: &'static str)
    ensures
        r@ == test_log_name(test_id@),
{
    if str_eq(test_id, "getinfo") {
        "legacy-getinfo"
    } else if str_eq(test_id, "crossfade") {
        "legacy-crossfade"
    } else if str_eq(test_id, "smoke") {
        "graph-smoke"
    } else {
        "unknown"
    }
}


/// A JSON string.
pub open spec fn jstr(s: Seq<char>) -> Json {
    Json::Str(s)
}

/// A JSON number written in decimal.
pub open spec fn jnum(n: nat) -> Json {
    Json::Number(decimal(n))
}

/// The parameters `{"id": id}`.
pub open spec fn id_params(id: Seq<char>) -> Json {
    Json::Object(seq![("id"@, jstr(id))])
}

/// `prefix` followed by the decimal `millis`: the ids of a test run are
/// made unique by the time it started.
pub open spec fn stamped(prefix: Seq<char>, millis: u64) -> Seq<char> {
    prefix + decimal(millis as nat)
}

/// A series of graph commands, each an action with its parameters, and the
/// nodes removed afterwards: each `(n, id)` of `cleanup` removes node `id`
/// once at least `n` commands have succeeded, in the order listed.
pub struct GraphScript {
    pub steps: Vec<(String, JsonValue)>,
    pub cleanup: Vec<(usize, String)>,
}

/// What a script is.
pub ghost struct ScriptView {
    pub steps: Seq<(Seq<char>, Json)>,
    pub cleanup: Seq<(nat, Seq<char>)>,
}

/// The view of a cleanup list.
pub open spec fn cleanup_view(c: Seq<(usize, String)>) -> Seq<(nat, Seq<char>)> {
    c.map_values(|e: (usize, String)| (e.0 as nat, e.1@))
}

impl View for GraphScript {
    type V = ScriptView;

    open spec fn view(&self) -> ScriptView {
        ScriptView { steps: entries_view(self.steps@), cleanup: cleanup_view(self.cleanup@) }
    }
}

/// The remove commands sent after `completed` commands succeeded.
pub open spec fn cleanup_commands(cleanup: Seq<(nat, Seq<char>)>, completed: nat) -> Seq<(Seq<char>, Json)>
    decreases cleanup.len(),
{
    if cleanup.len() == 0 {
        Seq::empty()
    } else {
        let rest = cleanup_commands(cleanup.drop_last(), completed);
        if cleanup.last().0 <= completed {
            rest.push(("remove"@, id_params(cleanup.last().1)))
        } else {
            rest
        }
    }
}

/// The parameters `{"id": id}`.
fn id_object(id: &str) -> (v: JsonValue)
    ensures
        v@ == id_params(id@),
{
    object1("id", JsonValue::string(id))
}

/// `prefix` followed by the decimal `millis`.
fn stamp(prefix: &str, millis: u64) -> (s: String)
    ensures
        s@ == stamped(prefix@, millis),
{
    let mut s = owned(prefix);
    push_decimal(&mut s, millis);
    s
}

impl GraphScript {
    /// The remove commands to send once `completed` commands succeeded.
    pub fn cleanup_after(&self, completed: usize) -> (r: Vec<(String, JsonValue)>)
        ensures
            entries_view(r@) == cleanup_commands(self@.cleanup, completed as nat),
    {
        let mut r: Vec<(String, JsonValue)> = Vec::new();
        let mut i: usize = 0;
        while i < self.cleanup.len()
            invariant
                i <= self.cleanup.len(),
                entries_view(r@) == cleanup_commands(cleanup_view(self.cleanup@).take(i as int), completed as nat),
            decreases self.cleanup.len() - i,
        {
            proof {
                let c = cleanup_view(self.cleanup@);
                assert(c.take(i + 1).drop_last() =~= c.take(i as int));
            }
            let (n, id) = (self.cleanup[i].0, &self.cleanup[i].1);
            if n <= completed {
                push_entry(&mut r, "remove", id_object(id.as_str()));
            }
            i = i + 1;
        }
        proof {
            assert(cleanup_view(self.cleanup@).take(self.cleanup.len() as int) =~= cleanup_view(self.cleanup@));
        }
        r
    }
}

/// The ids of a crossfade run started at `millis`: mixer, destination,
/// mixer-to-destination link, slot source, and slot-to-mixer link.
pub open spec fn crossfade_ids(m: u64) -> (Seq<char>, Seq<char>, Seq<char>, Seq<char>, Seq<char>) {
    let mixer = stamped("legacy-channel-"@, m);
    let destination = stamped("legacy-output-"@, m);
    let slot = stamped("legacy-source-slot-"@, m);
    (
        mixer,
        destination,
        mixer + "->"@ + destination + "-"@ + decimal(m as nat),
        slot,
        slot + "->"@ + mixer + "-"@ + decimal(m as nat),
    )
}

/// The crossfade bootstrap: a 1280x720 mixer feeding a local playback
/// destination, started, then a video generator linked into the mixer on
/// layer 2, started, then `getinfo`. The slot source, destination and mixer
/// are removed afterwards, as far as they were created.
pub open spec fn crossfade_spec(m: u64) -> ScriptView {
    let (mixer, destination, link, slot, slot_link) = crossfade_ids(m);
    ScriptView {
        steps: seq![
            ("createmixer"@, Json::Object(seq![
                ("config"@, Json::Object(seq![
                    ("height"@, jnum(720)),
                    ("sample-rate"@, jnum(44100)),
                    ("width"@, jnum(1280)),
                ])),
                ("id"@, jstr(mixer)),
            ])),
            ("createdestination"@, Json::Object(seq![
                ("family"@, jstr("LocalPlayback"@)),
                ("id"@, jstr(destination)),
            ])),
            ("connect"@, Json::Object(seq![
                ("link_id"@, jstr(link)),
                ("sink_id"@, jstr(destination)),
                ("src_id"@, jstr(mixer)),
            ])),
            ("start"@, id_params(destination)),
            ("start"@, id_params(mixer)),
            ("createvideogenerator"@, id_params(slot)),
            ("connect"@, Json::Object(seq![
                ("audio"@, Json::Bool(false)),
                ("config"@, Json::Object(seq![
                    ("video::alpha"@, Json::Number("1.0"@)),
                    ("video::height"@, jnum(720)),
                    ("video::sizing-policy"@, jstr("keep-aspect-ratio"@)),
                    ("video::width"@, jnum(1280)),
                    ("video::zorder"@, jnum(2)),
                ])),
                ("link_id"@, jstr(slot_link)),
                ("sink_id"@, jstr(mixer)),
                ("src_id"@, jstr(slot)),
                ("video"@, Json::Bool(true)),
            ])),
            ("start"@, id_params(slot)),
            ("getinfo"@, Json::Object(Seq::empty())),
        ],
        cleanup: seq![(6nat, slot), (2nat, destination), (1nat, mixer)],
    }
}

/// The crossfade bootstrap script for a run started at `millis`.
pub fn crossfade_script(millis: u64) -> (s: GraphScript)
    ensures
        s@ == crossfade_spec(millis),
{
    let mixer = stamp("legacy-channel-", millis);
    let destination = stamp("legacy-output-", millis);
    let slot = stamp("legacy-source-slot-", millis);
    let mut link = mixer.clone();
    push_str(&mut link, "->");
    push_str(&mut link, destination.as_str());
    push_str(&mut link, "-");
    push_decimal(&mut link, millis);
    let mut slot_link = slot.clone();
    push_str(&mut slot_link, "->");
    push_str(&mut slot_link, mixer.as_str());
    push_str(&mut slot_link, "-");
    push_decimal(&mut slot_link, millis);
    let ghost ids = crossfade_ids(millis);
    proof {
        assert(link@ =~= ids.2);
        assert(slot_link@ =~= ids.4);
    }

    let mut steps: Vec<(String, JsonValue)> = Vec::new();

    let mut config: Vec<(String, JsonValue)> = Vec::new();
    push_entry(&mut config, "height", number_u64(720));
    push_entry(&mut config, "sample-rate", number_u64(44100));
    push_entry(&mut config, "width", number_u64(1280));
    proof {
        assert(entries_view(config@) =~= seq![
            ("height"@, jnum(720)),
            ("sample-rate"@, jnum(44100)),
            ("width"@, jnum(1280)),
        ]);
    }
    let mut mixer_params: Vec<(String, JsonValue)> = Vec::new();
    push_entry(&mut mixer_params, "config", JsonValue::Object(config));
    push_entry(&mut mixer_params, "id", JsonValue::string(mixer.as_str()));
    proof {
        assert(entries_view(mixer_params@) =~= seq![
            ("config"@, Json::Object(seq![
                ("height"@, jnum(720)),
                ("sample-rate"@, jnum(44100)),
                ("width"@, jnum(1280)),
            ])),
            ("id"@, jstr(ids.0)),
        ]);
    }
    push_entry(&mut steps, "createmixer", JsonValue::Object(mixer_params));

    let mut dest_params: Vec<(String, JsonValue)> = Vec::new();
    push_entry(&mut dest_params, "family", JsonValue::string("LocalPlayback"));
    push_entry(&mut dest_params, "id", JsonValue::string(destination.as_str()));
    proof {
        assert(entries_view(dest_params@) =~= seq![("family"@, jstr("LocalPlayback"@)), ("id"@, jstr(ids.1))]);
    }
    push_entry(&mut steps, "createdestination", JsonValue::Object(dest_params));

    let mut link_params: Vec<(String, JsonValue)> = Vec::new();
    push_entry(&mut link_params, "link_id", JsonValue::string(link.as_str()));
    push_entry(&mut link_params, "sink_id", JsonValue::string(destination.as_str()));
    push_entry(&mut link_params, "src_id", JsonValue::string(mixer.as_str()));
    proof {
        assert(entries_view(link_params@) =~= seq![
            ("link_id"@, jstr(ids.2)),
            ("sink_id"@, jstr(ids.1)),
            ("src_id"@, jstr(ids.0)),
        ]);
    }
    push_entry(&mut steps, "connect", JsonValue::Object(link_params));

    push_entry(&mut steps, "start", id_object(destination.as_str()));
    push_entry(&mut steps, "start", id_object(mixer.as_str()));
    push_entry(&mut steps, "createvideogenerator", id_object(slot.as_str()));

    let mut video: Vec<(String, JsonValue)> = Vec::new();
    push_entry(&mut video, "video::alpha", JsonValue::Number(owned("1.0")));
    push_entry(&mut video, "video::height", number_u64(720));
    push_entry(&mut video, "video::sizing-policy", JsonValue::string("keep-aspect-ratio"));
    push_entry(&mut video, "video::width", number_u64(1280));
    push_entry(&mut video, "video::zorder", number_u64(2));
    proof {
        assert(entries_view(video@) =~= seq![
            ("video::alpha"@, Json::Number("1.0"@)),
            ("video::height"@, jnum(720)),
            ("video::sizing-policy"@, jstr("keep-aspect-ratio"@)),
            ("video::width"@, jnum(1280)),
            ("video::zorder"@, jnum(2)),
        ]);
    }
    let mut slot_params: Vec<(String, JsonValue)> = Vec::new();
    push_entry(&mut slot_params, "audio", JsonValue::Bool(false));
    push_entry(&mut slot_params, "config", JsonValue::Object(video));
    push_entry(&mut slot_params, "link_id", JsonValue::string(slot_link.as_str()));
    push_entry(&mut slot_params, "sink_id", JsonValue::string(mixer.as_str()));
    push_entry(&mut slot_params, "src_id", JsonValue::string(slot.as_str()));
    push_entry(&mut slot_params, "video", JsonValue::Bool(true));
    proof {
        assert(entries_view(slot_params@) =~= seq![
            ("audio"@, Json::Bool(false)),
            ("config"@, Json::Object(seq![
                ("video::alpha"@, Json::Number("1.0"@)),
                ("video::height"@, jnum(720)),
                ("video::sizing-policy"@, jstr("keep-aspect-ratio"@)),
                ("video::width"@, jnum(1280)),
                ("video::zorder"@, jnum(2)),
            ])),
            ("link_id"@, jstr(ids.4)),
            ("sink_id"@, jstr(ids.0)),
            ("src_id"@, jstr(ids.3)),
            ("video"@, Json::Bool(true)),
        ]);
    }
    push_entry(&mut steps, "connect", JsonValue::Object(slot_params));

    push_entry(&mut steps, "start", id_object(slot.as_str()));
    push_entry(&mut steps, "getinfo", empty_object());

    let mut cleanup: Vec<(usize, String)> = Vec::new();
    cleanup.push((6, slot));
    cleanup.push((2, destination));
    cleanup.push((1, mixer));
    let s = GraphScript { steps, cleanup };
    proof {
        assert(s@.cleanup =~= crossfade_spec(millis).cleanup);
        assert(s@.steps =~= crossfade_spec(millis).steps);
    }
    s
}


/// The ids of a smoke run started at `millis`: video generator, mixer and
/// the link between them.
pub open spec fn smoke_ids(m: u64) -> (Seq<char>, Seq<char>, Seq<char>) {
    (
        stamped("slint-smoke-videogen-"@, m),
        stamped("slint-smoke-mixer-"@, m),
        stamped("slint-smoke-link-"@, m),
    )
}

/// The graph smoke test: a video generator linked into a video-only mixer,
/// both started, then `getinfo`. The source, then the mixer, are removed
/// afterwards, as far as they were created.
pub open spec fn smoke_spec(m: u64) -> ScriptView {
    let (source, mixer, link) = smoke_ids(m);
    ScriptView {
        steps: seq![
            ("createvideogenerator"@, id_params(source)),
            ("createmixer"@, Json::Object(seq![
                ("audio"@, Json::Bool(false)),
                ("id"@, jstr(mixer)),
                ("video"@, Json::Bool(true)),
            ])),
            ("connect"@, Json::Object(seq![
                ("audio"@, Json::Bool(false)),
                ("link_id"@, jstr(link)),
                ("sink_id"@, jstr(mixer)),
                ("src_id"@, jstr(source)),
                ("video"@, Json::Bool(true)),
            ])),
            ("start"@, id_params(mixer)),
            ("start"@, id_params(source)),
            ("getinfo"@, Json::Object(Seq::empty())),
        ],
        cleanup: seq![(1nat, source), (2nat, mixer)],
    }
}

/// The graph smoke script for a run started at `millis`.
pub fn smoke_script(millis: u64) -> (s: GraphScript)
    ensures
        s@ == smoke_spec(millis),
{
    let source = stamp("slint-smoke-videogen-", millis);
    let mixer = stamp("slint-smoke-mixer-", millis);
    let link = stamp("slint-smoke-link-", millis);
    let ghost ids = smoke_ids(millis);
    let mut steps: Vec<(String, JsonValue)> = Vec::new();
    push_entry(&mut steps, "createvideogenerator", id_object(source.as_str()));
    let mut mixer_params: Vec<(String, JsonValue)> = Vec::new();
    push_entry(&mut mixer_params, "audio", JsonValue::Bool(false));
    push_entry(&mut mixer_params, "id", JsonValue::string(mixer.as_str()));
    push_entry(&mut mixer_params, "video", JsonValue::Bool(true));
    proof {
        assert(entries_view(mixer_params@) =~= seq![
            ("audio"@, Json::Bool(false)),
            ("id"@, jstr(ids.1)),
            ("video"@, Json::Bool(true)),
        ]);
    }
    push_entry(&mut steps, "createmixer", JsonValue::Object(mixer_params));
    let mut link_params: Vec<(String, JsonValue)> = Vec::new();
    push_entry(&mut link_params, "audio", JsonValue::Bool(false));
    push_entry(&mut link_params, "link_id", JsonValue::string(link.as_str()));
    push_entry(&mut link_params, "sink_id", JsonValue::string(mixer.as_str()));
    push_entry(&mut link_params, "src_id", JsonValue::string(source.as_str()));
    push_entry(&mut link_params, "video", JsonValue::Bool(true));
    proof {
        assert(entries_view(link_params@) =~= seq![
            ("audio"@, Json::Bool(false)),
            ("link_id"@, jstr(ids.2)),
            ("sink_id"@, jstr(ids.1)),
            ("src_id"@, jstr(ids.0)),
            ("video"@, Json::Bool(true)),
        ]);
    }
    push_entry(&mut steps, "connect", JsonValue::Object(link_params));
    push_entry(&mut steps, "start", id_object(mixer.as_str()));
    push_entry(&mut steps, "start", id_object(source.as_str()));
    push_entry(&mut steps, "getinfo", empty_object());
    let mut cleanup: Vec<(usize, String)> = Vec::new();
    cleanup.push((1, source));
    cleanup.push((2, mixer));
    let s = GraphScript { steps, cleanup };
    proof {
        assert(s@.cleanup =~= smoke_spec(millis).cleanup);
        assert(s@.steps =~= smoke_spec(millis).steps);
    }
    s
}

/// The `getinfo` check of the command server: a single `getinfo`.
pub open spec fn getinfo_spec() -> ScriptView {
    ScriptView {
        steps: seq![("getinfo"@, Json::Object(Seq::empty()))],
        cleanup: Seq::empty(),
    }
}

/// The `getinfo` check script.
pub fn getinfo_script() -> (s: GraphScript)
    ensures
        s@ == getinfo_spec(),
{
    let mut steps: Vec<(String, JsonValue)> = Vec::new();
    push_entry(&mut steps, "getinfo", empty_object());
    let cleanup: Vec<(usize, String)> = Vec::new();
    let s = GraphScript { steps, cleanup };
    proof {
        assert(s@.cleanup =~= getinfo_spec().cleanup);
        assert(s@.steps =~= getinfo_spec().steps);
    }
    s
}

/// The number of nodes in a command server reply: `result.info.nodes`.
pub open spec fn server_node_count(reply: Json) -> nat {
    match json_get(reply, "result"@) {
        Some(result) => node_count(result),
        None => 0,
    }
}

/// The optional view of a script outcome.
pub open spec fn outcome_view(o: Result<JsonValue, String>) -> Result<Json, Seq<char>> {
    match o {
        Ok(v) => Ok(v@),
        Err(e) => Err(e@),
    }
}

/// The status line of the `getinfo` check: the node count of the server's
/// reply, or the failure.
pub open spec fn getinfo_report_text(outcome: Result<Json, Seq<char>>) -> Seq<char> {
    match outcome {
        Ok(reply) => "PASS legacy getinfo (/command) nodes="@ + decimal(server_node_count(reply)),
        Err(e) => "FAIL "@ + e,
    }
}

/// The status line of a crossfade run: the ids it created and the node
/// count of the final `getinfo` reply, or the failure.
pub open spec fn crossfade_report_text(m: u64, outcome: Result<Json, Seq<char>>) -> Seq<char> {
    let (mixer, destination, _link, slot, _slot_link) = crossfade_ids(m);
    match outcome {
        Ok(reply) => "PASS legacy crossfade bootstrap ok mixer="@ + mixer + " destination="@
            + destination + " slot_source="@ + slot + " nodes="@ + decimal(server_node_count(reply)),
        Err(e) => "FAIL "@ + e,
    }
}

/// The status line of a smoke run: its ids and the node count of the
/// final `getinfo` result, or the failure.
pub open spec fn smoke_report_text(m: u64, outcome: Result<Json, Seq<char>>) -> Seq<char> {
    let (source, mixer, link) = smoke_ids(m);
    match outcome {
        Ok(info) => "PASS smoke ok source="@ + source + " mixer="@ + mixer + " link="@ + link
            + " nodes="@ + decimal(node_count(info)),
        Err(e) => "FAIL "@ + e,
    }
}

/// `FAIL ` and the error.
fn fail_text(e: &String) -> (s: String)
    ensures
        s@ == "FAIL "@ + e@,
{
    let mut s = owned("FAIL ");
    push_str(&mut s, e.as_str());
    s
}

/// The node count under `result.info.nodes` of a command server reply.
fn server_nodes(reply: &JsonValue) -> (n: usize)
    ensures
        n as nat == server_node_count(reply@),
{
    match reply.get("result") {
        Some(result) => crate::backend::MigrationBackend::count_nodes(result),
        None => 0,
    }
}

/// The status line of the `getinfo` check, given the outcome of its last
/// command.
pub fn getinfo_report(outcome: &Result<JsonValue, String>) -> (s: String)
    ensures
        s@ == getinfo_report_text(outcome_view(*outcome)),
{
    match outcome {
        Ok(reply) => {
            let mut s = owned("PASS legacy getinfo (/command) nodes=");
            push_decimal(&mut s, server_nodes(reply) as u64);
            s
        },
        Err(e) => fail_text(e),
    }
}

/// The status line of a crossfade run started at `millis`, given the
/// outcome of its last command.
pub fn crossfade_report(millis: u64, outcome: &Result<JsonValue, String>) -> (s: String)
    ensures
        s@ == crossfade_report_text(millis, outcome_view(*outcome)),
{
    match outcome {
        Ok(reply) => {
            let mut s = owned("PASS legacy crossfade bootstrap ok mixer=");
            push_str(&mut s, stamp("legacy-channel-", millis).as_str());
            push_str(&mut s, " destination=");
            push_str(&mut s, stamp("legacy-output-", millis).as_str());
            push_str(&mut s, " slot_source=");
            push_str(&mut s, stamp("legacy-source-slot-", millis).as_str());
            push_str(&mut s, " nodes=");
            push_decimal(&mut s, server_nodes(reply) as u64);
            s
        },
        Err(e) => fail_text(e),
    }
}

/// The status line of a smoke run started at `millis`, given the outcome
/// of its last command.
pub fn smoke_report(millis: u64, outcome: &Result<JsonValue, String>) -> (s: String)
    ensures
        s@ == smoke_report_text(millis, outcome_view(*outcome)),
{
    match outcome {
        Ok(info) => {
            let mut s = owned("PASS smoke ok source=");
            push_str(&mut s, stamp("slint-smoke-videogen-", millis).as_str());
            push_str(&mut s, " mixer=");
            push_str(&mut s, stamp("slint-smoke-mixer-", millis).as_str());
            push_str(&mut s, " link=");
            push_str(&mut s, stamp("slint-smoke-link-", millis).as_str());
            push_str(&mut s, " nodes=");
            push_decimal(&mut s, crate::backend::MigrationBackend::count_nodes(info) as u64);
            s
        },
        Err(e) => fail_text(e),
    }
}

/// A migration test of the debug UI.
#[derive(Clone, Copy, Debug, PartialEq, Eq, Structural)]
pub enum MigrationTest {
    Getinfo,
    Crossfade,
    Smoke,
}

/// The test a test id names.
pub open spec fn test_named(test_id: Seq<char>) -> Option<MigrationTest> {
    if test_id == "getinfo"@ {
        Some(MigrationTest::Getinfo)
    } else if test_id == "crossfade"@ {
        Some(MigrationTest::Crossfade)
    } else if test_id == "smoke"@ {
        Some(MigrationTest::Smoke)
    } else {
        None
    }
}

/// The test that `test_id` names, if any.
pub fn migration_test_for(test_id: &str) -> (r: Option<MigrationTest>)
    ensures
        r == test_named(test_id@),
{
    if str_eq(test_id, "getinfo") {
        Some(MigrationTest::Getinfo)
    } else if str_eq(test_id, "crossfade") {
        Some(MigrationTest::Crossfade)
    } else if str_eq(test_id, "smoke") {
        Some(MigrationTest::Smoke)
    } else {
        None
    }
}

/// The status shown while test `test_id` runs.
pub fn running_status(test_id: &str) -> (s: String)
    ensures
        s@ == "Running migration test '"@ + test_id@ + "'..."@,
{
    let mut s = owned("Running migration test '");
    push_str(&mut s, test_id);
    push_str(&mut s, "'...");
    s
}

/// The status of a test id that names no test.
pub fn unknown_test_status(test_id: &str) -> (s: String)
    ensures
        s@ == "FAIL unknown migration-test id: "@ + test_id@,
{
    let mut s = owned("FAIL unknown migration-test id: ");
    push_str(&mut s, test_id);
    s
}

/// The status line of an outcome: `PASS ` and the message, or `FAIL ` and
/// the error.
pub fn status_line(outcome: &Result<String, String>) -> (s: String)
    ensures
        s@ == match *outcome {
            Ok(m) => "PASS "@ + m@,
            Err(e) => "FAIL "@ + e@,
        },
{
    match outcome {
        Ok(m) => {
            let mut s = owned("PASS ");
            push_str(&mut s, m.as_str());
            s
        },
        Err(e) => fail_text(e),
    }
}

/// The status line after stopping the command server.
pub fn stop_status(outcome: &Result<(), String>) -> (s: String)
    ensures
        s@ == match *outcome {
            Ok(_) => "PASS migration server stopped"@,
            Err(e) => "FAIL migration server stop: "@ + e@,
        },
{
    match outcome {
        Ok(_) => owned("PASS migration server stopped"),
        Err(e) => {
            let mut s = owned("FAIL migration server stop: ");
            push_str(&mut s, e.as_str());
            s
        },
    }
}

/// Whether a status line reports a pass (it starts with `PASS`); a pass is
/// logged as information, anything else as a warning.
pub fn test_passed(status: &str) -> (r: bool)
    ensures
        r == starts_with_seq(status@, "PASS"@),
{
    str_starts_with(status, "PASS")
}

} // verus!
