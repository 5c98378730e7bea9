//! Running a [`GraphScript`]: its commands in order until one fails, then
//! the removals its cleanup asks for, then the outcome. The platform sends
//! each command it is handed and reports the reply back; every decision is
//! taken here.

use vstd::prelude::*;
use crate::command::legacy_tests::{cleanup_commands, GraphScript, ScriptView};
use crate::json::{entries_view, lemma_entries_view, Json, JsonValue};

verus! {

/// Where a run stands: how many commands succeeded, the first failure if
/// any, the reply of the latest success, and how many removals were sent.
pub ghost struct RunView {
    pub completed: nat,
    pub failure: Option<Seq<char>>,
    pub last_reply: Json,
    pub cleanup_sent: nat,
}

/// What the platform is asked to do next.
pub enum ScriptAction {
    /// Send this command and report its reply.
    Send { action: String, params: JsonValue },
    /// The run is over, with this outcome.
    Finish(Result<JsonValue, String>),
}

/// What an action is.
pub ghost enum ScriptActionView {
    Send(Seq<char>, Json),
    Finish(Result<Json, Seq<char>>),
}

impl View for ScriptAction {
    type V = ScriptActionView;

    open spec fn view(&self) -> ScriptActionView {
        match self {
            ScriptAction::Send { action, params } => ScriptActionView::Send(action@, params@),
            ScriptAction::Finish(Ok(v)) => ScriptActionView::Finish(Ok(v@)),
            ScriptAction::Finish(Err(e)) => ScriptActionView::Finish(Err(e@)),
        }
    }
}

/// The state of a run that has sent nothing yet.
pub open spec fn run_start() -> RunView {
    RunView { completed: 0, failure: None, last_reply: Json::Null, cleanup_sent: 0 }
}

/// The run is still sending the script's own commands.
pub open spec fn in_commands(script: ScriptView, s: RunView) -> bool {
    s.failure is None && s.completed < script.steps.len()
}

/// The outcome of a run: the first failure, or else the reply of the last
/// command (`null` for a script without commands).
pub open spec fn run_outcome(s: RunView) -> Result<Json, Seq<char>> {
    match s.failure {
        Some(e) => Err(e),
        None => Ok(s.last_reply),
    }
}

/// The next action of a run: the next command of the script while none
/// has failed, then each removal that the cleanup asks for after the
/// commands that succeeded, then the outcome.
pub open spec fn next_action(script: ScriptView, s: RunView) -> ScriptActionView {
    if in_commands(script, s) {
        ScriptActionView::Send(script.steps[s.completed as int].0, script.steps[s.completed as int].1)
    } else {
        let removals = cleanup_commands(script.cleanup, s.completed);
        if s.cleanup_sent < removals.len() {
            ScriptActionView::Send(removals[s.cleanup_sent as int].0, removals[s.cleanup_sent as int].1)
        } else {
            ScriptActionView::Finish(run_outcome(s))
        }
    }
}

/// The state after the reply to the command just sent: a success counts
/// and is kept, a failure ends the commands; the reply to a removal is
/// ignored. A finished run stays as it is.
pub open spec fn after_reply(script: ScriptView, s: RunView, reply: Result<Json, Seq<char>>) -> RunView {
    if in_commands(script, s) {
        match reply {
            Ok(r) => RunView { completed: s.completed + 1, last_reply: r, ..s },
            Err(e) => RunView { failure: Some(e), ..s },
        }
    } else if s.cleanup_sent < cleanup_commands(script.cleanup, s.completed).len() {
        RunView { cleanup_sent: s.cleanup_sent + 1, ..s }
    } else {
        s
    }
}

/// The state after the replies `rs`, one for each command sent, from the
/// start.
pub open spec fn run_after(script: ScriptView, rs: Seq<Result<Json, Seq<char>>>) -> RunView
    decreases rs.len(),
{
    if rs.len() == 0 {
        run_start()
    } else {
        after_reply(script, run_after(script, rs.drop_last()), rs.last())
    }
}

/// The view of a reply.
pub open spec fn reply_view(r: Result<JsonValue, String>) -> Result<Json, Seq<char>> {
    match r {
        Ok(v) => Ok(v@),
        Err(e) => Err(e@),
    }
}

/// A run of a script.
pub struct ScriptRun {
    script: GraphScript,
    completed: usize,
    failure: Option<String>,
    last_reply: JsonValue,
    cleanup_sent: usize,
}

impl ScriptRun {
    /// The script being run.
    pub closed spec fn script_view(&self) -> ScriptView {
        self.script@
    }

    /// Where the run stands.
    pub closed spec fn state(&self) -> RunView {
        RunView {
            completed: self.completed as nat,
            failure: match self.failure {
                Some(e) => Some(e@),
                None => None,
            },
            last_reply: self.last_reply@,
            cleanup_sent: self.cleanup_sent as nat,
        }
    }

    /// A run of `script` that has sent nothing yet.
    pub fn new(script: GraphScript) -> (r: ScriptRun)
        ensures
            r.script_view() == script@,
            r.state() == run_start(),
    {
        ScriptRun { script, completed: 0, failure: None, last_reply: JsonValue::Null, cleanup_sent: 0 }
    }

    /// A run of `script` against a server whose start gave `started`: a run
    /// only when the server started, and otherwise its failure, with
    /// nothing sent.
    pub fn after_server_start(script: GraphScript, started: Result<(), String>) -> (r: Result<ScriptRun, String>)
        ensures
            started is Ok ==> (r matches Ok(run) && run.script_view() == script@ && run.state() == run_start()),
            started matches Err(e) ==> r == Err::<ScriptRun, String>(e),
    {
        match started {
            Ok(()) => Ok(ScriptRun::new(script)),
            Err(e) => Err(e),
        }
    }

    /// What the platform should do next (see [`next_action`]).
    pub fn next(&self) -> (a: ScriptAction)
        ensures
            a@ == next_action(self.script_view(), self.state()),
    {
        proof { lemma_entries_view(self.script.steps@); }
        if self.failure.is_none() && self.completed < self.script.steps.len() {
            let (action, params) = (&self.script.steps[self.completed].0, &self.script.steps[self.completed].1);
            ScriptAction::Send { action: action.clone(), params: params.duplicate() }
        } else {
            let removals = self.script.cleanup_after(self.completed);
            proof { lemma_entries_view(removals@); }
            if self.cleanup_sent < removals.len() {
                let (action, params) = (&removals[self.cleanup_sent].0, &removals[self.cleanup_sent].1);
                ScriptAction::Send { action: action.clone(), params: params.duplicate() }
            } else {
                match &self.failure {
                    Some(e) => ScriptAction::Finish(Err(e.clone())),
                    None => ScriptAction::Finish(Ok(self.last_reply.duplicate())),
                }
            }
        }
    }

    /// Takes the reply to the command just sent (see [`after_reply`]).
    pub fn on_reply(&mut self, reply: Result<JsonValue, String>)
        ensures
            final(self).script_view() == old(self).script_view(),
            final(self).state() == after_reply(old(self).script_view(), old(self).state(), reply_view(reply)),
    {
        proof { lemma_entries_view(self.script.steps@); }
        if self.failure.is_none() && self.completed < self.script.steps.len() {
            match reply {
                Ok(r) => {
                    self.completed = self.completed + 1;
                    self.last_reply = r;
                },
                Err(e) => {
                    self.failure = Some(e);
                },
            }
        } else {
            let removals = self.script.cleanup_after(self.completed);
            proof { lemma_entries_view(removals@); }
            if self.cleanup_sent < removals.len() {
                self.cleanup_sent = self.cleanup_sent + 1;
            }
        }
    }
}

/// Whatever the replies, a run never counts more successes than the
/// script has commands, while nothing failed every counted success is a
/// successful reply, in order, and no more removals are sent than the
/// cleanup asks for (none while commands are still being sent).
proof fn lemma_run_after(script: ScriptView, rs: Seq<Result<Json, Seq<char>>>)
    ensures
        run_after(script, rs).completed <= script.steps.len(),
        run_after(script, rs).completed <= rs.len(),
        run_after(script, rs).failure is None ==> forall|i: int|
            0 <= i < run_after(script, rs).completed ==> #[trigger] rs[i] is Ok,
        in_commands(script, run_after(script, rs)) ==> run_after(script, rs).cleanup_sent == 0,
        run_after(script, rs).cleanup_sent
            <= cleanup_commands(script.cleanup, run_after(script, rs).completed).len(),
    decreases rs.len(),
{
    if rs.len() > 0 {
        let prev = rs.drop_last();
        lemma_run_after(script, prev);
        let s = run_after(script, prev);
        let t = run_after(script, rs);
        assert(t == after_reply(script, s, rs.last()));
        if in_commands(script, s) {
            lemma_commands_answer_all(script, prev);
            assert(s.completed == prev.len());
            if t.failure is None {
                assert forall|i: int| 0 <= i < t.completed implies #[trigger] rs[i] is Ok by {
                    if i < s.completed {
                        assert(rs[i] == prev[i]);
                    } else {
                        assert(i == prev.len());
                    }
                }
            }
        } else {
            if t.failure is None {
                assert forall|i: int| 0 <= i < t.completed implies #[trigger] rs[i] is Ok by {
                    assert(rs[i] == prev[i]);
                }
            }
        }
    }
}

/// While a run is still sending commands, every reply so far answered a
/// command that succeeded.
proof fn lemma_commands_answer_all(script: ScriptView, rs: Seq<Result<Json, Seq<char>>>)
    requires
        in_commands(script, run_after(script, rs)),
    ensures
        run_after(script, rs).completed == rs.len(),
    decreases rs.len(),
{
    if rs.len() > 0 {
        let prev = rs.drop_last();
        let s = run_after(script, prev);
        if !in_commands(script, s) {
            // once out of the commands, a run never goes back to them
            lemma_commands_stay_left(script, s, rs.last());
        } else {
            lemma_commands_answer_all(script, prev);
        }
    }
}

/// A run that has left its commands never returns to them.
proof fn lemma_commands_stay_left(script: ScriptView, s: RunView, reply: Result<Json, Seq<char>>)
    requires
        !in_commands(script, s),
    ensures
        !in_commands(script, after_reply(script, s, reply)),
{
}

/// A run reports success only when every command of the script succeeded:
/// if, after any replies, the run finishes with `Ok`, the first replies,
/// one per command, were all successes, and the removals sent were those
/// the cleanup asks for after all the commands.
pub proof fn law_pass_only_after_all_steps(script: ScriptView, rs: Seq<Result<Json, Seq<char>>>)
    requires
        next_action(script, run_after(script, rs)) matches ScriptActionView::Finish(Ok(_)),
    ensures
        rs.len() >= script.steps.len(),
        forall|i: int| 0 <= i < script.steps.len() ==> #[trigger] rs[i] is Ok,
        run_after(script, rs).completed == script.steps.len(),
        run_after(script, rs).cleanup_sent == cleanup_commands(script.cleanup, script.steps.len() as nat).len(),
{
    lemma_run_after(script, rs);
}

/// A failed run reports the failure, and before it sends exactly the
/// removals that the cleanup asks for after the commands that succeeded.
pub proof fn law_failure_cleans_up_created(script: ScriptView, rs: Seq<Result<Json, Seq<char>>>)
    requires
        next_action(script, run_after(script, rs)) matches ScriptActionView::Finish(Err(_)),
    ensures
        run_after(script, rs).failure is Some,
        next_action(script, run_after(script, rs)) == ScriptActionView::Finish(Err(run_after(script, rs).failure->0)),
        run_after(script, rs).cleanup_sent
            == cleanup_commands(script.cleanup, run_after(script, rs).completed).len(),
{
    lemma_run_after(script, rs);
}

} // verus!
