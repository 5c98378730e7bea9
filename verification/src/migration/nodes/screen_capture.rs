//! The screen-capture source node of the migration graph: its schedule,
//! its pipeline stage, and the consumers linked to it.

use vstd::prelude::*;
use crate::text::{
    chars_of, decimal, key_lt, lemma_seq_lt_irreflexive, lemma_seq_lt_total,
    lemma_seq_lt_transitive, push_decimal, push_str, seq_eq, seq_lt,
};

verus! {

/// How long before its cue time a source starts prerolling.
pub const PREROLL_LEAD_TIME_MILLIS: i64 = 10_000;

/// The lifecycle state of a graph node.
#[derive(Clone, Copy, Debug, PartialEq, Eq, Structural)]
pub enum State {
    Initial,
    Starting,
    Started,
    Stopping,
    Stopped,
}

/// What the capture pipeline should be doing.
#[derive(Clone, Copy, Debug, PartialEq, Eq, Structural)]
pub enum ScreenCapturePipelineStage {
    Idle,
    Prerolling,
    Playing,
}

/// The pipeline state to drive a live capture pipeline to.
#[derive(Clone, Copy, Debug, PartialEq, Eq, Structural)]
pub enum PipelineTarget {
    Paused,
    Playing,
}

/// The position of a state in the lifecycle.
pub open spec fn rank(s: State) -> nat {
    match s {
        State::Initial => 0,
        State::Starting => 1,
        State::Started => 2,
        State::Stopping => 3,
        State::Stopped => 4,
    }
}

/// The transition due at time `now` (milliseconds since the epoch) from
/// `state`, given the node's cue and end times.
pub open spec fn transition_due(state: State, cue: Option<i64>, end: Option<i64>, now: i64) -> Option<State> {
    match state {
        State::Initial => match cue {
            Some(c) => if now >= c - PREROLL_LEAD_TIME_MILLIS { Some(State::Starting) } else { None },
            None => Some(State::Started),
        },
        State::Starting => match cue {
            Some(c) => if now >= c { Some(State::Started) } else { None },
            None => Some(State::Started),
        },
        State::Started => match end {
            Some(e) => if now >= e { Some(State::Stopping) } else { None },
            None => None,
        },
        State::Stopping => Some(State::Stopped),
        State::Stopped => None,
    }
}

/// The state reached by taking every due transition in turn.
pub open spec fn settle(state: State, cue: Option<i64>, end: Option<i64>, now: i64) -> State
    decreases 4 - rank(state),
{
    match transition_due(state, cue, end, now) {
        Some(next) => if next != state && rank(next) > rank(state) {
            settle(next, cue, end, now)
        } else {
            state
        },
        None => state,
    }
}

/// The pipeline stage that goes with a state.
pub open spec fn stage_for(state: State) -> ScreenCapturePipelineStage {
    match state {
        State::Initial | State::Stopping | State::Stopped => ScreenCapturePipelineStage::Idle,
        State::Starting => ScreenCapturePipelineStage::Prerolling,
        State::Started => ScreenCapturePipelineStage::Playing,
    }
}

/// Every due transition moves forward in the lifecycle.
pub proof fn lemma_due_moves_forward(state: State, cue: Option<i64>, end: Option<i64>, now: i64)
    ensures
        transition_due(state, cue, end, now) matches Some(n) ==> n != state && rank(n) > rank(state),
{
}

/// After the schedule has settled no transition is due, and it only ever
/// moves forward.
pub proof fn law_settle_is_final(state: State, cue: Option<i64>, end: Option<i64>, now: i64)
    ensures
        transition_due(settle(state, cue, end, now), cue, end, now) is None,
        rank(settle(state, cue, end, now)) >= rank(state),
        settle(settle(state, cue, end, now), cue, end, now) == settle(state, cue, end, now),
    decreases 4 - rank(state),
{
    match transition_due(state, cue, end, now) {
        Some(next) => {
            law_settle_is_final(next, cue, end, now);
        },
        None => {},
    }
}

fn is_due_at(now: i64, at: i64, lead: i64) -> (r: bool)
    requires
        0 <= lead <= PREROLL_LEAD_TIME_MILLIS,
    ensures
        r == (now >= at - lead),
{
    (now as i128) >= (at as i128) - (lead as i128)
}

// ---------------------------------------------------------------------
// Consumer links: a sorted set of ids
// ---------------------------------------------------------------------

/// The ids are strictly increasing in string order.
pub open spec fn strictly_sorted(s: Seq<Seq<char>>) -> bool {
    forall|i: int, j: int| 0 <= i < j < s.len() ==> seq_lt(s[i], s[j])
}

/// A set of link ids, listed in string order (as a `BTreeSet<String>`).
pub struct SlotIdSet {
    ids: Vec<String>,
}

/// The views of a list of strings.
pub open spec fn string_views(s: Seq<String>) -> Seq<Seq<char>> {
    s.map_values(|x: String| x@)
}

impl View for SlotIdSet {
    type V = Seq<Seq<char>>;

    closed spec fn view(&self) -> Seq<Seq<char>> {
        string_views(self.ids@)
    }
}

impl SlotIdSet {
    #[verifier::type_invariant]
    closed spec fn inv(self) -> bool {
        strictly_sorted(string_views(self.ids@))
    }

    pub fn new() -> (s: SlotIdSet)
        ensures
            s@ == Seq::<Seq<char>>::empty(),
    {
        let s = SlotIdSet { ids: Vec::new() };
        assert(string_views(s.ids@) =~= Seq::<Seq<char>>::empty());
        s
    }

    /// The ids in string order.
    pub fn to_vec(&self) -> (r: Vec<String>)
        ensures
            string_views(r@) == self@,
            strictly_sorted(self@),
    {
        proof { use_type_invariant(self); }
        let mut out: Vec<String> = Vec::new();
        let mut i: usize = 0;
        while i < self.ids.len()
            invariant
                i <= self.ids@.len(),
                out@.len() == i,
                forall|k: int| 0 <= k < i ==> out@[k]@ == self.ids@[k]@,
            decreases self.ids@.len() - i,
        {
            out.push(self.ids[i].clone());
            i = i + 1;
        }
        assert(string_views(out@) =~= string_views(self.ids@));
        out
    }

    /// The position where `id` is or would go.
    fn lower_bound(&self, id: &Vec<char>) -> (r: usize)
        ensures
            r <= self@.len(),
            forall|k: int| 0 <= k < r ==> seq_lt(self@[k], id@),
            r < self@.len() ==> !seq_lt(self@[r as int], id@),
    {
        let mut i: usize = 0;
        while i < self.ids.len()
            invariant
                i <= self.ids@.len(),
                forall|k: int| 0 <= k < i ==> seq_lt(self@[k], id@),
            ensures
                i <= self.ids@.len(),
                forall|k: int| 0 <= k < i ==> seq_lt(self@[k], id@),
                i < self.ids@.len() ==> !seq_lt(self@[i as int], id@),
            decreases self.ids@.len() - i,
        {
            let c = chars_of(self.ids[i].as_str());
            if !key_lt(&c, id) {
                break;
            }
            i = i + 1;
        }
        i
    }

    /// Adds `id` to the set.
    pub fn insert(&mut self, id: &str)
        ensures
            final(self)@.to_set() == old(self)@.to_set().insert(id@),
            strictly_sorted(final(self)@),
    {
        proof { use_type_invariant(&*self); }
        let idc = chars_of(id);
        let i = self.lower_bound(&idc);
        let ghost before = self@;
        if i < self.ids.len() {
            let c = chars_of(self.ids[i].as_str());
            if seq_eq(&c, &idc) {
                assert(before.to_set().insert(id@) =~= before.to_set()) by {
                    assert(before.contains(id@));
                }
                return;
            }
        }
        proof {
            lemma_seq_lt_total(id@, id@);
            if i < before.len() {
                lemma_seq_lt_total(before[i as int], id@);
            }
        }
        let mut ids: Vec<String> = Vec::new();
        std::mem::swap(&mut ids, &mut self.ids);
        ids.insert(i, id.to_owned());
        proof {
            assert(string_views(ids@) =~= before.insert(i as int, id@));
            let after = string_views(ids@);
            assert forall|a: int, b: int| 0 <= a < b < after.len() implies seq_lt(after[a], after[b]) by {
                if a < i && b < i {
                } else if a < i && b == i {
                } else if a < i && b > i {
                    assert(seq_lt(before[a], before[b - 1]));
                } else if a == i {
                    if (b - 1) > (i as int) {
                        assert(seq_lt(before[i as int], before[b - 1]));
                        lemma_seq_lt_transitive(id@, before[i as int], before[b - 1]);
                    }
                } else {
                }
            }
            assert(after.to_set() =~= before.to_set().insert(id@)) by {
                assert forall|x: Seq<char>| after.to_set().contains(x) <==> before.to_set().insert(id@).contains(x) by {
                    if after.contains(x) {
                        let k = choose|k: int| 0 <= k < after.len() && after[k] == x;
                        if k < i {
                            assert(before[k] == x);
                        } else if k > i {
                            assert(before[k - 1] == x);
                        }
                    }
                    if before.contains(x) {
                        let k = choose|k: int| 0 <= k < before.len() && before[k] == x;
                        if k < i {
                            assert(after[k] == x);
                        } else {
                            assert(after[k + 1] == x);
                        }
                    }
                    if x == id@ {
                        assert(after[i as int] == x);
                    }
                }
            }
        }
        self.ids = ids;
    }

    /// Removes `id` from the set.
    pub fn remove(&mut self, id: &str)
        ensures
            final(self)@.to_set() == old(self)@.to_set().remove(id@),
            strictly_sorted(final(self)@),
    {
        proof { use_type_invariant(&*self); }
        let idc = chars_of(id);
        let i = self.lower_bound(&idc);
        let ghost before = self@;
        let mut found = false;
        if i < self.ids.len() {
            let c = chars_of(self.ids[i].as_str());
            found = seq_eq(&c, &idc);
        }
        if !found {
            proof {
                assert(!before.contains(id@)) by {
                    if before.contains(id@) {
                        let k = choose|k: int| 0 <= k < before.len() && before[k] == id@;
                        lemma_seq_lt_irreflexive(id@);
                        if k > i {
                            lemma_seq_lt_total(before[i as int], id@);
                        }
                    }
                }
                assert(before.to_set().remove(id@) =~= before.to_set());
            }
            return;
        }
        let mut ids: Vec<String> = Vec::new();
        std::mem::swap(&mut ids, &mut self.ids);
        ids.remove(i);
        proof {
            assert(string_views(ids@) =~= before.remove(i as int));
            let after = string_views(ids@);
            assert forall|a: int, b: int| 0 <= a < b < after.len() implies seq_lt(after[a], after[b]) by {
                let oa = if a < i { a } else { a + 1 };
                let ob = if b < i { b } else { b + 1 };
                assert(after[a] == before[oa]);
                assert(after[b] == before[ob]);
            }
            assert(after.to_set() =~= before.to_set().remove(id@)) by {
                assert forall|x: Seq<char>| after.to_set().contains(x) <==> before.to_set().remove(id@).contains(x) by {
                    if after.contains(x) {
                        let k = choose|k: int| 0 <= k < after.len() && after[k] == x;
                        let ok = if k < i { k } else { k + 1 };
                        assert(before[ok] == x);
                        if x == id@ {
                            lemma_seq_lt_irreflexive(id@);
                            if ok < i {
                                assert(seq_lt(before[ok], before[i as int]));
                            } else {
                                assert(seq_lt(before[i as int], before[ok]));
                            }
                        }
                    }
                    if before.contains(x) && x != id@ {
                        let k = choose|k: int| 0 <= k < before.len() && before[k] == x;
                        assert(k != i);
                        if k < i {
                            assert(after[k] == x);
                        } else {
                            assert(after[k - 1] == x);
                        }
                    }
                }
            }
        }
        self.ids = ids;
    }
}

// ---------------------------------------------------------------------
// The node
// ---------------------------------------------------------------------

/// What a source node reports about itself.
pub struct SourceInfo {
    pub uri: String,
    pub video_consumer_slot_ids: Option<Vec<String>>,
    pub audio_consumer_slot_ids: Option<Vec<String>>,
    pub cue_time: Option<i64>,
    pub end_time: Option<i64>,
    pub state: State,
}

/// The URI of a screen source: `screen://<w>x<h>@<fps>fps`.
pub open spec fn screen_uri(width: u32, height: u32, fps: u32) -> Seq<char> {
    "screen://"@ + decimal(width as nat) + "x"@ + decimal(height as nat) + "@"@ + decimal(fps as nat) + "fps"@
}

/// A source node fed by the device's screen capture. Times are
/// milliseconds since the Unix epoch.
pub struct ScreenCaptureNode {
    pub id: String,
    pub width: u32,
    pub height: u32,
    pub fps: u32,
    pub video_consumer_slot_ids: SlotIdSet,
    pub cue_time: Option<i64>,
    pub end_time: Option<i64>,
    pub state: State,
    pub stage: ScreenCapturePipelineStage,
    pub last_error: Option<String>,
}

impl ScreenCaptureNode {
    pub fn new(id: String, width: u32, height: u32, fps: u32) -> (n: ScreenCaptureNode)
        ensures
            n.id == id,
            n.width == width,
            n.height == height,
            n.fps == fps,
            n.video_consumer_slot_ids@ == Seq::<Seq<char>>::empty(),
            n.cue_time is None,
            n.end_time is None,
            n.state == State::Initial,
            n.stage == ScreenCapturePipelineStage::Idle,
            n.last_error is None,
    {
        ScreenCaptureNode {
            id,
            width,
            height,
            fps,
            video_consumer_slot_ids: SlotIdSet::new(),
            cue_time: None,
            end_time: None,
            state: State::Initial,
            stage: ScreenCapturePipelineStage::Idle,
            last_error: None,
        }
    }

    /// What this node reports about itself.
    pub fn as_info(&self) -> (info: SourceInfo)
        ensures
            info.uri@ == screen_uri(self.width, self.height, self.fps),
            info.video_consumer_slot_ids matches Some(v) && string_views(v@) == self.video_consumer_slot_ids@,
            info.audio_consumer_slot_ids is None,
            info.cue_time == self.cue_time,
            info.end_time == self.end_time,
            info.state == self.state,
    {
        let mut uri = String::new();
        push_str(&mut uri, "screen://");
        push_decimal(&mut uri, self.width as u64);
        push_str(&mut uri, "x");
        push_decimal(&mut uri, self.height as u64);
        push_str(&mut uri, "@");
        push_decimal(&mut uri, self.fps as u64);
        push_str(&mut uri, "fps");
        assert(uri@ =~= screen_uri(self.width, self.height, self.fps));
        SourceInfo {
            uri,
            video_consumer_slot_ids: Some(self.video_consumer_slot_ids.to_vec()),
            audio_consumer_slot_ids: None,
            cue_time: self.cue_time,
            end_time: self.end_time,
            state: self.state,
        }
    }

    /// Sets the cue and end times. Always succeeds.
    pub fn schedule(&mut self, cue_time: Option<i64>, end_time: Option<i64>) -> (r: Result<(), String>)
        ensures
            r is Ok,
            final(self).cue_time == cue_time,
            final(self).end_time == end_time,
            final(self).state == old(self).state,
            final(self).stage == old(self).stage,
    {
        self.cue_time = cue_time;
        self.end_time = end_time;
        Ok(())
    }

    /// Links a consumer; only video links are tracked.
    pub fn add_consumer_link(&mut self, link_id: &str, audio: bool, video: bool)
        ensures
            final(self).video_consumer_slot_ids@.to_set() == if video {
                old(self).video_consumer_slot_ids@.to_set().insert(link_id@)
            } else {
                old(self).video_consumer_slot_ids@.to_set()
            },
            final(self).state == old(self).state,
            final(self).stage == old(self).stage,
    {
        if video {
            self.video_consumer_slot_ids.insert(link_id);
        }
    }

    /// Unlinks a consumer.
    pub fn remove_consumer_link(&mut self, link_id: &str)
        ensures
            final(self).video_consumer_slot_ids@.to_set() == old(self).video_consumer_slot_ids@.to_set().remove(link_id@),
            final(self).state == old(self).state,
            final(self).stage == old(self).stage,
    {
        self.video_consumer_slot_ids.remove(link_id);
    }

    /// Stops the node: state `Stopped`, stage `Idle` (the live pipeline is
    /// torn down by the caller).
    pub fn stop(&mut self)
        ensures
            final(self).state == State::Stopped,
            final(self).stage == ScreenCapturePipelineStage::Idle,
            final(self).last_error == old(self).last_error,
            final(self).cue_time == old(self).cue_time,
            final(self).end_time == old(self).end_time,
    {
        self.state = State::Stopped;
        self.stage = ScreenCapturePipelineStage::Idle;
    }

    /// Records an error and stops the node.
    pub fn mark_error(&mut self, message: String)
        ensures
            final(self).last_error == Some(message),
            final(self).state == State::Stopped,
            final(self).stage == ScreenCapturePipelineStage::Idle,
    {
        self.last_error = Some(message);
        self.stop();
    }

    /// The transition due at `now`, if any.
    pub fn schedule_transition_due(&self, now: i64) -> (r: Option<State>)
        ensures
            r == transition_due(self.state, self.cue_time, self.end_time, now),
    {
        match self.state {
            State::Initial => match self.cue_time {
                Some(cue) => if is_due_at(now, cue, PREROLL_LEAD_TIME_MILLIS) { Some(State::Starting) } else { None },
                None => Some(State::Started),
            },
            State::Starting => match self.cue_time {
                Some(cue) => if now >= cue { Some(State::Started) } else { None },
                None => Some(State::Started),
            },
            State::Started => match self.end_time {
                Some(end) => if now >= end { Some(State::Stopping) } else { None },
                None => None,
            },
            State::Stopping => Some(State::Stopped),
            State::Stopped => None,
        }
    }

    /// Sets the stage that goes with the current state.
    pub fn apply_state_to_stage(&mut self)
        ensures
            final(self).stage == stage_for(final(self).state),
            final(self).state == old(self).state,
            final(self).cue_time == old(self).cue_time,
            final(self).end_time == old(self).end_time,
            final(self).last_error == old(self).last_error,
    {
        self.stage = match self.state {
            State::Initial | State::Stopping | State::Stopped => ScreenCapturePipelineStage::Idle,
            State::Starting => ScreenCapturePipelineStage::Prerolling,
            State::Started => ScreenCapturePipelineStage::Playing,
        };
    }

    /// Takes every transition due at `now`, then aligns the stage; reports
    /// whether the state or the stage changed.
    pub fn advance_schedule(&mut self, now: i64) -> (changed: bool)
        ensures
            final(self).state == settle(old(self).state, old(self).cue_time, old(self).end_time, now),
            final(self).stage == stage_for(final(self).state),
            changed == (final(self).state != old(self).state || final(self).stage != old(self).stage),
            final(self).cue_time == old(self).cue_time,
            final(self).end_time == old(self).end_time,
            final(self).last_error == old(self).last_error,
    {
        let ghost start = self.state;
        let mut changed = false;
        loop
            invariant
                settle(self.state, self.cue_time, self.end_time, now) == settle(start, self.cue_time, self.end_time, now),
                rank(self.state) >= rank(start),
                changed == (self.state != start),
                self.cue_time == old(self).cue_time,
                self.end_time == old(self).end_time,
                self.last_error == old(self).last_error,
                self.stage == old(self).stage,
                start == old(self).state,
            ensures
                self.state == settle(start, self.cue_time, self.end_time, now),
                changed == (self.state != start),
                self.cue_time == old(self).cue_time,
                self.end_time == old(self).end_time,
                self.last_error == old(self).last_error,
                self.stage == old(self).stage,
            decreases 4 - rank(self.state),
        {
            proof { lemma_due_moves_forward(self.state, self.cue_time, self.end_time, now); }
            match self.schedule_transition_due(now) {
                Some(next) => {
                    if next == self.state {
                        break;
                    }
                    self.state = next;
                    changed = true;
                },
                None => break,
            }
        }
        let old_stage = self.stage;
        self.apply_state_to_stage();
        changed || old_stage != self.stage
    }

    /// Records an error reported by the live pipeline: the node stops.
    pub fn on_pipeline_error(&mut self, message: String)
        ensures
            final(self).last_error == Some(message),
            final(self).state == State::Stopped,
            final(self).stage == ScreenCapturePipelineStage::Idle,
    {
        self.last_error = Some(message);
        self.stage = ScreenCapturePipelineStage::Idle;
        self.state = State::Stopped;
    }

    /// Records the end of the live stream: the node stops.
    pub fn on_pipeline_eos(&mut self)
        ensures
            final(self).last_error == old(self).last_error,
            final(self).state == State::Stopped,
            final(self).stage == ScreenCapturePipelineStage::Idle,
    {
        self.stage = ScreenCapturePipelineStage::Idle;
        self.state = State::Stopped;
    }

    /// The state the live pipeline should be driven to: none when idle (the
    /// pipeline is torn down), paused while prerolling, playing when playing.
    pub fn pipeline_target(&self) -> (t: Option<PipelineTarget>)
        ensures
            t == match self.stage {
                ScreenCapturePipelineStage::Idle => None,
                ScreenCapturePipelineStage::Prerolling => Some(PipelineTarget::Paused),
                ScreenCapturePipelineStage::Playing => Some(PipelineTarget::Playing),
            },
    {
        match self.stage {
            ScreenCapturePipelineStage::Idle => None,
            ScreenCapturePipelineStage::Prerolling => Some(PipelineTarget::Paused),
            ScreenCapturePipelineStage::Playing => Some(PipelineTarget::Playing),
        }
    }
}

/// What the live pipeline of a node is built from: the names of the
/// pipeline and of its three elements (app source, converter, app sink),
/// and the raw I420 video caps of the source.
pub struct LivePipelinePlan {
    pub pipeline_name: String,
    pub appsrc_name: String,
    pub videoconvert_name: String,
    pub appsink_name: String,
    /// Caps width, height and frame rate (frames per one second), as the
    /// `i32` fields of the caps hold them.
    pub width: i32,
    pub height: i32,
    pub fps: i32,
}

/// `prefix` followed by `id`.
fn named(prefix: &str, id: &str) -> (s: String)
    ensures
        s@ == prefix@ + id@,
{
    let mut s = String::new();
    push_str(&mut s, prefix);
    push_str(&mut s, id);
    proof {
        assert(s@ =~= prefix@ + id@);
    }
    s
}

impl ScreenCaptureNode {
    /// The plan of this node's live pipeline: elements named after the
    /// node, and caps of its size and rate.
    pub fn live_pipeline_plan(&self) -> (p: LivePipelinePlan)
        ensures
            p.pipeline_name@ == "migration-screen-capture-"@ + self.id@,
            p.appsrc_name@ == "screen-capture-appsrc-"@ + self.id@,
            p.videoconvert_name@ == "screen-capture-videoconvert-"@ + self.id@,
            p.appsink_name@ == "screen-capture-video-appsink-"@ + self.id@,
            p.width == self.width as i32,
            p.height == self.height as i32,
            p.fps == self.fps as i32,
    {
        LivePipelinePlan {
            pipeline_name: named("migration-screen-capture-", self.id.as_str()),
            appsrc_name: named("screen-capture-appsrc-", self.id.as_str()),
            videoconvert_name: named("screen-capture-videoconvert-", self.id.as_str()),
            appsink_name: named("screen-capture-video-appsink-", self.id.as_str()),
            width: #[verifier::truncate] (self.width as i32),
            height: #[verifier::truncate] (self.height as i32),
            fps: #[verifier::truncate] (self.fps as i32),
        }
    }
}

/// Advancing the schedule twice at the same time changes nothing the
/// second time.
pub proof fn law_advance_idempotent(state: State, cue: Option<i64>, end: Option<i64>, now: i64)
    ensures
        settle(settle(state, cue, end, now), cue, end, now) == settle(state, cue, end, now),
        stage_for(settle(settle(state, cue, end, now), cue, end, now)) == stage_for(settle(state, cue, end, now)),
{
    law_settle_is_final(state, cue, end, now);
}

} // verus!
