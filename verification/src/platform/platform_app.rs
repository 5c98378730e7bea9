//! The recording timer: its states and the elapsed time it shows, with
//! pauses left out. Times are milliseconds of a monotonic clock.

use vstd::prelude::*;

verus! {

/// The state of the recorder.
#[derive(Clone, Copy, Debug, PartialEq, Eq, Structural)]
pub enum RecordingState {
    Idle,
    Recording,
    Paused,
    Finalizing,
}

/// The recorder's state with the times the elapsed display needs.
#[derive(Clone, Copy, Debug, PartialEq, Eq, Structural)]
pub struct RecordingTickerState {
    pub state: RecordingState,
    pub started_at: Option<u64>,
    pub paused_for: u64,
    pub pause_started: Option<u64>,
}

/// `a - b`, or zero when `b` is later.
pub open spec fn saturating_diff(a: u64, b: u64) -> u64 {
    if a >= b { (a - b) as u64 } else { 0 }
}

/// The whole seconds recorded by `now`: the time since the start, less
/// the time spent paused, as the display shows it (an `i32`, wrapping).
pub open spec fn elapsed_secs(s: RecordingTickerState, now: u64) -> Option<i32> {
    if s.state == RecordingState::Recording {
        match s.started_at {
            Some(start) => Some((saturating_diff(saturating_diff(now, start), s.paused_for) / 1000) as i32),
            None => None,
        }
    } else {
        None
    }
}

impl RecordingTickerState {
    /// Idle, never started.
    pub fn new() -> (s: RecordingTickerState)
        ensures
            s == (RecordingTickerState {
                state: RecordingState::Idle,
                started_at: None,
                paused_for: 0,
                pause_started: None,
            }),
    {
        RecordingTickerState {
            state: RecordingState::Idle,
            started_at: None,
            paused_for: 0,
            pause_started: None,
        }
    }

    /// Starts recording at `now`, from any state: no pauses yet.
    pub fn start(&mut self, now: u64)
        ensures
            *final(self) == (RecordingTickerState {
                state: RecordingState::Recording,
                started_at: Some(now),
                paused_for: 0,
                pause_started: None,
            }),
    {
        self.started_at = Some(now);
        self.paused_for = 0;
        self.pause_started = None;
        self.state = RecordingState::Recording;
    }

    /// Pauses at `now`; only a recording can pause. Tells whether it did.
    pub fn pause(&mut self, now: u64) -> (paused: bool)
        ensures
            paused == (old(self).state == RecordingState::Recording),
            paused ==> *final(self) == (RecordingTickerState {
                state: RecordingState::Paused,
                pause_started: Some(now),
                ..*old(self)
            }),
            !paused ==> *final(self) == *old(self),
    {
        if self.state != RecordingState::Recording {
            return false;
        }
        self.pause_started = Some(now);
        self.state = RecordingState::Paused;
        true
    }

    /// Resumes at `now`; only a paused recording can resume. The pause
    /// just ended is added to the paused time. Tells whether it resumed.
    pub fn resume(&mut self, now: u64) -> (resumed: bool)
        requires
            old(self).state == RecordingState::Paused ==> match old(self).pause_started {
                Some(p) => old(self).paused_for + saturating_diff(now, p) <= u64::MAX,
                None => true,
            },
        ensures
            resumed == (old(self).state == RecordingState::Paused),
            resumed ==> *final(self) == (RecordingTickerState {
                state: RecordingState::Recording,
                pause_started: None,
                paused_for: match old(self).pause_started {
                    Some(p) => (old(self).paused_for + saturating_diff(now, p)) as u64,
                    None => old(self).paused_for,
                },
                ..*old(self)
            }),
            !resumed ==> *final(self) == *old(self),
    {
        if self.state != RecordingState::Paused {
            return false;
        }
        if let Some(p) = self.pause_started {
            let paused = if now >= p { now - p } else { 0 };
            self.paused_for = self.paused_for + paused;
        }
        self.pause_started = None;
        self.state = RecordingState::Recording;
        true
    }

    /// The first half of stopping: the recorder is finalizing.
    pub fn begin_stop(&mut self)
        ensures
            *final(self) == (RecordingTickerState { state: RecordingState::Finalizing, ..*old(self) }),
    {
        self.state = RecordingState::Finalizing;
    }

    /// The second half of stopping: idle, with the times cleared.
    pub fn finish_stop(&mut self)
        ensures
            *final(self) == (RecordingTickerState {
                state: RecordingState::Idle,
                started_at: None,
                paused_for: 0,
                pause_started: None,
            }),
    {
        self.started_at = None;
        self.paused_for = 0;
        self.pause_started = None;
        self.state = RecordingState::Idle;
    }

    /// What the ticker shows at `now` (see [`elapsed_secs`]); nothing
    /// unless recording.
    pub fn elapsed_at(&self, now: u64) -> (r: Option<i32>)
        ensures
            r == elapsed_secs(*self, now),
    {
        if self.state == RecordingState::Recording {
            match self.started_at {
                Some(start) => {
                    let since = if now >= start { now - start } else { 0 };
                    let net = if since >= self.paused_for { since - self.paused_for } else { 0 };
                    Some(#[verifier::truncate] ((net / 1000) as i32))
                },
                None => None,
            }
        } else {
            None
        }
    }
}

/// A recording that is paused and resumed shows, after resuming, the same
/// elapsed time as before pausing plus the time recorded since; the pause
/// does not count.
pub proof fn law_pause_not_counted(s: RecordingTickerState, start: u64, t_pause: u64, t_resume: u64, now: u64)
    requires
        s.state == RecordingState::Recording,
        s.started_at == Some(start),
        start <= t_pause <= t_resume <= now,
        s.paused_for <= t_pause - start,
        s.paused_for + (t_resume - t_pause) <= u64::MAX,
    ensures
        ({
            let resumed = RecordingTickerState {
                state: RecordingState::Recording,
                pause_started: None,
                paused_for: (s.paused_for + (t_resume - t_pause)) as u64,
                ..s
            };
            saturating_diff(saturating_diff(now, start), resumed.paused_for)
                == (t_pause - start - s.paused_for) + (now - t_resume)
        }),
{
}

} // verus!
