//! The lifecycle overlays (lock screen, stealth, snapshot countdown) and
//! the generation counters that keep late timers from undoing newer
//! requests.

use vstd::prelude::*;

verus! {

/// Which overlay covers the UI.
#[derive(Clone, Copy, Debug, PartialEq, Eq, Structural)]
pub enum LifecycleMode {
    Normal,
    LockScreen,
    Stealth,
    SnapshotCountdown,
}

/// A counter bumped by every request that supersedes the earlier ones; a
/// timer acts only if the generation it captured is still the current one.
pub struct Generation {
    pub current: u64,
}

impl Generation {
    /// A counter at zero.
    pub fn new() -> (g: Generation)
        ensures
            g.current == 0,
    {
        Generation { current: 0 }
    }

    /// Starts a new generation and returns it (wrapping like an atomic
    /// `fetch_add`).
    pub fn bump(&mut self) -> (g: u64)
        ensures
            g == (if old(self).current == u64::MAX { 0 } else { old(self).current + 1 }),
            final(self).current == g,
    {
        self.current = self.current.wrapping_add(1);
        self.current
    }

    /// Whether `g` is still the current generation.
    pub fn is_current(&self, g: u64) -> (r: bool)
        ensures
            r == (self.current == g),
    {
        self.current == g
    }
}

/// The mode after a snapshot countdown of generation `captured` ends while
/// `current` is the newest generation and the UI is in `mode`: back to
/// Normal only if no newer countdown started and the countdown is still
/// shown; otherwise the mode is left alone.
pub open spec fn countdown_end_mode(mode: LifecycleMode, captured: u64, current: u64) -> LifecycleMode {
    if captured == current && mode == LifecycleMode::SnapshotCountdown {
        LifecycleMode::Normal
    } else {
        mode
    }
}

/// The mode after a snapshot countdown ends (see [`countdown_end_mode`]).
pub fn countdown_ended(mode: LifecycleMode, captured: u64, generation: &Generation) -> (m: LifecycleMode)
    ensures
        m == countdown_end_mode(mode, captured, generation.current),
{
    if generation.is_current(captured) && mode == LifecycleMode::SnapshotCountdown {
        LifecycleMode::Normal
    } else {
        mode
    }
}

/// How long a countdown of `seconds` sleeps: negative counts are zero.
pub fn countdown_seconds(seconds: i32) -> (s: u64)
    ensures
        s == (if seconds < 0 { 0 } else { seconds as u64 }),
{
    if seconds < 0 {
        0
    } else {
        seconds as u64
    }
}

/// A banner timer of generation `captured` hides the banner only if no
/// newer banner was set or cleared since.
pub fn banner_timer_clears(captured: u64, generation: &Generation) -> (r: bool)
    ensures
        r == (captured == generation.current),
{
    generation.is_current(captured)
}

} // verus!
