//! The banner strip: showing a message, hiding it, and auto-hiding it
//! without hiding a newer one.

use vstd::prelude::*;
use crate::platform::lifecycle::Generation;

verus! {

/// How a banner is styled.
#[derive(Clone, Copy, Debug, PartialEq, Eq, Structural)]
pub enum BannerSeverity {
    Info,
    Success,
    Warning,
    Error,
}

/// The banner strip and the generation of its latest change.
pub struct Banner {
    pub message: String,
    pub severity: BannerSeverity,
    pub visible: bool,
    pub generation: Generation,
}

/// The generation after one more change.
pub open spec fn next_generation(g: u64) -> u64 {
    if g == u64::MAX { 0 } else { (g + 1) as u64 }
}

impl Banner {
    /// A hidden, empty banner at generation zero.
    pub fn new() -> (b: Banner)
        ensures
            b.message@.len() == 0,
            b.severity == BannerSeverity::Info,
            !b.visible,
            b.generation.current == 0,
    {
        Banner {
            message: String::new(),
            severity: BannerSeverity::Info,
            visible: false,
            generation: Generation::new(),
        }
    }

    /// Shows `message`; returns the generation of this change.
    pub fn set(&mut self, message: String, severity: BannerSeverity) -> (g: u64)
        ensures
            g == next_generation(old(self).generation.current),
            final(self).generation.current == g,
            final(self).message@ == message@,
            final(self).severity == severity,
            final(self).visible,
    {
        let g = self.generation.bump();
        self.message = message;
        self.severity = severity;
        self.visible = true;
        g
    }

    /// Hides the banner (a change of its own).
    pub fn clear(&mut self)
        ensures
            final(self).generation.current == next_generation(old(self).generation.current),
            !final(self).visible,
            final(self).message@ == old(self).message@,
            final(self).severity == old(self).severity,
    {
        self.generation.bump();
        self.visible = false;
    }

    /// The auto-hide timer of the change `g` fires: the banner is hidden
    /// only if no change came after `g`.
    pub fn timer_fired(&mut self, g: u64)
        ensures
            old(self).generation.current == g ==> {
                &&& !final(self).visible
                &&& final(self).generation.current == next_generation(g)
            },
            old(self).generation.current != g ==> {
                &&& final(self).visible == old(self).visible
                &&& final(self).generation.current == old(self).generation.current
            },
            final(self).message@ == old(self).message@,
            final(self).severity == old(self).severity,
    {
        if crate::platform::lifecycle::banner_timer_clears(g, &self.generation) {
            self.clear();
        }
    }
}

/// A banner changed again after being shown is not hidden by the timer of
/// the earlier change: the next generation always differs from the one the
/// earlier timer holds, so [`Banner::timer_fired`] leaves the banner alone.
pub proof fn law_stale_timer_is_ignored(g: u64)
    ensures
        next_generation(g) != g,
{
}

} // verus!
