//! The debug log ring: the newest tracing events, at most
//! [`LOG_RING_CAP`] of them, with a flag telling the UI pusher that there
//! is something new to show.

use vstd::prelude::*;
use std::collections::VecDeque;
use crate::text::{str_starts_with, starts_with_seq};

verus! {

broadcast use vstd::std_specs::vecdeque::group_vec_dequeue_axioms;

/// How many entries the ring keeps.
pub const LOG_RING_CAP: usize = 1024;

/// The least time between two pushes of the ring to the UI, in
/// milliseconds.
pub const PUSH_INTERVAL_MILLIS: u64 = 200;

/// The level of a log entry.
#[derive(Clone, Copy, Debug, PartialEq, Eq, Structural)]
pub enum LogLevel {
    Trace,
    Debug,
    Info,
    Warning,
    Error,
}

/// A log entry as the debug page lists it.
pub struct LogEntry {
    pub level: LogLevel,
    pub timestamp: String,
    pub target: String,
    pub message: String,
}

/// What a log entry is.
pub ghost struct LogEntryView {
    pub level: LogLevel,
    pub timestamp: Seq<char>,
    pub target: Seq<char>,
    pub message: Seq<char>,
}

impl View for LogEntry {
    type V = LogEntryView;

    open spec fn view(&self) -> LogEntryView {
        LogEntryView {
            level: self.level,
            timestamp: self.timestamp@,
            target: self.target@,
            message: self.message@,
        }
    }
}

impl LogEntry {
    /// An independent copy.
    pub fn duplicate(&self) -> (e: LogEntry)
        ensures
            e@ == self@,
    {
        LogEntry {
            level: self.level,
            timestamp: self.timestamp.clone(),
            target: self.target.clone(),
            message: self.message.clone(),
        }
    }
}

/// The views of a sequence of entries.
pub open spec fn entry_views(s: Seq<LogEntry>) -> Seq<LogEntryView> {
    s.map_values(|e: LogEntry| e@)
}

/// Events of the ring itself are not recorded, so that pushing the log
/// does not feed it.
pub open spec fn own_target(target: Seq<char>) -> bool {
    starts_with_seq(target, "fcastsender::log_ring"@)
}

/// The entries after `e` is recorded: appended, the oldest dropped when the
/// ring is full.
pub open spec fn appended(s: Seq<LogEntryView>, e: LogEntryView) -> Seq<LogEntryView> {
    if s.len() >= LOG_RING_CAP { s.drop_first().push(e) } else { s.push(e) }
}

/// What the ring is: its entries, oldest first, and whether the UI has not
/// seen them yet.
pub ghost struct LogRingView {
    pub entries: Seq<LogEntryView>,
    pub dirty: bool,
}

/// The ring of recent log entries.
pub struct LogRing {
    entries: VecDeque<LogEntry>,
    dirty: bool,
}

impl View for LogRing {
    type V = LogRingView;

    closed spec fn view(&self) -> LogRingView {
        LogRingView { entries: entry_views(self.entries@), dirty: self.dirty }
    }
}

impl LogRing {
    #[verifier::type_invariant]
    closed spec fn inv(self) -> bool {
        self.entries@.len() <= LOG_RING_CAP
    }

    /// An empty ring with nothing to push.
    pub fn new() -> (r: LogRing)
        ensures
            r@.entries == Seq::<LogEntryView>::empty(),
            !r@.dirty,
    {
        let r = LogRing { entries: VecDeque::new(), dirty: false };
        proof {
            assert(entry_views(r.entries@) =~= Seq::<LogEntryView>::empty());
        }
        r
    }

    /// The ring never holds more than [`LOG_RING_CAP`] entries.
    pub fn len(&self) -> (n: usize)
        ensures
            n == self@.entries.len(),
            n <= LOG_RING_CAP,
    {
        proof { use_type_invariant(self); }
        self.entries.len()
    }

    /// Records an event: events of the ring's own module are ignored;
    /// others are appended (the oldest dropped when full) and mark the ring
    /// as having something new. Tells whether the entry was recorded.
    pub fn on_event(&mut self, entry: LogEntry) -> (recorded: bool)
        ensures
            recorded == !own_target(entry@.target),
            recorded ==> final(self)@ == (LogRingView {
                entries: appended(old(self)@.entries, entry@),
                dirty: true,
            }),
            !recorded ==> final(self)@ == old(self)@,
            final(self)@.entries.len() <= LOG_RING_CAP,
    {
        proof { use_type_invariant(&*self); }
        if str_starts_with(entry.target.as_str(), "fcastsender::log_ring") {
            return false;
        }
        let ghost before = entry_views(self.entries@);
        let ghost ev = entry@;
        let mut q: VecDeque<LogEntry> = VecDeque::new();
        std::mem::swap(&mut q, &mut self.entries);
        if q.len() == LOG_RING_CAP {
            let _ = q.pop_front();
            proof {
                assert(entry_views(q@) =~= before.drop_first());
            }
        }
        let ghost mid = entry_views(q@);
        q.push_back(entry);
        proof {
            assert(entry_views(q@) =~= mid.push(ev));
            assert(entry_views(q@) =~= appended(before, ev));
        }
        self.entries = q;
        self.dirty = true;
        true
    }

    /// Empties the ring and marks it for the next push, so that the UI
    /// shows it empty.
    pub fn clear(&mut self)
        ensures
            final(self)@ == (LogRingView { entries: Seq::empty(), dirty: true }),
    {
        self.entries = VecDeque::new();
        self.dirty = true;
        proof {
            assert(entry_views(self.entries@) =~= Seq::<LogEntryView>::empty());
        }
    }

    /// The pusher's tick: when there is something new, the entries to show
    /// (oldest first) and the flag cleared; otherwise nothing.
    pub fn take_snapshot(&mut self) -> (r: Option<Vec<LogEntry>>)
        ensures
            old(self)@.dirty ==> (r matches Some(v) && entry_views(v@) == old(self)@.entries),
            !old(self)@.dirty ==> r is None,
            final(self)@ == (LogRingView { entries: old(self)@.entries, dirty: false }),
    {
        proof { use_type_invariant(&*self); }
        if !self.dirty {
            return None;
        }
        self.dirty = false;
        let mut out: Vec<LogEntry> = Vec::new();
        let mut i: usize = 0;
        while i < self.entries.len()
            invariant
                i <= self.entries@.len(),
                entry_views(out@) == entry_views(self.entries@).take(i as int),
            decreases self.entries@.len() - i,
        {
            let e = self.entries[i].duplicate();
            let ghost prev = out@;
            out.push(e);
            proof {
                assert(entry_views(out@) =~= entry_views(prev).push(e@));
                assert(entry_views(self.entries@).take(i + 1) =~= entry_views(self.entries@).take(i as int).push(self.entries@[i as int]@));
            }
            i = i + 1;
        }
        proof {
            assert(entry_views(self.entries@).take(self.entries@.len() as int) =~= entry_views(self.entries@));
        }
        Some(out)
    }
}

/// Recording an event keeps every entry it does not evict, in order, and
/// puts the new one last; at most the oldest entry is evicted, and only
/// when the ring was full.
pub proof fn law_record_keeps_newest(s: Seq<LogEntryView>, e: LogEntryView)
    requires
        s.len() <= LOG_RING_CAP,
    ensures
        appended(s, e).len() <= LOG_RING_CAP,
        appended(s, e).last() == e,
        s.len() < LOG_RING_CAP ==> appended(s, e).drop_last() == s,
        s.len() == LOG_RING_CAP ==> appended(s, e).drop_last() == s.drop_first(),
{
    if s.len() < LOG_RING_CAP {
        assert(s.push(e).drop_last() =~= s);
    } else {
        assert(s.drop_first().push(e).drop_last() =~= s.drop_first());
    }
}

} // verus!
