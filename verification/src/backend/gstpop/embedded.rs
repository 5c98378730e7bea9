//! The embedded gst-pop daemon: reading its endpoint from a URL, and who
//! starts it when several callers ask at once.

use vstd::prelude::*;
use crate::text::{
    all_digits, chars_of, contains, contains_seq, decimal, digits_to_u64, digits_value, is_digit,
    owned, push_decimal, push_str,
};

verus! {

/// The port used when a URL carries none that can be read.
pub const DEFAULT_PORT: u16 = 9000;

/// The text after the last `:` of `s` (all of `s` when it has none).
pub open spec fn after_last_colon(s: Seq<char>) -> Seq<char>
    decreases s.len(),
{
    if s.len() == 0 {
        s
    } else if s.last() == ':' {
        Seq::empty()
    } else {
        after_last_colon(s.drop_last()).push(s.last())
    }
}

/// `s` without its trailing `/` characters.
pub open spec fn trim_trailing_slashes(s: Seq<char>) -> Seq<char>
    decreases s.len(),
{
    if s.len() > 0 && s.last() == '/' {
        trim_trailing_slashes(s.drop_last())
    } else {
        s
    }
}

/// How std reads a `u16` from text: an optional leading `+`, then one or
/// more decimal digits whose value fits in 16 bits.
pub open spec fn parse_u16(s: Seq<char>) -> Option<u16> {
    let d = if s.len() > 0 && s[0] == '+' { s.drop_first() } else { s };
    if d.len() == 0 || !all_digits(d) || digits_value(d) > 65535 {
        None
    } else {
        Some(digits_value(d) as u16)
    }
}

/// The port named by a WebSocket URL such as `ws://127.0.0.1:9000`.
pub open spec fn spec_url_port(url: Seq<char>) -> u16 {
    match parse_u16(trim_trailing_slashes(after_last_colon(url))) {
        Some(p) => p,
        None => DEFAULT_PORT,
    }
}

/// Whether a URL names the local loopback interface.
pub open spec fn spec_is_localhost(url: Seq<char>) -> bool {
    contains_seq(url, "127.0.0.1"@) || contains_seq(url, "localhost"@) || contains_seq(url, "[::1]"@)
}

/// Returns true if `url` targets the local loopback interface.
pub fn is_localhost(url: &str) -> (r: bool)
    ensures
        r == spec_is_localhost(url@),
{
    let u = chars_of(url);
    let a = chars_of("127.0.0.1");
    let b = chars_of("localhost");
    let c = chars_of("[::1]");
    contains(&u, &a) || contains(&u, &b) || contains(&u, &c)
}

proof fn lemma_after_last_colon(s: Seq<char>, k: int)
    requires
        0 <= k <= s.len(),
        k == 0 || s[k - 1] == ':',
        forall|j: int| k <= j < s.len() ==> s[j] != ':',
    ensures
        after_last_colon(s) == s.subrange(k, s.len() as int),
    decreases s.len(),
{
    if s.len() == 0 {
        assert(s.subrange(k, 0) =~= s);
    } else if k == s.len() {
        assert(s.last() == ':');
        assert(s.subrange(k, k) =~= Seq::<char>::empty());
    } else {
        let t = s.drop_last();
        assert forall|j: int| k <= j < t.len() implies t[j] != ':' by {
            assert(t[j] == s[j]);
        }
        lemma_after_last_colon(t, k);
        assert(t.subrange(k, t.len() as int).push(s.last()) =~= s.subrange(k, s.len() as int));
    }
}

proof fn lemma_trim(s: Seq<char>, k: int)
    requires
        0 <= k <= s.len(),
        k == 0 || s[k - 1] != '/',
        forall|j: int| k <= j < s.len() ==> s[j] == '/',
    ensures
        trim_trailing_slashes(s) == s.subrange(0, k),
    decreases s.len(),
{
    if s.len() == k {
        assert(s.subrange(0, k) =~= s);
    } else {
        let t = s.drop_last();
        assert forall|j: int| k <= j < t.len() implies t[j] == '/' by {
            assert(t[j] == s[j]);
        }
        lemma_trim(t, k);
        assert(t.subrange(0, k) =~= s.subrange(0, k));
    }
}

/// Extract port from a WebSocket URL like "ws://127.0.0.1:9000"; 9000 when
/// the text after the last `:` is no port number.
#[verifier::loop_isolation(false)]
pub fn url_port(url: &str) -> (port: u16)
    ensures
        port == spec_url_port(url@),
{
    let s = chars_of(url);
    let n = s.len();
    // Start of the text after the last ':'.
    let mut lo: usize = n;
    while lo > 0 && s[lo - 1] != ':'
        invariant
            lo <= n == s.len(),
            forall|j: int| lo <= j < n ==> s@[j] != ':',
        decreases lo,
    {
        lo = lo - 1;
    }
    proof {
        lemma_after_last_colon(s@, lo as int);
    }
    let ghost seg = s@.subrange(lo as int, n as int);
    // End of the segment without trailing '/'.
    let mut hi: usize = n;
    while hi > lo && s[hi - 1] == '/'
        invariant
            lo <= hi <= n == s.len(),
            forall|j: int| hi <= j < n ==> s@[j] == '/',
        decreases hi,
    {
        hi = hi - 1;
    }
    proof {
        let h = hi - lo;
        assert forall|j: int| h <= j < seg.len() implies seg[j] == '/' by {
            assert(seg[j] == s@[lo + j]);
        }
        if h > 0 {
            assert(seg[h - 1] == s@[hi - 1]);
        }
        lemma_trim(seg, h);
        assert(seg.subrange(0, h) =~= s@.subrange(lo as int, hi as int));
    }
    let ghost t = s@.subrange(lo as int, hi as int);
    // Optional leading '+'.
    let mut start = lo;
    if start < hi && s[start] == '+' {
        start = start + 1;
    }
    let ghost d = s@.subrange(start as int, hi as int);
    proof {
        if t.len() > 0 && t[0] == '+' {
            assert(t.drop_first() =~= d);
        } else {
            assert(t =~= d);
        }
    }
    if start == hi {
        return DEFAULT_PORT;
    }
    let mut i = start;
    while i < hi
        invariant
            start <= i <= hi <= s.len(),
            d == s@.subrange(start as int, hi as int),
            forall|j: int| start <= j < i ==> is_digit(s@[j]),
        decreases hi - i,
    {
        if !(s[i] >= '0' && s[i] <= '9') {
            proof {
                assert(d[i - start] == s@[i as int]);
                assert(!is_digit(d[i - start]));
            }
            return DEFAULT_PORT;
        }
        i = i + 1;
    }
    assert(all_digits(d)) by {
        assert forall|j: int| 0 <= j < d.len() implies #[trigger] is_digit(d[j]) by {
            assert(d[j] == s@[start + j]);
        }
    }
    match digits_to_u64(&s, start, hi) {
        Some(v) => {
            if v <= 65535 {
                v as u16
            } else {
                DEFAULT_PORT
            }
        },
        None => DEFAULT_PORT,
    }
}


/// Who is starting the embedded daemon, and whether it is up.
pub struct EmbeddedStartup {
    pub claimed: bool,
    pub ready: bool,
}

/// What a caller asking for the daemon does next.
#[derive(Clone, Copy, Debug, PartialEq, Eq, Structural)]
pub enum StartupStep {
    /// The daemon is already up.
    AlreadyRunning,
    /// Another server already listens on the port: it is used as the
    /// daemon, and no embedded server is started.
    AdoptExternal,
    /// This caller starts the server, then reports with
    /// [`EmbeddedStartup::server_started`].
    StartServer,
    /// Another caller is starting the server: wait for the port.
    WaitForPort,
}

/// The next step of a caller asking for the daemon, and the state after:
/// a ready daemon needs nothing; an open port is adopted; otherwise the
/// first caller claims the start and the others wait.
pub open spec fn ask_step(s: EmbeddedStartup, port_open: bool) -> (EmbeddedStartup, StartupStep) {
    if s.ready {
        (s, StartupStep::AlreadyRunning)
    } else if port_open {
        (EmbeddedStartup { claimed: true, ready: true }, StartupStep::AdoptExternal)
    } else if !s.claimed {
        (EmbeddedStartup { claimed: true, ready: false }, StartupStep::StartServer)
    } else {
        (s, StartupStep::WaitForPort)
    }
}

/// The state after the claimed start reports: on success the daemon is
/// ready; on failure the claim is released.
pub open spec fn report_step(s: EmbeddedStartup, ok: bool) -> EmbeddedStartup {
    if ok {
        EmbeddedStartup { ready: true, ..s }
    } else {
        EmbeddedStartup { claimed: false, ..s }
    }
}

impl EmbeddedStartup {
    /// Nobody has claimed the start and nothing runs.
    pub fn new() -> (s: EmbeddedStartup)
        ensures
            !s.claimed,
            !s.ready,
    {
        EmbeddedStartup { claimed: false, ready: false }
    }

    /// The next step of a caller that found the port open or not (see
    /// [`ask_step`]).
    pub fn ensure_started(&mut self, port_open: bool) -> (step: StartupStep)
        ensures
            (*final(self), step) == ask_step(*old(self), port_open),
    {
        if self.ready {
            return StartupStep::AlreadyRunning;
        }
        if port_open {
            self.claimed = true;
            self.ready = true;
            return StartupStep::AdoptExternal;
        }
        if !self.claimed {
            self.claimed = true;
            StartupStep::StartServer
        } else {
            StartupStep::WaitForPort
        }
    }

    /// The claimed start finished (see [`report_step`]).
    pub fn server_started(&mut self, ok: bool)
        ensures
            *final(self) == report_step(*old(self), ok),
    {
        if ok {
            self.ready = true;
        } else {
            self.claimed = false;
        }
    }
}

/// One thing that happens to the startup state: a caller asks for the
/// daemon (having found the port open or not), or the caller that claimed
/// the start reports how it went.
pub ghost enum StartupEvent {
    Ask(bool),
    Report(bool),
}

/// The startup state after `events`, from nobody having claimed anything.
pub open spec fn startup_after(events: Seq<StartupEvent>) -> EmbeddedStartup
    decreases events.len(),
{
    if events.len() == 0 {
        EmbeddedStartup { claimed: false, ready: false }
    } else {
        let s = startup_after(events.drop_last());
        match events.last() {
            StartupEvent::Ask(open) => ask_step(s, open).0,
            StartupEvent::Report(ok) => report_step(s, ok),
        }
    }
}

/// Only the holder of the claim reports: every report in `events` comes
/// while the start is claimed.
pub open spec fn reports_by_claimant(events: Seq<StartupEvent>) -> bool
    decreases events.len(),
{
    events.len() > 0 ==> {
        &&& reports_by_claimant(events.drop_last())
        &&& events.last() is Report ==> startup_after(events.drop_last()).claimed
    }
}

/// How many callers in `events` were told to start a server.
pub open spec fn servers_started(events: Seq<StartupEvent>) -> nat
    decreases events.len(),
{
    if events.len() == 0 {
        0
    } else {
        let prev = events.drop_last();
        servers_started(prev) + match events.last() {
            StartupEvent::Ask(open) => if ask_step(startup_after(prev), open).1 == StartupStep::StartServer { 1nat } else { 0nat },
            StartupEvent::Report(_) => 0nat,
        }
    }
}

/// How many starts in `events` reported failure.
pub open spec fn failed_starts(events: Seq<StartupEvent>) -> nat
    decreases events.len(),
{
    if events.len() == 0 {
        0
    } else {
        failed_starts(events.drop_last()) + match events.last() {
            StartupEvent::Report(false) => 1nat,
            _ => 0nat,
        }
    }
}

proof fn lemma_one_start_at_a_time(events: Seq<StartupEvent>)
    requires
        reports_by_claimant(events),
    ensures
        servers_started(events) <= failed_starts(events) + (if startup_after(events).claimed { 1nat } else { 0nat }),
    decreases events.len(),
{
    if events.len() > 0 {
        lemma_one_start_at_a_time(events.drop_last());
    }
}

/// However many callers ask, in whatever order, at most one of them is
/// told to start the embedded server, except that each start that failed
/// (and so released the claim) lets one more caller try.
pub proof fn law_single_server_start(events: Seq<StartupEvent>)
    requires
        reports_by_claimant(events),
    ensures
        servers_started(events) <= failed_starts(events) + 1,
{
    lemma_one_start_at_a_time(events);
}

/// Once the daemon is ready it stays ready, whatever happens after, and
/// every later caller is told that it already runs: no second daemon is
/// started.
pub proof fn law_ready_is_final(events: Seq<StartupEvent>, more: Seq<StartupEvent>, port_open: bool)
    requires
        startup_after(events).ready,
    ensures
        startup_after(events + more).ready,
        ask_step(startup_after(events + more), port_open).1 == StartupStep::AlreadyRunning,
    decreases more.len(),
{
    if more.len() == 0 {
        assert(events + more =~= events);
    } else {
        law_ready_is_final(events, more.drop_last(), port_open);
        assert((events + more).drop_last() =~= events + more.drop_last());
    }
}

/// How often the port is polled while waiting for the server, and the
/// pause between polls in milliseconds: two seconds in all.
pub const PORT_POLLS: u32 = 100;
pub const PORT_POLL_MILLIS: u64 = 20;

/// The loopback address of `port`.
pub fn loopback_addr(port: u16) -> (s: String)
    ensures
        s@ == "127.0.0.1:"@ + decimal(port as nat),
{
    let mut s = owned("127.0.0.1:");
    push_decimal(&mut s, port as u64);
    s
}

/// The error when the server did not come up on `port` in time.
pub fn port_wait_failure(port: u16) -> (s: String)
    ensures
        s@ == "embedded gst-pop server did not start on port "@ + decimal(port as nat) + " within 2s"@,
{
    let mut s = owned("embedded gst-pop server did not start on port ");
    push_decimal(&mut s, port as u64);
    push_str(&mut s, " within 2s");
    s
}

/// The error when the embedded server could not bind `port`.
pub fn bind_failure(port: u16) -> (s: String)
    ensures
        s@ == "failed to bind embedded gst-pop on 127.0.0.1:"@ + decimal(port as nat),
{
    let mut s = owned("failed to bind embedded gst-pop on 127.0.0.1:");
    push_decimal(&mut s, port as u64);
    s
}

} // verus!
