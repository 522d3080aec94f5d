//! Structured activation trace: one entry per orchestrator step, carrying the
//! component, the technique tried and the OS-reported boolean, stamped with
//! the local wall clock. The platform layer appends rendered lines to the
//! diagnostic log file; the rendering to the `[HH:MM:SS] message` line format
//! is verified here.

use vstd::prelude::*;

use chrono::Timelike;
use vstd::string::StringExecFns;

use crate::arbitrator::Technique;
use crate::locator::MatchRung;

verus! {

/// A local wall-clock time of day.
#[derive(Clone, Copy, Debug, PartialEq, Eq, Structural)]
pub struct Clock {
    pub hour: u8,
    pub minute: u8,
    pub second: u8,
}

/// Relies on chrono::Local::now and chrono::Timelike: hour, minute and second
/// of the local wall clock lie in their calendar ranges.
#[verifier::external_body]
fn now_clock() -> (r: Clock)
    ensures
        r.hour < 24,
        r.minute < 60,
        r.second < 60,
{
    let t = chrono::Local::now();
    Clock { hour: t.hour() as u8, minute: t.minute() as u8, second: t.second() as u8 }
}

/// One step of an activation run.
#[derive(Clone, Copy, Debug, PartialEq, Eq, Structural)]
pub enum TraceEvent {
    /// The locator starts searching the window registry.
    Locating,
    /// The locator found a window, on the given rung.
    Located { handle: u64, rung: MatchRung },
    /// Every locator criterion failed; the run stops here.
    Aborted,
    /// The normalizer restores and shows the located window.
    Normalizing,
    /// The arbitrator starts its ladder.
    Arbitrating,
    /// One arbitrator rung ran, with the OS-reported result.
    Rung { technique: Technique, ok: bool },
    /// The pending-keyword marker was read and cleared; `delivered` says
    /// whether a fresh keyword came out.
    Consuming { delivered: bool },
    /// The run finished, with the arbitrator's advisory success signal.
    Done { reported: bool },
}

/// One trace line: when it happened and what happened.
#[derive(Clone, Copy, Debug, PartialEq, Eq, Structural)]
pub struct TraceEntry {
    pub clock: Clock,
    pub event: TraceEvent,
}

/// The append-only activation trace. Its abstract value is the sequence of
/// events; the wall-clock stamps are diagnostic only and unspecified.
pub struct TraceLog {
    entries: Vec<TraceEntry>,
}

impl View for TraceLog {
    type V = Seq<TraceEvent>;

    closed spec fn view(&self) -> Seq<TraceEvent> {
        Seq::new(self.entries@.len(), |i: int| self.entries@[i].event)
    }
}

impl TraceLog {
    /// An empty trace.
    pub fn new() -> (r: TraceLog)
        ensures
            r@ == Seq::<TraceEvent>::empty(),
    {
        let r = TraceLog { entries: Vec::new() };
        proof {
            assert(r@ =~= Seq::<TraceEvent>::empty());
        }
        r
    }

    /// Appends one event, stamped with the local wall clock.
    pub fn push(&mut self, event: TraceEvent)
        ensures
            final(self)@ == old(self)@.push(event),
    {
        let clock = now_clock();
        self.entries.push(TraceEntry { clock, event });
        proof {
            assert(self@ =~= old(self)@.push(event));
        }
    }

    /// How many entries the trace holds.
    pub fn len(&self) -> (n: usize)
        ensures
            n == self@.len(),
    {
        self.entries.len()
    }

    /// The event of entry `i`.
    pub fn event_at(&self, i: usize) -> (e: TraceEvent)
        requires
            i < self@.len(),
        ensures
            e == self@[i as int],
    {
        self.entries[i].event
    }

    /// The full entry `i`, clock stamp included.
    pub fn entry_at(&self, i: usize) -> (e: TraceEntry)
        requires
            i < self@.len(),
        ensures
            e.event == self@[i as int],
    {
        self.entries[i]
    }
}

/// The decimal digit character for `d` (taken modulo 10).
pub open spec fn digit_char(d: int) -> char {
    let v = d % 10;
    if v == 0 {
        '0'
    } else if v == 1 {
        '1'
    } else if v == 2 {
        '2'
    } else if v == 3 {
        '3'
    } else if v == 4 {
        '4'
    } else if v == 5 {
        '5'
    } else if v == 6 {
        '6'
    } else if v == 7 {
        '7'
    } else if v == 8 {
        '8'
    } else {
        '9'
    }
}

/// The decimal digit as a one-character string.
pub fn digit_str(d: u8) -> (r: &'static str)
    ensures
        r@ == seq![digit_char(d as int)],
{
    let v = d % 10;
    if v == 0 {
        proof {
            reveal_strlit("0");
        }
        "0"
    } else if v == 1 {
        proof {
            reveal_strlit("1");
        }
        "1"
    } else if v == 2 {
        proof {
            reveal_strlit("2");
        }
        "2"
    } else if v == 3 {
        proof {
            reveal_strlit("3");
        }
        "3"
    } else if v == 4 {
        proof {
            reveal_strlit("4");
        }
        "4"
    } else if v == 5 {
        proof {
            reveal_strlit("5");
        }
        "5"
    } else if v == 6 {
        proof {
            reveal_strlit("6");
        }
        "6"
    } else if v == 7 {
        proof {
            reveal_strlit("7");
        }
        "7"
    } else if v == 8 {
        proof {
            reveal_strlit("8");
        }
        "8"
    } else {
        proof {
            reveal_strlit("9");
        }
        "9"
    }
}

/// The `[HH:MM:SS] ` prefix of a trace line, two decimal digits per part.
pub open spec fn clock_chars(c: Clock) -> Seq<char> {
    seq![
        '[',
        digit_char(c.hour as int / 10),
        digit_char(c.hour as int),
        ':',
        digit_char(c.minute as int / 10),
        digit_char(c.minute as int),
        ':',
        digit_char(c.second as int / 10),
        digit_char(c.second as int),
        ']',
        ' ',
    ]
}

/// The human-readable name of an arbitrator technique.
pub open spec fn technique_name(t: Technique) -> Seq<char> {
    match t {
        Technique::PreAuthorize => "pre-authorize foreground switch"@,
        Technique::DirectRequest => "direct foreground request"@,
        Technique::TopmostToggle => "topmost toggle"@,
        Technique::ThreadAttach => "thread input attach"@,
        Technique::FinalRetry => "final retry"@,
    }
}

/// The executable technique-name table, equal to `technique_name`.
pub fn technique_name_str(t: Technique) -> (r: &'static str)
    ensures
        r@ == technique_name(t),
{
    match t {
        Technique::PreAuthorize => "pre-authorize foreground switch",
        Technique::DirectRequest => "direct foreground request",
        Technique::TopmostToggle => "topmost toggle",
        Technique::ThreadAttach => "thread input attach",
        Technique::FinalRetry => "final retry",
    }
}

/// How an OS-reported boolean reads in the log.
pub open spec fn result_text(ok: bool) -> Seq<char> {
    if ok {
        "reported success"@
    } else {
        "reported failure"@
    }
}

/// The message part of a trace line.
pub open spec fn event_message(e: TraceEvent) -> Seq<char> {
    match e {
        TraceEvent::Locating => "locating: searching the window registry"@,
        TraceEvent::Located { .. } => "locating: window found"@,
        TraceEvent::Aborted => "aborted: application window not found"@,
        TraceEvent::Normalizing => "normalizing: restore and show"@,
        TraceEvent::Arbitrating => "arbitrating: running the focus ladder"@,
        TraceEvent::Rung { technique, ok } => technique_name(technique) + ": "@ + result_text(ok),
        TraceEvent::Consuming { delivered } => if delivered {
            "consuming: pending keyword delivered"@
        } else {
            "consuming: no pending keyword"@
        },
        TraceEvent::Done { reported } => if reported {
            "done: foreground transfer reported success"@
        } else {
            "done: foreground transfer reported failure"@
        },
    }
}

/// Renders the `[HH:MM:SS] ` prefix of a trace line.
#[verifier::rlimit(30)]
pub fn render_clock(c: Clock) -> (r: String)
    ensures
        r@ == clock_chars(c),
{
    let mut s = "[".to_owned();
    s.append(digit_str(c.hour / 10));
    s.append(digit_str(c.hour));
    s.append(":");
    s.append(digit_str(c.minute / 10));
    s.append(digit_str(c.minute));
    s.append(":");
    s.append(digit_str(c.second / 10));
    s.append(digit_str(c.second));
    s.append("] ");
    proof {
        reveal_strlit("[");
        reveal_strlit(":");
        reveal_strlit("] ");
        assert(s@ =~= clock_chars(c));
    }
    s
}

/// Renders the message part of a trace line.
pub fn render_message(e: TraceEvent) -> (r: String)
    ensures
        r@ == event_message(e),
{
    match e {
        TraceEvent::Locating => "locating: searching the window registry".to_owned(),
        TraceEvent::Located { .. } => "locating: window found".to_owned(),
        TraceEvent::Aborted => "aborted: application window not found".to_owned(),
        TraceEvent::Normalizing => "normalizing: restore and show".to_owned(),
        TraceEvent::Arbitrating => "arbitrating: running the focus ladder".to_owned(),
        TraceEvent::Rung { technique, ok } => {
            let mut s = technique_name_str(technique).to_owned();
            s.append(": ");
            if ok {
                s.append("reported success");
            } else {
                s.append("reported failure");
            }
            proof {
                assert(s@ =~= event_message(e));
            }
            s
        },
        TraceEvent::Consuming { delivered } => {
            if delivered {
                "consuming: pending keyword delivered".to_owned()
            } else {
                "consuming: no pending keyword".to_owned()
            }
        },
        TraceEvent::Done { reported } => {
            if reported {
                "done: foreground transfer reported success".to_owned()
            } else {
                "done: foreground transfer reported failure".to_owned()
            }
        },
    }
}

/// Renders one trace entry as the log line `[HH:MM:SS] message`.
pub fn render_entry(e: TraceEntry) -> (r: String)
    ensures
        r@ == clock_chars(e.clock) + event_message(e.event),
{
    let mut s = render_clock(e.clock);
    let m = render_message(e.event);
    s.append(m.as_str());
    s
}

} // verus!
