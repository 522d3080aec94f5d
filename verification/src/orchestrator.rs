//! Activation orchestrator: the externally callable entry point. It sequences
//! locator, normalizer and arbitrator against the single well-known
//! application window, records every step in the activation trace, and then
//! atomically reads-and-clears the pending-keyword marker. A window that
//! cannot be located aborts the run and leaves the marker untouched.

use vstd::prelude::*;

use crate::arbitrator::RungReport;
use crate::arbitrator::arbitrate_model;
use crate::arbitrator::bring_to_front;
use crate::desktop::Desktop;
use crate::desktop::DesktopModel;
use crate::locator::locate;
use crate::locator::locate_model;
use crate::marker::KeywordState;
use crate::marker::MarkerModel;
use crate::marker::take_result;
use crate::normalizer::normalize;
use crate::normalizer::normalize_model;
use crate::trace::TraceEvent;
use crate::trace::TraceLog;

verus! {

/// The trace events of the arbitrator's rung reports, in order.
pub open spec fn rung_events(reports: Seq<RungReport>) -> Seq<TraceEvent> {
    Seq::new(
        reports.len(),
        |i: int| TraceEvent::Rung { technique: reports[i].technique, ok: reports[i].ok },
    )
}

/// The outcome of locating and focusing the application window: the desktop
/// left behind, the arbitrator's advisory signal (or nothing when no window
/// was found), and the trace of the run.
#[verifier::ext_equal]
pub struct FocusModel {
    pub desktop: DesktopModel,
    pub outcome: Option<bool>,
    pub events: Seq<TraceEvent>,
}

/// Locate, normalize, arbitrate — on the model.
pub open spec fn focus_model(d: DesktopModel) -> FocusModel {
    match locate_model(d.windows) {
        None => FocusModel {
            desktop: d,
            outcome: None,
            events: seq![TraceEvent::Locating, TraceEvent::Aborted],
        },
        Some(hr) => {
            let dn = normalize_model(d, hr.0);
            let arb = arbitrate_model(dn, hr.0);
            FocusModel {
                desktop: arb.desktop,
                outcome: Some(arb.reported),
                events: seq![
                    TraceEvent::Locating,
                    TraceEvent::Located { handle: hr.0, rung: hr.1 },
                    TraceEvent::Normalizing,
                    TraceEvent::Arbitrating,
                ] + rung_events(arb.reports),
            }
        },
    }
}

/// Locates the application window, normalizes it and runs the full arbitrator
/// ladder against it, tracing every step. Returns the arbitrator's advisory
/// success signal, or nothing when every locator criterion failed — a
/// recoverable condition, never a panic.
pub fn locate_and_focus(d: &mut Desktop, log: &mut TraceLog) -> (r: Option<bool>)
    ensures
        final(d)@ == focus_model(old(d)@).desktop,
        final(log)@ == old(log)@ + focus_model(old(d)@).events,
        r == focus_model(old(d)@).outcome,
{
    log.push(TraceEvent::Locating);
    let loc = locate(d);
    match loc {
        None => {
            log.push(TraceEvent::Aborted);
            proof {
                assert(log@ =~= old(log)@ + focus_model(old(d)@).events);
            }
            None
        },
        Some((h, rung)) => {
            log.push(TraceEvent::Located { handle: h, rung });
            log.push(TraceEvent::Normalizing);
            normalize(d, h);
            log.push(TraceEvent::Arbitrating);
            let (reported, reports) = bring_to_front(d, h);
            let ghost base = log@;
            let ghost revts = rung_events(reports@);
            let n = reports.len();
            let mut i: usize = 0;
            while i < n
                invariant
                    n == reports@.len(),
                    i <= n,
                    revts == rung_events(reports@),
                    log@ == base + revts.subrange(0, i as int),
                decreases n - i,
            {
                let rep = reports[i];
                log.push(TraceEvent::Rung { technique: rep.technique, ok: rep.ok });
                proof {
                    assert(log@ =~= base + revts.subrange(0, i + 1 as int));
                }
                i = i + 1;
            }
            proof {
                assert(revts.subrange(0, n as int) =~= revts);
                assert(log@ =~= old(log)@ + focus_model(old(d)@).events);
            }
            Some(reported)
        },
    }
}

/// The outcome of one orchestrator run: the desktop and marker left behind,
/// the keyword delivered (if any), and the trace of the run.
#[verifier::ext_equal]
pub struct ActivationModel {
    pub desktop: DesktopModel,
    pub marker: MarkerModel,
    pub delivered: Option<Seq<char>>,
    pub events: Seq<TraceEvent>,
}

/// One orchestrator run on the model: locate, normalize, arbitrate, then
/// consume the pending keyword. When no window is found the run aborts and the
/// marker stays untouched — consumption happens only after a located and
/// activated window.
pub open spec fn orchestrate_model(d: DesktopModel, m: MarkerModel, now_ms: u64) -> ActivationModel {
    let f = focus_model(d);
    match f.outcome {
        None => ActivationModel { desktop: f.desktop, marker: m, delivered: None, events: f.events },
        Some(reported) => {
            let delivered = take_result(m, now_ms);
            ActivationModel {
                desktop: f.desktop,
                marker: None,
                delivered,
                events: f.events + seq![
                    TraceEvent::Consuming { delivered: delivered is Some },
                    TraceEvent::Done { reported },
                ],
            }
        },
    }
}

/// The externally invoked entry point: performs the full locate, normalize
/// and arbitrate sequence against the application window, then atomically
/// reads-and-clears the pending-keyword marker, returning the keyword if one
/// was pending and not expired. `now_ms` is the caller's clock reading, in
/// milliseconds.
pub fn activate_and_consume_pending(
    d: &mut Desktop,
    m: &mut KeywordState,
    log: &mut TraceLog,
    now_ms: u64,
) -> (r: Option<String>)
    ensures
        final(d)@ == orchestrate_model(old(d)@, old(m)@, now_ms).desktop,
        final(m)@ == orchestrate_model(old(d)@, old(m)@, now_ms).marker,
        final(log)@ == old(log)@ + orchestrate_model(old(d)@, old(m)@, now_ms).events,
        match r {
            Some(k) => orchestrate_model(old(d)@, old(m)@, now_ms).delivered == Some(k@),
            None => orchestrate_model(old(d)@, old(m)@, now_ms).delivered is None,
        },
{
    match locate_and_focus(d, log) {
        None => None,
        Some(reported) => {
            let kw = m.take_keyword(now_ms);
            log.push(TraceEvent::Consuming { delivered: kw.is_some() });
            log.push(TraceEvent::Done { reported });
            proof {
                assert(log@ =~= old(log)@ + orchestrate_model(old(d)@, old(m)@, now_ms).events);
            }
            kw
        },
    }
}

/// The debug entry point kept from the command surface: one full locate,
/// normalize and arbitrate run, ignoring any pending keyword. Fails exactly
/// when the application window cannot be located.
pub fn force_app_to_foreground(d: &mut Desktop, log: &mut TraceLog) -> (r: Result<(), String>)
    ensures
        final(d)@ == focus_model(old(d)@).desktop,
        final(log)@ == old(log)@ + focus_model(old(d)@).events,
        match r {
            Ok(u) => focus_model(old(d)@).outcome is Some,
            Err(e) => focus_model(old(d)@).outcome is None && e@ == "Application window not found"@,
        },
{
    match locate_and_focus(d, log) {
        Some(_) => Ok(()),
        None => Err("Application window not found".to_owned()),
    }
}

/// The reduced path of the single-instance relaunch guard: when a second copy
/// of the application is launched, the running instance's window handle is
/// already known, so the guard normalizes it and issues one direct foreground
/// request, skipping the locator ladder.
pub fn focus_known_window(d: &mut Desktop, h: u64) -> (r: bool)
    ensures
        final(d)@ == normalize_model(old(d)@, h).after_set_foreground(h),
        r == normalize_model(old(d)@, h).set_foreground_ok(h),
{
    normalize(d, h);
    d.set_foreground(h)
}

/// Not-found runs change nothing: when every locator criterion fails, the
/// orchestrator delivers no keyword, leaves the marker and the desktop exactly
/// as they were, and traces only the locating attempt and the abort — zero
/// arbitrator entries.
pub proof fn lemma_orchestrate_not_found(d: DesktopModel, m: MarkerModel, now_ms: u64)
    requires
        locate_model(d.windows) is None,
    ensures
        orchestrate_model(d, m, now_ms).delivered is None,
        orchestrate_model(d, m, now_ms).marker == m,
        orchestrate_model(d, m, now_ms).desktop == d,
        orchestrate_model(d, m, now_ms).events == seq![TraceEvent::Locating, TraceEvent::Aborted],
{
}

/// Consume-once: when a run delivers a keyword, an immediately following run
/// (with nothing set in between) delivers nothing, whatever its clock reading.
pub proof fn lemma_orchestrate_consume_once(
    d: DesktopModel,
    m: MarkerModel,
    t1: u64,
    t2: u64,
)
    ensures
        ({
            let first = orchestrate_model(d, m, t1);
            let second = orchestrate_model(first.desktop, first.marker, t2);
            first.delivered is Some ==> second.delivered is None
        }),
{
}

/// A delivered keyword is the pending one: when a window is located and the
/// marker holds an unexpired keyword, the run delivers exactly that keyword
/// and clears the marker.
pub proof fn lemma_orchestrate_delivers(d: DesktopModel, m: MarkerModel, now_ms: u64)
    requires
        locate_model(d.windows) is Some,
        crate::marker::fresh_at(m, now_ms),
    ensures
        orchestrate_model(d, m, now_ms).delivered == Some(m->Some_0.0),
        orchestrate_model(d, m, now_ms).marker is None,
{
}

/// End-to-end effectiveness: on a healthy registry, when any locator criterion
/// matches and the focus policy is anything short of outright refusal, one
/// orchestrator run ends with the located application window holding the
/// foreground.
pub proof fn lemma_activation_effective(d: DesktopModel, m: MarkerModel, now_ms: u64)
    requires
        crate::desktop::wf_registry(d),
        !(d.policy is Refusing),
        locate_model(d.windows) is Some,
    ensures
        orchestrate_model(d, m, now_ms).desktop.foreground == locate_model(d.windows)->Some_0.0,
{
    let h = locate_model(d.windows)->Some_0.0;
    crate::locator::lemma_locate_result_registered(d.windows);
    crate::normalizer::lemma_normalize_preserves_wf(d, h);
    let dn = normalize_model(d, h);
    assert(crate::desktop::has_handle(dn.windows, h));
    crate::arbitrator::lemma_ladder_effective(dn, h);
}

/// The shape of a completed run's trace: a locating entry, the find, the
/// normalizing and arbitrating entries, one entry per ladder rung in ladder
/// order, then the consumption and the final entry.
pub proof fn lemma_orchestrate_trace_shape(d: DesktopModel, m: MarkerModel, now_ms: u64)
    requires
        locate_model(d.windows) is Some,
    ensures
        ({
            let evts = orchestrate_model(d, m, now_ms).events;
            &&& evts.len() == 11
            &&& evts[0] == TraceEvent::Locating
            &&& evts[1] matches TraceEvent::Located { .. }
            &&& evts[2] == TraceEvent::Normalizing
            &&& evts[3] == TraceEvent::Arbitrating
            &&& (forall|k: int| 4 <= k < 9 ==> (#[trigger] evts[k]) matches TraceEvent::Rung { .. })
            &&& (evts[9] matches TraceEvent::Consuming { delivered } && delivered == take_result(
                m,
                now_ms,
            ) is Some)
            &&& evts[10] matches TraceEvent::Done { .. }
        }),
{
    let hr = locate_model(d.windows)->Some_0;
    let arb = arbitrate_model(normalize_model(d, hr.0), hr.0);
    let revts = rung_events(arb.reports);
    assert(arb.reports.len() == 5);
    let evts = orchestrate_model(d, m, now_ms).events;
    assert(evts.len() == 11);
    assert forall|k: int| 4 <= k < 9 implies (#[trigger] evts[k]) matches TraceEvent::Rung {
        ..
    } by {
        assert(evts[k] == revts[k - 4]);
    }
    assert(evts[9] == TraceEvent::Consuming { delivered: take_result(m, now_ms) is Some });
}

} // verus!
