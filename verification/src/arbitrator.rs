//! Foreground arbitrator: transfers foreground focus to a located window
//! through a ladder of escalating techniques. Every rung runs unconditionally,
//! whatever the previous rung reported, because OS-reported results of
//! foreground transfers are unreliable self-reports. The two fixed settle
//! delays of the real sequence (between the z-order toggle and the input
//! attachment, and within the final retry) are pure timing and have no effect
//! on the model; the platform layer sleeps where the model records nothing.

use vstd::prelude::*;

use crate::desktop::Desktop;
use crate::desktop::DesktopModel;
use crate::desktop::ShowCmd;
use crate::desktop::entry_for;
use crate::desktop::has_handle;
use crate::desktop::lemma_entry_for_shown;
use crate::desktop::lemma_entry_for_shown_other;
use crate::desktop::lemma_entry_for_topmost;
use crate::desktop::lemma_entry_for_topmost_other;
use crate::desktop::lemma_thread_for_nonzero;
use crate::desktop::thread_for;
use crate::desktop::wf_registry;
use crate::desktop::FocusPolicy;

verus! {

/// One rung of the ladder, least to most invasive.
#[derive(Clone, Copy, Debug, PartialEq, Eq, Structural)]
pub enum Technique {
    /// Broadly pre-grant foreground-switch permission to any process.
    PreAuthorize,
    /// Ask the OS directly to make the target the foreground window.
    DirectRequest,
    /// Set the always-on-top flag and clear it again, forcing a z-order
    /// re-evaluation.
    TopmostToggle,
    /// Attach the calling thread's input queue to the foreground owner's
    /// thread (and the target's, when it differs) and re-issue the request
    /// with borrowed input authority.
    ThreadAttach,
    /// After a short settle delay, reissue show, raise and foreground once
    /// more.
    FinalRetry,
}

/// What one rung reported: the technique tried and the OS-reported boolean.
#[derive(Clone, Copy, Debug, PartialEq, Eq, Structural)]
pub struct RungReport {
    pub technique: Technique,
    pub ok: bool,
}

/// The outcome of a full ladder run: the desktop it leaves behind, the five
/// rung reports in order, and the advisory success signal (the final rung's
/// result).
#[verifier::ext_equal]
pub struct ArbitrationModel {
    pub desktop: DesktopModel,
    pub reports: Seq<RungReport>,
    pub reported: bool,
}

/// The ladder, rung by rung, on the desktop model.
pub open spec fn arbitrate_model(d0: DesktopModel, h: u64) -> ArbitrationModel {
    // Rung 1: pre-authorize. The grant call itself does not fail.
    let d1 = d0.after_allow_set_foreground();
    let ok1 = true;
    // Rung 2: direct request.
    let ok2 = d1.set_foreground_ok(h);
    let d2 = d1.after_set_foreground(h);
    // Rung 3: topmost toggle; the reposition calls succeed for a live handle.
    let ok3 = has_handle(d2.windows, h);
    let d3 = d2.after_set_topmost(h, true, false).after_set_topmost(h, false, false);
    // Rung 4: input-queue attachment to the current foreground owner, then to
    // the target's own thread when that differs.
    let fgt = d3.fg_thread();
    let tgt = thread_for(d3.windows, h);
    let cur = d3.current_thread;
    let first = fgt != 0 && fgt != cur;
    let (d4a, s1) = if first {
        let da = d3.after_attach(fgt).after_show(h, ShowCmd::ShowNormal);
        (da.after_set_foreground(h).after_detach(fgt), da.set_foreground_ok(h))
    } else {
        (d3, false)
    };
    let second = tgt != 0 && tgt != cur && tgt != fgt;
    let (d4, s2) = if second {
        let db = d4a.after_attach(tgt);
        (db.after_set_foreground(h).after_detach(tgt), db.set_foreground_ok(h))
    } else {
        (d4a, false)
    };
    let ok4 = s1 || s2;
    // Rung 5: final retry — show, raise topmost, one more foreground request,
    // then back to the normal z-order.
    let d5a = d4.after_show(h, ShowCmd::ShowNormal).after_set_topmost(h, true, true);
    let ok5 = d5a.set_foreground_ok(h);
    let d5 = d5a.after_set_foreground(h).after_set_topmost(h, false, true);
    ArbitrationModel {
        desktop: d5,
        reports: seq![
            RungReport { technique: Technique::PreAuthorize, ok: ok1 },
            RungReport { technique: Technique::DirectRequest, ok: ok2 },
            RungReport { technique: Technique::TopmostToggle, ok: ok3 },
            RungReport { technique: Technique::ThreadAttach, ok: ok4 },
            RungReport { technique: Technique::FinalRetry, ok: ok5 },
        ],
        reported: ok5,
    }
}

/// Runs the full ladder against window `h` and returns the advisory success
/// signal together with one report per rung. Never fails: a rung that the OS
/// refuses is recorded and the next rung runs anyway.
pub fn bring_to_front(d: &mut Desktop, h: u64) -> (r: (bool, Vec<RungReport>))
    ensures
        final(d)@ == arbitrate_model(old(d)@, h).desktop,
        r.0 == arbitrate_model(old(d)@, h).reported,
        r.1@ == arbitrate_model(old(d)@, h).reports,
{
    let mut reports: Vec<RungReport> = Vec::new();
    d.allow_set_foreground();
    reports.push(RungReport { technique: Technique::PreAuthorize, ok: true });
    let ok2 = d.set_foreground(h);
    reports.push(RungReport { technique: Technique::DirectRequest, ok: ok2 });
    let ok3 = d.has_window(h);
    d.set_topmost(h, true, false);
    d.set_topmost(h, false, false);
    reports.push(RungReport { technique: Technique::TopmostToggle, ok: ok3 });
    let fg = d.get_foreground();
    let fgt = d.thread_of_window(fg);
    let tgt = d.thread_of_window(h);
    let cur = d.current_thread_id();
    let mut s1 = false;
    if fgt != 0 && fgt != cur {
        let _ = d.attach_input(fgt, true);
        d.show_window(h, ShowCmd::ShowNormal);
        let _ = d.bring_window_to_top(h);
        s1 = d.set_foreground(h);
        let _ = d.attach_input(fgt, false);
    }
    let mut s2 = false;
    if tgt != 0 && tgt != cur && tgt != fgt {
        let _ = d.attach_input(tgt, true);
        s2 = d.set_foreground(h);
        let _ = d.attach_input(tgt, false);
    }
    reports.push(RungReport { technique: Technique::ThreadAttach, ok: s1 || s2 });
    d.show_window(h, ShowCmd::ShowNormal);
    d.set_topmost(h, true, true);
    let _ = d.bring_window_to_top(h);
    let ok5 = d.set_foreground(h);
    d.set_topmost(h, false, true);
    reports.push(RungReport { technique: Technique::FinalRetry, ok: ok5 });
    proof {
        assert(reports@ =~= arbitrate_model(old(d)@, h).reports);
    }
    (ok5, reports)
}

/// Idempotent focus calls: running the full ladder against the window that
/// already holds the foreground never fails, still reports success, and leaves
/// the window in the foreground — under every focus policy.
pub proof fn lemma_arbitrate_already_foreground(d: DesktopModel, h: u64)
    requires
        has_handle(d.windows, h),
        d.foreground == h,
    ensures
        arbitrate_model(d, h).reported,
        arbitrate_model(d, h).desktop.foreground == h,
{
    let d1 = d.after_allow_set_foreground();
    let d2 = d1.after_set_foreground(h);
    assert(d2.foreground == h);
    lemma_entry_for_topmost(d2.windows, h, true, false);
    let dt = d2.after_set_topmost(h, true, false);
    lemma_entry_for_topmost(dt.windows, h, false, false);
    let d3 = dt.after_set_topmost(h, false, false);
    assert(has_handle(d3.windows, h));
    let fgt = d3.fg_thread();
    let tgt = thread_for(d3.windows, h);
    let cur = d3.current_thread;
    let first = fgt != 0 && fgt != cur;
    if first {
        lemma_entry_for_shown(d3.after_attach(fgt).windows, h, ShowCmd::ShowNormal);
    }
    let (d4a, s1) = if first {
        let da = d3.after_attach(fgt).after_show(h, ShowCmd::ShowNormal);
        (da.after_set_foreground(h).after_detach(fgt), da.set_foreground_ok(h))
    } else {
        (d3, false)
    };
    assert(d4a.foreground == h);
    assert(has_handle(d4a.windows, h));
    let second = tgt != 0 && tgt != cur && tgt != fgt;
    let (d4, s2) = if second {
        let db = d4a.after_attach(tgt);
        (db.after_set_foreground(h).after_detach(tgt), db.set_foreground_ok(h))
    } else {
        (d4a, false)
    };
    assert(d4.foreground == h);
    assert(has_handle(d4.windows, h));
    lemma_entry_for_shown(d4.windows, h, ShowCmd::ShowNormal);
    let dsh = d4.after_show(h, ShowCmd::ShowNormal);
    lemma_entry_for_topmost(dsh.windows, h, true, true);
    let d5a = dsh.after_set_topmost(h, true, true);
    assert(d5a.set_foreground_ok(h));
}

/// Ladder completeness: on a healthy registry, under every focus-arbitration
/// regime short of an outright refusal, the full ladder ends with the target
/// window holding the foreground and reports success — some rung always gets
/// through.
pub proof fn lemma_ladder_effective(d: DesktopModel, h: u64)
    requires
        wf_registry(d),
        has_handle(d.windows, h),
        !(d.policy is Refusing),
    ensures
        arbitrate_model(d, h).desktop.foreground == h,
        arbitrate_model(d, h).reported,
{
    let d1 = d.after_allow_set_foreground();
    let ok2 = d1.set_foreground_ok(h);
    let d2 = d1.after_set_foreground(h);
    lemma_entry_for_topmost(d2.windows, h, true, false);
    let dt = d2.after_set_topmost(h, true, false);
    lemma_entry_for_topmost(dt.windows, h, false, false);
    let d3 = dt.after_set_topmost(h, false, false);
    assert(has_handle(d3.windows, h));
    let fgt = d3.fg_thread();
    let tgt = thread_for(d3.windows, h);
    let cur = d3.current_thread;
    let first = fgt != 0 && fgt != cur;
    if first {
        lemma_entry_for_shown(d3.after_attach(fgt).windows, h, ShowCmd::ShowNormal);
    }
    let (d4a, s1) = if first {
        let da = d3.after_attach(fgt).after_show(h, ShowCmd::ShowNormal);
        (da.after_set_foreground(h).after_detach(fgt), da.set_foreground_ok(h))
    } else {
        (d3, false)
    };
    if ok2 {
        assert(d2.foreground == h);
        assert(d4a.foreground == h);
    } else {
        // The direct request was refused: the policy must be the input-linked
        // regime, with the foreground owned by a foreign thread.
        assert(h != d1.foreground);
        assert(!d1.foreground_permitted());
        assert(d1.foreground != 0);
        match d.policy {
            FocusPolicy::Permissive => {
                assert(false);
            },
            FocusPolicy::GrantRequired => {
                assert(d1.foreground_granted);
                assert(false);
            },
            FocusPolicy::Refusing => {
                assert(false);
            },
            FocusPolicy::InputLinked => {},
        }
        // The toggles addressed `h`, not the foreground window, so the
        // foreground owner's thread is unchanged and real.
        assert(d2 == d1);
        lemma_entry_for_topmost_other(d2.windows, h, true, false, d.foreground);
        lemma_entry_for_topmost_other(dt.windows, h, false, false, d.foreground);
        assert(fgt == thread_for(d.windows, d.foreground));
        lemma_thread_for_nonzero(d.windows, d.foreground);
        assert(fgt != 0);
        assert(fgt != cur);
        assert(first);
        // With the calling thread attached to the foreground owner, the
        // re-issued request is permitted.
        let da0 = d3.after_attach(fgt);
        let da = da0.after_show(h, ShowCmd::ShowNormal);
        assert(da.attached == d3.attached.push(fgt));
        assert(da.attached[d3.attached.len() as int] == fgt);
        assert(da.attached.contains(fgt));
        lemma_entry_for_shown_other(da0.windows, h, ShowCmd::ShowNormal, d.foreground);
        assert(da.fg_thread() == fgt);
        assert(da.foreground_permitted());
        assert(has_handle(da.windows, h));
        assert(da.set_foreground_ok(h));
        assert(d4a.foreground == h);
    }
    assert(has_handle(d4a.windows, h));
    let second = tgt != 0 && tgt != cur && tgt != fgt;
    let (d4, s2) = if second {
        let db = d4a.after_attach(tgt);
        (db.after_set_foreground(h).after_detach(tgt), db.set_foreground_ok(h))
    } else {
        (d4a, false)
    };
    assert(d4.foreground == h);
    assert(has_handle(d4.windows, h));
    lemma_entry_for_shown(d4.windows, h, ShowCmd::ShowNormal);
    let dsh = d4.after_show(h, ShowCmd::ShowNormal);
    lemma_entry_for_topmost(dsh.windows, h, true, true);
    let d5a = dsh.after_set_topmost(h, true, true);
    assert(d5a.set_foreground_ok(h));
}

/// The ladder never leaves the target window floating above all others: the
/// always-on-top flag it toggles is clear again when the ladder is done.
pub proof fn lemma_arbitrate_clears_topmost(d: DesktopModel, h: u64)
    ensures
        match entry_for(arbitrate_model(d, h).desktop.windows, h) {
            Some(e) => !e.topmost,
            None => true,
        },
{
    let d1 = d.after_allow_set_foreground();
    let d2 = d1.after_set_foreground(h);
    let d3 = d2.after_set_topmost(h, true, false).after_set_topmost(h, false, false);
    let fgt = d3.fg_thread();
    let tgt = thread_for(d3.windows, h);
    let cur = d3.current_thread;
    let first = fgt != 0 && fgt != cur;
    let (d4a, s1) = if first {
        let da = d3.after_attach(fgt).after_show(h, ShowCmd::ShowNormal);
        (da.after_set_foreground(h).after_detach(fgt), da.set_foreground_ok(h))
    } else {
        (d3, false)
    };
    let second = tgt != 0 && tgt != cur && tgt != fgt;
    let (d4, s2) = if second {
        let db = d4a.after_attach(tgt);
        (db.after_set_foreground(h).after_detach(tgt), db.set_foreground_ok(h))
    } else {
        (d4a, false)
    };
    let d5a = d4.after_show(h, ShowCmd::ShowNormal).after_set_topmost(h, true, true);
    let d5b = d5a.after_set_foreground(h);
    lemma_entry_for_topmost(d5b.windows, h, false, true);
}

} // verus!
