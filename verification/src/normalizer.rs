//! Window state normalizer: restores a located window from the minimized
//! state if needed and unconditionally shows it, so that the foreground
//! arbitrator operates on a window that is at least visible and not iconified.

use vstd::prelude::*;

use crate::desktop::Desktop;
use crate::desktop::DesktopModel;
use crate::desktop::ShowCmd;
use crate::desktop::WinModel;
use crate::desktop::entry_for;
use crate::desktop::lemma_entry_for_absent;
use crate::desktop::lemma_entry_for_shown;
use crate::desktop::show_effect;
use crate::desktop::shown_windows;

verus! {

/// The desktop after normalizing window `h`: a restore when the window is
/// minimized, then an unconditional show.
pub open spec fn normalize_model(d: DesktopModel, h: u64) -> DesktopModel {
    let restored = match entry_for(d.windows, h) {
        Some(e) => if e.minimized {
            d.after_show(h, ShowCmd::Restore)
        } else {
            d
        },
        None => d,
    };
    restored.after_show(h, ShowCmd::Show)
}

/// Restores window `h` if it is minimized, then shows it. Both OS calls are
/// best effort: a stale handle leaves the desktop unchanged rather than
/// failing.
pub fn normalize(d: &mut Desktop, h: u64)
    ensures
        final(d)@ == normalize_model(old(d)@, h),
{
    if d.is_iconic(h) {
        d.show_window(h, ShowCmd::Restore);
    }
    d.show_window(h, ShowCmd::Show);
}

/// What normalization does to the window it addresses: it becomes visible and
/// leaves the minimized state, and everything else about it is kept.
pub proof fn lemma_normalize_located(d: DesktopModel, h: u64)
    ensures
        entry_for(normalize_model(d, h).windows, h) == match entry_for(d.windows, h) {
            Some(e) => Some(WinModel { visible: true, minimized: false, ..e }),
            None => None,
        },
{
    match entry_for(d.windows, h) {
        Some(e) => {
            if e.minimized {
                lemma_entry_for_shown(d.windows, h, ShowCmd::Restore);
                lemma_entry_for_shown(shown_windows(d.windows, h, ShowCmd::Restore), h,
                    ShowCmd::Show);
            } else {
                lemma_entry_for_shown(d.windows, h, ShowCmd::Show);
            }
        },
        None => {
            lemma_entry_for_shown(d.windows, h, ShowCmd::Show);
        },
    }
}

/// Normalization keeps the registry healthy: it registers exactly the same
/// handles, changes no owning threads, and touches neither the foreground nor
/// the policy.
pub proof fn lemma_normalize_preserves_wf(d: DesktopModel, h: u64)
    requires
        crate::desktop::wf_registry(d),
    ensures
        crate::desktop::wf_registry(normalize_model(d, h)),
        normalize_model(d, h).foreground == d.foreground,
        normalize_model(d, h).policy == d.policy,
        forall|g: u64| #[trigger]
            crate::desktop::has_handle(normalize_model(d, h).windows, g)
                == crate::desktop::has_handle(d.windows, g),
{
    let dn = normalize_model(d, h);
    let restored = match entry_for(d.windows, h) {
        Some(e) => if e.minimized {
            d.after_show(h, ShowCmd::Restore)
        } else {
            d
        },
        None => d,
    };
    crate::desktop::lemma_shown_preserves_handles(d.windows, h, ShowCmd::Restore);
    crate::desktop::lemma_shown_preserves_handles(restored.windows, h, ShowCmd::Show);
    assert forall|j: int| 0 <= j < restored.windows.len() implies (#[trigger] restored.windows[j]).handle
        != 0 && restored.windows[j].thread != 0 by {
        assert(d.windows[j].handle != 0 && d.windows[j].thread != 0);
    }
    assert forall|j: int| 0 <= j < dn.windows.len() implies (#[trigger] dn.windows[j]).handle != 0
        && dn.windows[j].thread != 0 by {
        assert(restored.windows[j].handle != 0 && restored.windows[j].thread != 0);
    }
}

/// Idempotence: normalizing the same handle twice in a row leaves the same
/// desktop as normalizing it once; the second restore/show pass changes
/// nothing.
pub proof fn lemma_normalize_idempotent(d: DesktopModel, h: u64)
    ensures
        normalize_model(normalize_model(d, h), h) == normalize_model(d, h),
{
    let d1 = normalize_model(d, h);
    lemma_normalize_located(d, h);
    match entry_for(d.windows, h) {
        Some(e) => {
            // The second pass skips the restore (the window is no longer
            // minimized) and its show finds every entry for `h` already
            // visible.
            assert forall|i: int| 0 <= i < d1.windows.len() implies #[trigger] d1.windows[i]
                == (if d1.windows[i].handle == h {
                show_effect(ShowCmd::Show, d1.windows[i])
            } else {
                d1.windows[i]
            }) by {
                if e.minimized {
                    let wsr = shown_windows(d.windows, h, ShowCmd::Restore);
                    assert(d1.windows[i] == (if wsr[i].handle == h {
                        show_effect(ShowCmd::Show, wsr[i])
                    } else {
                        wsr[i]
                    }));
                } else {
                    assert(d1.windows[i] == (if d.windows[i].handle == h {
                        show_effect(ShowCmd::Show, d.windows[i])
                    } else {
                        d.windows[i]
                    }));
                }
            }
            assert(shown_windows(d1.windows, h, ShowCmd::Show) =~= d1.windows);
            assert(normalize_model(d1, h) =~= d1);
        },
        None => {
            lemma_entry_for_absent(d.windows, h);
            assert(shown_windows(d.windows, h, ShowCmd::Show) =~= d.windows);
            assert(d1 =~= d);
            assert(normalize_model(d1, h) == normalize_model(d, h));
        },
    }
}

} // verus!
