//! Model of the OS window registry and focus state that the activation
//! subsystem works against.
//!
//! Every OS call the subsystem issues (find a window, show it, change its
//! z-order flag, transfer foreground focus, attach input queues) is a method
//! on `Desktop` with an exact contract over the model. The platform layer
//! outside the library performs the same calls against the real window
//! manager; tests drive them against a synthetic registry.

use vstd::prelude::*;

verus! {

/// Abstract value of one top-level window.
#[verifier::ext_equal]
pub struct WinModel {
    pub handle: u64,
    pub title: Seq<char>,
    pub class: Seq<char>,
    pub visible: bool,
    pub minimized: bool,
    pub topmost: bool,
    pub thread: u64,
}

/// One top-level window: an opaque nonzero handle, the identity texts the OS
/// reports for it, its visibility state, and the id of the thread owning it.
pub struct WindowEntry {
    pub handle: u64,
    pub title: String,
    pub class: String,
    pub visible: bool,
    pub minimized: bool,
    pub topmost: bool,
    pub thread: u64,
}

impl View for WindowEntry {
    type V = WinModel;

    open spec fn view(&self) -> WinModel {
        WinModel {
            handle: self.handle,
            title: self.title@,
            class: self.class@,
            visible: self.visible,
            minimized: self.minimized,
            topmost: self.topmost,
            thread: self.thread,
        }
    }
}

impl WindowEntry {
    /// A window that is not topmost; the usual shape of a test registry entry.
    pub fn new(
        handle: u64,
        title: &str,
        class: &str,
        visible: bool,
        minimized: bool,
        thread: u64,
    ) -> (r: WindowEntry)
        ensures
            r@ == (WinModel {
                handle,
                title: title@,
                class: class@,
                visible,
                minimized,
                topmost: false,
                thread,
            }),
    {
        WindowEntry {
            handle,
            title: title.to_owned(),
            class: class.to_owned(),
            visible,
            minimized,
            topmost: false,
            thread,
        }
    }
}

/// How the OS arbitrates foreground-focus requests from this process.
/// Focus-stealing prevention differs by OS version and policy; each variant is
/// one documented regime.
#[derive(Clone, Copy)]
pub enum FocusPolicy {
    /// Any process may take the foreground.
    Permissive,
    /// Foreground changes succeed only after a broad foreground-switch grant.
    GrantRequired,
    /// Foreground changes succeed only for the thread owning the current
    /// foreground window, or a thread attached to its input queue.
    InputLinked,
    /// The OS refuses every request to move focus to another window.
    Refusing,
}

/// The first registry entry with handle `h`, if any.
pub open spec fn entry_for(ws: Seq<WinModel>, h: u64) -> Option<WinModel>
    decreases ws.len(),
{
    if ws.len() == 0 {
        None
    } else if ws[0].handle == h {
        Some(ws[0])
    } else {
        entry_for(ws.drop_first(), h)
    }
}

/// Some registry entry carries handle `h`.
pub open spec fn has_handle(ws: Seq<WinModel>, h: u64) -> bool {
    entry_for(ws, h) is Some
}

/// The thread owning window `h`, or 0 when no such window exists.
pub open spec fn thread_for(ws: Seq<WinModel>, h: u64) -> u64 {
    match entry_for(ws, h) {
        Some(e) => e.thread,
        None => 0,
    }
}

pub proof fn lemma_entry_for_found(ws: Seq<WinModel>, h: u64, i: int)
    requires
        0 <= i < ws.len(),
        ws[i].handle == h,
        forall|j: int| 0 <= j < i ==> ws[j].handle != h,
    ensures
        entry_for(ws, h) == Some(ws[i]),
    decreases i,
{
    if i > 0 {
        assert(ws.drop_first()[i - 1] == ws[i]);
        assert(forall|j: int| 0 <= j < i - 1 ==> ws.drop_first()[j].handle != h);
        lemma_entry_for_found(ws.drop_first(), h, i - 1);
    }
}

pub proof fn lemma_entry_for_none(ws: Seq<WinModel>, h: u64)
    requires
        forall|j: int| 0 <= j < ws.len() ==> ws[j].handle != h,
    ensures
        entry_for(ws, h) is None,
    decreases ws.len(),
{
    if ws.len() > 0 {
        assert(forall|j: int| 0 <= j < ws.len() - 1 ==> ws.drop_first()[j].handle != h);
        lemma_entry_for_none(ws.drop_first(), h);
    }
}

/// The show commands the normalizer and the arbitrator issue.
#[derive(Clone, Copy)]
pub enum ShowCmd {
    /// Restore from the minimized state.
    Restore,
    /// Make the window visible without changing its minimized state.
    Show,
    /// Show the window in its normal (not minimized) placement.
    ShowNormal,
}

/// What one show command does to one window.
pub open spec fn show_effect(cmd: ShowCmd, e: WinModel) -> WinModel {
    match cmd {
        ShowCmd::Show => WinModel { visible: true, ..e },
        ShowCmd::Restore => WinModel { visible: true, minimized: false, ..e },
        ShowCmd::ShowNormal => WinModel { visible: true, minimized: false, ..e },
    }
}

/// The registry after a show command addressed to handle `h`.
pub open spec fn shown_windows(ws: Seq<WinModel>, h: u64, cmd: ShowCmd) -> Seq<WinModel> {
    Seq::new(
        ws.len(),
        |i: int|
            if ws[i].handle == h {
                show_effect(cmd, ws[i])
            } else {
                ws[i]
            },
    )
}

/// The registry after setting or clearing the always-on-top flag of handle
/// `h`; `show` also makes the window visible, as the combined
/// reposition-and-show request does.
pub open spec fn topmost_windows(ws: Seq<WinModel>, h: u64, on: bool, show: bool) -> Seq<
    WinModel,
> {
    Seq::new(
        ws.len(),
        |i: int|
            if ws[i].handle == h {
                WinModel { topmost: on, visible: ws[i].visible || show, ..ws[i] }
            } else {
                ws[i]
            },
    )
}

/// `s` with every occurrence of `t` removed.
pub open spec fn without_thread(s: Seq<u64>, t: u64) -> Seq<u64>
    decreases s.len(),
{
    if s.len() == 0 {
        Seq::empty()
    } else {
        let rest = without_thread(s.drop_first(), t);
        if s[0] == t {
            rest
        } else {
            seq![s[0]] + rest
        }
    }
}

/// Abstract value of the whole desktop: the window registry, which window has
/// foreground focus (0 for none), the focus-arbitration regime, whether a
/// broad foreground grant is in force, and which threads the calling thread's
/// input queue is attached to.
#[verifier::ext_equal]
pub struct DesktopModel {
    pub windows: Seq<WinModel>,
    pub foreground: u64,
    pub policy: FocusPolicy,
    pub foreground_granted: bool,
    pub attached: Seq<u64>,
    pub current_thread: u64,
}

impl DesktopModel {
    /// The thread owning the current foreground window (0 when none).
    pub open spec fn fg_thread(self) -> u64 {
        thread_for(self.windows, self.foreground)
    }

    /// Whether the OS would let this process move the foreground to another
    /// window right now.
    pub open spec fn foreground_permitted(self) -> bool {
        self.foreground == 0 || match self.policy {
            FocusPolicy::Permissive => true,
            FocusPolicy::GrantRequired => self.foreground_granted,
            FocusPolicy::InputLinked => self.fg_thread() == self.current_thread
                || self.attached.contains(self.fg_thread()),
            FocusPolicy::Refusing => false,
        }
    }

    /// A foreground request for `h` succeeds when `h` names a window and
    /// either already has the focus or the policy permits the transfer.
    pub open spec fn set_foreground_ok(self, h: u64) -> bool {
        has_handle(self.windows, h) && (h == self.foreground || self.foreground_permitted())
    }

    pub open spec fn after_set_foreground(self, h: u64) -> DesktopModel {
        if self.set_foreground_ok(h) {
            DesktopModel { foreground: h, ..self }
        } else {
            self
        }
    }

    pub open spec fn after_allow_set_foreground(self) -> DesktopModel {
        DesktopModel { foreground_granted: true, ..self }
    }

    pub open spec fn after_show(self, h: u64, cmd: ShowCmd) -> DesktopModel {
        DesktopModel { windows: shown_windows(self.windows, h, cmd), ..self }
    }

    pub open spec fn after_set_topmost(self, h: u64, on: bool, show: bool) -> DesktopModel {
        DesktopModel { windows: topmost_windows(self.windows, h, on, show), ..self }
    }

    /// An input-queue attachment succeeds for a real thread other than the
    /// calling thread itself.
    pub open spec fn attach_ok(self, t: u64) -> bool {
        t != 0 && t != self.current_thread
    }

    pub open spec fn after_attach(self, t: u64) -> DesktopModel {
        if self.attach_ok(t) {
            DesktopModel { attached: self.attached.push(t), ..self }
        } else {
            self
        }
    }

    pub open spec fn after_detach(self, t: u64) -> DesktopModel {
        if self.attach_ok(t) {
            DesktopModel { attached: without_thread(self.attached, t), ..self }
        } else {
            self
        }
    }
}

/// The abstract registry carried by a vector of entries.
pub open spec fn views_of(ws: Seq<WindowEntry>) -> Seq<WinModel> {
    Seq::new(ws.len(), |i: int| ws[i]@)
}

/// The OS desktop as the subsystem sees it.
pub struct Desktop {
    pub windows: Vec<WindowEntry>,
    pub foreground: u64,
    pub policy: FocusPolicy,
    pub foreground_granted: bool,
    pub attached: Vec<u64>,
    pub current_thread: u64,
}

impl View for Desktop {
    type V = DesktopModel;

    open spec fn view(&self) -> DesktopModel {
        DesktopModel {
            windows: views_of(self.windows@),
            foreground: self.foreground,
            policy: self.policy,
            foreground_granted: self.foreground_granted,
            attached: self.attached@,
            current_thread: self.current_thread,
        }
    }
}

impl Desktop {
    /// An empty registry with no foreground window, no grant in force and no
    /// attachments.
    pub fn new(policy: FocusPolicy, current_thread: u64) -> (r: Desktop)
        ensures
            r@ == (DesktopModel {
                windows: Seq::empty(),
                foreground: 0u64,
                policy,
                foreground_granted: false,
                attached: Seq::empty(),
                current_thread,
            }),
    {
        let r = Desktop {
            windows: Vec::new(),
            foreground: 0,
            policy,
            foreground_granted: false,
            attached: Vec::new(),
            current_thread,
        };
        proof {
            assert(r@.windows =~= Seq::<WinModel>::empty());
            assert(r@ =~= (DesktopModel {
                windows: Seq::empty(),
                foreground: 0u64,
                policy,
                foreground_granted: false,
                attached: Seq::empty(),
                current_thread,
            }));
        }
        r
    }

    /// Registers one more top-level window.
    pub fn add_window(&mut self, w: WindowEntry)
        ensures
            final(self)@ == (DesktopModel {
                windows: old(self)@.windows.push(w@),
                ..old(self)@
            }),
    {
        self.windows.push(w);
        proof {
            assert(self@.windows =~= old(self)@.windows.push(w@));
            assert(self@ =~= (DesktopModel { windows: old(self)@.windows.push(w@), ..old(self)@ }));
        }
    }

    /// Index of the first entry with handle `h`, if any.
    fn find_index(&self, h: u64) -> (r: Option<usize>)
        ensures
            match r {
                Some(i) => i < self@.windows.len() && self@.windows[i as int].handle == h
                    && entry_for(self@.windows, h) == Some(self@.windows[i as int]),
                None => entry_for(self@.windows, h) is None,
            },
    {
        let n = self.windows.len();
        let mut i: usize = 0;
        while i < n
            invariant
                n == self.windows@.len(),
                i <= n,
                forall|j: int| 0 <= j < i ==> self@.windows[j].handle != h,
            decreases n - i,
        {
            if self.windows[i].handle == h {
                proof {
                    lemma_entry_for_found(self@.windows, h, i as int);
                }
                return Some(i);
            }
            i = i + 1;
        }
        proof {
            lemma_entry_for_none(self@.windows, h);
        }
        None
    }

    /// Whether any window carries handle `h`.
    pub fn has_window(&self, h: u64) -> (r: bool)
        ensures
            r == has_handle(self@.windows, h),
    {
        self.find_index(h).is_some()
    }

    /// Whether window `h` is currently minimized; false for an unknown handle,
    /// as the OS reports for a stale one.
    pub fn is_iconic(&self, h: u64) -> (r: bool)
        ensures
            r == match entry_for(self@.windows, h) {
                Some(e) => e.minimized,
                None => false,
            },
    {
        match self.find_index(h) {
            Some(i) => self.windows[i].minimized,
            None => false,
        }
    }

    /// The handle of the current foreground window, 0 when none.
    pub fn get_foreground(&self) -> (r: u64)
        ensures
            r == self@.foreground,
    {
        self.foreground
    }

    /// The id of the calling thread.
    pub fn current_thread_id(&self) -> (r: u64)
        ensures
            r == self@.current_thread,
    {
        self.current_thread
    }

    /// The id of the thread owning window `h`, 0 for an unknown handle.
    pub fn thread_of_window(&self, h: u64) -> (r: u64)
        ensures
            r == thread_for(self@.windows, h),
    {
        match self.find_index(h) {
            Some(i) => self.windows[i].thread,
            None => 0,
        }
    }

    /// Grants foreground-switch permission broadly, to any process.
    pub fn allow_set_foreground(&mut self)
        ensures
            final(self)@ == old(self)@.after_allow_set_foreground(),
    {
        self.foreground_granted = true;
        proof {
            assert(self@ =~= old(self)@.after_allow_set_foreground());
        }
    }

    /// Issues a show command against window `h`; a no-op for an unknown
    /// handle, as the OS treats a stale one.
    pub fn show_window(&mut self, h: u64, cmd: ShowCmd)
        ensures
            final(self)@ == old(self)@.after_show(h, cmd),
    {
        let ghost pre = *self;
        let n = self.windows.len();
        let mut i: usize = 0;
        while i < n
            invariant
                n == self.windows@.len(),
                i <= n,
                self.windows@.len() == pre.windows@.len(),
                forall|q: int|
                    0 <= q < i ==> self.windows@[q]@ == (if pre.windows@[q]@.handle == h {
                        show_effect(cmd, pre.windows@[q]@)
                    } else {
                        pre.windows@[q]@
                    }),
                forall|q: int| i <= q < n ==> self.windows@[q] == pre.windows@[q],
                self.foreground == pre.foreground,
                self.policy == pre.policy,
                self.foreground_granted == pre.foreground_granted,
                self.attached@ == pre.attached@,
                self.current_thread == pre.current_thread,
            decreases n - i,
        {
            if self.windows[i].handle == h {
                match cmd {
                    ShowCmd::Show => {
                        self.windows[i].visible = true;
                    },
                    ShowCmd::Restore => {
                        self.windows[i].visible = true;
                        self.windows[i].minimized = false;
                    },
                    ShowCmd::ShowNormal => {
                        self.windows[i].visible = true;
                        self.windows[i].minimized = false;
                    },
                }
            }
            proof {
                assert(self.windows@[i as int]@ =~= (if pre.windows@[i as int]@.handle == h {
                    show_effect(cmd, pre.windows@[i as int]@)
                } else {
                    pre.windows@[i as int]@
                }));
            }
            i = i + 1;
        }
        proof {
            assert(self@.windows =~= shown_windows(pre@.windows, h, cmd));
            assert(self@ =~= pre@.after_show(h, cmd));
        }
    }

    /// Sets or clears the always-on-top flag of window `h`; `show` also makes
    /// it visible. A no-op for an unknown handle.
    pub fn set_topmost(&mut self, h: u64, on: bool, show: bool)
        ensures
            final(self)@ == old(self)@.after_set_topmost(h, on, show),
    {
        let ghost pre = *self;
        let n = self.windows.len();
        let mut i: usize = 0;
        while i < n
            invariant
                n == self.windows@.len(),
                i <= n,
                self.windows@.len() == pre.windows@.len(),
                forall|q: int|
                    0 <= q < i ==> self.windows@[q]@ == (if pre.windows@[q]@.handle == h {
                        WinModel {
                            topmost: on,
                            visible: pre.windows@[q]@.visible || show,
                            ..pre.windows@[q]@
                        }
                    } else {
                        pre.windows@[q]@
                    }),
                forall|q: int| i <= q < n ==> self.windows@[q] == pre.windows@[q],
                self.foreground == pre.foreground,
                self.policy == pre.policy,
                self.foreground_granted == pre.foreground_granted,
                self.attached@ == pre.attached@,
                self.current_thread == pre.current_thread,
            decreases n - i,
        {
            if self.windows[i].handle == h {
                self.windows[i].topmost = on;
                if show {
                    self.windows[i].visible = true;
                }
            }
            proof {
                assert(self.windows@[i as int]@ =~= (if pre.windows@[i as int]@.handle == h {
                    WinModel {
                        topmost: on,
                        visible: pre.windows@[i as int]@.visible || show,
                        ..pre.windows@[i as int]@
                    }
                } else {
                    pre.windows@[i as int]@
                }));
            }
            i = i + 1;
        }
        proof {
            assert(self@.windows =~= topmost_windows(pre@.windows, h, on, show));
            assert(self@ =~= pre@.after_set_topmost(h, on, show));
        }
    }

    /// Whether the calling thread's input queue is attached to thread `t`.
    fn is_attached(&self, t: u64) -> (r: bool)
        ensures
            r == self@.attached.contains(t),
    {
        let n = self.attached.len();
        let mut i: usize = 0;
        while i < n
            invariant
                n == self.attached@.len(),
                i <= n,
                forall|j: int| 0 <= j < i ==> self.attached@[j] != t,
            decreases n - i,
        {
            if self.attached[i] == t {
                return true;
            }
            i = i + 1;
        }
        false
    }

    /// Requests the foreground for window `h` and reports whether the OS
    /// granted it. The request succeeds exactly when `h` names a window and
    /// either already has the focus or the policy permits the transfer.
    pub fn set_foreground(&mut self, h: u64) -> (ok: bool)
        ensures
            ok == old(self)@.set_foreground_ok(h),
            final(self)@ == old(self)@.after_set_foreground(h),
    {
        let permitted = self.foreground == 0 || match self.policy {
            FocusPolicy::Permissive => true,
            FocusPolicy::GrantRequired => self.foreground_granted,
            FocusPolicy::InputLinked => {
                let ft = self.thread_of_window(self.foreground);
                ft == self.current_thread || self.is_attached(ft)
            },
            FocusPolicy::Refusing => false,
        };
        if self.has_window(h) && (h == self.foreground || permitted) {
            self.foreground = h;
            proof {
                assert(self@ =~= old(self)@.after_set_foreground(h));
            }
            true
        } else {
            proof {
                assert(self@ =~= old(self)@.after_set_foreground(h));
            }
            false
        }
    }

    /// Asks the OS to raise window `h` to the top of the z-order and reports
    /// whether the handle named a window. The z-order itself, beyond the
    /// always-on-top flag, is not part of the model.
    pub fn bring_window_to_top(&self, h: u64) -> (r: bool)
        ensures
            r == has_handle(self@.windows, h),
    {
        self.has_window(h)
    }

    /// Attaches (or detaches) the calling thread's input queue to thread `t`
    /// and reports whether the OS accepted the request.
    pub fn attach_input(&mut self, t: u64, attach: bool) -> (ok: bool)
        ensures
            ok == old(self)@.attach_ok(t),
            final(self)@ == if attach {
                old(self)@.after_attach(t)
            } else {
                old(self)@.after_detach(t)
            },
    {
        if t == 0 || t == self.current_thread {
            proof {
                assert(self@ =~= old(self)@.after_attach(t));
                assert(self@ =~= old(self)@.after_detach(t));
            }
            return false;
        }
        if attach {
            self.attached.push(t);
            proof {
                assert(self@ =~= old(self)@.after_attach(t));
            }
        } else {
            let ghost pre = self@;
            let n = self.attached.len();
            let mut kept: Vec<u64> = Vec::new();
            let mut i: usize = 0;
            while i < n
                invariant
                    n == self.attached@.len(),
                    i <= n,
                    self.attached@ == pre.attached,
                    kept@ == without_thread(pre.attached.subrange(0, i as int), t),
                decreases n - i,
            {
                let x = self.attached[i];
                proof {
                    lemma_without_thread_snoc(pre.attached.subrange(0, i as int + 1), t);
                    assert(pre.attached.subrange(0, i as int + 1).drop_last() =~= pre
                        .attached
                        .subrange(0, i as int));
                }
                if x != t {
                    kept.push(x);
                }
                i = i + 1;
            }
            proof {
                assert(pre.attached.subrange(0, n as int) =~= pre.attached);
            }
            self.attached = kept;
            proof {
                assert(self@ =~= pre.after_detach(t));
            }
        }
        true
    }
}

/// A healthy registry: every window has a real handle and a real owning
/// thread, and the foreground handle, when there is one, names a registered
/// window.
pub open spec fn wf_registry(d: DesktopModel) -> bool {
    &&& forall|j: int| 0 <= j < d.windows.len() ==> (#[trigger] d.windows[j]).handle != 0
    &&& forall|j: int| 0 <= j < d.windows.len() ==> (#[trigger] d.windows[j]).thread != 0
    &&& (d.foreground == 0 || has_handle(d.windows, d.foreground))
}

/// In a registry whose windows all have real owning threads, a registered
/// window's thread is real too.
pub proof fn lemma_thread_for_nonzero(ws: Seq<WinModel>, g: u64)
    requires
        has_handle(ws, g),
        forall|j: int| 0 <= j < ws.len() ==> (#[trigger] ws[j]).thread != 0,
    ensures
        thread_for(ws, g) != 0,
    decreases ws.len(),
{
    if ws.len() > 0 && ws[0].handle != g {
        assert(forall|j: int|
            0 <= j < ws.len() - 1 ==> (#[trigger] ws.drop_first()[j]).thread != 0);
        lemma_thread_for_nonzero(ws.drop_first(), g);
    }
}

/// A failed entry lookup means no entry carries the handle at all.
pub proof fn lemma_entry_for_absent(ws: Seq<WinModel>, h: u64)
    requires
        entry_for(ws, h) is None,
    ensures
        forall|j: int| 0 <= j < ws.len() ==> ws[j].handle != h,
    decreases ws.len(),
{
    if ws.len() > 0 {
        lemma_entry_for_absent(ws.drop_first(), h);
        assert forall|j: int| 0 <= j < ws.len() implies ws[j].handle != h by {
            if j > 0 {
                assert(ws[j] == ws.drop_first()[j - 1]);
            }
        }
    }
}

/// A show command addressed to `h` rewrites exactly the entry the lookup for
/// `h` returns, through `show_effect`.
pub proof fn lemma_entry_for_shown(ws: Seq<WinModel>, h: u64, cmd: ShowCmd)
    ensures
        entry_for(shown_windows(ws, h, cmd), h) == match entry_for(ws, h) {
            Some(e) => Some(show_effect(cmd, e)),
            None => None,
        },
    decreases ws.len(),
{
    let sw = shown_windows(ws, h, cmd);
    if ws.len() == 0 {
        assert(sw =~= Seq::<WinModel>::empty());
    } else {
        assert(sw.drop_first() =~= shown_windows(ws.drop_first(), h, cmd));
        assert(show_effect(cmd, ws[0]).handle == ws[0].handle);
        if ws[0].handle != h {
            lemma_entry_for_shown(ws.drop_first(), h, cmd);
        }
    }
}

/// A show command addressed to `h` leaves the lookup of any other handle
/// unchanged.
pub proof fn lemma_entry_for_shown_other(ws: Seq<WinModel>, h: u64, cmd: ShowCmd, g: u64)
    requires
        g != h,
    ensures
        entry_for(shown_windows(ws, h, cmd), g) == entry_for(ws, g),
    decreases ws.len(),
{
    let sw = shown_windows(ws, h, cmd);
    if ws.len() == 0 {
        assert(sw =~= Seq::<WinModel>::empty());
    } else {
        assert(sw.drop_first() =~= shown_windows(ws.drop_first(), h, cmd));
        assert(show_effect(cmd, ws[0]).handle == ws[0].handle);
        if ws[0].handle != g {
            lemma_entry_for_shown_other(ws.drop_first(), h, cmd, g);
        }
    }
}

/// A z-order flag change addressed to `h` rewrites exactly the entry the
/// lookup for `h` returns.
pub proof fn lemma_entry_for_topmost(ws: Seq<WinModel>, h: u64, on: bool, show: bool)
    ensures
        entry_for(topmost_windows(ws, h, on, show), h) == match entry_for(ws, h) {
            Some(e) => Some(WinModel { topmost: on, visible: e.visible || show, ..e }),
            None => None,
        },
    decreases ws.len(),
{
    let tw = topmost_windows(ws, h, on, show);
    if ws.len() == 0 {
        assert(tw =~= Seq::<WinModel>::empty());
    } else {
        assert(tw.drop_first() =~= topmost_windows(ws.drop_first(), h, on, show));
        if ws[0].handle != h {
            lemma_entry_for_topmost(ws.drop_first(), h, on, show);
        }
    }
}

/// A z-order flag change addressed to `h` leaves the lookup of any other
/// handle unchanged.
pub proof fn lemma_entry_for_topmost_other(ws: Seq<WinModel>, h: u64, on: bool, show: bool, g: u64)
    requires
        g != h,
    ensures
        entry_for(topmost_windows(ws, h, on, show), g) == entry_for(ws, g),
    decreases ws.len(),
{
    let tw = topmost_windows(ws, h, on, show);
    if ws.len() == 0 {
        assert(tw =~= Seq::<WinModel>::empty());
    } else {
        assert(tw.drop_first() =~= topmost_windows(ws.drop_first(), h, on, show));
        if ws[0].handle != g {
            lemma_entry_for_topmost_other(ws.drop_first(), h, on, show, g);
        }
    }
}

/// Every entry's handle is registered.
pub proof fn lemma_has_handle_witness(ws: Seq<WinModel>, k: int)
    requires
        0 <= k < ws.len(),
    ensures
        has_handle(ws, ws[k].handle),
{
    if entry_for(ws, ws[k].handle) is None {
        lemma_entry_for_absent(ws, ws[k].handle);
    }
}

/// A show command changes no handles: exactly the same handles are registered
/// afterwards.
pub proof fn lemma_shown_preserves_handles(ws: Seq<WinModel>, h: u64, cmd: ShowCmd)
    ensures
        forall|g: u64| #[trigger] has_handle(shown_windows(ws, h, cmd), g) == has_handle(ws, g),
{
    assert forall|g: u64| #[trigger] has_handle(shown_windows(ws, h, cmd), g) == has_handle(
        ws,
        g,
    ) by {
        if g == h {
            lemma_entry_for_shown(ws, h, cmd);
        } else {
            lemma_entry_for_shown_other(ws, h, cmd, g);
        }
    }
}

/// Unfolding `without_thread` from the right: removing `t` from a sequence
/// handles the last element separately.
pub proof fn lemma_without_thread_snoc(s: Seq<u64>, t: u64)
    requires
        s.len() > 0,
    ensures
        without_thread(s, t) == if s.last() == t {
            without_thread(s.drop_last(), t)
        } else {
            without_thread(s.drop_last(), t).push(s.last())
        },
    decreases s.len(),
{
    if s.len() == 1 {
        assert(s.drop_last() =~= Seq::<u64>::empty());
        assert(s.drop_first() =~= Seq::<u64>::empty());
        if s[0] != t {
            assert(without_thread(s, t) =~= without_thread(s.drop_last(), t).push(s.last()));
        }
    } else {
        lemma_without_thread_snoc(s.drop_first(), t);
        assert(s.drop_first().drop_last() =~= s.drop_last().drop_first());
        assert(s.drop_first().last() == s.last());
        assert(s.drop_last()[0] == s[0]);
        if s.last() == t {
            if s[0] == t {
                assert(without_thread(s, t) == without_thread(s.drop_first(), t));
            } else {
                assert(without_thread(s, t) =~= seq![s[0]] + without_thread(
                    s.drop_first().drop_last(),
                    t,
                ));
            }
        } else {
            if s[0] == t {
                assert(without_thread(s, t) == without_thread(s.drop_first(), t));
            } else {
                assert(without_thread(s, t) =~= (seq![s[0]] + without_thread(
                    s.drop_first().drop_last(),
                    t,
                )).push(s.last()));
            }
        }
    }
}

} // verus!
