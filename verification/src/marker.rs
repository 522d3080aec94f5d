//! Pending-keyword marker: at most one keyword is live at a time, set when a
//! notification carrying a keyword is shown or a click is simulated, and
//! consumed (read-and-cleared) by the orchestrator after a successful
//! activation. An unconsumed keyword expires after a fixed timeout and is
//! discarded lazily at the next read.

use vstd::prelude::*;

verus! {

/// Milliseconds after which an unconsumed pending keyword counts as abandoned.
pub const EXPIRY_MS: u64 = 30000;

/// The pending keyword together with the time (in milliseconds) it was set at,
/// or `None` when no keyword is pending.
pub type MarkerModel = Option<(Seq<char>, u64)>;

/// Setting a keyword overwrites whatever was pending before; nothing queues.
pub open spec fn set_model(m: MarkerModel, keyword: Seq<char>, now_ms: u64) -> MarkerModel {
    Some((keyword, now_ms))
}

/// A pending keyword is still deliverable at `now_ms` exactly when it is less
/// than `EXPIRY_MS` milliseconds old.
pub open spec fn fresh_at(m: MarkerModel, now_ms: u64) -> bool {
    match m {
        Some(p) => now_ms <= p.1 + EXPIRY_MS,
        None => false,
    }
}

/// What a read-and-clear at `now_ms` returns: the keyword if one is pending
/// and not expired, nothing otherwise.
pub open spec fn take_result(m: MarkerModel, now_ms: u64) -> Option<Seq<char>> {
    if fresh_at(m, now_ms) {
        Some(m->Some_0.0)
    } else {
        None
    }
}

/// Process-wide pending-keyword state, explicitly owned and passed to whoever
/// needs it rather than kept in a module-level singleton.
pub struct KeywordState {
    keyword: Option<String>,
    set_at_ms: u64,
}

impl View for KeywordState {
    type V = MarkerModel;

    closed spec fn view(&self) -> MarkerModel {
        match self.keyword {
            Some(k) => Some((k@, self.set_at_ms)),
            None => None,
        }
    }
}

impl KeywordState {
    /// A fresh state with no pending keyword.
    pub fn new() -> (r: Self)
        ensures
            r@ is None,
    {
        KeywordState { keyword: None, set_at_ms: 0 }
    }

    /// Records `keyword` as the single pending keyword, stamped `now_ms`,
    /// overwriting any keyword that was pending before.
    pub fn set_keyword(&mut self, keyword: String, now_ms: u64)
        ensures
            final(self)@ == set_model(old(self)@, keyword@, now_ms),
    {
        self.keyword = Some(keyword);
        self.set_at_ms = now_ms;
    }

    /// Reads and clears the pending keyword. An expired keyword is treated as
    /// absent, and the read clears it all the same.
    pub fn take_keyword(&mut self, now_ms: u64) -> (r: Option<String>)
        ensures
            final(self)@ is None,
            match r {
                Some(k) => take_result(old(self)@, now_ms) == Some(k@),
                None => take_result(old(self)@, now_ms) is None,
            },
    {
        let fresh = match &self.keyword {
            Some(_) => now_ms <= self.set_at_ms || now_ms - self.set_at_ms <= EXPIRY_MS,
            None => false,
        };
        let r = if fresh {
            match &self.keyword {
                Some(k) => Some(k.clone()),
                None => None,
            }
        } else {
            None
        };
        self.keyword = None;
        r
    }

    /// Reports whether a keyword is pending and not expired, without
    /// consuming it.
    pub fn has_keyword(&self, now_ms: u64) -> (r: bool)
        ensures
            r == fresh_at(self@, now_ms),
    {
        match &self.keyword {
            Some(_) => now_ms <= self.set_at_ms || now_ms - self.set_at_ms <= EXPIRY_MS,
            None => false,
        }
    }
}

/// Overwrite semantics: setting keyword `b` right after keyword `a` leaves
/// exactly `b` pending, the same as if `a` had never been set.
pub proof fn lemma_marker_overwrite(m: MarkerModel, a: Seq<char>, t_a: u64, b: Seq<char>, t_b: u64)
    ensures
        set_model(set_model(m, a, t_a), b, t_b) == set_model(m, b, t_b),
{
}

/// Expiry: a keyword set more than `EXPIRY_MS` milliseconds before the read
/// yields nothing.
pub proof fn lemma_marker_expiry(keyword: Seq<char>, set_at_ms: u64, now_ms: u64)
    requires
        now_ms > set_at_ms + EXPIRY_MS,
    ensures
        take_result(Some((keyword, set_at_ms)), now_ms) is None,
{
}

} // verus!
