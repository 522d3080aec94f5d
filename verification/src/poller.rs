//! Decisions of the background triggers around the orchestrator: what the
//! on-disk keyword marker file means to the poller that watches it, and the
//! retry/backoff schedule for repeated activation attempts. The loops
//! themselves — sleeping, reading and deleting the file — run at the platform
//! layer and hand these functions plain values.

use vstd::prelude::*;

verus! {

/// How often the poller wakes to check the marker file, in milliseconds.
pub const POLL_INTERVAL_MS: u64 = 500;

/// How long to let the activated application settle before the keyword search
/// event is emitted, in milliseconds.
pub const ACTIVATION_SETTLE_MS: u64 = 1500;

/// Extra wait for the UI to finish rendering, in milliseconds.
pub const RENDER_SETTLE_MS: u64 = 700;

/// What the marker file's state means: an absent or empty file is "no pending
/// keyword"; anything else is the pending keyword itself, with no delimiters
/// or encoding.
pub open spec fn file_pending_model(content: Option<Seq<char>>) -> Option<Seq<char>> {
    match content {
        Some(s) => if s.len() == 0 {
            None
        } else {
            Some(s)
        },
        None => None,
    }
}

/// Decides whether the marker file's content names a pending keyword. The
/// caller passes the file's content, or nothing when the file is absent.
pub fn marker_file_pending(content: Option<&str>) -> (r: Option<String>)
    ensures
        match r {
            Some(k) => file_pending_model(crate::locator::opt_view(content)) == Some(k@),
            None => file_pending_model(crate::locator::opt_view(content)) is None,
        },
{
    match content {
        Some(s) => {
            if s.is_empty() {
                None
            } else {
                Some(s.to_owned())
            }
        },
        None => None,
    }
}

/// Backoff before the next activation attempt after failure number `attempt`
/// (counted from 1): the first four failures wait 300 ms times the attempt
/// number; the fifth gives up.
pub fn retry_delay_ms(attempt: u32) -> (r: Option<u64>)
    ensures
        r == if 1 <= attempt && attempt < 5 {
            Some((300 * attempt) as u64)
        } else {
            None::<u64>
        },
{
    if 1 <= attempt && attempt < 5 {
        Some(300u64 * (attempt as u64))
    } else {
        None
    }
}

} // verus!
