//! Change detection: which modification times count as a fresh edit.

use crate::cache::{Modified, Timestamp};
use vstd::prelude::*;

verus! {

/// How often the watch loop looks at the exercise files, in milliseconds.
pub const POLL_INTERVAL_MS: u64 = 250;

/// A file modified less than this many milliseconds ago counts as just changed.
pub const RECENT_WINDOW_MS: u64 = 500;

/// A timestamp as nanoseconds since the Unix epoch.
pub open spec fn nanos_of(t: Timestamp) -> int {
    t.secs * 1_000_000_000 + t.nanos
}

/// `t` lies no later than `now`, and less than the recency window before it.
pub open spec fn is_recent(now: Timestamp, t: Timestamp) -> bool {
    nanos_of(t) <= nanos_of(now) && nanos_of(now) - nanos_of(t) < RECENT_WINDOW_MS * 1_000_000
}

/// Some file's modification time is recent.
pub open spec fn any_is_recent(now: Timestamp, stamps: Seq<Modified>) -> bool {
    exists|i: int|
        0 <= i < stamps.len() && match #[trigger] stamps[i] {
            Modified::At(t) => is_recent(now, t),
            _ => false,
        }
}

fn total_nanos(t: Timestamp) -> (r: u128)
    ensures
        r == nanos_of(t),
{
    assert(t.secs * 1_000_000_000 <= u64::MAX * 1_000_000_000) by (nonlinear_arith);
    (t.secs as u128) * 1_000_000_000 + (t.nanos as u128)
}

/// Whether a file modified at `t` was modified just now; a time in the future is not.
pub fn recently_modified(now: Timestamp, t: Timestamp) -> (r: bool)
    ensures
        r == is_recent(now, t),
{
    let n = total_nanos(now);
    let m = total_nanos(t);
    m <= n && n - m < (RECENT_WINDOW_MS as u128) * 1_000_000
}

/// Whether any of the files, by the modification times read at `now`, was just
/// changed; a file whose time could not be read counts as unchanged.
pub fn any_recently_modified(now: Timestamp, stamps: &[Modified]) -> (r: bool)
    ensures
        r == any_is_recent(now, stamps@),
{
    let mut i: usize = 0;
    while i < stamps.len()
        invariant
            i <= stamps@.len(),
            forall|k: int|
                0 <= k < i ==> match #[trigger] stamps@[k] {
                    Modified::At(t) => !is_recent(now, t),
                    _ => true,
                },
        decreases stamps@.len() - i,
    {
        if let Modified::At(t) = stamps[i] {
            if recently_modified(now, t) {
                assert(match stamps@[i as int] {
                    Modified::At(t) => is_recent(now, t),
                    _ => false,
                });
                return true;
            }
        }
        i += 1;
    }
    false
}

} // verus!
