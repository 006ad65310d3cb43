use vstd::prelude::*;
use crate::quota::UsageSnapshot;

verus! {

/// How long a cached quota snapshot stays usable.
pub const CACHE_TTL_SECONDS: u64 = 180;

/// How long the quota fetch may block before it is given up.
pub const FETCH_TIMEOUT_SECONDS: u64 = 3;

/// A snapshot captured at `captured_at` is still fresh at `now`: its age
/// is below the time-to-live. A capture time in the future counts as
/// fresh, the way a truncating minute count treats it.
pub open spec fn fresh_at(captured_at: int, now: int) -> bool {
    now - captured_at < CACHE_TTL_SECONDS
}

/// Whether a snapshot captured at `captured_at` may still be used at `now`.
pub fn cache_is_fresh(captured_at: i64, now: i64) -> (r: bool)
    ensures
        r == fresh_at(captured_at as int, now as int),
{
    (now as i128) - (captured_at as i128) < CACHE_TTL_SECONDS as i128
}

/// What a cache read yields from a stored entry: the snapshot while it is
/// fresh, absence once it has expired or when nothing parsed.
pub open spec fn spec_accept_cached(entry: Option<UsageSnapshot>, now: int) -> Option<
    UsageSnapshot,
> {
    match entry {
        Some(s) => if fresh_at(s.spec_timestamp() as int, now) {
            Some(s)
        } else {
            None
        },
        None => None,
    }
}

/// Judges a stored cache entry against the time-to-live: the snapshot is
/// handed back only while it is fresh; a stale or absent entry yields
/// nothing.
pub fn accept_cached(entry: Option<UsageSnapshot>, now: i64) -> (r: Option<UsageSnapshot>)
    ensures
        r == spec_accept_cached(entry, now as int),
{
    match entry {
        Some(s) => {
            let ts = s.timestamp();
            if cache_is_fresh(ts, now) {
                Some(s)
            } else {
                None
            }
        },
        None => None,
    }
}

/// Cache round trip: a snapshot stamped with its capture time and read
/// back within the time-to-live comes back unchanged; read at or past the
/// time-to-live it counts as absent, whatever it holds.
pub proof fn lemma_cache_round_trip(s: UsageSnapshot, now: int)
    ensures
        now - s.spec_timestamp() < CACHE_TTL_SECONDS ==> spec_accept_cached(Some(s), now) == Some(
            s,
        ),
        now - s.spec_timestamp() >= CACHE_TTL_SECONDS ==> spec_accept_cached(Some(s), now)
            is None,
{
}

} // verus!
