//! The freshness policy: an observation is usable exactly when its age is
//! strictly below the configured staleness threshold.

use vstd::prelude::*;

verus! {

/// An observation taken at `timestamp_millis` is fresh at `now_millis` iff its
/// age is strictly less than `threshold_millis`: an age exactly equal to the
/// threshold is already stale.
pub open spec fn spec_is_fresh(timestamp_millis: int, now_millis: int, threshold_millis: int) -> bool {
    now_millis - timestamp_millis < threshold_millis
}

/// Decide freshness of one observation. All times are in milliseconds.
pub fn is_fresh(timestamp_millis: i64, now_millis: i64, threshold_millis: i64) -> (r: bool)
    ensures
        r == spec_is_fresh(timestamp_millis as int, now_millis as int, threshold_millis as int),
{
    (now_millis as i128) - (timestamp_millis as i128) < (threshold_millis as i128)
}

/// Relies on std's `SystemTime::now`, read as whole milliseconds since the
/// Unix epoch; a host clock that reads before the epoch gives 0, so the read
/// is total. The reading depends on the outside world, so nothing is promised
/// of it.
#[verifier::external_body]
pub(crate) fn now_millis() -> i64 {
    match std::time::SystemTime::now().duration_since(std::time::UNIX_EPOCH) {
        Ok(d) => d.as_millis() as i64,
        Err(_) => 0,
    }
}

/// The freshness boundary: under a threshold `t`, an observation aged exactly
/// `t` is not fresh, while one aged `t - 1` (the largest strictly younger age
/// expressible in milliseconds) is fresh.
pub proof fn lemma_freshness_boundary(now_millis: int, threshold_millis: int)
    ensures
        !spec_is_fresh(now_millis - threshold_millis, now_millis, threshold_millis),
        spec_is_fresh(now_millis - threshold_millis + 1, now_millis, threshold_millis),
{
}

} // verus!
