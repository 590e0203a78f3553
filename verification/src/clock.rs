//! The wall clock.
use vstd::prelude::*;

verus! {

/// Calls `SystemTime::elapsed` on the Unix epoch: the time from the epoch to now (a zero
/// duration when the clock is set before the epoch), returned as the whole milliseconds and
/// the whole seconds of that one duration. Nothing is said of the values themselves, which
/// depend on the time.
#[verifier::external_body]
pub(crate) fn unix_time_now() -> (t: (u128, u64))
    ensures
        t.1 as int == t.0 as int / 1000,
{
    let d = std::time::UNIX_EPOCH.elapsed().unwrap_or_default();
    (d.as_millis(), d.as_secs())
}

} // verus!
