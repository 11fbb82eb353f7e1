use vstd::prelude::*;
use crate::task::{clamped_diff, clamped_sub};

verus! {

/// The unit in which an elapsed time is shown.
#[derive(Debug, Clone, Copy, PartialEq, Eq, Structural)]
pub enum TimeUnit {
    Seconds,
    Minutes,
    Hours,
    Days,
}

/// An elapsed time of `e` seconds in the largest unit it fills, rounded down;
/// under a minute it stays in seconds.
pub open spec fn elapsed_in_units(e: i64) -> (i64, TimeUnit) {
    if e < 60 {
        (e, TimeUnit::Seconds)
    } else if e < 3600 {
        ((e / 60) as i64, TimeUnit::Minutes)
    } else if e < 86400 {
        ((e / 3600) as i64, TimeUnit::Hours)
    } else {
        ((e / 86400) as i64, TimeUnit::Days)
    }
}

/// How long ago `timestamp` was at time `now`, in the unit to show it in.
pub fn elapsed_since(now: i64, timestamp: i64) -> (r: (i64, TimeUnit))
    ensures
        r == elapsed_in_units(clamped_diff(now, timestamp)),
{
    let e = clamped_sub(now, timestamp);
    if e < 60 {
        (e, TimeUnit::Seconds)
    } else if e < 3600 {
        (e / 60, TimeUnit::Minutes)
    } else if e < 86400 {
        (e / 3600, TimeUnit::Hours)
    } else {
        (e / 86400, TimeUnit::Days)
    }
}

} // verus!
