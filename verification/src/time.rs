use std::time::{Duration, SystemTime, UNIX_EPOCH};

use vstd::prelude::*;

verus! {

#[verifier::external_type_specification]
#[verifier::external_body]
pub struct ExSystemTime(SystemTime);

/// Milliseconds between the Unix epoch and `t`, or `None` when `t` lies before
/// the epoch.
pub uninterp spec fn millis_since_unix_epoch(t: SystemTime) -> Option<int>;

/// Reads `t` as milliseconds since the Unix epoch.
///
/// Trusted: calls `SystemTime::duration_since(UNIX_EPOCH)` and
/// `Duration::as_millis`; the result is `None` exactly when `t` precedes the
/// epoch, otherwise the whole number of elapsed milliseconds.
#[verifier::external_body]
pub(crate) fn unix_millis(t: SystemTime) -> (r: Option<u128>)
    ensures
        r matches Some(m) ==> millis_since_unix_epoch(t) == Some(m as int),
        r is None ==> millis_since_unix_epoch(t) is None,
{
    t.duration_since(UNIX_EPOCH).ok().map(|d| d.as_millis())
}

/// The instant `millis` milliseconds after the Unix epoch, when the platform
/// can represent it.
///
/// Trusted: calls `SystemTime::checked_add(UNIX_EPOCH, Duration::from_millis)`.
/// When it returns an instant, reading it back with `duration_since` gives
/// exactly `millis` milliseconds. Whether the platform can represent the
/// instant is not stated.
#[verifier::external_body]
pub(crate) fn checked_time_after_epoch(millis: u64) -> (r: Option<SystemTime>)
    ensures
        r matches Some(t) ==> millis_since_unix_epoch(t) == Some(millis as int),
{
    UNIX_EPOCH.checked_add(Duration::from_millis(millis))
}

} // verus!
