//! Declarations for the outside items the library leans on: the wall clock
//! and hour truncation (chrono), session identifiers (uuid), and the
//! monotonic clock (std). Everything that depends on their results is
//! verified for every value they may hand back.

use vstd::prelude::*;

verus! {

/// Latest wall-clock timestamp (unix seconds) the library handles; chrono's
/// hour truncation is defined well inside this bound.
pub const MAX_TIMESTAMP: i64 = 4_102_444_800;

/// A unix-seconds timestamp floored to the start of its hour.
pub open spec fn hour_floor(t: int) -> int {
    t - t % 3600
}

#[verifier::external_type_specification]
#[verifier::external_body]
pub struct ExUuid(uuid::Uuid);

/// Relies on uuid::Uuid's Clone: `Uuid` is a plain 16-byte `Copy` value, so
/// its clone is the same value.
pub assume_specification[ <uuid::Uuid as Clone>::clone ](u: &uuid::Uuid) -> (r: uuid::Uuid)
    ensures
        r == *u,
;

/// Relies on uuid::Uuid::new_v4: a freshly generated random identifier;
/// nothing is promised of its value.
#[verifier::external_body]
pub(crate) fn new_session_id() -> uuid::Uuid {
    uuid::Uuid::new_v4()
}

#[verifier::external_type_specification]
#[verifier::external_body]
pub struct ExInstant(std::time::Instant);

/// Relies on std::time::Instant's Clone: `Instant` is a plain `Copy` value,
/// so its clone is the same value.
pub assume_specification[ <std::time::Instant as Clone>::clone ](i: &std::time::Instant) -> (r:
    std::time::Instant)
    ensures
        r == *i,
;

/// Relies on std::time::Instant::now: an opaque reading of the monotonic
/// clock, taken at session creation to measure the session's duration.
#[verifier::external_body]
pub(crate) fn instant_now() -> std::time::Instant {
    std::time::Instant::now()
}

/// Relies on std::time::Instant::elapsed: the time since `start` by the
/// monotonic clock; the value depends on when the call runs, so nothing is
/// promised of it.
#[verifier::external_body]
pub(crate) fn instant_elapsed(start: &std::time::Instant) -> core::time::Duration {
    start.elapsed()
}

/// Relies on core::time::Duration::as_millis: the duration as whole
/// milliseconds.
#[verifier::external_body]
pub(crate) fn duration_millis(d: &core::time::Duration) -> u128 {
    d.as_millis()
}

/// Relies on chrono::Utc::now (read through DateTime::timestamp): the wall
/// clock as unix seconds. The value depends on the machine's clock, so
/// nothing is promised of it; callers clamp it into the handled range.
#[verifier::external_body]
pub(crate) fn now_timestamp() -> i64 {
    chrono::Utc::now().timestamp()
}

/// Relies on chrono's DurationRound::duration_trunc with a one-hour span:
/// for a non-negative unix-seconds timestamp within range it floors to the
/// start of the containing hour, that is `t - t % 3600`.
#[verifier::external_body]
pub(crate) fn trunc_to_hour(t: i64) -> (r: i64)
    requires
        0 <= t <= MAX_TIMESTAMP,
    ensures
        r == hour_floor(t as int),
{
    let dt = chrono::DateTime::from_timestamp(t, 0).expect("timestamp within range");
    let floored = chrono::DurationRound::duration_trunc(dt, chrono::TimeDelta::hours(1))
        .expect("timestamp within range");
    floored.timestamp()
}

} // verus!
