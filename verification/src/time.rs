//! Durations as whole nanoseconds, and the wall clock in milliseconds.

use std::time::{Duration, SystemTime, SystemTimeError};

use vstd::prelude::*;

verus! {

/// The wall-clock type of std. Opaque here: only its distance to the Unix epoch is read.
#[verifier::external_type_specification]
#[verifier::external_body]
pub struct ExSystemTime(SystemTime);

/// What std returns where one point of the wall clock lies before another.
#[verifier::external_type_specification]
#[verifier::external_body]
pub struct ExSystemTimeError(SystemTimeError);

/// The length of a duration in nanoseconds: what `Duration::as_nanos` returns.
pub uninterp spec fn duration_nanos(duration: Duration) -> nat;

/// `std::time::Duration::as_nanos`: the total number of nanoseconds of the duration. It names
/// that number; what `Duration` looks like inside stays hidden.
pub assume_specification[ Duration::as_nanos ](duration: &Duration) -> (nanos: u128)
    ensures
        nanos == duration_nanos(*duration),
;

/// `std::time::Duration::from_millis`: a duration of that many milliseconds, each of which is a
/// million nanoseconds.
pub assume_specification[ Duration::from_millis ](millis: u64) -> (duration: Duration)
    ensures
        duration_nanos(duration) == millis * 1_000_000,
;

/// `std::time::SystemTime::now`: some point of the wall clock. Nothing is claimed of it.
pub assume_specification[ SystemTime::now ]() -> SystemTime;

/// How far a point of the wall clock lies after the Unix epoch, in nanoseconds; `None` for a
/// point before it.
pub uninterp spec fn nanos_since_unix_epoch(at: SystemTime) -> Option<nat>;

/// `std::time::SystemTime::duration_since` with the Unix epoch as its argument: the distance
/// where `at` is not before the epoch, an error where it is.
#[verifier::external_body]
fn since_unix_epoch(at: &SystemTime) -> (elapsed: Result<Duration, SystemTimeError>)
    ensures
        match elapsed {
            Ok(duration) => nanos_since_unix_epoch(*at) == Some(duration_nanos(duration)),
            Err(_) => nanos_since_unix_epoch(*at) is None,
        },
{
    at.duration_since(SystemTime::UNIX_EPOCH)
}

/// By how many nanoseconds `later` exceeds `earlier`; nothing where it does not.
pub open spec fn span(later: Duration, earlier: Duration) -> nat {
    if duration_nanos(later) > duration_nanos(earlier) {
        (duration_nanos(later) - duration_nanos(earlier)) as nat
    } else {
        0
    }
}

/// The saturating difference of two durations, in nanoseconds.
pub fn nanos_between(later: &Duration, earlier: &Duration) -> (nanos: u128)
    ensures
        nanos == span(*later, *earlier),
{
    later.as_nanos().saturating_sub(earlier.as_nanos())
}

/// Whole milliseconds since the Unix epoch at a point of the wall clock; zero before it.
pub open spec fn millis_at(at: SystemTime) -> nat {
    match nanos_since_unix_epoch(at) {
        Some(nanos) => nanos / 1_000_000,
        None => 0,
    }
}

/// The Unix timestamp of a point of the wall clock, in whole milliseconds.
pub fn unix_millis(at: &SystemTime) -> (millis: u128)
    ensures
        millis == millis_at(*at),
{
    match since_unix_epoch(at) {
        Ok(elapsed) => elapsed.as_nanos() / 1_000_000,
        Err(_) => 0,
    }
}

/// The Unix timestamp of now, in whole milliseconds. Which point of the wall clock was read is
/// up to the machine.
pub fn epoch_ms() -> (millis: u128)
    ensures
        exists|at: SystemTime| millis == #[trigger] millis_at(at),
{
    let now = SystemTime::now();
    unix_millis(&now)
}

/// A span is what the earlier duration lacks to the later one, and nothing where it lacks nothing.
pub proof fn law_span_is_the_difference(later: Duration, earlier: Duration)
    ensures
        duration_nanos(earlier) <= duration_nanos(later) ==> duration_nanos(earlier) + span(
            later,
            earlier,
        ) == duration_nanos(later),
        duration_nanos(earlier) >= duration_nanos(later) ==> span(later, earlier) == 0,
{
}

/// A timestamp is the number of milliseconds that have passed completely since the Unix epoch, and
/// none before it.
pub proof fn law_timestamps_count_whole_milliseconds(at: SystemTime)
    ensures
        match nanos_since_unix_epoch(at) {
            Some(nanos) => millis_at(at) * 1_000_000 <= nanos && nanos < (millis_at(at) + 1)
                * 1_000_000,
            None => millis_at(at) == 0,
        },
{
}

} // verus!
