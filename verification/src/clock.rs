//! The monotonic clock that stamps heartbeats.
use std::time::Instant;
use vstd::prelude::*;

verus! {

/// `std::time::Instant`, opaque to the verifier.
#[verifier::external_type_specification]
#[verifier::external_body]
pub struct ExInstant(Instant);

/// Where an instant stands on the monotonic clock, in nanoseconds from a fixed origin.
pub uninterp spec fn instant_nanos(instant: Instant) -> int;

/// The time from `earlier` to `later` in nanoseconds, zero if `earlier` comes after `later`.
pub open spec fn nanos_between(earlier: Instant, later: Instant) -> int {
    if instant_nanos(earlier) <= instant_nanos(later) {
        instant_nanos(later) - instant_nanos(earlier)
    } else {
        0
    }
}

/// `Instant::now`: the present reading of the clock. Nothing is claimed of it.
#[verifier::external_body]
fn read_clock() -> (now: Instant)
{
    Instant::now()
}

/// Whether `now` is an answer of the clock: nothing but a call of `Instant::now` shows it.
pub closed spec fn is_reading(now: Instant) -> bool {
    call_ensures(read_clock, (), now)
}

/// What `source` answers.
fn ask<F: Fn() -> Instant>(source: F) -> (now: Instant)
    requires
        call_requires(source, ()),
    ensures
        call_ensures(source, (), now),
{
    source()
}

/// The present reading of the clock.
pub(crate) fn reading() -> (now: Instant)
    ensures
        is_reading(now),
{
    ask(read_clock)
}

/// `Instant::saturating_duration_since`, its duration taken in nanoseconds: the time that passed
/// from `earlier` to `later`, and zero if `earlier` is the later of the two.
#[verifier::external_body]
pub(crate) fn nanos_since(later: Instant, earlier: Instant) -> (nanos: u128)
    ensures
        instant_nanos(earlier) <= instant_nanos(later) ==> nanos == instant_nanos(later)
            - instant_nanos(earlier),
        instant_nanos(later) < instant_nanos(earlier) ==> nanos == 0,
{
    later.saturating_duration_since(earlier).as_nanos()
}

} // verus!
