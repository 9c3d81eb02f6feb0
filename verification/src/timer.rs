//! The engine's timers, run from here one frame at a time.

use bevy::time::Timer;
use std::time::Duration;
use vstd::prelude::*;

verus! {

/// `bevy::time::Timer`: counts the time that went by against a duration.
/// Nothing inside it is visible here.
#[verifier::external_type_specification]
#[verifier::external_body]
pub struct ExTimer(Timer);

/// The timer that `Timer::tick` leaves behind.
pub uninterp spec fn spec_tick(timer: Timer, delta: Duration) -> Timer;

/// The timer that `Timer::reset` leaves behind.
pub uninterp spec fn spec_reset(timer: Timer) -> Timer;

/// What `Timer::just_finished` answers.
pub uninterp spec fn spec_just_finished(timer: Timer) -> bool;

/// What `Timer::finished` answers.
pub uninterp spec fn spec_finished(timer: Timer) -> bool;

/// What `Timer::elapsed` answers.
pub uninterp spec fn spec_elapsed(timer: Timer) -> Duration;

/// What `Duration::checked_add` answers.
pub uninterp spec fn spec_checked_add(first: Duration, second: Duration) -> Option<Duration>;

/// Calls `Timer::tick`, which adds `delta` to the time gone by and panics
/// where the sum does not fit a `Duration`; so the sum has to fit. What the
/// timer becomes depends on the timer and `delta` alone and goes by the name
/// of [`spec_tick`].
#[verifier::external_body]
fn tick_unchecked(timer: &mut Timer, delta: Duration)
    requires
        spec_checked_add(spec_elapsed(*old(timer)), delta) is Some,
    ensures
        *final(timer) == spec_tick(*old(timer), delta),
{
    timer.tick(delta);
}

/// Calls `Timer::reset`. What the timer becomes depends on the timer alone
/// and goes by the name of [`spec_reset`].
#[verifier::external_body]
pub(crate) fn reset(timer: &mut Timer)
    ensures
        *final(timer) == spec_reset(*old(timer)),
{
    timer.reset();
}

/// Calls `Timer::just_finished`. The answer depends on the timer alone and
/// goes by the name of [`spec_just_finished`].
#[verifier::external_body]
pub(crate) fn just_finished(timer: &Timer) -> (out: bool)
    ensures
        out == spec_just_finished(*timer),
{
    timer.just_finished()
}

/// Calls `Timer::finished`. The answer depends on the timer alone and goes
/// by the name of [`spec_finished`].
#[verifier::external_body]
pub(crate) fn finished(timer: &Timer) -> (out: bool)
    ensures
        out == spec_finished(*timer),
{
    timer.finished()
}

/// Calls `Timer::elapsed`. The answer depends on the timer alone and goes by
/// the name of [`spec_elapsed`].
#[verifier::external_body]
fn elapsed(timer: &Timer) -> (out: Duration)
    ensures
        out == spec_elapsed(*timer),
{
    timer.elapsed()
}

/// Calls `Duration::checked_add`. The answer depends on the two durations
/// alone and goes by the name of [`spec_checked_add`].
#[verifier::external_body]
fn checked_add(first: Duration, second: Duration) -> (out: Option<Duration>)
    ensures
        out == spec_checked_add(first, second),
{
    first.checked_add(second)
}

/// The time gone by and `delta` together still fit a `Duration`.
pub open spec fn spec_fits(timer: Timer, delta: Duration) -> bool {
    spec_checked_add(spec_elapsed(timer), delta) is Some
}

/// The timer a frame later: run on by `delta`, or left as it is where the
/// time gone by would no longer fit.
pub open spec fn spec_advance(timer: Timer, delta: Duration) -> Timer {
    if spec_fits(timer, delta) {
        spec_tick(timer, delta)
    } else {
        timer
    }
}

/// Runs the timer on by `delta`. Where the time gone by would no longer fit
/// a `Duration` the timer is left as it is, and the answer is `false`.
pub fn advance(timer: &mut Timer, delta: Duration) -> (out: bool)
    ensures
        out == spec_fits(*old(timer), delta),
        *final(timer) == spec_advance(*old(timer), delta),
{
    match checked_add(elapsed(timer), delta) {
        Some(_) => {
            tick_unchecked(timer, delta);
            true
        },
        None => false,
    }
}

} // verus!
