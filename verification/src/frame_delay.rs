//! Frame pacing: the delay between two frames decays from the target rate to
//! the idle rate as the user stays away.
//!
//! Times are counted in whole nanoseconds.
use vstd::prelude::*;
use std::time::{Duration, Instant};
use crate::header::FpsLimit;

verus! {

/// Nanoseconds in one second.
pub const NANOS_PER_SEC: u64 = 1_000_000_000;

/// Seconds without interaction after which the frame rate has decayed fully.
pub const AFK_DECAY_SECS: u64 = 5;

/// The frame rate while the user is away or the window is hidden.
pub const AFK_MIN_FPS: u64 = 1;

/// The frame delay while the user is away: one frame per second.
pub open spec fn afk_delay() -> int {
    (NANOS_PER_SEC as int) / (AFK_MIN_FPS as int)
}

/// The idle time after which the frame rate has decayed fully.
pub open spec fn decay_period() -> int {
    (AFK_DECAY_SECS as int) * (NANOS_PER_SEC as int)
}

/// The frame delay at the target rate.
pub open spec fn base_delay(fps: u32) -> int {
    (NANOS_PER_SEC as int) / (fps as int)
}

/// The delay between two frames: the idle delay when the window is hidden or
/// the user has been away for the decay period; otherwise the target delay,
/// raised towards the idle delay by the square of the fraction of the decay
/// period that has passed.
pub open spec fn spec_frame_delay(is_hidden: bool, fps: u32, elapsed: int) -> int {
    if is_hidden || elapsed >= decay_period() {
        afk_delay()
    } else {
        base_delay(fps) + (afk_delay() - base_delay(fps)) * elapsed * elapsed / (decay_period()
            * decay_period())
    }
}

proof fn lemma_base_delay_bounds(fps: u32)
    requires
        fps > 0,
    ensures
        0 <= base_delay(fps) <= afk_delay(),
{
    assert((NANOS_PER_SEC as int) / (fps as int) <= NANOS_PER_SEC as int) by (nonlinear_arith)
        requires
            fps as int >= 1,
    ;
}

proof fn lemma_decay_fraction(span: int, e: int, d: int)
    requires
        0 <= span,
        0 <= e < d,
    ensures
        0 <= span * e * e / (d * d) <= span,
{
    assert(e * e <= d * d && d * d > 0) by (nonlinear_arith)
        requires
            0 <= e < d,
    ;
    assert(span * e * e <= span * (d * d)) by (nonlinear_arith)
        requires
            0 <= span,
            0 <= e * e <= d * d,
    ;
    assert(0 <= span * e * e) by (nonlinear_arith)
        requires
            0 <= span,
    ;
    assert(span * e * e / (d * d) <= span) by (nonlinear_arith)
        requires
            0 <= span * e * e <= span * (d * d),
            d * d > 0,
    ;
    assert(0 <= span * e * e / (d * d)) by (nonlinear_arith)
        requires
            0 <= span * e * e,
            d * d > 0,
    ;
}

/// The delay until the next frame, in nanoseconds, after `elapsed_nanos`
/// without interaction.
pub fn frame_delay_nanos(is_hidden: bool, target_fps: FpsLimit, elapsed_nanos: u128) -> (d: u64)
    requires
        is_hidden || elapsed_nanos >= decay_period() || target_fps.value > 0,
    ensures
        d == spec_frame_delay(is_hidden, target_fps.value, elapsed_nanos as int),
{
    let afk: u64 = NANOS_PER_SEC / AFK_MIN_FPS;
    if is_hidden {
        return afk;
    }
    let decay: u128 = (AFK_DECAY_SECS * NANOS_PER_SEC) as u128;
    if elapsed_nanos >= decay {
        return afk;
    }
    let base: u64 = NANOS_PER_SEC / (target_fps.value as u64);
    proof {
        lemma_base_delay_bounds(target_fps.value);
        lemma_decay_fraction(afk - base, elapsed_nanos as int, decay as int);
    }
    let span: u128 = (afk - base) as u128;
    assert(span * elapsed_nanos <= 1_000_000_000u128 * 5_000_000_000u128) by (nonlinear_arith)
        requires
            span <= 1_000_000_000,
            elapsed_nanos < 5_000_000_000,
    ;
    let partial: u128 = span * elapsed_nanos;
    assert(partial * elapsed_nanos <= 5_000_000_000_000_000_000u128 * 5_000_000_000u128) by (
    nonlinear_arith)
        requires
            partial <= 5_000_000_000_000_000_000u128,
            elapsed_nanos < 5_000_000_000,
    ;
    let scaled: u128 = partial * elapsed_nanos;
    let extra: u128 = scaled / (decay * decay);
    assert(extra <= span);
    base + (extra as u64)
}

/// `std::time::Instant`, a reading of the monotonic clock, held opaque.
#[verifier::external_type_specification]
#[verifier::external_body]
pub struct ExInstant(Instant);

/// What `Duration::as_nanos` gives for a duration (its length in nanoseconds).
pub uninterp spec fn duration_nanos(d: Duration) -> int;

/// Calls `Instant::elapsed`. The result depends on the clock: nothing is stated.
#[verifier::external_body]
fn instant_elapsed(t: &Instant) -> Duration {
    t.elapsed()
}

/// Calls `Duration::as_nanos`: the duration's length in nanoseconds.
#[verifier::external_body]
fn duration_as_nanos(d: &Duration) -> (n: u128)
    ensures
        n == duration_nanos(*d),
{
    d.as_nanos()
}

/// Calls `Duration::from_nanos`: a duration of exactly `n` nanoseconds.
#[verifier::external_body]
fn duration_from_nanos(n: u64) -> (d: Duration)
    ensures
        duration_nanos(d) == n,
{
    Duration::from_nanos(n)
}

/// The delay until the next frame, given when the user last interacted.
/// How long ago that was comes from the clock; the delay is the frame delay
/// of some such idle time, and exactly the idle delay when the window is
/// hidden.
pub fn calculate_frame_delay(is_hidden: bool, target_fps: FpsLimit, last_interaction: Instant) -> (d: Duration)
    requires
        is_hidden || target_fps.value > 0,
    ensures
        exists|elapsed: int|
            0 <= elapsed && duration_nanos(d) == spec_frame_delay(is_hidden, target_fps.value, elapsed),
        is_hidden ==> duration_nanos(d) == afk_delay(),
{
    let elapsed = instant_elapsed(&last_interaction);
    let e = duration_as_nanos(&elapsed);
    let nanos = frame_delay_nanos(is_hidden, target_fps, e);
    let d = duration_from_nanos(nanos);
    assert(0 <= e as int && duration_nanos(d) == spec_frame_delay(is_hidden, target_fps.value, e as int));
    d
}

/// The frame delay never exceeds the idle delay and, for a visible window,
/// never falls below the target-rate delay; a hidden window waits the idle
/// delay.
pub proof fn lemma_frame_delay_bounds(is_hidden: bool, fps: u32, elapsed: int)
    requires
        fps > 0,
        elapsed >= 0,
    ensures
        spec_frame_delay(is_hidden, fps, elapsed) <= afk_delay(),
        base_delay(fps) <= spec_frame_delay(is_hidden, fps, elapsed),
        is_hidden ==> spec_frame_delay(is_hidden, fps, elapsed) == afk_delay(),
{
    lemma_base_delay_bounds(fps);
    if !is_hidden && elapsed < decay_period() {
        lemma_decay_fraction(afk_delay() - base_delay(fps), elapsed, decay_period());
    }
}

/// The longer the user stays away, the longer the frame delay: the delay never
/// shrinks as idle time grows.
pub proof fn lemma_frame_delay_monotonic(is_hidden: bool, fps: u32, e1: int, e2: int)
    requires
        fps > 0,
        0 <= e1 <= e2,
    ensures
        spec_frame_delay(is_hidden, fps, e1) <= spec_frame_delay(is_hidden, fps, e2),
{
    lemma_base_delay_bounds(fps);
    let span = afk_delay() - base_delay(fps);
    let d = decay_period();
    if !is_hidden && e1 < d {
        lemma_decay_fraction(span, e1, d);
        if e2 < d {
            assert(span * e1 * e1 <= span * e2 * e2) by (nonlinear_arith)
                requires
                    0 <= span,
                    0 <= e1 <= e2,
            ;
            assert(span * e1 * e1 / (d * d) <= span * e2 * e2 / (d * d)) by (nonlinear_arith)
                requires
                    span * e1 * e1 <= span * e2 * e2,
                    d * d > 0,
            ;
        }
    }
}

} // verus!
