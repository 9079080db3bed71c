//! The two repeating countdowns that pace the arrival of new stars and new
//! enemies. The countdowns are the engine's own timers; this module says what
//! the game relies on when it winds them on.

use crate::config::{ENEMY_SPAWN_MILLIS, STAR_SPAWN_MILLIS};
use bevy::time::{Timer, TimerMode};
use std::time::Duration;
use vstd::arithmetic::div_mod::{
    lemma_add_mod_noop_right, lemma_mod_add_multiples_vanish, lemma_mod_bound, lemma_small_mod,
};
use vstd::prelude::*;

verus! {

#[verifier::external_type_specification]
#[verifier::external_body]
pub struct ExTimer(Timer);

/// What `Timer::elapsed` returns for a timer, in nanoseconds.
pub uninterp spec fn timer_elapsed(timer: Timer) -> nat;

/// What `Timer::duration` returns for a timer, in nanoseconds.
pub uninterp spec fn timer_period(timer: Timer) -> nat;

/// What `Timer::finished` returns for a timer.
pub uninterp spec fn timer_finished(timer: Timer) -> bool;

/// What `Timer::paused` returns for a timer.
pub uninterp spec fn timer_paused(timer: Timer) -> bool;

/// Whether `Timer::mode` returns `TimerMode::Repeating` for a timer.
pub uninterp spec fn timer_repeating(timer: Timer) -> bool;

/// Nanoseconds in a millisecond.
pub const NANOS_PER_MILLI: u64 = 1_000_000;

/// Time on a countdown after a frame: what the frame adds to the time that was
/// on it, less all whole periods.
pub open spec fn left_over(elapsed: nat, period: nat, delta: nat) -> int {
    ((elapsed + delta) as int) % (period as int)
}

/// Whether a countdown runs out in a frame: the frame brings the time on it up
/// to the period or beyond.
pub open spec fn runs_out(elapsed: nat, period: nat, delta: nat) -> bool {
    elapsed + delta >= period
}

/// A timer as the game keeps it: repeating, not paused, and part of the way
/// through a period that can be counted in 64 bits of nanoseconds.
pub open spec fn winds(timer: Timer) -> bool {
    &&& timer_repeating(timer)
    &&& !timer_paused(timer)
    &&& timer_elapsed(timer) < timer_period(timer) <= u64::MAX
}

/// Makes a timer with `Timer::new`, in mode `TimerMode::Repeating` and with a
/// period given in milliseconds. As the engine's source has it, a new timer is
/// not paused, not finished, and has no time on it.
#[verifier::external_body]
fn repeating_timer(period_millis: u64) -> (timer: Timer)
    ensures
        timer_repeating(timer),
        !timer_paused(timer),
        !timer_finished(timer),
        timer_elapsed(timer) == 0,
        timer_period(timer) == period_millis * NANOS_PER_MILLI,
{
    Timer::new(Duration::from_millis(period_millis), TimerMode::Repeating)
}

/// Winds a timer on with `Timer::tick`, by a time given in nanoseconds. As the
/// engine's source has it, a repeating timer that is not paused adds the time
/// to what has elapsed, is finished exactly if the sum reaches the period, and
/// keeps what is left of the sum after taking out all whole periods. The
/// conditions leave out the timers for which the source does something else
/// and the sums that its arithmetic cannot hold.
#[verifier::external_body]
fn timer_tick(timer: &mut Timer, delta_nanos: u64)
    requires
        timer_repeating(*old(timer)),
        !timer_paused(*old(timer)),
        timer_elapsed(*old(timer)) < timer_period(*old(timer)) <= u64::MAX,
    ensures
        timer_repeating(*final(timer)),
        !timer_paused(*final(timer)),
        timer_period(*final(timer)) == timer_period(*old(timer)),
        timer_finished(*final(timer)) == runs_out(
            timer_elapsed(*old(timer)),
            timer_period(*old(timer)),
            delta_nanos as nat,
        ),
        timer_elapsed(*final(timer)) == left_over(
            timer_elapsed(*old(timer)),
            timer_period(*old(timer)),
            delta_nanos as nat,
        ),
{
    timer.tick(Duration::from_nanos(delta_nanos));
}

/// Asks `Timer::finished`.
#[verifier::external_body]
fn timer_is_finished(timer: &Timer) -> (finished: bool)
    ensures
        finished == timer_finished(*timer),
{
    timer.finished()
}

/// Countdown to the next star.
pub struct StarSpawnTimer {
    pub timer: Timer,
}

/// Countdown to the next enemy.
pub struct EnemySpawnTimer {
    pub timer: Timer,
}

impl Default for StarSpawnTimer {
    /// A countdown at its start, with a star due every `STAR_SPAWN_MILLIS`.
    fn default() -> (star_spawn_timer: StarSpawnTimer)
        ensures
            winds(star_spawn_timer.timer),
            !timer_finished(star_spawn_timer.timer),
            timer_elapsed(star_spawn_timer.timer) == 0,
            timer_period(star_spawn_timer.timer) == STAR_SPAWN_MILLIS * NANOS_PER_MILLI,
    {
        StarSpawnTimer { timer: repeating_timer(STAR_SPAWN_MILLIS) }
    }
}

impl Default for EnemySpawnTimer {
    /// A countdown at its start, with an enemy due every `ENEMY_SPAWN_MILLIS`.
    fn default() -> (enemy_spawn_timer: EnemySpawnTimer)
        ensures
            winds(enemy_spawn_timer.timer),
            !timer_finished(enemy_spawn_timer.timer),
            timer_elapsed(enemy_spawn_timer.timer) == 0,
            timer_period(enemy_spawn_timer.timer) == ENEMY_SPAWN_MILLIS * NANOS_PER_MILLI,
    {
        EnemySpawnTimer { timer: repeating_timer(ENEMY_SPAWN_MILLIS) }
    }
}

/// Winds the star countdown on by the length of a frame, in nanoseconds. The
/// countdown is finished after the frame in which it ran out, and starts over
/// with the time that was left.
pub fn tick_star_spawn_timer(star_spawn_timer: &mut StarSpawnTimer, delta_nanos: u64)
    requires
        winds(old(star_spawn_timer).timer),
    ensures
        winds(final(star_spawn_timer).timer),
        timer_period(final(star_spawn_timer).timer) == timer_period(old(star_spawn_timer).timer),
        timer_finished(final(star_spawn_timer).timer) == runs_out(
            timer_elapsed(old(star_spawn_timer).timer),
            timer_period(old(star_spawn_timer).timer),
            delta_nanos as nat,
        ),
        timer_elapsed(final(star_spawn_timer).timer) == left_over(
            timer_elapsed(old(star_spawn_timer).timer),
            timer_period(old(star_spawn_timer).timer),
            delta_nanos as nat,
        ),
{
    timer_tick(&mut star_spawn_timer.timer, delta_nanos);
}

/// Winds the enemy countdown on by the length of a frame, in nanoseconds. The
/// countdown is finished after the frame in which it ran out, and starts over
/// with the time that was left.
pub fn tick_enemy_spawn_timer(enemy_spawn_timer: &mut EnemySpawnTimer, delta_nanos: u64)
    requires
        winds(old(enemy_spawn_timer).timer),
    ensures
        winds(final(enemy_spawn_timer).timer),
        timer_period(final(enemy_spawn_timer).timer) == timer_period(
            old(enemy_spawn_timer).timer,
        ),
        timer_finished(final(enemy_spawn_timer).timer) == runs_out(
            timer_elapsed(old(enemy_spawn_timer).timer),
            timer_period(old(enemy_spawn_timer).timer),
            delta_nanos as nat,
        ),
        timer_elapsed(final(enemy_spawn_timer).timer) == left_over(
            timer_elapsed(old(enemy_spawn_timer).timer),
            timer_period(old(enemy_spawn_timer).timer),
            delta_nanos as nat,
        ),
{
    timer_tick(&mut enemy_spawn_timer.timer, delta_nanos);
}

/// Whether a star is to appear in this frame: the countdown ran out in it.
pub fn spawn_stars_over_time(star_spawn_timer: &StarSpawnTimer) -> (due: bool)
    ensures
        due == timer_finished(star_spawn_timer.timer),
{
    timer_is_finished(&star_spawn_timer.timer)
}

/// Whether an enemy is to appear in this frame: the countdown ran out in it.
pub fn spawn_enemies_over_time(enemy_spawn_timer: &EnemySpawnTimer) -> (due: bool)
    ensures
        due == timer_finished(enemy_spawn_timer.timer),
{
    timer_is_finished(&enemy_spawn_timer.timer)
}

/// Two frames leave as much time on a countdown as one frame as long as both.
pub proof fn frames_add_up(elapsed: nat, period: nat, first: nat, second: nat)
    requires
        period > 0,
    ensures
        left_over(left_over(elapsed, period, first) as nat, period, second) == left_over(
            elapsed,
            period,
            first + second,
        ),
{
    let m = period as int;
    let before = (elapsed + first) as int;
    lemma_mod_bound(before, m);
    lemma_add_mod_noop_right(second as int, before, m);
    assert(second as int + before % m == (before % m) as nat + second);
    assert(second as int + before == (elapsed + (first + second)) as int);
}

/// A countdown that does not run out in a frame holds all the time that was
/// on it and all of the frame; one that runs out holds less than a period.
pub proof fn left_over_is_less_than_a_period(elapsed: nat, period: nat, delta: nat)
    requires
        elapsed < period,
    ensures
        0 <= left_over(elapsed, period, delta) < period,
        !runs_out(elapsed, period, delta) ==> left_over(elapsed, period, delta) == elapsed + delta,
        runs_out(elapsed, period, delta) && delta <= period ==> left_over(elapsed, period, delta)
            == elapsed + delta - period,
{
    let m = period as int;
    let total = (elapsed + delta) as int;
    lemma_mod_bound(total, m);
    if total < m {
        lemma_small_mod(total as nat, period);
    } else if delta <= period {
        lemma_mod_add_multiples_vanish(total - m, m);
        lemma_small_mod((total - m) as nat, period);
    }
}

} // verus!
