//! The general laws of the estimator, proved once about the model in
//! [`crate::model`].
//!
//! Every tick method ensures that the new state is `step_state` of the old
//! one (for some clock reading, where the method reads the clock itself), so
//! each law below holds across any sequence of tick calls on any estimator.

use vstd::prelude::*;

use vstd::arithmetic::div_mod::lemma_div_by_self;
use vstd::arithmetic::div_mod::lemma_div_is_ordered;
use vstd::arithmetic::div_mod::lemma_fundamental_div_mod;
use vstd::arithmetic::div_mod::lemma_mod_bound;
use vstd::arithmetic::mul::lemma_mul_inequality;
use vstd::arithmetic::mul::lemma_mul_is_commutative;

use crate::model::adjusted_size;
use crate::model::any_unit_report;
use crate::model::growth_cap;
use crate::model::run_steps;
use crate::model::run_steps_of_units;
use crate::model::sat_add;
use crate::model::sat_sub;
use crate::model::step_report;
use crate::model::step_state;
use crate::observer::Observer;
use crate::observer::ScaleFactor;

verus! {

/// Bounds on one adjustment of the checkpoint size: the result fits in
/// `u64`, respects the configured ceiling, stays at least one as long as the
/// ceiling (if any) does, and grows by at most the configured factor.
proof fn lemma_adjusted_size_bounds(
    size: u64,
    target: u64,
    elapsed: u64,
    factor: ScaleFactor,
    ceiling: Option<u64>,
)
    ensures
        0 <= adjusted_size(size, target, elapsed, factor, ceiling) <= u64::MAX,
        ceiling is None ==> adjusted_size(size, target, elapsed, factor, ceiling) >= 1,
        ceiling matches Some(m) ==> adjusted_size(size, target, elapsed, factor, ceiling) <= m,
        ceiling matches Some(m) && m >= 1 ==> adjusted_size(size, target, elapsed, factor, ceiling)
            >= 1,
        factor.valid() && size >= 1 ==> adjusted_size(size, target, elapsed, factor, ceiling)
            <= growth_cap(size, factor),
        factor.valid() && size >= 1 ==> adjusted_size(size, target, elapsed, factor, ceiling)
            * factor.den <= size * factor.num,
{
    if factor.valid() && size >= 1 {
        let num = factor.num as int;
        let den = factor.den as int;
        let cap = growth_cap(size, factor);
        lemma_mul_inequality(1, size as int, num);
        assert(den <= size * num);
        lemma_div_is_ordered(den, size * num, den);
        lemma_div_by_self(den);
        assert(cap >= 1);
        lemma_fundamental_div_mod(size * num, den);
        lemma_mod_bound(size * num, den);
        lemma_mul_is_commutative(den, cap);
        assert(cap * den <= size * num);
        let adjusted = adjusted_size(size, target, elapsed, factor, ceiling);
        assert(adjusted <= cap);
        lemma_mul_inequality(adjusted, cap, den);
    }
}

/// **Monotonic next checkpoint.** Over any tick call, `next_checkpoint`
/// never decreases; it moves exactly when a report is due, and then by
/// exactly the checkpoint size computed at that step (saturating only at the
/// top of the `u64` range).
pub proof fn lemma_next_checkpoint_monotone(o: Observer, n: u64, now: u64)
    ensures
        step_state(o, n, now).next_checkpoint >= o.next_checkpoint,
        !step_report(o, n) ==> step_state(o, n, now).next_checkpoint == o.next_checkpoint,
        step_report(o, n) ==> step_state(o, n, now).next_checkpoint == sat_add(
            o.next_checkpoint,
            step_state(o, n, now).checkpoint_size,
        ),
        step_report(o, n) && o.next_checkpoint + step_state(o, n, now).checkpoint_size
            <= u64::MAX ==> step_state(o, n, now).next_checkpoint == o.next_checkpoint
            + step_state(o, n, now).checkpoint_size,
{
}

/// **Checkpoint floor.** As long as the configured ceiling (if any) is at
/// least one, the checkpoint size stays at least one over any tick call —
/// even when the computed elapsed time is so large that the raw estimate
/// rounds down to zero.
pub proof fn lemma_checkpoint_floor(o: Observer, n: u64, now: u64)
    requires
        o.checkpoint_size >= 1,
        o.max_checkpoint_size matches Some(m) ==> m >= 1,
    ensures
        step_state(o, n, now).checkpoint_size >= 1,
{
    lemma_adjusted_size_bounds(
        o.checkpoint_size,
        o.frequency_target,
        sat_sub(now, o.last_observation),
        o.max_scale_factor,
        o.max_checkpoint_size,
    );
}

/// **Ceiling respected.** With a ceiling of `m` configured, every adjustment
/// yields a checkpoint size of at most `m`, and `next_checkpoint` advances by
/// at most `m` per tick call, so no checkpoint interval scheduled by an
/// adjustment ever exceeds `m` ticks.
pub proof fn lemma_ceiling_respected(o: Observer, n: u64, now: u64)
    ensures
        step_report(o, n) ==> (o.max_checkpoint_size matches Some(m) ==> step_state(
            o,
            n,
            now,
        ).checkpoint_size <= m),
        o.max_checkpoint_size matches Some(m) ==> step_state(o, n, now).next_checkpoint
            <= o.next_checkpoint + m,
{
    lemma_adjusted_size_bounds(
        o.checkpoint_size,
        o.frequency_target,
        sat_sub(now, o.last_observation),
        o.max_scale_factor,
        o.max_checkpoint_size,
    );
}

/// **Scale-factor bound.** Over any single tick call of a well-formed
/// estimator, the checkpoint size grows by at most the configured factor:
/// the new size times the factor's denominator is at most the old size times
/// its numerator.
pub proof fn lemma_scale_factor_bound(o: Observer, n: u64, now: u64)
    requires
        o.wf(),
        o.checkpoint_size >= 1,
    ensures
        step_state(o, n, now).checkpoint_size * o.max_scale_factor.den <= o.checkpoint_size
            * o.max_scale_factor.num,
{
    lemma_adjusted_size_bounds(
        o.checkpoint_size,
        o.frequency_target,
        sat_sub(now, o.last_observation),
        o.max_scale_factor,
        o.max_checkpoint_size,
    );
    lemma_adjusted_size_bounds(
        o.checkpoint_size,
        o.frequency_target,
        sat_sub(now, now),
        o.max_scale_factor,
        o.max_checkpoint_size,
    );
    if !step_report(o, n) || step_state(o, n, now).checkpoint_size == o.checkpoint_size {
        lemma_mul_inequality(
            o.max_scale_factor.den as int,
            o.max_scale_factor.num as int,
            o.checkpoint_size as int,
        );
        lemma_mul_is_commutative(o.max_scale_factor.den as int, o.checkpoint_size as int);
        lemma_mul_is_commutative(o.max_scale_factor.num as int, o.checkpoint_size as int);
    }
}

/// **Monotonicity over whole runs.** Over any sequence of tick calls,
/// `next_checkpoint` never decreases and `finished`, once set, stays set.
pub proof fn lemma_run_monotone(o: Observer, calls: Seq<(u64, u64)>)
    ensures
        run_steps(o, calls).next_checkpoint >= o.next_checkpoint,
        o.finished ==> run_steps(o, calls).finished,
    decreases calls.len(),
{
    if calls.len() > 0 {
        lemma_next_checkpoint_monotone(o, calls[0].0, calls[0].1);
        lemma_finished_monotone(o, calls[0].0, calls[0].1);
        lemma_run_monotone(step_state(o, calls[0].0, calls[0].1), calls.drop_first());
    }
}

/// **Delay absorption.** While more warm-up ticks remain than the increment
/// covers, a tick call reports nothing and does nothing but shrink the
/// remaining delay; the call that consumes the last warm-up tick restarts
/// timing at the clock reading of that very call, with the tick count
/// untouched, and reports nothing unless the counted ticks had already
/// reached the next checkpoint.
pub proof fn lemma_delay_absorption(o: Observer, n: u64, now: u64)
    ensures
        1 <= n < o.delay ==> !step_report(o, n) && step_state(o, n, now) == (Observer {
            delay: (o.delay - n) as u64,
            ..o
        }),
        1 <= n && n == o.delay ==> step_state(o, n, now).delay == 0 && step_state(
            o,
            n,
            now,
        ).first_observation == now && step_state(o, n, now).last_observation == now && step_state(
            o,
            n,
            now,
        ).ticks == o.ticks,
        1 <= n && n == o.delay && o.ticks < o.next_checkpoint ==> !step_report(o, n),
{
}

/// **Delay absorption over whole runs.** On an estimator whose counted ticks
/// have not reached the next checkpoint, any sequence of up to `delay`
/// one-tick calls reports nothing at all, and leaves the tick count and the
/// schedule untouched: warm-up ticks are absorbed silently, one per call.
pub proof fn lemma_delay_absorbs_unit_calls(o: Observer, nows: Seq<u64>)
    requires
        nows.len() <= o.delay,
        o.ticks < o.next_checkpoint,
    ensures
        !any_unit_report(o, nows),
        run_steps_of_units(o, nows).delay == o.delay - nows.len(),
        run_steps_of_units(o, nows).ticks == o.ticks,
        run_steps_of_units(o, nows).next_checkpoint == o.next_checkpoint,
    decreases nows.len(),
{
    if nows.len() > 0 {
        lemma_delay_absorption(o, 1, nows[0]);
        lemma_delay_absorbs_unit_calls(step_state(o, 1, nows[0]), nows.drop_first());
    }
}

/// **Quiet calls never consult the clock.** A call that neither completes
/// the warm-up nor reaches the next checkpoint leaves the same state for
/// every clock reading — only the tick and delay counters move — so the
/// tick methods need not (and do not) read the clock on such a call.
pub proof fn lemma_quiet_call_ignores_clock(o: Observer, n: u64, t1: u64, t2: u64)
    ensures
        !step_report(o, n) && !(1 <= o.delay <= n) ==> step_state(o, n, t1) == step_state(
            o,
            n,
            t2,
        ),
{
}

/// **Finished is sticky.** Once the estimator is finished, every later state
/// is finished too; and `delay` never grows, so warm-up ends exactly once.
pub proof fn lemma_finished_monotone(o: Observer, n: u64, now: u64)
    ensures
        o.finished ==> step_state(o, n, now).finished,
        step_state(o, n, now).delay <= o.delay,
{
}

/// **Run-for cutoff.** When a report is due past the warm-up and the elapsed
/// time since the first observation exceeds the configured cutoff, the step
/// marks the estimator finished — and only a step with a report due can set
/// the flag at all (the cutoff is evaluated at checkpoint granularity, never
/// between checkpoints).
pub proof fn lemma_run_for_cutoff(o: Observer, n: u64, now: u64)
    ensures
        o.delay == 0 && step_report(o, n) && (o.run_for matches Some(r) && sat_sub(
            now,
            o.first_observation,
        ) > r) ==> step_state(o, n, now).finished,
        !o.finished && !step_report(o, n) ==> !step_state(o, n, now).finished,
{
}

/// **The configuration is immutable.** No tick call changes the target
/// interval, the ceiling, the scale factor, the cutoff or the clock origin;
/// and the counted ticks never decrease.
pub proof fn lemma_config_preserved(o: Observer, n: u64, now: u64)
    ensures
        step_state(o, n, now).frequency_target == o.frequency_target,
        step_state(o, n, now).max_checkpoint_size == o.max_checkpoint_size,
        step_state(o, n, now).max_scale_factor == o.max_scale_factor,
        step_state(o, n, now).run_for == o.run_for,
        step_state(o, n, now).origin == o.origin,
        step_state(o, n, now).ticks >= o.ticks,
{
}

} // verus!
