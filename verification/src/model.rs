//! The mathematical model of one tick call.
//!
//! `step_state` and `step_report` say, as pure functions of the estimator
//! state, the tick increment and the clock reading, exactly what a call to
//! [`Observer::tick_n_at`](crate::observer::Observer::tick_n_at) does. The
//! executable methods are proved equal to them, and the general laws in
//! [`crate::laws`] are proved about them.

use vstd::prelude::*;

use crate::observer::Observer;
use crate::observer::ScaleFactor;

verus! {

/// The smaller of two integers.
pub open spec fn imin(a: int, b: int) -> int {
    if a <= b {
        a
    } else {
        b
    }
}

/// The larger of two integers.
pub open spec fn imax(a: int, b: int) -> int {
    if a >= b {
        a
    } else {
        b
    }
}

/// `u64` addition that sticks at `u64::MAX` instead of overflowing.
pub open spec fn sat_add(a: u64, b: u64) -> u64 {
    if a + b > u64::MAX {
        u64::MAX
    } else {
        (a + b) as u64
    }
}

/// `u64` subtraction that sticks at zero instead of underflowing.
pub open spec fn sat_sub(a: u64, b: u64) -> u64 {
    if a >= b {
        (a - b) as u64
    } else {
        0
    }
}

/// The most the checkpoint size may become in one adjustment: the current
/// size scaled by the configured factor, rounded down.
pub open spec fn growth_cap(size: u64, factor: ScaleFactor) -> int {
    (size * factor.num) / (factor.den as int)
}

/// The raw new estimate when the last window took `elapsed` nanoseconds
/// against a target of `target` nanoseconds: the current size divided by the
/// ratio `elapsed / target`, rounded down. Meaningful only for `elapsed > 0`.
pub open spec fn raw_estimate(size: u64, target: u64, elapsed: u64) -> int {
    (size * target) / (elapsed as int)
}

/// The checkpoint size after one adjustment.
///
/// The raw estimate is capped by the growth bound (a window of zero elapsed
/// time, whose raw estimate would be unbounded, grows straight to the cap),
/// floored at one, truncated to the `u64` range, and finally clamped to the
/// configured ceiling, if any.
pub open spec fn adjusted_size(
    size: u64,
    target: u64,
    elapsed: u64,
    factor: ScaleFactor,
    ceiling: Option<u64>,
) -> int {
    let cap = growth_cap(size, factor);
    let base = if elapsed == 0 {
        cap
    } else {
        imin(raw_estimate(size, target, elapsed), cap)
    };
    let floored = imax(base, 1);
    let bounded = imin(floored, u64::MAX as int);
    match ceiling {
        Some(m) => imin(bounded, m as int),
        None => bounded,
    }
}

/// Whether a clock reading of `now` at a checkpoint crosses the run-duration
/// cutoff, if one is configured.
pub open spec fn cutoff_crossed(o: Observer, now: u64) -> bool {
    match o.run_for {
        Some(r) => sat_sub(now, o.first_observation) > r,
        None => false,
    }
}

/// The state after the post-warm-up part of a tick call: `n` ticks are
/// counted, and if that reaches the next checkpoint, the cutoff is evaluated,
/// the checkpoint size is re-estimated from the elapsed time since the last
/// observation, and the next checkpoint is scheduled.
pub open spec fn step_measure(o: Observer, n: u64, now: u64) -> Observer {
    let counted = sat_add(o.ticks, n);
    if counted < o.next_checkpoint {
        Observer { ticks: counted, ..o }
    } else {
        let size = adjusted_size(
            o.checkpoint_size,
            o.frequency_target,
            sat_sub(now, o.last_observation),
            o.max_scale_factor,
            o.max_checkpoint_size,
        ) as u64;
        Observer {
            ticks: counted,
            finished: o.finished || cutoff_crossed(o, now),
            checkpoint_size: size,
            next_checkpoint: sat_add(o.next_checkpoint, size),
            last_observation: now,
            ..o
        }
    }
}

/// The state after one tick call of `n` ticks with clock reading `now`.
///
/// A call with `n == 0` is a no-op. While warm-up ticks remain, they absorb
/// the increment first; the call that brings the warm-up to zero restarts
/// timing at `now`, and any remainder of the increment is then counted.
pub open spec fn step_state(o: Observer, n: u64, now: u64) -> Observer {
    if n == 0 {
        o
    } else if o.delay > n {
        Observer { delay: (o.delay - n) as u64, ..o }
    } else if o.delay > 0 {
        let warmed = Observer {
            delay: 0u64,
            last_observation: now,
            first_observation: now,
            ..o
        };
        step_measure(warmed, (n - o.delay) as u64, now)
    } else {
        step_measure(o, n, now)
    }
}

/// The state after a whole sequence of tick calls, each a pair of a tick
/// increment and the clock reading of that call.
pub open spec fn run_steps(o: Observer, calls: Seq<(u64, u64)>) -> Observer
    decreases calls.len(),
{
    if calls.len() == 0 {
        o
    } else {
        run_steps(step_state(o, calls[0].0, calls[0].1), calls.drop_first())
    }
}

/// The state after a sequence of one-tick calls at the given clock readings.
pub open spec fn run_steps_of_units(o: Observer, nows: Seq<u64>) -> Observer
    decreases nows.len(),
{
    if nows.len() == 0 {
        o
    } else {
        run_steps_of_units(step_state(o, 1, nows[0]), nows.drop_first())
    }
}

/// Whether any call in a sequence of one-tick calls, made at the given clock
/// readings, reports that an update is due.
pub open spec fn any_unit_report(o: Observer, nows: Seq<u64>) -> bool
    decreases nows.len(),
{
    if nows.len() == 0 {
        false
    } else {
        step_report(o, 1) || any_unit_report(step_state(o, 1, nows[0]), nows.drop_first())
    }
}

/// Whether one tick call of `n` ticks reports that an update is due. This
/// does not depend on the clock: a report is due exactly when the increment
/// outlasts the remaining warm-up and the counted ticks reach the next
/// checkpoint.
pub open spec fn step_report(o: Observer, n: u64) -> bool {
    if n == 0 || o.delay > n {
        false
    } else {
        sat_add(o.ticks, (n - o.delay) as u64) >= o.next_checkpoint
    }
}

} // verus!
