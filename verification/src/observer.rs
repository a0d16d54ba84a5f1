//! The estimator state and its operations.

use vstd::prelude::*;

use crate::model::adjusted_size;
use crate::model::growth_cap;
use crate::model::raw_estimate;
use crate::model::sat_add;
use crate::model::step_report;
use crate::model::step_state;

verus! {

/// Exact rational bound on how much the checkpoint size may grow in a single
/// adjustment: the size after an adjustment is at most `num / den` times the
/// size before it.
#[derive(Clone, Copy, PartialEq, Eq, Structural, Debug)]
pub struct ScaleFactor {
    pub num: u64,
    pub den: u64,
}

impl ScaleFactor {
    /// A usable factor has a positive denominator and is at least one:
    /// a factor below one would forbid the estimate from ever standing still.
    pub open spec fn valid(self) -> bool {
        1 <= self.den <= self.num
    }

    /// The whole-number factor `factor / 1`.
    pub fn whole(factor: u64) -> (r: Self)
        ensures
            r == (ScaleFactor { num: factor, den: 1u64 }),
    {
        ScaleFactor { num: factor, den: 1 }
    }
}

/// The one way construction can fail.
#[derive(Clone, Copy, PartialEq, Eq, Structural, Debug)]
pub enum ObserverError {
    /// The configured scale factor is below one (or its denominator is zero).
    InvalidConfiguration,
}

/// Optional parameters for creating a new progress observer.
#[derive(Clone, Copy)]
pub struct Options {
    /// Number of ticks before sending the first report. Defaults to 1.
    pub first_checkpoint: u64,

    /// Hard ceiling on the number of ticks between observations, if any.
    pub max_checkpoint_size: Option<u64>,

    /// Ticks to absorb silently before timing begins (warm-up). Defaults to 0.
    pub delay: u64,

    /// Maximum factor by which the checkpoint size may grow in one
    /// adjustment. Defaults to 2. Construction rejects a factor below 1.
    pub max_scale_factor: ScaleFactor,

    /// Total run-duration cutoff in nanoseconds, if any. Once the elapsed
    /// time since the first observation exceeds it, the estimator marks
    /// itself finished.
    pub run_for: Option<u64>,
}

impl Options {
    /// The default options: first checkpoint after one tick, no ceiling, no
    /// warm-up, growth bounded by a factor of two, no cutoff.
    pub open spec fn spec_default() -> Options {
        Options {
            first_checkpoint: 1u64,
            max_checkpoint_size: None,
            delay: 0u64,
            max_scale_factor: ScaleFactor { num: 2u64, den: 1u64 },
            run_for: None,
        }
    }
}

impl Default for Options {
    fn default() -> (r: Self)
        ensures
            r == Options::spec_default(),
    {
        Options {
            first_checkpoint: 1,
            max_checkpoint_size: None,
            delay: 0,
            max_scale_factor: ScaleFactor { num: 2, den: 1 },
            run_for: None,
        }
    }
}

/// Regular progress update observer.
///
/// All timestamps (`last_observation`, `first_observation`) and durations
/// (`frequency_target`, `run_for`) are in nanoseconds, measured from an
/// arbitrary fixed origin chosen at construction.
#[derive(Clone, Copy)]
pub struct Observer {
    /// The moment the clock readings are measured from. Opaque; only the
    /// trusted clock wrappers touch it.
    pub origin: std::time::Instant,

    /// Desired wall-clock spacing between reports, in nanoseconds.
    pub frequency_target: u64,

    /// Current estimate of how many ticks span one `frequency_target`.
    pub checkpoint_size: u64,

    /// Hard ceiling on `checkpoint_size`, if configured.
    pub max_checkpoint_size: Option<u64>,

    /// Warm-up ticks still to be absorbed before timing begins.
    pub delay: u64,

    /// Upper bound on the growth of `checkpoint_size` per adjustment.
    pub max_scale_factor: ScaleFactor,

    /// Run-duration cutoff in nanoseconds, if configured.
    pub run_for: Option<u64>,

    /// Tick count at which the next clock read and possible report occurs.
    pub next_checkpoint: u64,

    /// Clock reading at the last report (or at warm-up completion).
    pub last_observation: u64,

    /// Clock reading when timing began; evaluates the `run_for` cutoff.
    pub first_observation: u64,

    /// Cumulative ticks observed since timing began.
    pub ticks: u64,

    /// Sticky terminal flag; the sequence form yields nothing once set.
    pub finished: bool,
}

impl Observer {
    /// The estimator is well-formed when its scale factor is usable. Every
    /// constructor establishes this and every tick preserves it.
    pub open spec fn wf(self) -> bool {
        self.max_scale_factor.valid()
    }

    /// What a freshly constructed estimator looks like: the configuration is
    /// taken over as given, the first checkpoint is scheduled, no ticks have
    /// been counted, and both observations sit at the clock origin.
    pub open spec fn initialized_from(self, frequency_target: u64, options: Options) -> bool {
        &&& self.frequency_target == frequency_target
        &&& self.checkpoint_size == options.first_checkpoint
        &&& self.max_checkpoint_size == options.max_checkpoint_size
        &&& self.delay == options.delay
        &&& self.max_scale_factor == options.max_scale_factor
        &&& self.run_for == options.run_for
        &&& self.next_checkpoint == options.first_checkpoint
        &&& self.last_observation == 0
        &&& self.first_observation == 0
        &&& self.ticks == 0
        &&& !self.finished
    }

    /// Create an `Observer` with the specified options.
    ///
    /// The target and the optional `run_for` cutoff are in nanoseconds.
    /// Fails exactly when the configured scale factor is below one (or has a
    /// zero denominator), which would let the estimate shrink on every
    /// adjustment no matter what the clock says.
    pub fn new_with(frequency_target: u64, options: Options) -> (r: Result<Observer, ObserverError>)
        ensures
            options.max_scale_factor.valid() ==> (r matches Ok(o)
                && o.initialized_from(frequency_target, options)),
            !options.max_scale_factor.valid() ==> r == Err::<Observer, ObserverError>(
                ObserverError::InvalidConfiguration,
            ),
    {
        if options.max_scale_factor.den < 1
            || options.max_scale_factor.num < options.max_scale_factor.den {
            return Err(ObserverError::InvalidConfiguration);
        }
        Ok(
            Observer {
                origin: crate::clock::clock_origin_now(),
                frequency_target,
                checkpoint_size: options.first_checkpoint,
                max_checkpoint_size: options.max_checkpoint_size,
                delay: options.delay,
                max_scale_factor: options.max_scale_factor,
                run_for: options.run_for,
                next_checkpoint: options.first_checkpoint,
                last_observation: 0,
                first_observation: 0,
                ticks: 0,
                finished: false,
            },
        )
    }

    /// Create an `Observer` with a specified starting checkpoint and
    /// otherwise default options.
    pub fn new_starting_at(frequency_target: u64, first_checkpoint: u64) -> (r: Observer)
        ensures
            r.initialized_from(
                frequency_target,
                (Options { first_checkpoint, ..Options::spec_default() }),
            ),
    {
        let options = Options { first_checkpoint, ..Options::default() };
        match Observer::new_with(frequency_target, options) {
            Ok(o) => o,
            Err(_) => vstd::pervasive::unreached(),
        }
    }

    /// Create a new `Observer` with the specified frequency target, in
    /// nanoseconds, and default options.
    pub fn new(frequency_target: u64) -> (r: Observer)
        ensures
            r.initialized_from(frequency_target, Options::spec_default()),
    {
        match Observer::new_with(frequency_target, Options::default()) {
            Ok(o) => o,
            Err(_) => vstd::pervasive::unreached(),
        }
    }

    /// Whether this estimator is well-formed. Unverified callers can test
    /// this before ticking an estimator they did not build through a
    /// constructor of this crate.
    pub fn is_wf(&self) -> (r: bool)
        ensures
            r == self.wf(),
    {
        1 <= self.max_scale_factor.den && self.max_scale_factor.den <= self.max_scale_factor.num
    }

    /// Tick the observer by `n` iterations at once, with an explicit clock
    /// reading `now` (nanoseconds from the estimator's origin). This is the
    /// whole estimator; [`Observer::tick_n`] merely supplies `now` from the
    /// monotonic clock.
    ///
    /// Returns true exactly when a report is due this call, and leaves the
    /// state exactly as [`step_state`] says.
    pub fn tick_n_at(&mut self, n: u64, now: u64) -> (report: bool)
        requires
            old(self).wf(),
        ensures
            *final(self) == step_state(*old(self), n, now),
            report == step_report(*old(self), n),
            final(self).wf(),
    {
        if n == 0 {
            return false;
        }
        let mut remaining: u64 = n;
        if self.delay > 0 {
            let used: u64 = if remaining < self.delay {
                remaining
            } else {
                self.delay
            };
            self.delay = self.delay - used;
            remaining = remaining - used;
            if self.delay > 0 {
                return false;
            }
            self.last_observation = now;
            self.first_observation = now;
        }
        self.ticks = self.ticks.saturating_add(remaining);
        if self.ticks < self.next_checkpoint {
            return false;
        }
        if let Some(run_for) = self.run_for {
            if now.saturating_sub(self.first_observation) > run_for {
                self.finished = true;
            }
        }
        let elapsed: u64 = now.saturating_sub(self.last_observation);
        let size: u64 = compute_size(
            self.checkpoint_size,
            self.frequency_target,
            elapsed,
            self.max_scale_factor,
            self.max_checkpoint_size,
        );
        self.checkpoint_size = size;
        self.next_checkpoint = self.next_checkpoint.saturating_add(size);
        self.last_observation = now;
        true
    }

    /// Tick the observer by `n` iterations at once, reading the monotonic
    /// clock only when it is needed.
    ///
    /// Whether this call completes the warm-up or reaches the next
    /// checkpoint is decided from the counters alone; only then is the
    /// clock read. On every other call nothing moves but the tick and delay
    /// counters, and the clock is not touched.
    ///
    /// Whether a report is due does not depend on the clock, so it is stated
    /// exactly; the state afterwards is [`step_state`] at whatever reading
    /// the clock gave (a reading of 0 stands in on the calls that need
    /// none, which the quiet paths of [`step_state`] ignore).
    pub fn tick_n(&mut self, n: u64) -> (report: bool)
        requires
            old(self).wf(),
        ensures
            report == step_report(*old(self), n),
            exists|now: u64| *final(self) == #[trigger] step_state(*old(self), n, now),
            final(self).wf(),
            final(self).next_checkpoint >= old(self).next_checkpoint,
            old(self).finished ==> final(self).finished,
            final(self).delay <= old(self).delay,
            final(self).ticks >= old(self).ticks,
            final(self).frequency_target == old(self).frequency_target,
            final(self).max_checkpoint_size == old(self).max_checkpoint_size,
            final(self).max_scale_factor == old(self).max_scale_factor,
            final(self).run_for == old(self).run_for,
            !report ==> final(self).next_checkpoint == old(self).next_checkpoint,
            report ==> final(self).next_checkpoint == sat_add(
                old(self).next_checkpoint,
                final(self).checkpoint_size,
            ),
            old(self).checkpoint_size >= 1 ==> final(self).checkpoint_size
                * old(self).max_scale_factor.den <= old(self).checkpoint_size
                * old(self).max_scale_factor.num,
            old(self).checkpoint_size >= 1 && (match old(self).max_checkpoint_size {
                Some(m) => m >= 1,
                None => true,
            }) ==> final(self).checkpoint_size >= 1,
            report ==> (old(self).max_checkpoint_size matches Some(m)
                ==> final(self).checkpoint_size <= m),
            1 <= n < old(self).delay ==> !report && *final(self) == (Observer {
                delay: (old(self).delay - n) as u64,
                ..*old(self)
            }),
            1 <= n && n == old(self).delay ==> final(self).ticks == old(self).ticks,
            1 <= n && n == old(self).delay && old(self).ticks < old(self).next_checkpoint
                ==> !report,
            1 <= old(self).delay <= n ==> final(self).delay == 0 && final(self).first_observation
                == final(self).last_observation,
            n >= 1 && old(self).delay == 0 && !report ==> *final(self) == (Observer {
                ticks: sat_add(old(self).ticks, n),
                ..*old(self)
            }),
            n == 0 ==> *final(self) == *old(self),
    {
        let completes_warmup: bool = self.delay > 0 && n >= self.delay;
        let due: bool = n > 0 && n >= self.delay && self.ticks.saturating_add(n - self.delay)
            >= self.next_checkpoint;
        proof {
            assert(completes_warmup == (1 <= old(self).delay <= n));
            assert(due == step_report(*old(self), n));
        }
        let now: u64 = if completes_warmup || due {
            crate::clock::nanos_since(&self.origin)
        } else {
            0
        };
        let report: bool = self.tick_n_at(n, now);
        proof {
            crate::laws::lemma_next_checkpoint_monotone(*old(self), n, now);
            crate::laws::lemma_finished_monotone(*old(self), n, now);
            crate::laws::lemma_config_preserved(*old(self), n, now);
            crate::laws::lemma_delay_absorption(*old(self), n, now);
            crate::laws::lemma_ceiling_respected(*old(self), n, now);
            if old(self).checkpoint_size >= 1 {
                crate::laws::lemma_scale_factor_bound(*old(self), n, now);
                if match old(self).max_checkpoint_size {
                    Some(m) => m >= 1,
                    None => true,
                } {
                    crate::laws::lemma_checkpoint_floor(*old(self), n, now);
                }
            }
        }
        report
    }

    /// Tick the observer by one iteration. Returns true every time a
    /// progress update is due; the monotonic clock is read only on the
    /// calls that complete the warm-up or reach the next checkpoint.
    pub fn tick(&mut self) -> (report: bool)
        requires
            old(self).wf(),
        ensures
            report == step_report(*old(self), 1),
            exists|now: u64| *final(self) == #[trigger] step_state(*old(self), 1, now),
            final(self).wf(),
            final(self).next_checkpoint >= old(self).next_checkpoint,
            old(self).finished ==> final(self).finished,
            final(self).delay <= old(self).delay,
            final(self).ticks >= old(self).ticks,
            final(self).frequency_target == old(self).frequency_target,
            final(self).max_checkpoint_size == old(self).max_checkpoint_size,
            final(self).max_scale_factor == old(self).max_scale_factor,
            final(self).run_for == old(self).run_for,
            !report ==> final(self).next_checkpoint == old(self).next_checkpoint,
            report ==> final(self).next_checkpoint == sat_add(
                old(self).next_checkpoint,
                final(self).checkpoint_size,
            ),
            old(self).checkpoint_size >= 1 ==> final(self).checkpoint_size
                * old(self).max_scale_factor.den <= old(self).checkpoint_size
                * old(self).max_scale_factor.num,
            old(self).checkpoint_size >= 1 && (match old(self).max_checkpoint_size {
                Some(m) => m >= 1,
                None => true,
            }) ==> final(self).checkpoint_size >= 1,
            report ==> (old(self).max_checkpoint_size matches Some(m)
                ==> final(self).checkpoint_size <= m),
            old(self).delay > 1 ==> !report && *final(self) == (Observer {
                delay: (old(self).delay - 1) as u64,
                ..*old(self)
            }),
            old(self).delay == 1 ==> final(self).ticks == old(self).ticks && final(self).delay
                == 0 && final(self).first_observation == final(self).last_observation,
            old(self).delay == 1 && old(self).ticks < old(self).next_checkpoint ==> !report,
            old(self).delay == 0 && !report ==> *final(self) == (Observer {
                ticks: sat_add(old(self).ticks, 1),
                ..*old(self)
            }),
    {
        self.tick_n(1)
    }

    /// The sequence form of the estimator, against the monotonic clock: one
    /// tick per pull, exhausted once `finished` is set.
    pub fn next(&mut self) -> (r: Option<bool>)
        requires
            old(self).wf(),
        ensures
            old(self).finished ==> r is None && *final(self) == *old(self),
            !old(self).finished ==> (r matches Some(report)
                && report == step_report(*old(self), 1)
                && (exists|now: u64| *final(self) == #[trigger] step_state(*old(self), 1, now))),
            final(self).wf(),
            final(self).next_checkpoint >= old(self).next_checkpoint,
            old(self).finished ==> final(self).finished,
            final(self).delay <= old(self).delay,
            final(self).ticks >= old(self).ticks,
    {
        if self.finished {
            None
        } else {
            Some(self.tick())
        }
    }

    /// The sequence form with an explicit clock reading: one tick per pull,
    /// exhausted once `finished` is set.
    pub fn next_at(&mut self, now: u64) -> (r: Option<bool>)
        requires
            old(self).wf(),
        ensures
            old(self).finished ==> r is None && *final(self) == *old(self),
            !old(self).finished ==> (r matches Some(report)
                && report == step_report(*old(self), 1)
                && *final(self) == step_state(*old(self), 1, now)),
            final(self).wf(),
    {
        if self.finished {
            None
        } else {
            Some(self.tick_n_at(1, now))
        }
    }
}

/// The executable form of [`adjusted_size`]: the intermediate products of two
/// `u64` values are carried in `u128`, where they cannot overflow.
fn compute_size(
    size: u64,
    target: u64,
    elapsed: u64,
    factor: ScaleFactor,
    ceiling: Option<u64>,
) -> (r: u64)
    requires
        factor.valid(),
    ensures
        r == adjusted_size(size, target, elapsed, factor, ceiling),
{
    proof {
        vstd::arithmetic::mul::lemma_mul_upper_bound(
            size as int,
            u64::MAX as int,
            factor.num as int,
            u64::MAX as int,
        );
        vstd::arithmetic::mul::lemma_mul_upper_bound(
            size as int,
            u64::MAX as int,
            target as int,
            u64::MAX as int,
        );
    }
    let cap: u128 = (size as u128) * (factor.num as u128) / (factor.den as u128);
    assert(cap == growth_cap(size, factor));
    let base: u128 = if elapsed == 0 {
        cap
    } else {
        let raw: u128 = (size as u128) * (target as u128) / (elapsed as u128);
        assert(raw == raw_estimate(size, target, elapsed));
        if raw < cap {
            raw
        } else {
            cap
        }
    };
    let floored: u128 = if base < 1 {
        1
    } else {
        base
    };
    let bounded: u64 = if floored > (u64::MAX as u128) {
        u64::MAX
    } else {
        floored as u64
    };
    match ceiling {
        Some(m) => {
            if bounded > m {
                m
            } else {
                bounded
            }
        },
        None => bounded,
    }
}

} // verus!
