//! An adaptive throttle for progress reporting in long-running, single-threaded
//! loops.
//!
//! Instead of reading the system clock on every iteration, the [`Observer`]
//! keeps an estimate of how many ticks span one target reporting interval and
//! reads the clock only when that many ticks have passed (or when a warm-up
//! delay ends). After each clock read it rescales the estimate from the
//! observed elapsed time, so reports settle near the requested spacing while
//! steady-state work per tick stays at a few integer comparisons, with one
//! clock read per report.
//!
//! All durations are plain integers in nanoseconds, and the adjustment
//! arithmetic is exact integer arithmetic, so the whole update rule is stated
//! and proved as a mathematical function of the estimator state and the clock
//! reading.

mod clock;
pub mod laws;
pub mod model;
mod observer;

pub use observer::Observer;
pub use observer::ObserverError;
pub use observer::Options;
pub use observer::ScaleFactor;
