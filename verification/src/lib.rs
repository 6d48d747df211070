//! An additive tween engine for reactive values.
//!
//! A value whose target changes over time is displayed as a smoothly moving
//! output: the settled target plus a sum of independently decaying deltas, one
//! per in-flight animation, so that retargeting a running animation never
//! produces a visible jump. The engine is pure: every function takes the
//! current time as an argument and exchanges plain values with its host, which
//! supplies the "request next frame" / "frame delivered" callbacks.
//!
//! Values are fixed-point integers of type `i64`; timestamps and durations are
//! milliseconds. Animation progress runs from `0` to [`PROGRESS_SCALE`].

use vstd::prelude::*;

mod math;
pub mod animated;
pub mod blend;
pub mod clock;
pub mod easing;
pub mod scheduler;
pub mod status;
pub mod target;

verus! {

/// Fixed-point scale for animation progress and easing results: a progress of
/// `PROGRESS_SCALE` stands for 1.0 (animation complete).
pub const PROGRESS_SCALE: u64 = 1_000_000;

/// Largest magnitude an animated value may have. The bound keeps every step of
/// the fixed-point blend arithmetic inside `i64`.
pub const VALUE_LIMIT: i64 = 1_000_000_000;

/// Longest allowed animation duration, in milliseconds (about 115 days). The
/// bound keeps the progress computation `elapsed * PROGRESS_SCALE` inside
/// `u64`.
pub const MAX_DURATION_MS: u64 = 10_000_000_000;

/// Largest number of simultaneously running animations per animated value.
/// The bound keeps the additive blend's running sum inside `i64`.
pub const MAX_QUEUE_LEN: usize = 16_777_216;

} // verus!
