//! Animation targets: the transient events that retarget an animated value.

use crate::easing::Easing;
use crate::{MAX_DURATION_MS, VALUE_LIMIT};
use vstd::prelude::*;

verus! {

/// How a new target interacts with the animations already running on a value.
#[derive(Clone, Copy, Debug, PartialEq, Eq, Structural)]
pub enum AnimationMode {
    /// Always layer a new animation on top of the already running ones, so
    /// rapid successive target changes compose additively.
    Start,
    /// Retarget the most recently started animation in place, or start a new
    /// animation if none is running.
    ReplaceOrStart,
    /// Retarget the most recently started animation in place, or snap directly
    /// to the target if none is running.
    ReplaceOrSnap,
    /// Discard all motion and adopt the target on the next tick.
    Snap,
}

/// Duration used when a conversion leaves it unspecified: half a second.
pub const DEFAULT_DURATION_MS: u64 = 500;

/// A target value for an animated value to ease towards, together with how to
/// get there. Consumed immediately on arrival.
#[derive(Clone, Copy, Debug, PartialEq, Eq, Structural)]
pub struct AnimationTarget {
    /// The final value to animate towards.
    pub target: i64,
    /// How long the animation plays, in milliseconds.
    pub duration: u64,
    /// The easing curve applied over the animation's lifetime.
    pub easing: Easing,
    /// How this target interacts with already running animations.
    pub mode: AnimationMode,
}

/// A target the engine accepts: the value within the fixed-point range, the
/// duration within the supported range.
pub open spec fn target_wf(t: AnimationTarget) -> bool {
    &&& -VALUE_LIMIT <= t.target <= VALUE_LIMIT
    &&& t.duration <= MAX_DURATION_MS
}

/// The target a bare value converts to: every unspecified field takes its
/// default (duration half a second, easing sine-out, mode `Start`).
pub open spec fn target_from_value_spec(target: i64) -> AnimationTarget {
    AnimationTarget {
        target,
        duration: DEFAULT_DURATION_MS,
        easing: Easing::SineOut,
        mode: AnimationMode::Start,
    }
}

impl From<i64> for AnimationTarget {
    /// A bare target value with all animation options defaulted.
    fn from(target: i64) -> (t: AnimationTarget) {
        AnimationTarget {
            target,
            duration: DEFAULT_DURATION_MS,
            easing: Easing::SineOut,
            mode: AnimationMode::Start,
        }
    }
}

impl vstd::std_specs::convert::FromSpecImpl<i64> for AnimationTarget {
    open spec fn obeys_from_spec() -> bool {
        true
    }

    open spec fn from_spec(target: i64) -> AnimationTarget {
        target_from_value_spec(target)
    }
}

impl From<(i64, u64)> for AnimationTarget {
    /// A target value with a duration in milliseconds; easing and mode take
    /// their defaults.
    fn from(pair: (i64, u64)) -> (t: AnimationTarget) {
        AnimationTarget {
            target: pair.0,
            duration: pair.1,
            easing: Easing::SineOut,
            mode: AnimationMode::Start,
        }
    }
}

impl vstd::std_specs::convert::FromSpecImpl<(i64, u64)> for AnimationTarget {
    open spec fn obeys_from_spec() -> bool {
        true
    }

    open spec fn from_spec(pair: (i64, u64)) -> AnimationTarget {
        AnimationTarget {
            target: pair.0,
            duration: pair.1,
            easing: Easing::SineOut,
            mode: AnimationMode::Start,
        }
    }
}

} // verus!
