//! The engine's clock: monotone millisecond timestamps for one animation
//! domain, measured from the moment the domain was set up.
//!
//! The host's clock is sampled through trusted wrappers; everything the engine
//! relies on — that timestamps never run backwards — is enforced by verified
//! code around them.

use vstd::prelude::*;

verus! {

/// A moment on the host's clock. Opaque: the engine only ever measures the
/// distance between two of them.
#[verifier::external_type_specification]
#[verifier::external_body]
pub struct ExInstant(instant::Instant);

/// Relies on `instant::Instant::now`: a moment on the host's monotonic clock.
/// Nothing is promised of it — when it lies relative to other samples is the
/// host's affair; [`Clock`] makes the readings monotone itself.
#[verifier::external_body]
fn instant_now() -> instant::Instant {
    instant::Instant::now()
}

/// Relies on `instant::Instant::duration_since` (the time from `earlier` to
/// `later`, zero when `earlier` is the later of the two) and
/// `Duration::as_millis`, truncated to `u64`. Nothing is promised of the
/// result: it depends on when the two moments were sampled.
#[verifier::external_body]
fn millis_between(earlier: &instant::Instant, later: &instant::Instant) -> u64 {
    later.duration_since(*earlier).as_millis() as u64
}

/// A millisecond clock for one animation domain. Readings start at zero and
/// never run backwards, which is all the state machine asks of its `now`
/// arguments.
pub struct Clock {
    origin: instant::Instant,
    last: u64,
}

impl Clock {
    /// The most recent reading.
    pub closed spec fn last_ms(&self) -> u64 {
        self.last
    }

    /// A clock reading zero now.
    pub fn new() -> (c: Clock)
        ensures
            c.last_ms() == 0,
    {
        Clock { origin: instant_now(), last: 0 }
    }

    /// The milliseconds elapsed since the clock was created, no earlier than
    /// any previous reading.
    pub fn now_ms(&mut self) -> (r: u64)
        ensures
            r == final(self).last_ms(),
            r >= old(self).last_ms(),
    {
        let t = instant_now();
        let ms = millis_between(&self.origin, &t);
        if ms > self.last {
            self.last = ms;
        }
        self.last
    }
}

} // verus!
