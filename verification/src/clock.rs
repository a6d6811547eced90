//! A monotonic clock, read in nanoseconds.

use vstd::prelude::*;
use web_time::Instant;

verus! {

/// `web_time::Instant`: a moment on the monotonic clock. The type is opaque
/// here; a moment is only carried along and handed back to the outside
/// functions.
#[verifier::external_type_specification]
#[verifier::external_body]
pub struct ExInstant(Instant);

/// `web_time::Instant::now`: the present moment on the monotonic clock.
/// Nothing is claimed of the moment that comes back. In a browser the clock
/// is the `Performance` object of the context; in a context that has none
/// the outside function fails, and no argument decides that.
#[verifier::external_body]
fn instant_now() -> Instant {
    Instant::now()
}

/// `web_time::Instant::elapsed`: the time that has passed since `origin`, in
/// whole nanoseconds. Nothing is claimed of the reading: it depends on when
/// the call is made. The outside function reads the clock as
/// `web_time::Instant::now` does.
#[verifier::external_body]
fn nanos_since(origin: &Instant) -> u128 {
    origin.elapsed().as_nanos()
}

/// A clock that counts the nanoseconds since it was started.
pub struct Clock {
    origin: Instant,
}

impl Clock {
    /// Starts a clock at the present moment.
    pub fn start() -> Clock {
        Clock { origin: instant_now() }
    }

    /// The moment at which this clock was started.
    pub closed spec fn spec_origin(&self) -> Instant {
        self.origin
    }

    /// The moment at which this clock was started.
    pub fn origin(&self) -> (origin: Instant)
        ensures
            origin == self.spec_origin(),
    {
        self.origin
    }

    /// The nanoseconds that have passed since the clock was started. Readings
    /// depend on the time of the call; callers that decide on a reading take
    /// it as an argument.
    pub fn now(&self) -> u128 {
        nanos_since(&self.origin)
    }
}

} // verus!
