//! The termination signal: a cancellation flag shared with the controller,
//! and a deadline on the monotonic clock that belongs to one run.

use crate::clock::Clock;
use std::sync::atomic::AtomicU32;
use std::sync::atomic::Ordering;
use vstd::prelude::*;

verus! {

/// A boolean flag in one naturally aligned 32-bit atomic word, so that a
/// controller in another execution context can write it in place. Zero is
/// `false`, any other value is `true`. Reads and writes are atomic and always
/// relaxed: the two sides never mix orderings.
pub struct AlignedAtomicBool(AtomicU32);

impl AlignedAtomicBool {
    pub fn new(val: bool) -> Self {
        AlignedAtomicBool(AtomicU32::new(if val { 1 } else { 0 }))
    }

    /// The flag as it is now. Another context may write the flag at any time,
    /// so nothing is known of the value read.
    pub fn load(&self) -> bool {
        self.0.load(Ordering::Relaxed) != 0
    }

    pub fn store(&self, val: bool) {
        self.0.store(if val { 1 } else { 0 }, Ordering::Relaxed);
    }
}

/// A deadline: the clock reading at which it was armed and the time allowed
/// from then on, both in nanoseconds.
#[derive(Clone, Copy, Debug, PartialEq, Eq, Structural)]
pub struct Deadline {
    pub armed_at: u128,
    pub timeout: u128,
}

impl Deadline {
    /// The clock reading at which the time allowed runs out.
    pub open spec fn instant(self) -> int {
        self.armed_at + self.timeout
    }

    /// Whether the clock reading `now` lies after the deadline.
    pub fn has_passed(&self, now: u128) -> (passed: bool)
        ensures
            passed == (now > self.instant()),
    {
        now > self.armed_at && now - self.armed_at > self.timeout
    }
}

/// The termination signal as the rules see it: the cancellation flag and the
/// clock reading after which the run is over, if a deadline is armed.
pub struct TerminationState {
    pub flag: bool,
    pub deadline: Option<int>,
}

impl TerminationState {
    /// The signal before anything was armed or cancelled.
    pub open spec fn initial() -> TerminationState {
        TerminationState { flag: false, deadline: None }
    }

    /// Arming at clock reading `now` clears the flag and sets the deadline
    /// `timeout` later.
    pub open spec fn arm(self, now: int, timeout: int) -> TerminationState {
        TerminationState { flag: false, deadline: Some(now + timeout) }
    }

    /// A request to cancel raises the flag and leaves the deadline alone.
    pub open spec fn request_cancel(self) -> TerminationState {
        TerminationState { flag: true, deadline: self.deadline }
    }

    /// Whether a run that polls at clock reading `now` has to stop: the flag
    /// is raised, or the deadline lies before `now`.
    pub open spec fn poll(self, now: int) -> bool {
        self.flag || match self.deadline {
            Some(deadline) => now > deadline,
            None => false,
        }
    }
}

/// The deadline as a clock reading.
pub open spec fn deadline_instant(deadline: Option<Deadline>) -> Option<int> {
    match deadline {
        Some(d) => Some(d.instant()),
        None => None,
    }
}

/// The decision of a poll: the run stops when the flag was seen raised or
/// the clock reading `now` lies after the deadline.
pub fn should_stop(flag: bool, deadline: Option<Deadline>, now: u128) -> (stop: bool)
    ensures
        stop == (TerminationState { flag, deadline: deadline_instant(deadline) }).poll(now as int),
{
    let timed_out = match deadline {
        Some(d) => d.has_passed(now),
        None => false,
    };
    timed_out || flag
}

/// The termination signal of one run. The flag is shared: the controller may
/// raise it from outside at any time. The deadline is this run's own.
pub struct WasmTerminator<'a> {
    timeout: Option<Deadline>,
    flag: &'a AlignedAtomicBool,
    clock: Clock,
}

impl<'a> WasmTerminator<'a> {
    /// The shared flag that this signal reads and writes.
    pub closed spec fn shared_flag(&self) -> &'a AlignedAtomicBool {
        self.flag
    }

    /// The clock on which this signal's deadlines are read.
    pub closed spec fn spec_clock(&self) -> Clock {
        self.clock
    }

    /// The deadline that is armed, if any.
    pub closed spec fn deadline(&self) -> Option<Deadline> {
        self.timeout
    }

    /// The signal as the rules see it, given the value of the shared flag.
    pub open spec fn state(&self, flag: bool) -> TerminationState {
        TerminationState { flag, deadline: deadline_instant(self.deadline()) }
    }

    /// A signal on the given flag, with no deadline armed, and a clock of its
    /// own started now.
    pub fn new(flag: &'a AlignedAtomicBool) -> (signal: Self)
        ensures
            signal.deadline() is None,
            signal.state(false) == TerminationState::initial(),
            signal.shared_flag() == flag,
    {
        WasmTerminator { timeout: None, flag, clock: Clock::start() }
    }

    /// Requests cancellation: raises the shared flag.
    pub fn terminate(&self) {
        self.flag.store(true);
    }

    /// Polls the signal: reads the clock and the shared flag, and decides by
    /// `should_stop`. Both readings come from outside, so the answer is stated
    /// there, for every pair of readings.
    pub fn kill(&self) -> bool {
        let now = match self.timeout {
            Some(_) => self.clock.now(),
            None => 0,
        };
        let flag = self.flag.load();
        should_stop(flag, self.timeout, now)
    }

    /// Arms the signal for a run that may take `timeout` nanoseconds from
    /// now: lowers the shared flag, so that a cancellation meant for an
    /// earlier run is not inherited, and sets the deadline from a fresh clock
    /// reading.
    pub fn new_timeout(&mut self, timeout: u128)
        ensures
            final(self).deadline() matches Some(d) && d.timeout == timeout,
            final(self).shared_flag() == old(self).shared_flag(),
            final(self).spec_clock() == old(self).spec_clock(),
    {
        self.flag.store(false);
        let now = self.clock.now();
        self.arm_at(now, timeout);
    }

    /// Sets the deadline `timeout` nanoseconds after the clock reading `now`.
    pub fn arm_at(&mut self, now: u128, timeout: u128)
        ensures
            final(self).deadline() == Some(Deadline { armed_at: now, timeout }),
            forall|before: bool|
                final(self).state(false) == #[trigger] old(self).state(before).arm(
                    now as int,
                    timeout as int,
                ),
            final(self).shared_flag() == old(self).shared_flag(),
            final(self).spec_clock() == old(self).spec_clock(),
    {
        self.timeout = Some(Deadline { armed_at: now, timeout });
    }

    /// The deadline that is armed, if any.
    pub fn timeout_at(&self) -> (deadline: Option<Deadline>)
        ensures
            deadline == self.deadline(),
    {
        self.timeout
    }

    /// The clock on which the deadline is read.
    pub fn clock(&self) -> (clock: &Clock)
        ensures
            *clock == self.spec_clock(),
    {
        &self.clock
    }
}

/// A signal that was never armed and never cancelled stops no run, whatever
/// the clock reads.
pub proof fn unarmed_signal_polls_false(now: int)
    ensures
        !TerminationState::initial().poll(now),
{
}

/// Right after arming, and for as long as no more than the timeout has
/// passed, a poll answers no; once more than the timeout has passed, it
/// answers yes.
pub proof fn poll_after_arm(s: TerminationState, now: int, timeout: int, later: int)
    requires
        0 <= timeout,
        now <= later,
    ensures
        !s.arm(now, timeout).poll(now),
        s.arm(now, timeout).poll(later) <==> later - now > timeout,
{
}

/// As long as the signal is not armed again, a poll that has answered yes
/// answers yes at every later reading of the clock, also after a request to
/// cancel.
pub proof fn poll_never_reverts(s: TerminationState, earlier: int, later: int)
    requires
        earlier <= later,
        s.poll(earlier),
    ensures
        s.poll(later),
        s.request_cancel().poll(later),
{
}

/// After a request to cancel, a poll answers yes whatever the clock reads
/// and however much of the deadline is left.
pub proof fn cancel_forces_poll(s: TerminationState, now: int)
    ensures
        s.request_cancel().poll(now),
{
}

/// Arming again lowers a flag raised before it: a signal that was armed,
/// cancelled and then armed anew does not stop the new run at once.
pub proof fn rearm_clears_cancel(
    s: TerminationState,
    first: int,
    first_timeout: int,
    second: int,
    second_timeout: int,
)
    requires
        0 <= second_timeout,
    ensures
        s.arm(first, first_timeout).request_cancel().poll(second),
        !s.arm(first, first_timeout).request_cancel().arm(second, second_timeout).flag,
        !s.arm(first, first_timeout).request_cancel().arm(second, second_timeout).poll(second),
{
}

} // verus!
