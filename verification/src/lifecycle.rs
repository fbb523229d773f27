//! The shutdown of the coordinating loop.
//!
//! The loop reads the shutdown signal once at the top of each round. Once
//! shutdown has been observed it receives nothing more; it goes on taking
//! back the responses that are under way and stops when none is left.

use vstd::prelude::*;

verus! {

/// What the coordinating loop does next.
#[derive(Debug, Clone, Copy, PartialEq, Eq, Structural)]
pub enum Step {
    /// Wait for the next inbound message and accept it.
    Receive,
    /// Accept nothing; wait for the responses that are still under way.
    Drain,
    /// Leave the loop.
    Stop,
}

/// The number of waits without a response that the drain puts up with,
/// unless told otherwise.
pub const DEFAULT_PATIENCE: usize = 1;

/// The next step of the loop, given whether shutdown has been observed, how
/// many requests are under way, and how many more waits without a response
/// the drain puts up with.
pub open spec fn next_step(stopping: bool, in_flight: nat, patience: nat) -> Step {
    if !stopping {
        Step::Receive
    } else if in_flight > 0 && patience > 0 {
        Step::Drain
    } else {
        Step::Stop
    }
}

/// The state that the shutdown of the loop goes by: whether shutdown has
/// been observed, how many requests are under way, and how much longer the
/// drain waits for them.
pub struct Lifecycle {
    stopping: bool,
    in_flight: usize,
    patience: usize,
}

impl Lifecycle {
    /// Whether shutdown has been observed.
    pub closed spec fn stopping(&self) -> bool {
        self.stopping
    }

    /// The number of requests that were handed out and not answered yet.
    pub closed spec fn in_flight(&self) -> nat {
        self.in_flight as nat
    }

    /// The number of waits without a response that the drain still puts up
    /// with.
    pub closed spec fn patience(&self) -> nat {
        self.patience as nat
    }

    /// A loop that is running with nothing under way.
    pub fn new() -> (out: Lifecycle)
        ensures
            !out.stopping(),
            out.in_flight() == 0,
            out.patience() == DEFAULT_PATIENCE,
    {
        Lifecycle { stopping: false, in_flight: 0, patience: DEFAULT_PATIENCE }
    }

    /// Sets the number of waits without a response that the drain puts up
    /// with. This bounds the drain: each such wait is of bounded length, and
    /// after this many of them the loop stops, whatever is still under way.
    pub fn with_patience(self, waits: usize) -> (out: Lifecycle)
        ensures
            out.stopping() == self.stopping(),
            out.in_flight() == self.in_flight(),
            out.patience() == waits,
    {
        Lifecycle { stopping: self.stopping, in_flight: self.in_flight, patience: waits }
    }

    /// Takes note of the shutdown signal as it was read at the top of the
    /// loop. Once observed, shutdown stays observed.
    pub fn observe(&mut self, shutdown_requested: bool)
        ensures
            final(self).stopping() == (old(self).stopping() || shutdown_requested),
            final(self).in_flight() == old(self).in_flight(),
            final(self).patience() == old(self).patience(),
    {
        if shutdown_requested {
            self.stopping = true;
        }
    }

    /// What the loop does next.
    pub fn step(&self) -> (out: Step)
        ensures
            out == next_step(self.stopping(), self.in_flight(), self.patience()),
    {
        if !self.stopping {
            Step::Receive
        } else if self.in_flight > 0 && self.patience > 0 {
            Step::Drain
        } else {
            Step::Stop
        }
    }

    /// Counts `jobs` requests as handed out. Returns whether they were
    /// counted: after shutdown has been observed nothing is accepted, and
    /// the count never exceeds what the machine can hold.
    pub fn dispatched(&mut self, jobs: usize) -> (out: bool)
        ensures
            out == (!old(self).stopping() && old(self).in_flight() + jobs <= usize::MAX),
            final(self).stopping() == old(self).stopping(),
            final(self).patience() == old(self).patience(),
            out ==> final(self).in_flight() == old(self).in_flight() + jobs,
            !out ==> final(self).in_flight() == old(self).in_flight(),
    {
        if self.stopping || jobs > usize::MAX - self.in_flight {
            false
        } else {
            self.in_flight = self.in_flight + jobs;
            true
        }
    }

    /// Counts one request as answered.
    pub fn completed(&mut self)
        ensures
            final(self).stopping() == old(self).stopping(),
            final(self).patience() == old(self).patience(),
            old(self).in_flight() > 0 ==> final(self).in_flight() == old(self).in_flight() - 1,
            old(self).in_flight() == 0 ==> final(self).in_flight() == 0,
    {
        if self.in_flight > 0 {
            self.in_flight = self.in_flight - 1;
        }
    }

    /// Takes note that a wait for a response ended without one. While the
    /// loop drains, each such wait uses up one of those that the drain puts
    /// up with; before shutdown it counts for nothing.
    pub fn timed_out(&mut self)
        ensures
            final(self).stopping() == old(self).stopping(),
            final(self).in_flight() == old(self).in_flight(),
            old(self).stopping() && old(self).patience() > 0 ==> final(self).patience() == old(
                self,
            ).patience() - 1,
            !(old(self).stopping() && old(self).patience() > 0) ==> final(self).patience() == old(
                self,
            ).patience(),
    {
        if self.stopping && self.patience > 0 {
            self.patience = self.patience - 1;
        }
    }
}

/// Graceful shutdown: once shutdown has been observed the loop receives
/// nothing more, whatever is under way. While responses keep coming, with
/// `in_flight` requests under way it goes on draining through every
/// completion but the last, and stops after the last, so that each of them
/// is emitted before the loop exits.
pub proof fn law_graceful_shutdown(in_flight: nat, completed: nat, patience: nat)
    requires
        completed <= in_flight,
        patience > 0,
    ensures
        next_step(true, in_flight, patience) != Step::Receive,
        next_step(true, (in_flight - completed) as nat, patience) == if completed < in_flight {
            Step::Drain
        } else {
            Step::Stop
        },
        next_step(false, in_flight, patience) == Step::Receive,
{
}

/// Bounded drain: the loop leaves the drain once the waits without a
/// response are used up, whatever is still under way; and it never goes
/// back to receiving.
pub proof fn law_bounded_drain(in_flight: nat, patience: nat)
    ensures
        next_step(true, in_flight, 0) == Step::Stop,
        next_step(true, in_flight, patience) != Step::Receive,
{
}

} // verus!
