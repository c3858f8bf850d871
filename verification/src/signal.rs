//! The process-wide shutdown signal and the main control loop's decisions.
//!
//! One interrupt handler per process flips a single shared boolean from
//! running to stop; the main loop polls that flag on a coarse interval and,
//! on observing the stop state, falls through to pool teardown.  The process
//! around the library owns the real shared flag and the sleep; it mirrors
//! every write and read through these operations, and its polling loop asks
//! [`main_loop_step`] what to do after each read.

use vstd::prelude::*;
use crate::pool::StartupError;

verus! {

/// The shared shutdown flag: written only by the interrupt handler and the
/// teardown path, read by the main loop.
pub struct ShutdownFlag {
    stop: bool,
}

impl ShutdownFlag {
    /// Whether the stop state has been requested.
    pub closed spec fn is_tripped(self) -> bool {
        self.stop
    }

    /// A fresh flag: the process is running, no stop requested.
    pub fn new() -> (f: ShutdownFlag)
        ensures
            !f.is_tripped(),
    {
        ShutdownFlag { stop: false }
    }

    /// Request the stop state.  Idempotent, never blocks: this is all the
    /// interrupt handler does to the flag.
    pub fn trip(&mut self)
        ensures
            final(self).is_tripped(),
    {
        self.stop = true;
    }

    /// One read of the flag, as the main loop polls it.
    pub fn should_stop(&self) -> (r: bool)
        ensures
            r == self.is_tripped(),
    {
        self.stop
    }
}

/// What the main loop does after one read of the shutdown flag.
#[derive(Clone, Copy, PartialEq, Eq, Structural, Debug)]
pub enum MainLoopStep {
    /// Sleep for the polling interval and read the flag again.
    KeepPolling,
    /// Leave the loop and proceed to pool teardown.
    BeginTeardown,
}

/// The main loop's decision for one observation of the flag: it keeps
/// polling exactly as long as no stop has been requested, so its reaction
/// to an interrupt is bounded by one polling interval.
pub fn main_loop_step(flag: &ShutdownFlag) -> (d: MainLoopStep)
    ensures
        d == MainLoopStep::BeginTeardown <==> flag.is_tripped(),
        d == MainLoopStep::KeepPolling <==> !flag.is_tripped(),
{
    if flag.should_stop() {
        MainLoopStep::BeginTeardown
    } else {
        MainLoopStep::KeepPolling
    }
}

/// What the interrupt handler does when the signal arrives: flip the flag to
/// stop and hand back the informational message to log.  It submits no job
/// and never blocks.
pub fn on_interrupt(flag: &mut ShutdownFlag) -> (msg: &'static str)
    ensures
        final(flag).is_tripped(),
        msg@ == "Server shutting down..."@,
{
    flag.trip();
    "Server shutting down..."
}

/// The process-wide registration slot for the interrupt handler: the
/// handler may be registered exactly once per process lifetime.
pub struct InterruptRegistry {
    registered: bool,
}

impl InterruptRegistry {
    /// Whether a handler has already been registered.
    pub closed spec fn is_registered(self) -> bool {
        self.registered
    }

    /// A fresh process: no handler registered yet.
    pub fn new() -> (r: InterruptRegistry)
        ensures
            !r.is_registered(),
    {
        InterruptRegistry { registered: false }
    }

    /// Claim the registration slot.  The first claim succeeds; a second one
    /// is the duplicate-registration startup fault, surfaced to the caller
    /// rather than silently ignored.
    pub fn register(&mut self) -> (r: Result<(), StartupError>)
        ensures
            final(self).is_registered(),
            !old(self).is_registered() ==> r == Result::<(), StartupError>::Ok(()),
            old(self).is_registered() ==> r == Result::<(), StartupError>::Err(
                StartupError::HandlerAlreadyRegistered,
            ),
    {
        if self.registered {
            Err(StartupError::HandlerAlreadyRegistered)
        } else {
            self.registered = true;
            Ok(())
        }
    }
}

} // verus!
