//! The poll loop's state machine.
//!
//! The loop has two phases. In the startup phase both upstreams are pinged
//! every few seconds until both answer, or until the startup deadline
//! elapses — exceeding the deadline is fatal, the process must exit rather
//! than serve with unreachable upstreams. Once both answer, the loop enters
//! the steady phase for good: each tick runs one evaluation pass and
//! publishes the verdict. A ping success gates only this phase change; it
//! never makes the node ready by itself.

use vstd::prelude::*;

use crate::readiness::CheckPolicy;

verus! {

/// Seconds between poll ticks, in both phases.
pub const POLL_INTERVAL_SECS: u64 = 4;

/// Seconds the upstreams are given to start answering pings.
pub const MAX_STARTUP_WAIT_SECS: u64 = 900;

/// What a startup-phase tick decided.
#[derive(Debug, Clone, Copy, PartialEq, Eq, Structural)]
pub enum StartupStep {
    /// Both upstreams answered: enter the steady phase.
    BothUp,
    /// At least one upstream is still silent and there is time left: sleep
    /// and ping again.
    KeepWaiting,
    /// The deadline elapsed with an upstream still silent: fatal.
    TimedOut,
}

/// Which phase the poll loop is in.
#[derive(Debug, Clone, Copy, PartialEq, Eq, Structural)]
pub enum Phase {
    Startup,
    Steady,
}

/// The poll loop's persistent state: its phase and the check policy its
/// evaluation passes use.
#[derive(Debug, Clone, Copy, PartialEq, Eq, Structural)]
pub struct Scheduler {
    pub phase: Phase,
    pub policy: CheckPolicy,
}

impl Scheduler {
    /// A scheduler begins in the startup phase.
    pub fn new(policy: CheckPolicy) -> (s: Scheduler)
        ensures
            s.phase is Startup,
            s.policy == policy,
    {
        Scheduler { phase: Phase::Startup, policy }
    }

    /// One startup-phase tick, given both ping answers and the seconds
    /// elapsed since startup began. The phase advances exactly when both
    /// upstreams answered; a timeout is reported only when they did not
    /// and the deadline has passed. Nothing here touches readiness.
    pub fn on_startup_tick(
        &mut self,
        deadline_secs: u64,
        elapsed_secs: u64,
        execution_ping_ok: bool,
        consensus_ping_ok: bool,
    ) -> (step: StartupStep)
        requires
            old(self).phase is Startup,
        ensures
            final(self).policy == old(self).policy,
            step is BothUp <==> execution_ping_ok && consensus_ping_ok,
            step is TimedOut <==> !(execution_ping_ok && consensus_ping_ok) && elapsed_secs
                > deadline_secs,
            step is KeepWaiting <==> !(execution_ping_ok && consensus_ping_ok) && elapsed_secs
                <= deadline_secs,
            final(self).phase is Steady <==> step is BothUp,
    {
        if execution_ping_ok && consensus_ping_ok {
            self.phase = Phase::Steady;
            StartupStep::BothUp
        } else if elapsed_secs > deadline_secs {
            StartupStep::TimedOut
        } else {
            StartupStep::KeepWaiting
        }
    }
}

} // verus!
