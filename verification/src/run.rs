//! The order in which the program acts, and what its instrumented function
//! writes.

use vstd::prelude::*;
use vstd::string::*;

verus! {

/// The port on which the agent listens.
pub const AGENT_PORT: u16 = 6831;

/// How long the program waits before it leaves, in milliseconds, so that the
/// batch processor has time to export what it holds.
pub const DRAIN_MILLIS: u64 = 8000;

/// The host of the agent.
pub open spec fn agent_host_text() -> Seq<char> {
    "192.168.0.162"@
}

/// The host of the agent.
pub fn agent_host() -> (host: String)
    ensures
        host@ == agent_host_text(),
{
    String::from_str("192.168.0.162")
}

/// One thing the program does.
#[derive(Clone, Copy, Debug, PartialEq, Eq, Structural)]
pub enum Action {
    /// Set up the instrumentation for the agent.
    Instrument,
    /// Call the instrumented function.
    Invoke,
    /// Wait for this many milliseconds.
    Drain { millis: u64 },
    /// Leave; nothing is done after this.
    Exit,
}

/// How far a run has come.
#[derive(Clone, Copy, Debug, PartialEq, Eq, Structural)]
pub enum Phase {
    /// Nothing has been done yet.
    Start,
    /// The instrumentation is set up.
    Instrumented,
    /// The instrumented function has been called.
    Invoked,
    /// The wait is over.
    Drained,
}

impl Phase {
    /// What is done in this phase.
    pub open spec fn action(self) -> Action {
        match self {
            Phase::Start => Action::Instrument,
            Phase::Instrumented => Action::Invoke,
            Phase::Invoked => Action::Drain { millis: DRAIN_MILLIS },
            Phase::Drained => Action::Exit,
        }
    }

    /// The phase that follows once the action of this one is done. The last
    /// phase follows itself.
    pub open spec fn next(self) -> Phase {
        match self {
            Phase::Start => Phase::Instrumented,
            Phase::Instrumented => Phase::Invoked,
            Phase::Invoked => Phase::Drained,
            Phase::Drained => Phase::Drained,
        }
    }

    /// The phase a run is in after `n` actions.
    pub open spec fn after(n: nat) -> Phase
        decreases n,
    {
        if n == 0 {
            Phase::Start
        } else {
            Phase::after((n - 1) as nat).next()
        }
    }

    /// Gives the action to perform in this phase and the phase to go on with
    /// when it is done.
    pub fn step(self) -> (r: (Phase, Action))
        ensures
            r.0 == self.next(),
            r.1 == self.action(),
    {
        match self {
            Phase::Start => (Phase::Instrumented, Action::Instrument),
            Phase::Instrumented => (Phase::Invoked, Action::Invoke),
            Phase::Invoked => (Phase::Drained, Action::Drain { millis: DRAIN_MILLIS }),
            Phase::Drained => (Phase::Drained, Action::Exit),
        }
    }
}

/// A run sets up the instrumentation, then calls the instrumented function,
/// then waits for the full drain delay, and from then on only leaves.
pub proof fn run_order(n: nat)
    ensures
        Phase::after(n).action() == (if n == 0 {
            Action::Instrument
        } else if n == 1 {
            Action::Invoke
        } else if n == 2 {
            Action::Drain { millis: DRAIN_MILLIS }
        } else {
            Action::Exit
        }),
    decreases n,
{
    reveal_with_fuel(Phase::after, 4);
    if n > 3 {
        run_order((n - 1) as nat);
    }
}

/// Whenever a run comes to leave, it has waited for the full drain delay
/// before, and it has called the instrumented function before that wait.
pub proof fn drain_precedes_exit(n: nat)
    requires
        Phase::after(n).action() == Action::Exit,
    ensures
        exists|i: nat, j: nat|
            i < j < n && #[trigger] Phase::after(i).action() == Action::Invoke
                && #[trigger] Phase::after(j).action() == (Action::Drain { millis: DRAIN_MILLIS }),
{
    run_order(n);
    run_order(1);
    run_order(2);
}

/// The line that the instrumented function writes.
pub open spec fn foo_text() -> Seq<char> {
    "foo!"@
}

/// The instrumented function: writes its one line to `output` and returns.
/// What was written before stays as it is.
pub fn foo(output: &mut Vec<String>)
    ensures
        final(output)@.len() == old(output)@.len() + 1,
        final(output)@.drop_last() == old(output)@,
        final(output)@.last()@ == foo_text(),
{
    output.push(String::from_str("foo!"));
}

} // verus!
