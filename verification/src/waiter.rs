//! Decisions of a task waiting for a submitted NPU job to complete.
//!
//! The waiting task reads the completion flag, registers a listener, reads
//! the flag again and only then sleeps, so a completion signalled between
//! the first read and the registration is not lost.

use vstd::prelude::*;

verus! {

/// Where the waiting task stands.
#[derive(Debug, Clone, Copy, PartialEq, Eq, Structural)]
pub enum WaitPhase {
    /// About to read the completion flag with no listener registered.
    Check,
    /// A listener is registered; about to read the flag again.
    Listening,
}

/// What the waiting task does next.
#[derive(Debug, Clone, Copy, PartialEq, Eq, Structural)]
pub enum WaitAction {
    /// The job is complete: stop waiting and report success.
    Finish,
    /// Register a listener for the completion signal, then read the flag
    /// again.
    Listen,
    /// Sleep on the registered listener, then start over.
    Block,
}

/// The action taken in `phase` after reading the completion flag as `done`.
pub open spec fn spec_wait_step(phase: WaitPhase, done: bool) -> WaitAction {
    if done {
        WaitAction::Finish
    } else {
        match phase {
            WaitPhase::Check => WaitAction::Listen,
            WaitPhase::Listening => WaitAction::Block,
        }
    }
}

/// The phase the task is in after taking `action`.
pub open spec fn spec_next_phase(action: WaitAction) -> WaitPhase {
    match action {
        WaitAction::Listen => WaitPhase::Listening,
        _ => WaitPhase::Check,
    }
}

/// Decides the next action of the waiting task.
pub fn wait_step(phase: WaitPhase, done: bool) -> (a: WaitAction)
    ensures
        a == spec_wait_step(phase, done),
{
    if done {
        WaitAction::Finish
    } else {
        match phase {
            WaitPhase::Check => WaitAction::Listen,
            WaitPhase::Listening => WaitAction::Block,
        }
    }
}

/// The phase the task is in after taking an action.
pub fn next_phase(action: WaitAction) -> (p: WaitPhase)
    ensures
        p == spec_next_phase(action),
{
    match action {
        WaitAction::Listen => WaitPhase::Listening,
        _ => WaitPhase::Check,
    }
}

/// The task stops exactly when it sees the job complete, and it only ever
/// sleeps with a listener registered and after reading the flag once more
/// since registering it.
pub proof fn lemma_wait_no_lost_wakeup(phase: WaitPhase, done: bool)
    ensures
        (spec_wait_step(phase, done) == WaitAction::Finish) == done,
        spec_wait_step(phase, done) == WaitAction::Block ==> phase == WaitPhase::Listening && !done,
        spec_wait_step(phase, done) == WaitAction::Listen ==> spec_next_phase(WaitAction::Listen)
            == WaitPhase::Listening,
{
}

} // verus!
