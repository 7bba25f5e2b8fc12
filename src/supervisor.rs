//! The deadline supervisor's verdict once its wait for the worker is over.

use vstd::prelude::*;
use crate::protocol::{Step, is_terminal};

verus! {

/// Process exit code when the deadline passes before the worker reports.
pub const EXIT_TIMEOUT: i32 = 32;

/// How the supervisor's bounded wait on the completion channel ended.
#[derive(Debug, Clone, Copy, PartialEq, Eq, Structural)]
pub enum WaitOutcome {
    /// The worker delivered the terminal step of its job in time.
    Delivered(Step),
    /// The deadline passed first.
    TimedOut,
    /// The worker went away without delivering anything.
    Disconnected,
}

/// What the process does once the wait is over.
pub open spec fn verdict_of(outcome: WaitOutcome) -> Step {
    match outcome {
        WaitOutcome::Delivered(s) => s,
        WaitOutcome::TimedOut => Step::Exit(EXIT_TIMEOUT),
        WaitOutcome::Disconnected => Step::Exit(EXIT_TIMEOUT),
    }
}

/// Decides how the process ends: the worker's own terminal step when it
/// arrived in time; exit with `EXIT_TIMEOUT` when the deadline passed or the
/// worker vanished, however far the job had got.
pub fn supervise(outcome: WaitOutcome) -> (r: Step)
    requires
        outcome matches WaitOutcome::Delivered(s) ==> is_terminal(s),
    ensures
        r == verdict_of(outcome),
        is_terminal(r),
        outcome is TimedOut ==> r == Step::Exit(EXIT_TIMEOUT),
        outcome is Disconnected ==> r == Step::Exit(EXIT_TIMEOUT),
{
    match outcome {
        WaitOutcome::Delivered(s) => s,
        WaitOutcome::TimedOut => Step::Exit(EXIT_TIMEOUT),
        WaitOutcome::Disconnected => Step::Exit(EXIT_TIMEOUT),
    }
}

} // verus!
