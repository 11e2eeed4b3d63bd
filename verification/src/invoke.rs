use vstd::prelude::*;

verus! {

use crate::errors::ErrorKind;

/// What the host program observed of one native process invocation: either the
/// program could not be spawned at all, or it ran to completion with an exit
/// status and its captured standard output. Standard error is discarded.
pub enum InvokeOutcome {
    /// The program could not be started (not found, permission denied).
    LaunchFailed,
    /// The program ran; `success` is whether it exited cleanly.
    Exited { success: bool, stdout: Vec<u8> },
}

/// The normalized verdict of an invocation whose output is not consumed:
/// could-not-start and ran-and-failed stay distinct.
pub open spec fn invoke_verdict(o: InvokeOutcome) -> Result<(), ErrorKind> {
    match o {
        InvokeOutcome::LaunchFailed => Err(ErrorKind::LaunchError),
        InvokeOutcome::Exited { success, .. } => if success {
            Ok(())
        } else {
            Err(ErrorKind::ExecutionError)
        },
    }
}

/// Normalizes an invocation that is run for its effect alone, such as the
/// interactive screenshot tool: a clean exit is success — whether the user
/// captured anything or cancelled is the native tool's business — a failure
/// exit is `ExecutionError`, and a spawn failure is `LaunchError`.
pub fn screenshot_outcome(outcome: &InvokeOutcome) -> (r: Result<(), ErrorKind>)
    ensures
        r == invoke_verdict(*outcome),
{
    match outcome {
        InvokeOutcome::LaunchFailed => Err(ErrorKind::LaunchError),
        InvokeOutcome::Exited { success, .. } => {
            if *success {
                Ok(())
            } else {
                Err(ErrorKind::ExecutionError)
            }
        },
    }
}

/// Normalizes an invocation run for its output: a clean exit yields the
/// captured standard output bytes; otherwise as `invoke_verdict`.
pub fn invocation_result(outcome: InvokeOutcome) -> (r: Result<Vec<u8>, ErrorKind>)
    ensures
        outcome is LaunchFailed ==> r == Err::<Vec<u8>, ErrorKind>(ErrorKind::LaunchError),
        (outcome matches InvokeOutcome::Exited { success: false, .. }) ==> r == Err::<
            Vec<u8>,
            ErrorKind,
        >(ErrorKind::ExecutionError),
        outcome matches InvokeOutcome::Exited { success: true, stdout } ==> (r matches Ok(b)
            && b@ == stdout@),
{
    match outcome {
        InvokeOutcome::LaunchFailed => Err(ErrorKind::LaunchError),
        InvokeOutcome::Exited { success, stdout } => {
            if success {
                Ok(stdout)
            } else {
                Err(ErrorKind::ExecutionError)
            }
        },
    }
}

/// Law: repeated screenshot triggers are independent. Each run's verdict is a
/// function of that run's own outcome alone, and a clean exit yields success
/// every time — two successive runs of an always-succeeding tool give two
/// successes, with no state shared between them.
pub proof fn lemma_screenshot_trigger_independent(first: InvokeOutcome, second: InvokeOutcome)
    requires
        first matches InvokeOutcome::Exited { success: true, .. },
        second matches InvokeOutcome::Exited { success: true, .. },
    ensures
        invoke_verdict(first) == Ok::<(), ErrorKind>(()),
        invoke_verdict(second) == Ok::<(), ErrorKind>(()),
        invoke_verdict(first) == invoke_verdict(second),
{
}

} // verus!
