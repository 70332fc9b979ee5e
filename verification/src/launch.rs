use vstd::prelude::*;
use crate::error::LaunchError;
use crate::error::spawn_failure_prefix;

verus! {

/// Turns the outcome of the operating system's spawn attempt into the
/// launcher's result. The spawn call is the only fallible step: the launch
/// succeeds exactly when it did, and a failure surfaces as a value carrying
/// the system's description of the failed spawn attempt — never as a panic.
pub fn complete_launch(outcome: Result<(), String>) -> (r: Result<(), LaunchError>)
    ensures
        r is Ok <==> outcome is Ok,
        outcome matches Err(d) ==> (r matches Err(e) && e@ == spawn_failure_prefix() + d@),
{
    match outcome {
        Ok(()) => Ok(()),
        Err(detail) => Err(LaunchError::spawn_failure(detail.as_str())),
    }
}

} // verus!
