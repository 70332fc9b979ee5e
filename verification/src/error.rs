use vstd::prelude::*;
use vstd::string::StringExecFns;

verus! {

/// The description every spawn failure starts with; the operating system's
/// own account of the failure is appended to it.
pub open spec fn spawn_failure_prefix() -> Seq<char> {
    "Failed to spawn agent-hub: "@
}

/// The launcher's single error: the operating system's process-creation
/// call failed. It carries a human-readable description and nothing else;
/// there is no retry, fallback, or partial success to report.
pub struct LaunchError {
    message: String,
}

impl View for LaunchError {
    type V = Seq<char>;

    closed spec fn view(&self) -> Seq<char> {
        self.message@
    }
}

impl LaunchError {
    /// Wraps the operating system's description of a failed spawn attempt.
    pub fn spawn_failure(detail: &str) -> (e: LaunchError)
        ensures
            e@ == spawn_failure_prefix() + detail@,
    {
        let mut message = String::from_str("Failed to spawn agent-hub: ");
        message.append(detail);
        LaunchError { message }
    }

    /// The human-readable description carried by this error.
    pub fn message(&self) -> (m: &str)
        ensures
            m@ == self@,
    {
        self.message.as_str()
    }
}

} // verus!
