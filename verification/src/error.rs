//! The failure taxonomy of the engine: usage errors, policy violations,
//! configuration mismatches, I/O failures and timeouts.

use vstd::prelude::*;
use vstd::string::StringExecFns;

verus! {

/// Every failure the engine reports. Each variant is returned to the
/// immediate caller; nothing is logged or swallowed internally.
#[derive(Clone, Debug)]
pub enum ProcessError {
    /// A malformed request: an empty pipeline, a non-positive timeout.
    Usage(String),
    /// A command name or environment key refused by the policy.
    PolicyViolation(String),
    /// Two pipeline parts were built from different policy instances.
    ConfigMismatch,
    /// The operating system failed to spawn or report on a process.
    Io(String),
    /// The wall-clock deadline elapsed before the pipeline finished.
    Timeout,
}

impl ProcessError {
    /// The human-readable message for this failure.
    pub fn message(&self) -> (r: String)
        ensures
            self matches ProcessError::Usage(m) ==> r@ == m@,
            self matches ProcessError::PolicyViolation(m) ==> r@ == m@,
            self is ConfigMismatch ==> r@ == "command builders come from different modules"@,
            self matches ProcessError::Io(m) ==> r@ == "process I/O error: "@ + m@,
            self is Timeout ==> r@ == "process I/O error: process execution timed out"@,
    {
        match self {
            ProcessError::Usage(m) => m.clone(),
            ProcessError::PolicyViolation(m) => m.clone(),
            ProcessError::ConfigMismatch => String::from_str(
                "command builders come from different modules",
            ),
            ProcessError::Io(m) => String::from_str("process I/O error: ").concat(m.as_str()),
            ProcessError::Timeout => String::from_str(
                "process I/O error: process execution timed out",
            ),
        }
    }
}

} // verus!
