//! The error taxonomy of a publishing run.

use vstd::prelude::*;

verus! {

/// The two terminal failures of a publishing run.  Both abort the run; no
/// recovery or retry is attempted.
#[derive(Debug)]
pub enum SetupError {
    /// An invoked version-control command exited with a failing status.
    /// Carries the subcommand name and the tool's own error-stream text.
    CommandFailed(String, String),
    /// The supplied origin address failed shape validation.  Carries the
    /// offending address.
    InvalidOrigin(String),
}

impl SetupError {
    /// The single human-readable line that describes the failure.
    pub fn message(&self) -> (r: String)
        ensures
            match self {
                SetupError::CommandFailed(cmd, diag) => r@ == "Failed during: git "@ + cmd@
                    + " Reason: "@ + diag@,
                SetupError::InvalidOrigin(origin) => r@ == "Invalid origin: "@ + origin@,
            },
    {
        match self {
            SetupError::CommandFailed(cmd, diag) => {
                let mut s = String::from_str("Failed during: git ");
                s.append(cmd.as_str());
                s.append(" Reason: ");
                s.append(diag.as_str());
                s
            },
            SetupError::InvalidOrigin(origin) => {
                let mut s = String::from_str("Invalid origin: ");
                s.append(origin.as_str());
                s
            },
        }
    }
}

} // verus!
