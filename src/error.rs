//! Errors of reconciliation, replay and ticket lookup.

use vstd::prelude::*;

verus! {

/// Why an operation stopped.
#[derive(Debug)]
pub enum GinspError {
    /// A command line that cannot be acted on.
    Cli(String),
    /// The version-control tool could not produce what was asked of it.
    LogUnavailable { branch: String, detail: String },
    /// A history line that does not hold a hash followed by a message.
    MalformedCommitLine { branch: String, line: String },
    /// Replay was asked for while another branch than the target is checked out.
    WrongBranchCheckedOut { expected: String, actual: String },
    /// A cherry-pick failed; the target branch was restored to its checkpoint.
    ReplayFailed { hash: String, message: String },
    /// Aborting the cherry-pick or resetting the branch failed: manual repair is needed.
    RollbackFailed { detail: String },
    /// The ticket tracker gave no status: its HTTP status code, and what was wrong.
    ProviderUnavailable { status: u16, detail: String },
    /// The credential key holds no `:` between user name and password.
    InvalidCredentialKey,
    /// The ticket pattern is not a valid regular expression.
    InvalidTicketPattern(String),
}

} // verus!
