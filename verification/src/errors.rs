//! Failure taxonomy shared by every workflow operation.

use vstd::prelude::*;

verus! {

/// Why an operation was refused. Validation always runs before any write,
/// so an `Err` from a workflow function means the store was left untouched.
#[derive(Debug)]
pub enum CoreError {
    /// A referenced entity (account, guardian, nomination, settings row)
    /// does not exist.
    NotFound,
    /// Malformed input: an invalid email address, or a proposed guardian id
    /// set that does not belong to the acting account. `offending` lists the
    /// ids that were rejected (empty when the input was not an id set).
    InvalidInput { offending: Vec<u64> },
    /// The operation is not permitted in the entity's current status.
    InvalidState,
    /// The requested nomination status change is not permitted.
    InvalidTransition,
    /// The proposed guardian count does not match the strategy's threshold.
    InvalidPolicy,
    /// The presented claims are not (or no longer) acceptable.
    AuthError,
}

impl CoreError {
    /// Short user-facing description; identifiers needed for a retry travel
    /// in the variant itself, never storage internals.
    pub fn message(&self) -> (r: String)
        ensures
            r@ == match self {
                CoreError::NotFound => "not found"@,
                CoreError::InvalidInput { .. } => "invalid input"@,
                CoreError::InvalidState => "invalid state"@,
                CoreError::InvalidTransition => "invalid transition"@,
                CoreError::InvalidPolicy => "invalid policy"@,
                CoreError::AuthError => "authentication failed"@,
            },
    {
        match self {
            CoreError::NotFound => String::from_str("not found"),
            CoreError::InvalidInput { .. } => String::from_str("invalid input"),
            CoreError::InvalidState => String::from_str("invalid state"),
            CoreError::InvalidTransition => String::from_str("invalid transition"),
            CoreError::InvalidPolicy => String::from_str("invalid policy"),
            CoreError::AuthError => String::from_str("authentication failed"),
        }
    }
}

} // verus!
