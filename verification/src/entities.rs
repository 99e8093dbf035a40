//! The five persisted record kinds and their status machines.
//!
//! Identifiers are plain integers handed out by the store; the layer that
//! talks to an external database maps them to its own key format.

use vstd::prelude::*;

verus! {

/// Lifecycle of a nomination. Transitions out of `Pending` are terminal:
/// `Accepted` and `Rejected` never turn into each other.
#[derive(Debug, Clone, Copy, PartialEq, Eq, Structural)]
pub enum NominationStatus {
    Pending,
    Accepted,
    Rejected,
}

/// Lifecycle of an account-guardian link. `Available` guardians are
/// eligible; `Active` guardians are currently required by the signing
/// policy.
#[derive(Debug, Clone, Copy, PartialEq, Eq, Structural)]
pub enum GuardianStatus {
    Available,
    Active,
}

/// An identity owning (at most) one contract wallet.
pub struct Account {
    pub id: u64,
    pub email: String,
    pub wallet_address: String,
    pub eoa_address: String,
    pub eoa_private_address: String,
    /// Epoch milliseconds of the last write.
    pub updated_at: u64,
}

/// A party who may act as a recovery participant. `account_id` is `None`
/// until the guardian's own email registers an account.
pub struct Guardian {
    pub id: u64,
    pub email: String,
    pub account_id: Option<u64>,
    pub wallet_address: Option<String>,
}

/// A directed recovery invitation from an account to a guardian.
pub struct Nomination {
    pub id: u64,
    pub email: String,
    pub guardian_id: u64,
    pub account_id: u64,
    pub status: NominationStatus,
}

/// The accepted, per-account relationship between an account and a
/// guardian, carrying its `Available`/`Active` status.
#[derive(Debug, Clone, Copy, PartialEq, Eq, Structural)]
pub struct AccountGuardian {
    pub id: u64,
    pub guardian_id: u64,
    pub account_id: u64,
    pub status: GuardianStatus,
}

/// One row per account holding the configured signing strategy.
#[derive(Debug, Clone, Copy, PartialEq, Eq, Structural)]
pub struct GuardianSettings {
    pub id: u64,
    pub signers: crate::api::SigningStrategy,
    pub account_id: u64,
}

/// How a status word reads after ASCII upper-casing: the three nomination
/// statuses, or nothing.
pub open spec fn nomination_status_parse(s: Seq<char>) -> Option<NominationStatus> {
    if crate::text::eq_upper(s, "PENDING"@) {
        Some(NominationStatus::Pending)
    } else if crate::text::eq_upper(s, "ACCEPTED"@) {
        Some(NominationStatus::Accepted)
    } else if crate::text::eq_upper(s, "REJECTED"@) {
        Some(NominationStatus::Rejected)
    } else {
        None
    }
}

/// Parse a status word case-insensitively.
pub fn parse_nomination_status(s: &str) -> (r: Option<NominationStatus>)
    ensures
        r == nomination_status_parse(s@),
{
    if crate::text::matches_upper(s, "PENDING") {
        Some(NominationStatus::Pending)
    } else if crate::text::matches_upper(s, "ACCEPTED") {
        Some(NominationStatus::Accepted)
    } else if crate::text::matches_upper(s, "REJECTED") {
        Some(NominationStatus::Rejected)
    } else {
        None
    }
}

/// How a guardian-status word reads after ASCII upper-casing.
pub open spec fn guardian_status_parse(s: Seq<char>) -> Option<GuardianStatus> {
    if crate::text::eq_upper(s, "AVAILABLE"@) {
        Some(GuardianStatus::Available)
    } else if crate::text::eq_upper(s, "ACTIVE"@) {
        Some(GuardianStatus::Active)
    } else {
        None
    }
}

/// Parse a guardian-status word case-insensitively.
pub fn parse_guardian_status(s: &str) -> (r: Option<GuardianStatus>)
    ensures
        r == guardian_status_parse(s@),
{
    if crate::text::matches_upper(s, "AVAILABLE") {
        Some(GuardianStatus::Available)
    } else if crate::text::matches_upper(s, "ACTIVE") {
        Some(GuardianStatus::Active)
    } else {
        None
    }
}

/// A pending email-verification code with its expiry time.
pub struct Verification {
    pub id: u64,
    pub email: String,
    pub code: String,
    /// Epoch milliseconds after which the code is no longer accepted.
    pub expires_at: u64,
}

} // verus!
