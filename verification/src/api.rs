//! Payload shapes returned to callers, and the signing-strategy catalogue.

use vstd::prelude::*;

verus! {

use crate::entities::GuardianStatus;

/// The M-of-N signing policy choices an account can configure.
#[derive(Debug, Clone, Copy, PartialEq, Eq, Structural)]
pub enum SigningStrategy {
    OneOfOne,
    OneOfTwo,
    TwoOfTwo,
    OneOfThree,
    TwoOfThree,
    ThreeOfThree,
}

/// The guardian count a strategy requires.
pub open spec fn threshold(s: SigningStrategy) -> nat {
    match s {
        SigningStrategy::OneOfOne => 1,
        SigningStrategy::OneOfTwo => 2,
        SigningStrategy::TwoOfTwo => 2,
        SigningStrategy::OneOfThree => 3,
        SigningStrategy::TwoOfThree => 3,
        SigningStrategy::ThreeOfThree => 3,
    }
}

impl SigningStrategy {
    /// How many guardians must be proposed together with `item`.
    pub fn get_signers_for(item: SigningStrategy) -> (r: u64)
        ensures
            r == threshold(item),
    {
        match item {
            SigningStrategy::OneOfOne => 1,
            SigningStrategy::OneOfTwo => 2,
            SigningStrategy::TwoOfTwo => 2,
            SigningStrategy::OneOfThree => 3,
            SigningStrategy::TwoOfThree => 3,
            SigningStrategy::ThreeOfThree => 3,
        }
    }

    /// The full, fixed catalogue of strategies, in presentation order.
    pub fn all() -> (r: Vec<SigningStrategy>)
        ensures
            r@ =~= seq![
                SigningStrategy::OneOfOne,
                SigningStrategy::OneOfTwo,
                SigningStrategy::TwoOfTwo,
                SigningStrategy::OneOfThree,
                SigningStrategy::TwoOfThree,
                SigningStrategy::ThreeOfThree,
            ],
    {
        let mut r: Vec<SigningStrategy> = Vec::new();
        r.push(SigningStrategy::OneOfOne);
        r.push(SigningStrategy::OneOfTwo);
        r.push(SigningStrategy::TwoOfTwo);
        r.push(SigningStrategy::OneOfThree);
        r.push(SigningStrategy::TwoOfThree);
        r.push(SigningStrategy::ThreeOfThree);
        r
    }
}

/// Whether an operation's payload reports success or an error.
#[derive(Debug, Clone, Copy, PartialEq, Eq, Structural)]
pub enum ApiResponseStatus {
    Success,
    Error,
}

/// A success payload or an error payload, never both.
#[derive(Debug)]
pub enum ApiPayload<S, E> {
    Success(S),
    Error(E),
}

/// The uniform envelope every endpoint answers with.
#[derive(Debug)]
pub struct ApiResponse<T, E> {
    pub status: ApiResponseStatus,
    pub payload: ApiPayload<T, E>,
}

/// A textual error as shown to the caller.
#[derive(Debug)]
pub struct ApiErrorResponse {
    pub error_message: String,
}

/// Wrap an error message in the error envelope.
pub fn api_error<T>(error_message: String) -> (r: ApiResponse<T, ApiErrorResponse>)
    ensures
        r.status == ApiResponseStatus::Error,
        (r.payload matches ApiPayload::Error(e) && e.error_message@ == error_message@),
{
    ApiResponse {
        status: ApiResponseStatus::Error,
        payload: ApiPayload::Error(ApiErrorResponse { error_message }),
    }
}

/// Wrap a success payload in the success envelope.
pub fn api_success<T>(payload: T) -> (r: ApiResponse<T, ApiErrorResponse>)
    ensures
        r.status == ApiResponseStatus::Success,
        (r.payload matches ApiPayload::Success(p) && p == payload),
{
    ApiResponse {
        status: ApiResponseStatus::Success,
        payload: ApiPayload::Success(payload),
    }
}

/// An account-guardian row joined against the guardian table: what the
/// account side sees when listing its guardians.
pub struct AccountGuardian {
    pub id: u64,
    pub email: String,
    pub wallet_address: String,
    pub status: GuardianStatus,
}

/// An account projection shown to a guardian listing the accounts it
/// protects.
pub struct GuardianAccount {
    pub id: u64,
    pub email: String,
    pub wallet_address: String,
}

/// What the signing-policy endpoints return: the configured strategy, the
/// currently active guardians, and the static catalogue.
pub struct AccountGuardianSettingsResponse {
    pub signing_strategies: Vec<SigningStrategy>,
    pub signers: SigningStrategy,
    pub active_guardians: Vec<AccountGuardian>,
}

/// Optional filters when an account lists its guardians; `guardian_id`
/// wins over `status`.
pub struct AccountGuardianParams {
    pub guardian_id: Option<u64>,
    pub status: Option<String>,
}

/// Optional filter when a guardian lists the accounts it protects.
pub struct GuardianAccountParams {
    pub account_id: Option<u64>,
}

/// Optional filters when an account lists its nominations;
/// `nomination_id` wins over `status`, which wins over `email`.
pub struct NominationParams {
    pub status: Option<String>,
    pub nomination_id: Option<u64>,
    pub email: Option<String>,
}

/// Optional filters when a guardian lists its nominations;
/// `nomination_id` wins over `status`.
pub struct GuardianNominationParams {
    pub status: Option<String>,
    pub nomination_id: Option<u64>,
}

/// Optional filters when listing accounts; `wallet_address` wins over
/// `eoa_address`, which wins over `email`.
pub struct AccountParams {
    pub wallet_address: Option<String>,
    pub eoa_address: Option<String>,
    pub email: Option<String>,
}

/// Whether an account update changed any address.
pub struct AccountUpdateResponse {
    pub updated: bool,
}

/// A freshly created nomination.
pub struct NominationCreateResponse {
    pub nomination_id: u64,
}

/// A nomination whose status was just updated.
pub struct NominationUpdateResponse {
    pub nomination_id: u64,
    pub status: crate::entities::NominationStatus,
}

/// A nomination that was just deleted.
pub struct NominationDeleteResponse {
    pub nomination_id: u64,
}

/// An account-guardian link that was just removed.
pub struct AccountGuardianDeleteResponse {
    pub guardian_id: u64,
}

} // verus!
