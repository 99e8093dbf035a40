//! Token claims and their validity window. Encoding and decoding the
//! token itself happens outside this crate; here only the claims' content
//! is decided.

use vstd::prelude::*;

verus! {

use crate::errors::CoreError;

/// Thirty days in milliseconds: how long an issued token stays valid.
pub const TOKEN_LIFETIME_MS: usize = 2592000000;

/// What an access token asserts: the account it speaks for, the issuer,
/// and when it stops being valid (epoch milliseconds).
pub struct Claims {
    pub sub: String,
    pub company: String,
    pub exp: usize,
}

impl Claims {
    /// Claims for a fresh token issued to this account at `now_ms`.
    pub fn for_account(account_id: String, now_ms: usize) -> (r: Claims)
        requires
            now_ms + TOKEN_LIFETIME_MS <= usize::MAX,
        ensures
            r.sub@ == account_id@,
            r.company@ == "Clutch"@,
            r.exp == now_ms + TOKEN_LIFETIME_MS,
    {
        Claims {
            sub: account_id,
            company: String::from_str("Clutch"),
            exp: now_ms + TOKEN_LIFETIME_MS,
        }
    }
}

/// A token is good exactly until its expiry instant has passed.
pub fn validate_jwt_claims(claims: &Claims, now_ms: usize) -> (r: Result<(), CoreError>)
    ensures
        (r is Ok) == (claims.exp >= now_ms),
        (r matches Err(e) ==> e is AuthError),
{
    if claims.exp < now_ms {
        Err(CoreError::AuthError)
    } else {
        Ok(())
    }
}

} // verus!
