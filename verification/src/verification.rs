//! The email-verification flow: rate-limited issuance of short-lived
//! codes. Delivering the code by mail happens outside this crate; the
//! caller takes the fresh code away to send it.

use vstd::prelude::*;

verus! {

use crate::codes::generate_code;
use crate::codes::is_dec_digit;
use crate::email::email_ok;
use crate::email::is_valid_email;
use crate::errors::CoreError;
use crate::store::Store;
use crate::store::same_except_verifications;
use crate::verification_repo;
use crate::verification_repo::ver_by_email;

/// One minute in milliseconds: how long an issued code stays valid.
pub const CODE_LIFETIME_MS: u64 = 60000;

/// Record a fresh code for this email, expiring one minute after
/// `now_ms`.
pub fn store_verification(store: &mut Store, email: &String, code: &String, now_ms: u64)
    requires
        old(store).wf(),
        old(store).next_id < u64::MAX,
        now_ms + CODE_LIFETIME_MS <= u64::MAX,
    ensures
        final(store).wf(),
        final(store).next_id == old(store).next_id + 1,
        same_except_verifications(*old(store), *final(store)),
        final(store).verifications@.len() == old(store).verifications@.len() + 1,
        forall|j: int|
            0 <= j < old(store).verifications@.len() ==> final(store).verifications@[j] == old(
                store,
            ).verifications@[j],
        final(store).verifications@.last().email@ == email@,
        final(store).verifications@.last().code@ == code@,
        final(store).verifications@.last().expires_at == now_ms + CODE_LIFETIME_MS,
{
    verification_repo::create(store, email.clone(), code.clone(), now_ms + CODE_LIFETIME_MS);
}

/// An email may only accumulate `send_limit` codes; beyond that the
/// request is refused.
pub fn verify_email_send_limit(store: &Store, email: &String, send_limit: u64) -> (r: Result<
    (),
    CoreError,
>)
    ensures
        (r is Ok) == (store.verifications@.filter(ver_by_email(email@)).len() <= send_limit),
        (r matches Err(e) ==> e is InvalidState),
{
    let count = verification_repo::count_by_email(store, email);
    if count > send_limit {
        Err(CoreError::InvalidState)
    } else {
        Ok(())
    }
}

/// Issue a verification code for this email: six random decimal digits,
/// recorded with a one-minute expiry and returned for delivery.
pub fn create_verification(store: &mut Store, email: &String, now_ms: u64, send_limit: u64) -> (r:
    Result<String, CoreError>)
    requires
        old(store).wf(),
        old(store).next_id < u64::MAX,
        now_ms + CODE_LIFETIME_MS <= u64::MAX,
    ensures
        final(store).wf(),
        (r is Ok) == (email_ok(email@) && old(store).verifications@.filter(
            ver_by_email(email@),
        ).len() <= send_limit),
        (r is Err ==> *final(store) == *old(store)),
        (r matches Err(e) ==> ((e matches CoreError::InvalidInput { .. }) <==> !email_ok(email@))),
        (r matches Err(e) ==> (e is InvalidState <==> (email_ok(email@) && old(
            store,
        ).verifications@.filter(ver_by_email(email@)).len() > send_limit))),
        (r matches Ok(code) ==> {
            &&& code@.len() == 6
            &&& (forall|i: int| 0 <= i < code@.len() ==> is_dec_digit(#[trigger] code@[i]))
            &&& final(store).next_id == old(store).next_id + 1
            &&& same_except_verifications(*old(store), *final(store))
            &&& final(store).verifications@.len() == old(store).verifications@.len() + 1
            &&& (forall|j: int|
                0 <= j < old(store).verifications@.len() ==> final(store).verifications@[j] == old(
                    store,
                ).verifications@[j])
            &&& final(store).verifications@.last().email@ == email@
            &&& final(store).verifications@.last().code@ == code@
            &&& final(store).verifications@.last().expires_at == now_ms + CODE_LIFETIME_MS
        }),
{
    if !is_valid_email(email.as_str()) {
        return Err(CoreError::InvalidInput { offending: Vec::new() });
    }
    let code = generate_code();
    match verify_email_send_limit(store, email, send_limit) {
        Err(e) => {
            return Err(e);
        },
        Ok(()) => (),
    }
    store_verification(store, email, &code, now_ms);
    Ok(code)
}

} // verus!
