//! Account registration and maintenance: the decision logic around
//! creating an account (the wallet itself is built outside and handed in
//! as plain addresses), address updates, and account lookups.

use vstd::prelude::*;

verus! {

use crate::account_repo;
use crate::account_repo::acct_by_email;
use crate::account_repo::acct_by_eoa;
use crate::account_repo::acct_by_wallet;
use crate::account_repo::acct_eqv;
use crate::api::AccountParams;
use crate::api::AccountUpdateResponse;
use crate::email::email_ok;
use crate::email::is_valid_email;
use crate::entities::Account;
use crate::entities::Verification;
use crate::errors::CoreError;
use crate::store::Store;
use crate::store::account_email_taken;
use crate::store::has_account;
use crate::store::same_except_accounts;
use crate::verification_repo;
use crate::verification_repo::ver_by_email_and_code;

/// `i` is the first verification row (in table order) carrying this email
/// and code.
pub open spec fn is_first_code(
    rows: Seq<Verification>,
    email: Seq<char>,
    code: Seq<char>,
    i: int,
) -> bool {
    &&& 0 <= i < rows.len()
    &&& ver_by_email_and_code(email, code)(rows[i])
    &&& forall|j: int| 0 <= j < i ==> !ver_by_email_and_code(email, code)(#[trigger] rows[j])
}

/// Check a verification code: the first row recorded for this email and
/// code decides, and it must not have expired by `now_ms`.
pub fn validate_code(store: &Store, email: &String, code: &String, now_ms: u64) -> (r: Result<
    (),
    CoreError,
>)
    ensures
        (r is Ok) == (exists|i: int|
            is_first_code(store.verifications@, email@, code@, i) && now_ms
                <= store.verifications@[i].expires_at),
        (r matches Err(e) ==> (e is NotFound || e is InvalidState)),
        (r matches Err(e) ==> (e is NotFound <==> (forall|j: int|
            0 <= j < store.verifications@.len() ==> !ver_by_email_and_code(email@, code@)(
                #[trigger] store.verifications@[j],
            )))),
{
    match verification_repo::find_by_email_and_code(store, email, code) {
        Some(v) => {
            proof {
                let rows = store.verifications@;
                let i0 = choose|i: int|
                    0 <= i < rows.len() && #[trigger] rows[i] == *v && v.email@ == email@
                        && v.code@ == code@ && (forall|j: int|
                        0 <= j < i ==> !ver_by_email_and_code(email@, code@)(#[trigger] rows[j]));
                assert(is_first_code(rows, email@, code@, i0));
                assert forall|i: int|
                    is_first_code(rows, email@, code@, i) implies i == i0 by {
                    assert(ver_by_email_and_code(email@, code@)(rows[i0]));
                    assert(ver_by_email_and_code(email@, code@)(rows[i]));
                }
                assert(rows[i0].expires_at == v.expires_at);
            }
            if now_ms > v.expires_at {
                Err(CoreError::InvalidState)
            } else {
                Ok(())
            }
        },
        None => Err(CoreError::NotFound),
    }
}

/// Register a new account. The email must be valid and unclaimed, and a
/// live verification code must back the request; the wallet addresses
/// were computed outside and arrive as plain values. On success the row
/// appears with `now_ms` as its write time.
pub fn register_account(
    store: &mut Store,
    email: &String,
    code: &String,
    now_ms: u64,
    wallet_address: String,
    eoa_address: String,
    eoa_private: String,
) -> (r: Result<u64, CoreError>)
    requires
        old(store).wf(),
        old(store).next_id < u64::MAX,
    ensures
        final(store).wf(),
        (r is Ok) == (email_ok(email@) && !account_email_taken(old(store).accounts@, email@)
            && exists|i: int|
            is_first_code(old(store).verifications@, email@, code@, i) && now_ms <= old(
                store,
            ).verifications@[i].expires_at),
        (r is Err ==> *final(store) == *old(store)),
        (r matches Err(e) ==> ((e matches CoreError::InvalidInput { .. }) <==> !email_ok(email@))),
        (r matches Err(e) ==> (e is NotFound <==> (email_ok(email@) && !account_email_taken(
            old(store).accounts@,
            email@,
        ) && (forall|j: int|
            0 <= j < old(store).verifications@.len() ==> !ver_by_email_and_code(email@, code@)(
                #[trigger] old(store).verifications@[j],
            ))))),
        (r matches Ok(id) ==> {
            &&& id == old(store).next_id
            &&& final(store).next_id == old(store).next_id + 1
            &&& same_except_accounts(*old(store), *final(store))
            &&& final(store).accounts@.len() == old(store).accounts@.len() + 1
            &&& (forall|j: int|
                0 <= j < old(store).accounts@.len() ==> final(store).accounts@[j] == old(
                    store,
                ).accounts@[j])
            &&& final(store).accounts@.last().id == id
            &&& final(store).accounts@.last().email@ == email@
            &&& final(store).accounts@.last().wallet_address@ == wallet_address@
            &&& final(store).accounts@.last().eoa_address@ == eoa_address@
            &&& final(store).accounts@.last().eoa_private_address@ == eoa_private@
            &&& final(store).accounts@.last().updated_at == now_ms
        }),
{
    if !is_valid_email(email.as_str()) {
        return Err(CoreError::InvalidInput { offending: Vec::new() });
    }
    if account_repo::find_by_email(store, email).is_some() {
        return Err(CoreError::InvalidState);
    }
    match validate_code(store, email, code, now_ms) {
        Err(e) => {
            return Err(e);
        },
        Ok(()) => (),
    }
    let id = account_repo::create(
        store,
        email.clone(),
        wallet_address,
        eoa_address,
        eoa_private,
        now_ms,
    );
    Ok(id)
}

/// Update the acting account's wallet and eoa addresses. The reported
/// flag says whether any address was supplied at all.
pub fn update_account(
    store: &mut Store,
    acting_account_id: u64,
    email: &String,
    wallet_address: Option<String>,
    eoa_address: Option<String>,
) -> (r: Result<AccountUpdateResponse, CoreError>)
    requires
        old(store).wf(),
    ensures
        final(store).wf(),
        (r is Ok) == (email_ok(email@) && has_account(old(store).accounts@, acting_account_id)),
        (r is Err ==> *final(store) == *old(store)),
        (r matches Err(e) ==> ((e matches CoreError::InvalidInput { .. }) <==> !email_ok(email@))),
        (r matches Err(e) ==> (e is NotFound <==> (email_ok(email@) && !has_account(
            old(store).accounts@,
            acting_account_id,
        )))),
        (r matches Ok(resp) ==> {
            &&& resp.updated == (wallet_address is Some || eoa_address is Some)
            &&& same_except_accounts(*old(store), *final(store))
            &&& final(store).next_id == old(store).next_id
            &&& final(store).accounts@.len() == old(store).accounts@.len()
            &&& (forall|j: int|
                0 <= j < final(store).accounts@.len()
                    ==> (#[trigger] final(store).accounts@[j]).id == old(store).accounts@[j].id
                    && final(store).accounts@[j].email == old(store).accounts@[j].email
                    && final(store).accounts@[j].eoa_private_address == old(
                    store,
                ).accounts@[j].eoa_private_address && final(store).accounts@[j].updated_at == old(
                    store,
                ).accounts@[j].updated_at)
            &&& (forall|j: int|
                0 <= j < final(store).accounts@.len() && old(store).accounts@[j].id
                    != acting_account_id ==> (#[trigger] final(store).accounts@[j]).wallet_address
                    == old(store).accounts@[j].wallet_address
                    && final(store).accounts@[j].eoa_address == old(
                    store,
                ).accounts@[j].eoa_address)
            &&& (forall|j: int|
                0 <= j < final(store).accounts@.len() && old(store).accounts@[j].id
                    == acting_account_id
                    ==> (#[trigger] final(store).accounts@[j]).wallet_address@ == (
                match wallet_address {
                    Some(w) => w@,
                    None => Seq::<char>::empty(),
                }) && final(store).accounts@[j].eoa_address@ == (match eoa_address {
                    Some(e) => e@,
                    None => Seq::<char>::empty(),
                }))
        }),
{
    if !is_valid_email(email.as_str()) {
        return Err(CoreError::InvalidInput { offending: Vec::new() });
    }
    if account_repo::find_by_id(store, acting_account_id).is_none() {
        return Err(CoreError::NotFound);
    }
    let updated = wallet_address.is_some() || eoa_address.is_some();
    account_repo::update(store, acting_account_id, wallet_address, eoa_address);
    Ok(AccountUpdateResponse { updated })
}

/// The account row keyed by this email (meaningful when one exists).
pub open spec fn account_row_for_email(accs: Seq<Account>, email: Seq<char>) -> Account {
    accs[choose|i: int| 0 <= i < accs.len() && (#[trigger] accs[i]).email@ == email]
}

/// Look one account up by its email.
pub fn get_account_by_email(store: &Store, email: &String) -> (r: Result<Account, CoreError>)
    requires
        store.wf(),
    ensures
        (r is Ok) == (email_ok(email@) && account_email_taken(store.accounts@, email@)),
        (r matches Err(e) ==> ((e matches CoreError::InvalidInput { .. }) <==> !email_ok(email@))),
        (r matches Err(e) ==> (e is NotFound <==> (email_ok(email@) && !account_email_taken(
            store.accounts@,
            email@,
        )))),
        (r matches Ok(a) ==> acct_eqv(account_row_for_email(store.accounts@, email@), a)),
{
    if !is_valid_email(email.as_str()) {
        return Err(CoreError::InvalidInput { offending: Vec::new() });
    }
    match account_repo::find_by_email(store, email) {
        Some(a) => {
            proof {
                let accs = store.accounts@;
                let e = choose|i: int| 0 <= i < accs.len() && #[trigger] accs[i] == *a;
                let c = choose|i: int| 0 <= i < accs.len() && (#[trigger] accs[i]).email@ == email@;
                assert(accs[e].email@ == email@ && accs[c].email@ == email@);
                assert(e == c);
            }
            Ok(account_repo::clone_account(a))
        },
        None => Err(CoreError::NotFound),
    }
}

/// The accounts a listing call selects: by wallet address, else by eoa
/// address, else by email, else the whole table.
pub open spec fn selected_accounts(store: Store, params: AccountParams) -> Seq<Account> {
    match params.wallet_address {
        Some(w) => store.accounts@.filter(acct_by_wallet(w@)),
        None => match params.eoa_address {
            Some(e) => store.accounts@.filter(acct_by_eoa(e@)),
            None => match params.email {
                Some(em) => store.accounts@.filter(acct_by_email(em@)),
                None => store.accounts@,
            },
        },
    }
}

/// List accounts under the given filter.
pub fn get_accounts(store: &Store, params: &AccountParams) -> (r: Vec<Account>)
    ensures
        r@.len() == selected_accounts(*store, *params).len(),
        forall|k: int|
            0 <= k < r@.len() ==> acct_eqv(selected_accounts(*store, *params)[k], #[trigger] r@[k]),
{
    match &params.wallet_address {
        Some(w) => account_repo::find_all_by_wallet_address(store, w),
        None => match &params.eoa_address {
            Some(e) => account_repo::find_all_by_eoa_address(store, e),
            None => match &params.email {
                Some(em) => account_repo::find_all_by_email_address(store, em),
                None => account_repo::find_all(store),
            },
        },
    }
}

} // verus!
