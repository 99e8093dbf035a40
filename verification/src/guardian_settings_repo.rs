//! Table access for [`GuardianSettings`] rows: one row per account holding
//! its signing strategy.

use vstd::prelude::*;

verus! {

use crate::api::SigningStrategy;
use crate::entities::GuardianSettings;
use crate::store::Store;
use crate::store::has_account;
use crate::store::same_except_settings;

/// Some settings row belongs to this account.
pub open spec fn has_settings(s: Seq<GuardianSettings>, account_id: u64) -> bool {
    exists|i: int| 0 <= i < s.len() && (#[trigger] s[i]).account_id == account_id
}

/// The strategy stored for this account (meaningful when a row exists).
pub open spec fn settings_of(s: Seq<GuardianSettings>, account_id: u64) -> SigningStrategy {
    s[choose|i: int| 0 <= i < s.len() && (#[trigger] s[i]).account_id == account_id].signers
}

/// Append the settings row for an account that has none yet.
pub fn create(store: &mut Store, signers: SigningStrategy, account_id: u64) -> (id: u64)
    requires
        old(store).wf(),
        old(store).next_id < u64::MAX,
        has_account(old(store).accounts@, account_id),
        !has_settings(old(store).guardian_settings@, account_id),
    ensures
        final(store).wf(),
        id == old(store).next_id,
        final(store).next_id == old(store).next_id + 1,
        same_except_settings(*old(store), *final(store)),
        final(store).guardian_settings@ == old(store).guardian_settings@.push(
            GuardianSettings { id, signers, account_id },
        ),
{
    let id = store.next_id;
    store.next_id = store.next_id + 1;
    store.guardian_settings.push(GuardianSettings { id, signers, account_id });
    id
}

/// The settings row for this account, if any.
pub fn find_for_account_id(store: &Store, account_id: u64) -> (r: Option<GuardianSettings>)
    ensures
        (r is Some) == has_settings(store.guardian_settings@, account_id),
        (r matches Some(s) ==> s.account_id == account_id && exists|i: int|
            0 <= i < store.guardian_settings@.len() && #[trigger] store.guardian_settings@[i]
                == s),
{
    let n: usize = store.guardian_settings.len();
    let mut i: usize = 0;
    while i < n
        invariant
            n == store.guardian_settings@.len(),
            i <= n,
            forall|j: int|
                0 <= j < i ==> (#[trigger] store.guardian_settings@[j]).account_id != account_id,
        decreases n - i,
    {
        if store.guardian_settings[i].account_id == account_id {
            return Some(store.guardian_settings[i]);
        }
        i += 1;
    }
    None
}

/// Store `signers` as this account's strategy. Rows of other accounts are
/// untouched; ownership and row ids never change.
pub fn update_settings_for_account_id(store: &mut Store, account_id: u64, signers: SigningStrategy)
    requires
        old(store).wf(),
    ensures
        final(store).wf(),
        final(store).next_id == old(store).next_id,
        same_except_settings(*old(store), *final(store)),
        final(store).guardian_settings@.len() == old(store).guardian_settings@.len(),
        forall|j: int|
            0 <= j < final(store).guardian_settings@.len()
                ==> (#[trigger] final(store).guardian_settings@[j]).id == old(
                store,
            ).guardian_settings@[j].id && final(store).guardian_settings@[j].account_id == old(
                store,
            ).guardian_settings@[j].account_id && final(store).guardian_settings@[j].signers == (
            if old(store).guardian_settings@[j].account_id == account_id {
                signers
            } else {
                old(store).guardian_settings@[j].signers
            }),
{
    let n: usize = store.guardian_settings.len();
    let mut i: usize = 0;
    while i < n
        invariant
            old(store).wf(),
            n == store.guardian_settings@.len(),
            n == old(store).guardian_settings@.len(),
            i <= n,
            store.next_id == old(store).next_id,
            same_except_settings(*old(store), *store),
            forall|j: int|
                0 <= j < i ==> (#[trigger] store.guardian_settings@[j]).id == old(
                    store,
                ).guardian_settings@[j].id && store.guardian_settings@[j].account_id == old(
                    store,
                ).guardian_settings@[j].account_id && store.guardian_settings@[j].signers == (
                if old(store).guardian_settings@[j].account_id == account_id {
                    signers
                } else {
                    old(store).guardian_settings@[j].signers
                }),
            forall|j: int|
                i <= j < n ==> #[trigger] store.guardian_settings@[j] == old(
                    store,
                ).guardian_settings@[j],
        decreases n - i,
    {
        if store.guardian_settings[i].account_id == account_id {
            let mut row = store.guardian_settings[i];
            row.signers = signers;
            store.guardian_settings[i] = row;
        }
        i += 1;
    }
}

} // verus!
