//! The guardian registry: what an account sees of its guardians, what a
//! guardian sees of its accounts, and safe removal of a link.

use vstd::prelude::*;

verus! {

use crate::api;
use crate::api::AccountGuardianDeleteResponse;
use crate::api::AccountGuardianParams;
use crate::api::GuardianAccountParams;
use crate::entities::AccountGuardian;
use crate::entities::Guardian;
use crate::entities::GuardianStatus;
use crate::entities::guardian_status_parse;
use crate::errors::CoreError;
use crate::guardian_account_repo;
use crate::guardian_account_repo::ag_of_account;
use crate::guardian_account_repo::ag_of_account_status;
use crate::guardian_account_repo::ag_of_guardian;
use crate::guardian_account_repo::ag_of_pair;
use crate::guardian_account_repo::choose_removed;
use crate::account_repo;
use crate::account_repo::acct_in_ids;
use crate::guardian_repo;
use crate::store::Store;
use crate::store::has_account;
use crate::store::has_guardian;
use crate::store::same_except_account_guardians;

/// The email of the guardian with this id, or nothing when the join does
/// not resolve.
pub open spec fn guardian_email_of(gs: Seq<Guardian>, guardian_id: u64) -> Seq<char> {
    if has_guardian(gs, guardian_id) {
        gs[choose|i: int| 0 <= i < gs.len() && (#[trigger] gs[i]).id == guardian_id].email@
    } else {
        Seq::empty()
    }
}

/// The wallet address of the guardian with this id, or nothing when the
/// join does not resolve or no address is recorded.
pub open spec fn guardian_wallet_of(gs: Seq<Guardian>, guardian_id: u64) -> Seq<char> {
    if has_guardian(gs, guardian_id) {
        match gs[choose|i: int|
            0 <= i < gs.len() && (#[trigger] gs[i]).id == guardian_id].wallet_address {
            Some(w) => w@,
            None => Seq::empty(),
        }
    } else {
        Seq::empty()
    }
}

/// `out` is exactly `rows` joined against the guardian table: same row
/// ids and statuses, emails and wallet addresses resolved by guardian id,
/// unresolved joins defaulting to the empty string.
pub open spec fn projects_rows(
    rows: Seq<AccountGuardian>,
    gs: Seq<Guardian>,
    out: Seq<api::AccountGuardian>,
) -> bool {
    &&& out.len() == rows.len()
    &&& forall|i: int|
        0 <= i < rows.len() ==> (#[trigger] out[i]).id == rows[i].id && out[i].status
            == rows[i].status && out[i].email@ == guardian_email_of(gs, rows[i].guardian_id)
            && out[i].wallet_address@ == guardian_wallet_of(gs, rows[i].guardian_id)
}

/// Join each account-guardian row against the guardian table.
pub fn to_account_guardians(store: &Store, rows: &Vec<AccountGuardian>) -> (r: Vec<
    api::AccountGuardian,
>)
    requires
        store.wf(),
    ensures
        projects_rows(rows@, store.guardians@, r@),
{
    let mut r: Vec<api::AccountGuardian> = Vec::new();
    let n: usize = rows.len();
    let mut i: usize = 0;
    while i < n
        invariant
            store.wf(),
            n == rows@.len(),
            i <= n,
            r@.len() == i,
            forall|k: int|
                0 <= k < i ==> (#[trigger] r@[k]).id == rows@[k].id && r@[k].status
                    == rows@[k].status && r@[k].email@ == guardian_email_of(
                    store.guardians@,
                    rows@[k].guardian_id,
                ) && r@[k].wallet_address@ == guardian_wallet_of(
                    store.guardians@,
                    rows@[k].guardian_id,
                ),
        decreases n - i,
    {
        let row = rows[i];
        let (email, wallet) = match guardian_repo::find_by_id(store, row.guardian_id) {
            Some(g) => {
                proof {
                    let gs = store.guardians@;
                    let e = choose|k: int| 0 <= k < gs.len() && #[trigger] gs[k] == *g;
                    let c = choose|k: int|
                        0 <= k < gs.len() && (#[trigger] gs[k]).id == row.guardian_id;
                    assert(gs[e].id == row.guardian_id && gs[c].id == row.guardian_id);
                    assert(e == c);
                }
                let email = g.email.clone();
                let wallet = match &g.wallet_address {
                    Some(w) => w.clone(),
                    None => String::new(),
                };
                (email, wallet)
            },
            None => (String::new(), String::new()),
        };
        r.push(
            api::AccountGuardian { id: row.id, email, wallet_address: wallet, status: row.status },
        );
        i += 1;
    }
    r
}

/// The account-guardian rows a listing call selects: by guardian id, else
/// by status (an unrecognised status word selects nothing), else every
/// row of the account.
pub open spec fn selected_guardian_rows(
    store: Store,
    account_id: u64,
    params: AccountGuardianParams,
) -> Seq<AccountGuardian> {
    match params.guardian_id {
        Some(gid) => store.account_guardians@.filter(ag_of_pair(gid, account_id)),
        None => match params.status {
            Some(st) => match guardian_status_parse(st@) {
                Some(s) => store.account_guardians@.filter(ag_of_account_status(account_id, s)),
                None => Seq::empty(),
            },
            None => store.account_guardians@.filter(ag_of_account(account_id)),
        },
    }
}

/// List the acting account's guardians, joined against the guardian
/// table, under the given filter. The status filter is matched
/// case-insensitively.
pub fn list_account_guardians(
    store: &Store,
    acting_account_id: u64,
    params: &AccountGuardianParams,
) -> (r: Result<Vec<api::AccountGuardian>, CoreError>)
    requires
        store.wf(),
    ensures
        (r is Ok) == has_account(store.accounts@, acting_account_id),
        (r matches Err(e) ==> e is NotFound),
        (r matches Ok(v) ==> projects_rows(
            selected_guardian_rows(*store, acting_account_id, *params),
            store.guardians@,
            v@,
        )),
{
    if account_repo::find_by_id(store, acting_account_id).is_none() {
        return Err(CoreError::NotFound);
    }
    let rows: Vec<AccountGuardian> = match &params.guardian_id {
        Some(gid) => guardian_account_repo::find_all_accounts_by_guardian_id_and_account_id(
            store,
            *gid,
            acting_account_id,
        ),
        None => match &params.status {
            Some(st) => match crate::entities::parse_guardian_status(st.as_str()) {
                Some(s) => guardian_account_repo::find_all_guardians_by_account_id_and_status(
                    store,
                    acting_account_id,
                    s,
                ),
                None => Vec::new(),
            },
            None => guardian_account_repo::find_all_guardians_by_account_id(
                store,
                acting_account_id,
            ),
        },
    };
    Ok(to_account_guardians(store, &rows))
}

/// `i` is the first row (in table order) linking this guardian to this
/// account.
pub open spec fn is_first_pair(
    rows: Seq<AccountGuardian>,
    guardian_id: u64,
    account_id: u64,
    i: int,
) -> bool {
    &&& 0 <= i < rows.len()
    &&& ag_of_pair(guardian_id, account_id)(rows[i])
    &&& forall|j: int| 0 <= j < i ==> !ag_of_pair(guardian_id, account_id)(#[trigger] rows[j])
}

/// Remove the link between the acting account and this guardian. The
/// first matching row decides: it must be `Available`; an `Active`
/// guardian has to be demoted through a settings update first. On any
/// failure the store is untouched and the row remains.
pub fn remove_account_guardian(
    store: &mut Store,
    acting_account_id: u64,
    guardian_id: u64,
) -> (r: Result<AccountGuardianDeleteResponse, CoreError>)
    requires
        old(store).wf(),
    ensures
        final(store).wf(),
        (r is Ok) == (has_account(old(store).accounts@, acting_account_id) && exists|i: int|
            is_first_pair(old(store).account_guardians@, guardian_id, acting_account_id, i)
                && old(store).account_guardians@[i].status == GuardianStatus::Available),
        (r matches Ok(resp) ==> resp.guardian_id == guardian_id
            && same_except_account_guardians(*old(store), *final(store)) && final(store).next_id
            == old(store).next_id && exists|i: int|
            is_first_pair(old(store).account_guardians@, guardian_id, acting_account_id, i)
                && final(store).account_guardians@ == old(store).account_guardians@.remove(i)),
        (r is Err ==> *final(store) == *old(store)),
        (r matches Err(e) ==> (e is NotFound || e is InvalidState)),
        (r matches Err(e) ==> (e is NotFound <==> (!has_account(
            old(store).accounts@,
            acting_account_id,
        ) || (forall|j: int|
            0 <= j < old(store).account_guardians@.len() ==> !ag_of_pair(
                guardian_id,
                acting_account_id,
            )(#[trigger] old(store).account_guardians@[j]))))),
{
    if account_repo::find_by_id(store, acting_account_id).is_none() {
        return Err(CoreError::NotFound);
    }
    match guardian_account_repo::find_guardian_by_guardian_id_and_account_id(
        store,
        guardian_id,
        acting_account_id,
    ) {
        Some(ag) => {
            if ag.status == GuardianStatus::Available {
                let ghost rows = store.account_guardians@;
                let ghost fi = choose|i: int|
                    0 <= i < rows.len() && rows[i] == ag && ag_of_pair(
                        guardian_id,
                        acting_account_id,
                    )(ag) && (forall|j: int|
                        0 <= j < i ==> !ag_of_pair(guardian_id, acting_account_id)(
                            #[trigger] rows[j],
                        ));
                guardian_account_repo::delete_by_id(store, ag.id);
                proof {
                    assert(is_first_pair(rows, guardian_id, acting_account_id, fi));
                    assert(rows[fi].id == ag.id);
                    let c = choose|i: int| 0 <= i < rows.len() && (#[trigger] rows[i]).id == ag.id;
                    assert(rows[c].id == ag.id);
                    assert(c == fi);
                    assert(choose_removed(rows, ag.id) == Some(fi));
                }
                Ok(AccountGuardianDeleteResponse { guardian_id })
            } else {
                Err(CoreError::InvalidState)
            }
        },
        None => Err(CoreError::NotFound),
    }
}

/// The guardian-account rows a listing call selects for this guardian:
/// filtered to one nominating account when asked.
pub open spec fn selected_account_rows(
    store: Store,
    guardian_row_id: u64,
    params: GuardianAccountParams,
) -> Seq<AccountGuardian> {
    match params.account_id {
        Some(aid) => store.account_guardians@.filter(ag_of_pair(guardian_row_id, aid)),
        None => store.account_guardians@.filter(ag_of_guardian(guardian_row_id)),
    }
}

/// `out` projects the accounts whose id is listed, in account-table
/// order.
pub open spec fn projects_accounts(
    accounts: Seq<crate::entities::Account>,
    ids: Seq<u64>,
    out: Seq<api::GuardianAccount>,
) -> bool {
    &&& out.len() == accounts.filter(acct_in_ids(ids)).len()
    &&& forall|k: int|
        0 <= k < out.len() ==> (#[trigger] out[k]).id == accounts.filter(acct_in_ids(ids))[k].id
            && out[k].email@ == accounts.filter(acct_in_ids(ids))[k].email@
            && out[k].wallet_address@ == accounts.filter(acct_in_ids(ids))[k].wallet_address@
}

/// List the accounts the acting account protects as a guardian. An
/// account that is nobody's guardian gets an empty list, not an error.
pub fn list_accounts_for_guardian(
    store: &Store,
    acting_account_id: u64,
    params: &GuardianAccountParams,
) -> (r: Vec<api::GuardianAccount>)
    requires
        store.wf(),
    ensures
        (forall|i: int|
            0 <= i < store.guardians@.len() ==> (#[trigger] store.guardians@[i]).account_id
                != Some(acting_account_id)) ==> r@.len() == 0,
        (exists|i: int|
            0 <= i < store.guardians@.len() && #[trigger] store.guardians@[i].account_id == Some(
                acting_account_id,
            ) && projects_accounts(
                store.accounts@,
                selected_account_rows(*store, store.guardians@[i].id, *params).map_values(
                    |g: AccountGuardian| g.account_id,
                ),
                r@,
            )) || (forall|i: int|
            0 <= i < store.guardians@.len() ==> (#[trigger] store.guardians@[i]).account_id
                != Some(acting_account_id)),
{
    let g = match guardian_repo::find_by_account_id(store, acting_account_id) {
        Some(g) => g,
        None => {
            return Vec::new();
        },
    };
    let rows: Vec<AccountGuardian> = match &params.account_id {
        Some(aid) => guardian_account_repo::find_all_accounts_by_guardian_id_and_account_id(
            store,
            g.id,
            *aid,
        ),
        None => guardian_account_repo::find_all_accounts_by_guardian_id(store, g.id),
    };
    let mut ids: Vec<u64> = Vec::new();
    let n: usize = rows.len();
    let mut i: usize = 0;
    while i < n
        invariant
            n == rows@.len(),
            i <= n,
            ids@ == rows@.take(i as int).map_values(|g: AccountGuardian| g.account_id),
        decreases n - i,
    {
        ids.push(rows[i].account_id);
        proof {
            assert(rows@.take(i + 1) =~= rows@.take(i as int).push(rows@[i as int]));
            assert(rows@.take(i + 1).map_values(|g: AccountGuardian| g.account_id) =~= rows@.take(
                i as int,
            ).map_values(|g: AccountGuardian| g.account_id).push(rows@[i as int].account_id));
        }
        i += 1;
    }
    proof {
        assert(rows@.take(n as int) =~= rows@);
    }
    let accounts = account_repo::find_all_by_account_ids(store, &ids);
    let mut r: Vec<api::GuardianAccount> = Vec::new();
    let m: usize = accounts.len();
    let mut k: usize = 0;
    while k < m
        invariant
            m == accounts@.len(),
            k <= m,
            r@.len() == k,
            forall|j: int|
                0 <= j < k ==> (#[trigger] r@[j]).id == accounts@[j].id && r@[j].email@
                    == accounts@[j].email@ && r@[j].wallet_address@
                    == accounts@[j].wallet_address@,
        decreases m - k,
    {
        let a = &accounts[k];
        r.push(
            api::GuardianAccount {
                id: a.id,
                email: a.email.clone(),
                wallet_address: a.wallet_address.clone(),
            },
        );
        k += 1;
    }
    r
}

} // verus!
