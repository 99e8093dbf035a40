//! The signing-policy engine: reading an account's guardian settings and
//! applying a new M-of-N strategy with its exact active-guardian set.

use vstd::prelude::*;

verus! {

use crate::account_repo;
use crate::api;
use crate::api::AccountGuardianSettingsResponse;
use crate::api::SigningStrategy;
use crate::api::threshold;
use crate::entities::AccountGuardian;
use crate::entities::GuardianStatus;
use crate::errors::CoreError;
use crate::guardian_account_repo;
use crate::guardian_account_repo::ag_of_account_in;
use crate::guardian_account_repo::ag_of_account_status;
use crate::guardian_account_repo::ag_with_status;
use crate::guardian_settings_repo;
use crate::guardian_settings_repo::has_settings;
use crate::guardian_settings_repo::settings_of;
use crate::guardians::projects_rows;
use crate::guardians::to_account_guardians;
use crate::store::Store;
use crate::store::has_account;

/// The catalogue of strategies in presentation order.
pub open spec fn strategy_catalogue() -> Seq<SigningStrategy> {
    seq![
        SigningStrategy::OneOfOne,
        SigningStrategy::OneOfTwo,
        SigningStrategy::TwoOfTwo,
        SigningStrategy::OneOfThree,
        SigningStrategy::TwoOfThree,
        SigningStrategy::ThreeOfThree,
    ]
}

/// The proposed guardian count matches the strategy's threshold; anything
/// else is a policy error.
pub fn validate_guardian_quantity(signer: SigningStrategy, account_guardian_ids: &Vec<u64>) -> (r:
    Result<(), CoreError>)
    ensures
        (r is Ok) == (account_guardian_ids@.len() == threshold(signer)),
        (r matches Err(e) ==> e is InvalidPolicy),
{
    let required = SigningStrategy::get_signers_for(signer);
    if account_guardian_ids.len() as u64 != required {
        Err(CoreError::InvalidPolicy)
    } else {
        Ok(())
    }
}

/// Some row of this account carries this row id.
pub open spec fn id_belongs(rows: Seq<AccountGuardian>, account_id: u64, x: u64) -> bool {
    exists|i: int|
        0 <= i < rows.len() && (#[trigger] rows[i]).account_id == account_id && rows[i].id == x
}

/// Whether one proposed row id belongs to the account.
fn row_id_belongs(store: &Store, account_id: u64, x: u64) -> (b: bool)
    ensures
        b == id_belongs(store.account_guardians@, account_id, x),
{
    let n: usize = store.account_guardians.len();
    let mut i: usize = 0;
    while i < n
        invariant
            n == store.account_guardians@.len(),
            i <= n,
            forall|j: int|
                0 <= j < i ==> !((#[trigger] store.account_guardians@[j]).account_id == account_id
                    && store.account_guardians@[j].id == x),
        decreases n - i,
    {
        if store.account_guardians[i].account_id == account_id && store.account_guardians[i].id
            == x {
            return true;
        }
        i += 1;
    }
    false
}

/// Predicate on a proposed id: it does not belong to the account.
pub open spec fn id_foreign(rows: Seq<AccountGuardian>, account_id: u64) -> spec_fn(u64) -> bool {
    |x: u64| !id_belongs(rows, account_id, x)
}

/// Every proposed row id must belong to the acting account: the rows
/// resolved by id must be as many as the ids proposed. The error lists
/// the ids that belong to no row of the account.
pub fn validate_guardians_for_account(
    store: &Store,
    account_guardian_ids: &Vec<u64>,
    account_id: u64,
) -> (r: Result<(), CoreError>)
    ensures
        (r is Ok) == (store.account_guardians@.filter(
            ag_of_account_in(account_id, account_guardian_ids@),
        ).len() == account_guardian_ids@.len()),
        (r matches Err(e) ==> e matches CoreError::InvalidInput { offending } && offending@
            == account_guardian_ids@.filter(id_foreign(store.account_guardians@, account_id))),
{
    let resolved = guardian_account_repo::find_all_guardians_for_account_by_ids(
        store,
        account_guardian_ids,
        account_id,
    );
    if resolved.len() == account_guardian_ids.len() {
        Ok(())
    } else {
        let mut offending: Vec<u64> = Vec::new();
        let n: usize = account_guardian_ids.len();
        let mut i: usize = 0;
        while i < n
            invariant
                n == account_guardian_ids@.len(),
                i <= n,
                offending@ == account_guardian_ids@.take(i as int).filter(
                    id_foreign(store.account_guardians@, account_id),
                ),
            decreases n - i,
        {
            let x = account_guardian_ids[i];
            if !row_id_belongs(store, account_id, x) {
                offending.push(x);
            }
            proof {
                broadcast use vstd::prelude::Seq::lemma_filter_push;

                let s = account_guardian_ids@;
                let p = id_foreign(store.account_guardians@, account_id);
                assert(s.take(i + 1) =~= s.take(i as int).push(s[i as int]));
                assert(s.take(i + 1).filter(p) == if p(s[i as int]) {
                    s.take(i as int).filter(p).push(s[i as int])
                } else {
                    s.take(i as int).filter(p)
                });
            }
            i += 1;
        }
        proof {
            assert(account_guardian_ids@.take(n as int) =~= account_guardian_ids@);
        }
        Err(CoreError::InvalidInput { offending })
    }
}

/// Read this account's signing strategy, its active guardians joined
/// against the guardian table, and the strategy catalogue. Reading
/// changes nothing, so two reads without a write in between agree.
pub fn get_guardian_settings(store: &Store, acting_account_id: u64) -> (r: Result<
    AccountGuardianSettingsResponse,
    CoreError,
>)
    requires
        store.wf(),
    ensures
        (r is Ok) == (has_account(store.accounts@, acting_account_id) && has_settings(
            store.guardian_settings@,
            acting_account_id,
        )),
        (r matches Err(e) ==> e is NotFound),
        (r matches Ok(resp) ==> resp.signers == settings_of(
            store.guardian_settings@,
            acting_account_id,
        ) && resp.signing_strategies@ == strategy_catalogue() && projects_rows(
            store.account_guardians@.filter(
                ag_of_account_status(acting_account_id, GuardianStatus::Active),
            ),
            store.guardians@,
            resp.active_guardians@,
        )),
{
    if account_repo::find_by_id(store, acting_account_id).is_none() {
        return Err(CoreError::NotFound);
    }
    let s = match guardian_settings_repo::find_for_account_id(store, acting_account_id) {
        Some(s) => s,
        None => {
            return Err(CoreError::NotFound);
        },
    };
    proof {
        let t = store.guardian_settings@;
        let e = choose|i: int| 0 <= i < t.len() && #[trigger] t[i] == s;
        let c = choose|i: int| 0 <= i < t.len() && (#[trigger] t[i]).account_id == acting_account_id;
        assert(t[e].account_id == acting_account_id && t[c].account_id == acting_account_id);
        assert(e == c);
    }
    let rows = guardian_account_repo::find_all_active_guardians_by_account_id(
        store,
        acting_account_id,
    );
    let active_guardians = to_account_guardians(store, &rows);
    Ok(
        AccountGuardianSettingsResponse {
            signing_strategies: SigningStrategy::all(),
            signers: s.signers,
            active_guardians,
        },
    )
}

/// What the guardian table's statuses look like after a successful
/// settings update: the listed rows of the account are active, its other
/// rows available, and other accounts' rows untouched.
pub open spec fn rows_after_update(
    pre: Seq<AccountGuardian>,
    post: Seq<AccountGuardian>,
    account_id: u64,
    ids: Seq<u64>,
) -> bool {
    &&& post.len() == pre.len()
    &&& forall|j: int|
        0 <= j < post.len() ==> #[trigger] post[j] == ag_with_status(
            pre[j],
            if pre[j].account_id == account_id {
                if ids.contains(pre[j].id) {
                    GuardianStatus::Active
                } else {
                    GuardianStatus::Available
                }
            } else {
                pre[j].status
            },
        )
}

/// Apply a new signing strategy for the acting account.
///
/// Validation runs before any write: the proposed guardian count must
/// match the strategy's threshold, and every proposed row id must belong
/// to the account (its current status does not matter). Then the strategy
/// is persisted (the row is created on first write), every row of the
/// account is reset to `Available`, and exactly the proposed rows are set
/// to `Active`, so no stale active guardian survives. The response shows
/// the new strategy and the re-read active set.
pub fn update_guardian_settings(
    store: &mut Store,
    acting_account_id: u64,
    signers: SigningStrategy,
    guardians: &Vec<u64>,
) -> (r: Result<AccountGuardianSettingsResponse, CoreError>)
    requires
        old(store).wf(),
        old(store).next_id < u64::MAX,
    ensures
        final(store).wf(),
        (r is Ok) == (has_account(old(store).accounts@, acting_account_id) && guardians@.len()
            == threshold(signers) && old(store).account_guardians@.filter(
            ag_of_account_in(acting_account_id, guardians@),
        ).len() == guardians@.len()),
        (r is Err ==> *final(store) == *old(store)),
        (r matches Err(e) ==> (e is NotFound <==> !has_account(
            old(store).accounts@,
            acting_account_id,
        ))),
        (r matches Err(e) ==> (e is InvalidPolicy <==> (has_account(
            old(store).accounts@,
            acting_account_id,
        ) && guardians@.len() != threshold(signers)))),
        (r matches Err(e) ==> (e matches CoreError::InvalidInput { .. } <==> (has_account(
            old(store).accounts@,
            acting_account_id,
        ) && guardians@.len() == threshold(signers)))),
        (r matches Err(e) ==> (e matches CoreError::InvalidInput { offending } ==> offending@
            == guardians@.filter(
            id_foreign(old(store).account_guardians@, acting_account_id),
        ))),
        (r is Ok ==> {
            &&& final(store).accounts == old(store).accounts
            &&& final(store).guardians == old(store).guardians
            &&& final(store).nominations == old(store).nominations
            &&& final(store).verifications == old(store).verifications
            &&& rows_after_update(
                old(store).account_guardians@,
                final(store).account_guardians@,
                acting_account_id,
                guardians@,
            )
            &&& has_settings(final(store).guardian_settings@, acting_account_id)
            &&& settings_of(final(store).guardian_settings@, acting_account_id) == signers
            &&& final(store).guardian_settings@.len() == old(store).guardian_settings@.len() + (
            if has_settings(old(store).guardian_settings@, acting_account_id) {
                0int
            } else {
                1int
            })
            &&& forall|j: int|
                0 <= j < old(store).guardian_settings@.len()
                    ==> (#[trigger] final(store).guardian_settings@[j]).id == old(
                    store,
                ).guardian_settings@[j].id && final(store).guardian_settings@[j].account_id == old(
                    store,
                ).guardian_settings@[j].account_id && final(store).guardian_settings@[j].signers
                    == (if old(store).guardian_settings@[j].account_id == acting_account_id {
                    signers
                } else {
                    old(store).guardian_settings@[j].signers
                })
        }),
        (r matches Ok(resp) ==> resp.signers == signers && resp.signing_strategies@
            == strategy_catalogue() && projects_rows(
            final(store).account_guardians@.filter(
                ag_of_account_status(acting_account_id, GuardianStatus::Active),
            ),
            final(store).guardians@,
            resp.active_guardians@,
        )),
{
    if account_repo::find_by_id(store, acting_account_id).is_none() {
        return Err(CoreError::NotFound);
    }
    match validate_guardian_quantity(signers, guardians) {
        Err(e) => {
            return Err(e);
        },
        Ok(()) => (),
    }
    match validate_guardians_for_account(store, guardians, acting_account_id) {
        Err(e) => {
            return Err(e);
        },
        Ok(()) => (),
    }
    let had_settings = guardian_settings_repo::find_for_account_id(
        store,
        acting_account_id,
    ).is_some();
    if had_settings {
        guardian_settings_repo::update_settings_for_account_id(store, acting_account_id, signers);
        proof {
            let t0 = old(store).guardian_settings@;
            let t1 = store.guardian_settings@;
            let c = choose|i: int|
                0 <= i < t0.len() && (#[trigger] t0[i]).account_id == acting_account_id;
            assert(t1[c].account_id == acting_account_id && t1[c].signers == signers);
            let c1 = choose|i: int|
                0 <= i < t1.len() && (#[trigger] t1[i]).account_id == acting_account_id;
            assert(t1[c1].account_id == acting_account_id);
            assert(c1 == c);
        }
    } else {
        guardian_settings_repo::create(store, signers, acting_account_id);
        proof {
            let t1 = store.guardian_settings@;
            let last = t1.len() - 1;
            assert(t1[last].account_id == acting_account_id && t1[last].signers == signers);
            let c1 = choose|i: int|
                0 <= i < t1.len() && (#[trigger] t1[i]).account_id == acting_account_id;
            assert(t1[c1].account_id == acting_account_id);
            assert(c1 == last);
        }
    }
    let ghost mid = *store;
    guardian_account_repo::update_all_guardians_for_account_to_status(
        store,
        acting_account_id,
        GuardianStatus::Available,
    );
    let ghost mid2 = *store;
    guardian_account_repo::update_guardians_for_account_to_status(
        store,
        acting_account_id,
        guardians,
        GuardianStatus::Active,
    );
    proof {
        let s0 = old(store).account_guardians@;
        let s1 = mid2.account_guardians@;
        let s2 = store.account_guardians@;
        assert forall|j: int|
            0 <= j < s2.len() implies #[trigger] s2[j] == ag_with_status(
            s0[j],
            if s0[j].account_id == acting_account_id {
                if guardians@.contains(s0[j].id) {
                    GuardianStatus::Active
                } else {
                    GuardianStatus::Available
                }
            } else {
                s0[j].status
            },
        ) by {
            assert(s1[j] == ag_with_status(
                s0[j],
                if s0[j].account_id == acting_account_id {
                    GuardianStatus::Available
                } else {
                    s0[j].status
                },
            ));
        }
    }
    let rows = guardian_account_repo::find_all_active_guardians_by_account_id(
        store,
        acting_account_id,
    );
    let active_guardians = to_account_guardians(store, &rows);
    Ok(
        AccountGuardianSettingsResponse {
            signing_strategies: SigningStrategy::all(),
            signers,
            active_guardians,
        },
    )
}

} // verus!
