//! Library-wide laws, stated and proved over the same spec functions the
//! operations' contracts use.

use vstd::prelude::*;

verus! {

use vstd::seq_lib::group_seq_properties;
use vstd::set_lib::lemma_len_subset;
use crate::api::AccountGuardianSettingsResponse;
use crate::entities::AccountGuardian;
use crate::entities::Guardian;
use crate::entities::GuardianStatus;
use crate::entities::NominationStatus;
use crate::guardian_account_repo::ag_of_account_in;
use crate::guardians::projects_rows;
use crate::nominations::transition_allowed;
use crate::settings::rows_after_update;
use crate::store::Store;

/// Every element a filter keeps occurs in the filtered sequence.
proof fn lemma_filter_elements_are_members<A>(s: Seq<A>, pred: spec_fn(A) -> bool)
    ensures
        forall|k: int|
            0 <= k < s.filter(pred).len() ==> s.contains(#[trigger] s.filter(pred)[k]),
    decreases s.len(),
{
    reveal(Seq::filter);
    if s.len() > 0 {
        let d = s.drop_last();
        lemma_filter_elements_are_members(d, pred);
        assert forall|k: int|
            0 <= k < s.filter(pred).len() implies s.contains(#[trigger] s.filter(pred)[k]) by {
            if k < d.filter(pred).len() {
                assert(d.contains(d.filter(pred)[k]));
                let i = choose|i: int| 0 <= i < d.len() && d[i] == d.filter(pred)[k];
                assert(s[i] == d[i]);
            } else {
                assert(s.filter(pred)[k] == s.last());
                assert(s[s.len() - 1] == s.last());
            }
        }
    }
}

/// Filtering keeps a duplicate-free sequence duplicate-free.
proof fn lemma_filter_no_duplicates<A>(s: Seq<A>, pred: spec_fn(A) -> bool)
    requires
        s.no_duplicates(),
    ensures
        s.filter(pred).no_duplicates(),
    decreases s.len(),
{
    reveal(Seq::filter);
    if s.len() > 0 {
        let d = s.drop_last();
        lemma_filter_no_duplicates(d, pred);
        lemma_filter_elements_are_members(d, pred);
        if pred(s.last()) {
            assert forall|k: int| 0 <= k < d.filter(pred).len() implies d.filter(pred)[k]
                != s.last() by {
                assert(d.contains(d.filter(pred)[k]));
                let i = choose|i: int| 0 <= i < d.len() && d[i] == d.filter(pred)[k];
                assert(s[i] == d[i] && s[i] != s[s.len() - 1]);
            }
        }
    }
}

/// When the rows of an account resolved by a proposed id list are as many
/// as the proposed ids, every proposed id names a row of that account.
/// Behind the count: row ids are unique, so the resolved rows map
/// one-to-one into the proposed set, and one missing id would leave the
/// set too small.
proof fn lemma_proposed_ids_all_belong(rows: Seq<AccountGuardian>, account_id: u64, ids: Seq<u64>)
    requires
        forall|i: int, j: int|
            0 <= i < rows.len() && 0 <= j < rows.len() && i != j ==> (#[trigger] rows[i]).id != (
            #[trigger] rows[j]).id,
        rows.filter(ag_of_account_in(account_id, ids)).len() == ids.len(),
    ensures
        forall|x: u64|
            ids.contains(x) ==> exists|i: int|
                0 <= i < rows.len() && (#[trigger] rows[i]).account_id == account_id && rows[i].id
                    == x,
{
    broadcast use group_seq_properties;
    broadcast use vstd::seq_lib::group_seq_lib_default;

    let pred = ag_of_account_in(account_id, ids);
    let s = rows.filter(pred);
    lemma_filter_elements_are_members(rows, pred);
    assert(rows.no_duplicates()) by {
        assert forall|i: int, j: int|
            0 <= i < rows.len() && 0 <= j < rows.len() && i != j implies rows[i] != rows[j] by {
            assert(rows[i].id != rows[j].id);
        }
    }
    lemma_filter_no_duplicates(rows, pred);
    let s_ids = s.map_values(|g: AccountGuardian| g.id);
    assert(s_ids.no_duplicates()) by {
        assert forall|a: int, b: int|
            0 <= a < s_ids.len() && 0 <= b < s_ids.len() && a != b implies s_ids[a] != s_ids[b] by {
            assert(rows.contains(s[a]) && rows.contains(s[b]));
            let ia = choose|i: int| 0 <= i < rows.len() && rows[i] == s[a];
            let ib = choose|i: int| 0 <= i < rows.len() && rows[i] == s[b];
            assert(s[a] != s[b]);
            assert(s_ids[a] == s[a].id && s_ids[b] == s[b].id);
            if s[a].id == s[b].id {
                assert(rows[ia].id == rows[ib].id);
                assert(ia == ib);
            }
        }
    }
    assert forall|x: u64| ids.contains(x) implies exists|i: int|
        0 <= i < rows.len() && (#[trigger] rows[i]).account_id == account_id && rows[i].id
            == x by {
        if !(exists|i: int|
            0 <= i < rows.len() && (#[trigger] rows[i]).account_id == account_id && rows[i].id
                == x) {
            let target = ids.to_set().remove(x);
            assert(ids.to_set().contains(x));
            assert forall|k: int| 0 <= k < s_ids.len() implies target.contains(
                #[trigger] s_ids[k],
            ) by {
                assert(pred(s[k]));
                assert(ids.contains(s[k].id));
                assert(s[k].id != x);
                assert(s_ids[k] == s[k].id);
            }
            s_ids.unique_seq_to_set();
            assert(s_ids.to_set().subset_of(target)) by {
                assert forall|y: u64| s_ids.to_set().contains(y) implies target.contains(y) by {
                    assert(s_ids.contains(y));
                    let k = choose|k: int| 0 <= k < s_ids.len() && s_ids[k] == y;
                    assert(target.contains(s_ids[k]));
                }
            }
            lemma_len_subset(s_ids.to_set(), target);
            ids.lemma_cardinality_of_set();
            assert(target.len() == ids.to_set().len() - 1);
            assert(s.len() <= ids.len() - 1);
            assert(false);
        }
    }
}

/// After a successful settings update the account's active rows are
/// exactly the proposed ones: a row of the account is `Active` just when
/// its id was proposed, and every proposed id is found `Active` on a row
/// of the account. Rows of other accounts keep their status.
pub proof fn lemma_update_settings_exact_active(
    pre: Store,
    post_rows: Seq<AccountGuardian>,
    account_id: u64,
    ids: Seq<u64>,
)
    requires
        pre.wf(),
        rows_after_update(pre.account_guardians@, post_rows, account_id, ids),
        pre.account_guardians@.filter(ag_of_account_in(account_id, ids)).len() == ids.len(),
    ensures
        forall|j: int|
            0 <= j < post_rows.len() && (#[trigger] post_rows[j]).account_id == account_id ==> (
            post_rows[j].status == GuardianStatus::Active <==> ids.contains(post_rows[j].id)),
        forall|x: u64|
            ids.contains(x) ==> exists|j: int|
                0 <= j < post_rows.len() && (#[trigger] post_rows[j]).account_id == account_id
                    && post_rows[j].id == x && post_rows[j].status == GuardianStatus::Active,
        forall|j: int|
            0 <= j < post_rows.len() && (#[trigger] post_rows[j]).account_id != account_id
                ==> post_rows[j].status == pre.account_guardians@[j].status,
{
    let rows = pre.account_guardians@;
    lemma_proposed_ids_all_belong(rows, account_id, ids);
    assert forall|x: u64| ids.contains(x) implies exists|j: int|
        0 <= j < post_rows.len() && (#[trigger] post_rows[j]).account_id == account_id
            && post_rows[j].id == x && post_rows[j].status == GuardianStatus::Active by {
        let i = choose|i: int|
            0 <= i < rows.len() && (#[trigger] rows[i]).account_id == account_id && rows[i].id
                == x;
        assert(post_rows[i].account_id == account_id && post_rows[i].id == x
            && post_rows[i].status == GuardianStatus::Active);
    }
}

/// Reading the guardian settings is a pure function of the store: any two
/// results that satisfy the read's contract against the same store agree
/// on the strategy and, field by field, on the active-guardian list.
pub proof fn lemma_settings_read_deterministic(
    rows: Seq<AccountGuardian>,
    gs: Seq<Guardian>,
    r1: AccountGuardianSettingsResponse,
    r2: AccountGuardianSettingsResponse,
)
    requires
        projects_rows(rows, gs, r1.active_guardians@),
        projects_rows(rows, gs, r2.active_guardians@),
    ensures
        r1.active_guardians@.len() == r2.active_guardians@.len(),
        forall|k: int|
            0 <= k < r1.active_guardians@.len() ==> (#[trigger] r1.active_guardians@[k]).id
                == r2.active_guardians@[k].id && r1.active_guardians@[k].status
                == r2.active_guardians@[k].status && r1.active_guardians@[k].email@
                == r2.active_guardians@[k].email@ && r1.active_guardians@[k].wallet_address@
                == r2.active_guardians@[k].wallet_address@,
{
}

/// The nomination state machine in one table: both terminal statuses are
/// reachable from `Pending`; a terminal status cannot be overturned but
/// may be re-requested; and `Pending` can never be requested.
pub proof fn lemma_nomination_state_machine()
    ensures
        transition_allowed(NominationStatus::Accepted, NominationStatus::Pending),
        transition_allowed(NominationStatus::Rejected, NominationStatus::Pending),
        !transition_allowed(NominationStatus::Rejected, NominationStatus::Accepted),
        !transition_allowed(NominationStatus::Accepted, NominationStatus::Rejected),
        transition_allowed(NominationStatus::Accepted, NominationStatus::Accepted),
        transition_allowed(NominationStatus::Rejected, NominationStatus::Rejected),
        forall|c: NominationStatus| !transition_allowed(NominationStatus::Pending, c),
{
}

} // verus!
