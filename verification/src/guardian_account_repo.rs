//! Table access for [`AccountGuardian`] rows: filtered reads, inserts,
//! deletion by row id, and the bulk status rewrites the signing-policy
//! engine relies on.

use vstd::prelude::*;

verus! {

use crate::entities::AccountGuardian;
use crate::entities::GuardianStatus;
use crate::store::Store;
use crate::store::has_account;
use crate::store::has_guardian;
use crate::store::same_except_account_guardians;

/// Predicate: the row belongs to this account.
pub open spec fn ag_of_account(account_id: u64) -> spec_fn(AccountGuardian) -> bool {
    |g: AccountGuardian| g.account_id == account_id
}

/// Predicate: the row belongs to this guardian.
pub open spec fn ag_of_guardian(guardian_id: u64) -> spec_fn(AccountGuardian) -> bool {
    |g: AccountGuardian| g.guardian_id == guardian_id
}

/// Predicate: the row belongs to this guardian and this account.
pub open spec fn ag_of_pair(guardian_id: u64, account_id: u64) -> spec_fn(
    AccountGuardian,
) -> bool {
    |g: AccountGuardian| g.guardian_id == guardian_id && g.account_id == account_id
}

/// Predicate: the row belongs to this account and carries this status.
pub open spec fn ag_of_account_status(account_id: u64, status: GuardianStatus) -> spec_fn(
    AccountGuardian,
) -> bool {
    |g: AccountGuardian| g.account_id == account_id && g.status == status
}

/// Predicate: the row belongs to this account and its row id is listed.
pub open spec fn ag_of_account_in(account_id: u64, ids: Seq<u64>) -> spec_fn(
    AccountGuardian,
) -> bool {
    |g: AccountGuardian| g.account_id == account_id && ids.contains(g.id)
}

/// Append a new row linking `guardian_id` to `account_id`.
pub fn create(
    store: &mut Store,
    guardian_id: u64,
    account_id: u64,
    status: GuardianStatus,
) -> (id: u64)
    requires
        old(store).wf(),
        old(store).next_id < u64::MAX,
        has_guardian(old(store).guardians@, guardian_id),
        has_account(old(store).accounts@, account_id),
    ensures
        final(store).wf(),
        id == old(store).next_id,
        final(store).next_id == old(store).next_id + 1,
        same_except_account_guardians(*old(store), *final(store)),
        final(store).account_guardians@ == old(store).account_guardians@.push(
            AccountGuardian { id, guardian_id, account_id, status },
        ),
{
    let id = store.next_id;
    store.next_id = store.next_id + 1;
    store.account_guardians.push(AccountGuardian { id, guardian_id, account_id, status });
    id
}

/// All rows for one guardian, in table order.
pub fn find_all_accounts_by_guardian_id(store: &Store, guardian_id: u64) -> (r: Vec<
    AccountGuardian,
>)
    ensures
        r@ == store.account_guardians@.filter(ag_of_guardian(guardian_id)),
{
    let mut r: Vec<AccountGuardian> = Vec::new();
    let n: usize = store.account_guardians.len();
    let mut i: usize = 0;
    while i < n
        invariant
            n == store.account_guardians@.len(),
            i <= n,
            r@ == store.account_guardians@.take(i as int).filter(ag_of_guardian(guardian_id)),
        decreases n - i,
    {
        let g = store.account_guardians[i];
        if g.guardian_id == guardian_id {
            r.push(g);
        }
        proof {
            broadcast use vstd::prelude::Seq::lemma_filter_push;

            assert(store.account_guardians@.take(i + 1) =~= store.account_guardians@.take(
                i as int,
            ).push(g));
        }
        i += 1;
    }
    proof {
        assert(store.account_guardians@.take(n as int) =~= store.account_guardians@);
    }
    r
}

/// The first row (in table order) linking this guardian to this account.
pub fn find_guardian_by_guardian_id_and_account_id(
    store: &Store,
    guardian_id: u64,
    account_id: u64,
) -> (r: Option<AccountGuardian>)
    ensures
        match r {
            Some(g) => exists|i: int|
                0 <= i < store.account_guardians@.len() && store.account_guardians@[i] == g
                    && ag_of_pair(guardian_id, account_id)(g) && (forall|j: int|
                    0 <= j < i ==> !ag_of_pair(guardian_id, account_id)(
                        #[trigger] store.account_guardians@[j],
                    )),
            None => forall|j: int|
                0 <= j < store.account_guardians@.len() ==> !ag_of_pair(guardian_id, account_id)(
                    #[trigger] store.account_guardians@[j],
                ),
        },
{
    let n: usize = store.account_guardians.len();
    let mut i: usize = 0;
    while i < n
        invariant
            n == store.account_guardians@.len(),
            i <= n,
            forall|j: int|
                0 <= j < i ==> !ag_of_pair(guardian_id, account_id)(
                    #[trigger] store.account_guardians@[j],
                ),
        decreases n - i,
    {
        let g = store.account_guardians[i];
        if g.guardian_id == guardian_id && g.account_id == account_id {
            return Some(g);
        }
        i += 1;
    }
    None
}

/// All rows linking this guardian to this account, in table order.
pub fn find_all_accounts_by_guardian_id_and_account_id(
    store: &Store,
    guardian_id: u64,
    account_id: u64,
) -> (r: Vec<AccountGuardian>)
    ensures
        r@ == store.account_guardians@.filter(ag_of_pair(guardian_id, account_id)),
{
    let mut r: Vec<AccountGuardian> = Vec::new();
    let n: usize = store.account_guardians.len();
    let mut i: usize = 0;
    while i < n
        invariant
            n == store.account_guardians@.len(),
            i <= n,
            r@ == store.account_guardians@.take(i as int).filter(
                ag_of_pair(guardian_id, account_id),
            ),
        decreases n - i,
    {
        let g = store.account_guardians[i];
        if g.guardian_id == guardian_id && g.account_id == account_id {
            r.push(g);
        }
        proof {
            broadcast use vstd::prelude::Seq::lemma_filter_push;

            assert(store.account_guardians@.take(i + 1) =~= store.account_guardians@.take(
                i as int,
            ).push(g));
        }
        i += 1;
    }
    proof {
        assert(store.account_guardians@.take(n as int) =~= store.account_guardians@);
    }
    r
}

/// All rows for one account, in table order.
pub fn find_all_guardians_by_account_id(store: &Store, account_id: u64) -> (r: Vec<
    AccountGuardian,
>)
    ensures
        r@ == store.account_guardians@.filter(ag_of_account(account_id)),
{
    let mut r: Vec<AccountGuardian> = Vec::new();
    let n: usize = store.account_guardians.len();
    let mut i: usize = 0;
    while i < n
        invariant
            n == store.account_guardians@.len(),
            i <= n,
            r@ == store.account_guardians@.take(i as int).filter(ag_of_account(account_id)),
        decreases n - i,
    {
        let g = store.account_guardians[i];
        if g.account_id == account_id {
            r.push(g);
        }
        proof {
            broadcast use vstd::prelude::Seq::lemma_filter_push;

            assert(store.account_guardians@.take(i + 1) =~= store.account_guardians@.take(
                i as int,
            ).push(g));
        }
        i += 1;
    }
    proof {
        assert(store.account_guardians@.take(n as int) =~= store.account_guardians@);
    }
    r
}

/// All rows for one account carrying one status, in table order.
pub fn find_all_guardians_by_account_id_and_status(
    store: &Store,
    account_id: u64,
    status: GuardianStatus,
) -> (r: Vec<AccountGuardian>)
    ensures
        r@ == store.account_guardians@.filter(ag_of_account_status(account_id, status)),
{
    let mut r: Vec<AccountGuardian> = Vec::new();
    let n: usize = store.account_guardians.len();
    let mut i: usize = 0;
    while i < n
        invariant
            n == store.account_guardians@.len(),
            i <= n,
            r@ == store.account_guardians@.take(i as int).filter(
                ag_of_account_status(account_id, status),
            ),
        decreases n - i,
    {
        let g = store.account_guardians[i];
        if g.account_id == account_id && g.status == status {
            r.push(g);
        }
        proof {
            broadcast use vstd::prelude::Seq::lemma_filter_push;

            assert(store.account_guardians@.take(i + 1) =~= store.account_guardians@.take(
                i as int,
            ).push(g));
        }
        i += 1;
    }
    proof {
        assert(store.account_guardians@.take(n as int) =~= store.account_guardians@);
    }
    r
}

/// The account's currently active rows.
pub fn find_all_active_guardians_by_account_id(store: &Store, account_id: u64) -> (r: Vec<
    AccountGuardian,
>)
    ensures
        r@ == store.account_guardians@.filter(
            ag_of_account_status(account_id, GuardianStatus::Active),
        ),
{
    find_all_guardians_by_account_id_and_status(store, account_id, GuardianStatus::Active)
}

/// Delete the row with this row id, if any.
pub fn delete_by_id(store: &mut Store, id: u64)
    requires
        old(store).wf(),
    ensures
        final(store).wf(),
        final(store).next_id == old(store).next_id,
        same_except_account_guardians(*old(store), *final(store)),
        match choose_removed(old(store).account_guardians@, id) {
            Some(i) => final(store).account_guardians@ == old(store).account_guardians@.remove(i),
            None => final(store).account_guardians@ == old(store).account_guardians@,
        },
{
    let n: usize = store.account_guardians.len();
    let mut i: usize = 0;
    while i < n
        invariant
            *store == *old(store),
            old(store).wf(),
            n == store.account_guardians@.len(),
            i <= n,
            forall|j: int| 0 <= j < i ==> (#[trigger] store.account_guardians@[j]).id != id,
        decreases n - i,
    {
        if store.account_guardians[i].id == id {
            let ghost pre = store.account_guardians@;
            store.account_guardians.remove(i);
            proof {
                assert(pre == old(store).account_guardians@);
                assert(choose_removed(pre, id) == Some(i as int)) by {
                    lemma_choose_removed(pre, id, i as int);
                }
                lemma_remove_keeps_wf(*old(store), *store, i as int);
            }
            return ;
        }
        i += 1;
    }
}

/// The index of the unique row with this id, if one exists. Callers see
/// which row a deletion removed.
pub open spec fn choose_removed(rows: Seq<AccountGuardian>, id: u64) -> Option<int> {
    if exists|i: int| 0 <= i < rows.len() && (#[trigger] rows[i]).id == id {
        Some(choose|i: int| 0 <= i < rows.len() && (#[trigger] rows[i]).id == id)
    } else {
        None
    }
}

proof fn lemma_choose_removed(rows: Seq<AccountGuardian>, id: u64, i: int)
    requires
        0 <= i < rows.len(),
        rows[i].id == id,
        forall|a: int, b: int|
            0 <= a < rows.len() && 0 <= b < rows.len() && a != b ==> (#[trigger] rows[a]).id != (
            #[trigger] rows[b]).id,
    ensures
        choose_removed(rows, id) == Some(i),
{
    assert(exists|k: int| 0 <= k < rows.len() && (#[trigger] rows[k]).id == id);
    let k = choose|k: int| 0 <= k < rows.len() && (#[trigger] rows[k]).id == id;
    assert(k == i);
}

proof fn lemma_remove_keeps_wf(pre: Store, post: Store, i: int)
    requires
        pre.wf(),
        0 <= i < pre.account_guardians@.len(),
        post.account_guardians@ == pre.account_guardians@.remove(i),
        same_except_account_guardians(pre, post),
        post.next_id == pre.next_id,
    ensures
        post.wf(),
{
    let s0 = pre.account_guardians@;
    let s1 = post.account_guardians@;
    assert forall|a: int| 0 <= a < s1.len() implies s1[a] == s0[if a < i {
        a
    } else {
        a + 1
    }] by {
        assert(s1 =~= s0.subrange(0, i) + s0.subrange(i + 1, s0.len() as int));
    }
}

/// All rows for this account whose row id is in `ids`, in table order.
pub fn find_all_guardians_for_account_by_ids(
    store: &Store,
    ids: &Vec<u64>,
    account_id: u64,
) -> (r: Vec<AccountGuardian>)
    ensures
        r@ == store.account_guardians@.filter(ag_of_account_in(account_id, ids@)),
{
    let mut r: Vec<AccountGuardian> = Vec::new();
    let n: usize = store.account_guardians.len();
    let mut i: usize = 0;
    while i < n
        invariant
            n == store.account_guardians@.len(),
            i <= n,
            r@ == store.account_guardians@.take(i as int).filter(
                ag_of_account_in(account_id, ids@),
            ),
        decreases n - i,
    {
        let g = store.account_guardians[i];
        if g.account_id == account_id && contains_u64(ids, g.id) {
            r.push(g);
        }
        proof {
            broadcast use vstd::prelude::Seq::lemma_filter_push;

            assert(store.account_guardians@.take(i + 1) =~= store.account_guardians@.take(
                i as int,
            ).push(g));
        }
        i += 1;
    }
    proof {
        assert(store.account_guardians@.take(n as int) =~= store.account_guardians@);
    }
    r
}

/// Whether the id list names `x`.
pub fn contains_u64(ids: &Vec<u64>, x: u64) -> (b: bool)
    ensures
        b == ids@.contains(x),
{
    let n: usize = ids.len();
    let mut i: usize = 0;
    while i < n
        invariant
            n == ids@.len(),
            i <= n,
            forall|j: int| 0 <= j < i ==> ids@[j] != x,
        decreases n - i,
    {
        if ids[i] == x {
            return true;
        }
        i += 1;
    }
    false
}

/// Set every row of this account to `status`. Row identities and ownership
/// are untouched; only statuses change.
pub fn update_all_guardians_for_account_to_status(
    store: &mut Store,
    account_id: u64,
    status: GuardianStatus,
)
    requires
        old(store).wf(),
    ensures
        final(store).wf(),
        final(store).next_id == old(store).next_id,
        same_except_account_guardians(*old(store), *final(store)),
        final(store).account_guardians@.len() == old(store).account_guardians@.len(),
        forall|j: int|
            0 <= j < final(store).account_guardians@.len() ==> #[trigger] final(store).account_guardians@[j]
                == ag_with_status(
                old(store).account_guardians@[j],
                if old(store).account_guardians@[j].account_id == account_id {
                    status
                } else {
                    old(store).account_guardians@[j].status
                },
            ),
{
    let n: usize = store.account_guardians.len();
    let mut i: usize = 0;
    while i < n
        invariant
            old(store).wf(),
            n == store.account_guardians@.len(),
            n == old(store).account_guardians@.len(),
            i <= n,
            store.next_id == old(store).next_id,
            same_except_account_guardians(*old(store), *store),
            forall|j: int|
                0 <= j < i ==> #[trigger] store.account_guardians@[j] == ag_with_status(
                    old(store).account_guardians@[j],
                    if old(store).account_guardians@[j].account_id == account_id {
                        status
                    } else {
                        old(store).account_guardians@[j].status
                    },
                ),
            forall|j: int|
                i <= j < n ==> #[trigger] store.account_guardians@[j] == old(
                    store,
                ).account_guardians@[j],
        decreases n - i,
    {
        if store.account_guardians[i].account_id == account_id {
            let mut row = store.account_guardians[i];
            row.status = status;
            store.account_guardians[i] = row;
        }
        i += 1;
    }
    proof {
        lemma_status_rewrite_keeps_wf(*old(store), *store);
    }
}

/// The row with only its status replaced.
pub open spec fn ag_with_status(g: AccountGuardian, status: GuardianStatus) -> AccountGuardian {
    AccountGuardian { status, ..g }
}

proof fn lemma_status_rewrite_keeps_wf(pre: Store, post: Store)
    requires
        pre.wf(),
        same_except_account_guardians(pre, post),
        post.next_id == pre.next_id,
        post.account_guardians@.len() == pre.account_guardians@.len(),
        forall|j: int|
            0 <= j < post.account_guardians@.len()
                ==> (#[trigger] post.account_guardians@[j]).id == pre.account_guardians@[j].id
                && post.account_guardians@[j].guardian_id == pre.account_guardians@[j].guardian_id
                && post.account_guardians@[j].account_id == pre.account_guardians@[j].account_id,
    ensures
        post.wf(),
{
}

/// Set exactly the listed rows of this account to `status`.
pub fn update_guardians_for_account_to_status(
    store: &mut Store,
    account_id: u64,
    ids: &Vec<u64>,
    status: GuardianStatus,
)
    requires
        old(store).wf(),
    ensures
        final(store).wf(),
        final(store).next_id == old(store).next_id,
        same_except_account_guardians(*old(store), *final(store)),
        final(store).account_guardians@.len() == old(store).account_guardians@.len(),
        forall|j: int|
            0 <= j < final(store).account_guardians@.len() ==> #[trigger] final(store).account_guardians@[j]
                == ag_with_status(
                old(store).account_guardians@[j],
                if old(store).account_guardians@[j].account_id == account_id && ids@.contains(
                    old(store).account_guardians@[j].id,
                ) {
                    status
                } else {
                    old(store).account_guardians@[j].status
                },
            ),
{
    let n: usize = store.account_guardians.len();
    let mut i: usize = 0;
    while i < n
        invariant
            old(store).wf(),
            n == store.account_guardians@.len(),
            n == old(store).account_guardians@.len(),
            i <= n,
            store.next_id == old(store).next_id,
            same_except_account_guardians(*old(store), *store),
            forall|j: int|
                0 <= j < i ==> #[trigger] store.account_guardians@[j] == ag_with_status(
                    old(store).account_guardians@[j],
                    if old(store).account_guardians@[j].account_id == account_id && ids@.contains(
                        old(store).account_guardians@[j].id,
                    ) {
                        status
                    } else {
                        old(store).account_guardians@[j].status
                    },
                ),
            forall|j: int|
                i <= j < n ==> #[trigger] store.account_guardians@[j] == old(
                    store,
                ).account_guardians@[j],
        decreases n - i,
    {
        let g = store.account_guardians[i];
        if g.account_id == account_id && contains_u64(ids, g.id) {
            let mut row = g;
            row.status = status;
            store.account_guardians[i] = row;
        }
        i += 1;
    }
    proof {
        lemma_status_rewrite_keeps_wf(*old(store), *store);
    }
}

} // verus!
