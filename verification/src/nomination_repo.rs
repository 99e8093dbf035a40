//! Table access for [`Nomination`] rows: filtered reads for the account
//! and guardian sides, insertion, status update, and deletion.

use vstd::prelude::*;

verus! {

use crate::entities::Nomination;
use crate::entities::NominationStatus;
use crate::store::Store;
use crate::store::has_account;
use crate::store::has_guardian;
use crate::store::same_except_nominations;

/// Field-wise agreement between two nomination rows.
pub open spec fn nom_eqv(a: Nomination, b: Nomination) -> bool {
    &&& a.id == b.id
    &&& a.email@ == b.email@
    &&& a.guardian_id == b.guardian_id
    &&& a.account_id == b.account_id
    &&& a.status == b.status
}

/// An owned copy of a nomination row.
pub fn clone_nomination(n: &Nomination) -> (r: Nomination)
    ensures
        nom_eqv(*n, r),
{
    Nomination {
        id: n.id,
        email: n.email.clone(),
        guardian_id: n.guardian_id,
        account_id: n.account_id,
        status: n.status,
    }
}

/// Predicate: the nomination was issued by this account.
pub open spec fn nom_of_account(account_id: u64) -> spec_fn(Nomination) -> bool {
    |n: Nomination| n.account_id == account_id
}

/// Predicate: issued by this account, with this row id.
pub open spec fn nom_of_account_and_id(account_id: u64, nomination_id: u64) -> spec_fn(
    Nomination,
) -> bool {
    |n: Nomination| n.account_id == account_id && n.id == nomination_id
}

/// Predicate: issued by this account, in this status.
pub open spec fn nom_of_account_and_status(account_id: u64, status: NominationStatus) -> spec_fn(
    Nomination,
) -> bool {
    |n: Nomination| n.account_id == account_id && n.status == status
}

/// Predicate: issued by this account, inviting this email.
pub open spec fn nom_of_account_and_email(account_id: u64, email: Seq<char>) -> spec_fn(
    Nomination,
) -> bool {
    |n: Nomination| n.account_id == account_id && n.email@ == email
}

/// Predicate: addressed to this guardian.
pub open spec fn nom_of_guardian(guardian_id: u64) -> spec_fn(Nomination) -> bool {
    |n: Nomination| n.guardian_id == guardian_id
}

/// Predicate: addressed to this guardian, with this row id.
pub open spec fn nom_of_guardian_and_id(guardian_id: u64, nomination_id: u64) -> spec_fn(
    Nomination,
) -> bool {
    |n: Nomination| n.guardian_id == guardian_id && n.id == nomination_id
}

/// Predicate: addressed to this guardian, in this status.
pub open spec fn nom_of_guardian_and_status(guardian_id: u64, status: NominationStatus) -> spec_fn(
    Nomination,
) -> bool {
    |n: Nomination| n.guardian_id == guardian_id && n.status == status
}

/// Append a new nomination row.
pub fn create(
    store: &mut Store,
    email: String,
    account_id: u64,
    guardian_id: u64,
    status: NominationStatus,
) -> (id: u64)
    requires
        old(store).wf(),
        old(store).next_id < u64::MAX,
        has_account(old(store).accounts@, account_id),
        has_guardian(old(store).guardians@, guardian_id),
    ensures
        final(store).wf(),
        id == old(store).next_id,
        final(store).next_id == old(store).next_id + 1,
        same_except_nominations(*old(store), *final(store)),
        final(store).nominations@.len() == old(store).nominations@.len() + 1,
        forall|j: int|
            0 <= j < old(store).nominations@.len() ==> final(store).nominations@[j] == old(
                store,
            ).nominations@[j],
        final(store).nominations@.last().id == id,
        final(store).nominations@.last().email@ == email@,
        final(store).nominations@.last().account_id == account_id,
        final(store).nominations@.last().guardian_id == guardian_id,
        final(store).nominations@.last().status == status,
{
    let id = store.next_id;
    store.next_id = store.next_id + 1;
    store.nominations.push(Nomination { id, email, guardian_id, account_id, status });
    proof {
        let s0 = old(store).nominations@;
        let s1 = store.nominations@;
        assert forall|i: int|
            0 <= i < s1.len() implies has_account(
            store.accounts@,
            (#[trigger] s1[i]).account_id,
        ) && has_guardian(store.guardians@, s1[i].guardian_id) by {
            if i < s0.len() {
                assert(s1[i] == s0[i]);
                assert(old(store).references_valid());
                assert(has_account(old(store).accounts@, s0[i].account_id));
                assert(has_guardian(old(store).guardians@, s0[i].guardian_id));
            } else {
                assert(s1[i] == s1.last());
            }
        }
    }
    id
}

/// The nomination with this row id issued by this account, if any.
pub fn find_by_account_and_id<'a>(
    store: &'a Store,
    account_id: u64,
    nomination_id: u64,
) -> (r: Option<&'a Nomination>)
    ensures
        (r is Some) == exists|i: int|
            0 <= i < store.nominations@.len() && nom_of_account_and_id(account_id, nomination_id)(
                #[trigger] store.nominations@[i],
            ),
        (r matches Some(n) ==> n.account_id == account_id && n.id == nomination_id && exists|i: int|
            0 <= i < store.nominations@.len() && #[trigger] store.nominations@[i] == *n),
{
    let n: usize = store.nominations.len();
    let mut i: usize = 0;
    while i < n
        invariant
            n == store.nominations@.len(),
            i <= n,
            forall|j: int|
                0 <= j < i ==> !nom_of_account_and_id(account_id, nomination_id)(
                    #[trigger] store.nominations@[j],
                ),
        decreases n - i,
    {
        if store.nominations[i].account_id == account_id && store.nominations[i].id
            == nomination_id {
            return Some(&store.nominations[i]);
        }
        i += 1;
    }
    None
}

/// The index of the unique nomination matching account and row id, if any.
pub open spec fn choose_removed_nom(rows: Seq<Nomination>, account_id: u64, nomination_id: u64) -> Option<
    int,
> {
    if exists|i: int|
        0 <= i < rows.len() && nom_of_account_and_id(account_id, nomination_id)(
            #[trigger] rows[i],
        ) {
        Some(
            choose|i: int|
                0 <= i < rows.len() && nom_of_account_and_id(account_id, nomination_id)(
                    #[trigger] rows[i],
                ),
        )
    } else {
        None
    }
}

/// Delete the nomination with this row id issued by this account, if any.
pub fn delete_by_account_and_id(store: &mut Store, account_id: u64, nomination_id: u64)
    requires
        old(store).wf(),
    ensures
        final(store).wf(),
        final(store).next_id == old(store).next_id,
        same_except_nominations(*old(store), *final(store)),
        match choose_removed_nom(old(store).nominations@, account_id, nomination_id) {
            Some(i) => final(store).nominations@ == old(store).nominations@.remove(i),
            None => final(store).nominations@ == old(store).nominations@,
        },
{
    let n: usize = store.nominations.len();
    let mut i: usize = 0;
    while i < n
        invariant
            *store == *old(store),
            old(store).wf(),
            n == store.nominations@.len(),
            i <= n,
            forall|j: int|
                0 <= j < i ==> !nom_of_account_and_id(account_id, nomination_id)(
                    #[trigger] store.nominations@[j],
                ),
        decreases n - i,
    {
        if store.nominations[i].account_id == account_id && store.nominations[i].id
            == nomination_id {
            let ghost pre = store.nominations@;
            store.nominations.remove(i);
            proof {
                assert(choose_removed_nom(pre, account_id, nomination_id) == Some(i as int)) by {
                    let k = choose|k: int|
                        0 <= k < pre.len() && nom_of_account_and_id(account_id, nomination_id)(
                            #[trigger] pre[k],
                        );
                    assert(pre[k].id == nomination_id && pre[i as int].id == nomination_id);
                    assert(k == i);
                }
                lemma_nom_remove_keeps_wf(*old(store), *store, i as int);
            }
            return ;
        }
        i += 1;
    }
}

proof fn lemma_nom_remove_keeps_wf(pre: Store, post: Store, i: int)
    requires
        pre.wf(),
        0 <= i < pre.nominations@.len(),
        post.nominations@ == pre.nominations@.remove(i),
        same_except_nominations(pre, post),
        post.next_id == pre.next_id,
    ensures
        post.wf(),
{
    let s0 = pre.nominations@;
    let s1 = post.nominations@;
    assert forall|a: int| 0 <= a < s1.len() implies s1[a] == s0[if a < i {
        a
    } else {
        a + 1
    }] by {
        assert(s1 =~= s0.subrange(0, i) + s0.subrange(i + 1, s0.len() as int));
    }
}

/// Copies of this account's nominations, in table order.
pub fn find_all_by_account(store: &Store, account_id: u64) -> (r: Vec<Nomination>)
    ensures
        r@.len() == store.nominations@.filter(nom_of_account(account_id)).len(),
        forall|k: int|
            0 <= k < r@.len() ==> nom_eqv(
                store.nominations@.filter(nom_of_account(account_id))[k],
                #[trigger] r@[k],
            ),
{
    let mut r: Vec<Nomination> = Vec::new();
    let n: usize = store.nominations.len();
    let mut i: usize = 0;
    while i < n
        invariant
            n == store.nominations@.len(),
            i <= n,
            r@.len() == store.nominations@.take(i as int).filter(nom_of_account(account_id)).len(),
            forall|k: int|
                0 <= k < r@.len() ==> nom_eqv(
                    store.nominations@.take(i as int).filter(nom_of_account(account_id))[k],
                    #[trigger] r@[k],
                ),
        decreases n - i,
    {
        let g = &store.nominations[i];
        if g.account_id == account_id {
            r.push(clone_nomination(g));
        }
        proof {
            broadcast use vstd::prelude::Seq::lemma_filter_push;

            let s = store.nominations@;
            assert(s.take(i + 1) =~= s.take(i as int).push(s[i as int]));
            assert(s.take(i + 1).filter(nom_of_account(account_id)) == if nom_of_account(
                account_id,
            )(s[i as int]) {
                s.take(i as int).filter(nom_of_account(account_id)).push(s[i as int])
            } else {
                s.take(i as int).filter(nom_of_account(account_id))
            });
        }
        i += 1;
    }
    proof {
        assert(store.nominations@.take(n as int) =~= store.nominations@);
    }
    r
}

/// Copies of this account's nominations with this row id, in table order.
pub fn find_all_by_account_and_id(store: &Store, account_id: u64, nomination_id: u64) -> (r: Vec<
    Nomination,
>)
    ensures
        r@.len() == store.nominations@.filter(
            nom_of_account_and_id(account_id, nomination_id),
        ).len(),
        forall|k: int|
            0 <= k < r@.len() ==> nom_eqv(
                store.nominations@.filter(nom_of_account_and_id(account_id, nomination_id))[k],
                #[trigger] r@[k],
            ),
{
    let mut r: Vec<Nomination> = Vec::new();
    let n: usize = store.nominations.len();
    let mut i: usize = 0;
    while i < n
        invariant
            n == store.nominations@.len(),
            i <= n,
            r@.len() == store.nominations@.take(i as int).filter(
                nom_of_account_and_id(account_id, nomination_id),
            ).len(),
            forall|k: int|
                0 <= k < r@.len() ==> nom_eqv(
                    store.nominations@.take(i as int).filter(
                        nom_of_account_and_id(account_id, nomination_id),
                    )[k],
                    #[trigger] r@[k],
                ),
        decreases n - i,
    {
        let g = &store.nominations[i];
        if g.account_id == account_id && g.id == nomination_id {
            r.push(clone_nomination(g));
        }
        proof {
            broadcast use vstd::prelude::Seq::lemma_filter_push;

            let s = store.nominations@;
            let p = nom_of_account_and_id(account_id, nomination_id);
            assert(s.take(i + 1) =~= s.take(i as int).push(s[i as int]));
            assert(s.take(i + 1).filter(p) == if p(s[i as int]) {
                s.take(i as int).filter(p).push(s[i as int])
            } else {
                s.take(i as int).filter(p)
            });
        }
        i += 1;
    }
    proof {
        assert(store.nominations@.take(n as int) =~= store.nominations@);
    }
    r
}

/// Copies of this account's nominations in this status, in table order.
pub fn find_all_by_account_and_status(
    store: &Store,
    account_id: u64,
    status: NominationStatus,
) -> (r: Vec<Nomination>)
    ensures
        r@.len() == store.nominations@.filter(
            nom_of_account_and_status(account_id, status),
        ).len(),
        forall|k: int|
            0 <= k < r@.len() ==> nom_eqv(
                store.nominations@.filter(nom_of_account_and_status(account_id, status))[k],
                #[trigger] r@[k],
            ),
{
    let mut r: Vec<Nomination> = Vec::new();
    let n: usize = store.nominations.len();
    let mut i: usize = 0;
    while i < n
        invariant
            n == store.nominations@.len(),
            i <= n,
            r@.len() == store.nominations@.take(i as int).filter(
                nom_of_account_and_status(account_id, status),
            ).len(),
            forall|k: int|
                0 <= k < r@.len() ==> nom_eqv(
                    store.nominations@.take(i as int).filter(
                        nom_of_account_and_status(account_id, status),
                    )[k],
                    #[trigger] r@[k],
                ),
        decreases n - i,
    {
        let g = &store.nominations[i];
        if g.account_id == account_id && g.status == status {
            r.push(clone_nomination(g));
        }
        proof {
            broadcast use vstd::prelude::Seq::lemma_filter_push;

            let s = store.nominations@;
            let p = nom_of_account_and_status(account_id, status);
            assert(s.take(i + 1) =~= s.take(i as int).push(s[i as int]));
            assert(s.take(i + 1).filter(p) == if p(s[i as int]) {
                s.take(i as int).filter(p).push(s[i as int])
            } else {
                s.take(i as int).filter(p)
            });
        }
        i += 1;
    }
    proof {
        assert(store.nominations@.take(n as int) =~= store.nominations@);
    }
    r
}

/// Copies of this account's nominations inviting this email, in table
/// order.
pub fn find_all_by_account_and_email(store: &Store, account_id: u64, email: &String) -> (r: Vec<
    Nomination,
>)
    ensures
        r@.len() == store.nominations@.filter(
            nom_of_account_and_email(account_id, email@),
        ).len(),
        forall|k: int|
            0 <= k < r@.len() ==> nom_eqv(
                store.nominations@.filter(nom_of_account_and_email(account_id, email@))[k],
                #[trigger] r@[k],
            ),
{
    let mut r: Vec<Nomination> = Vec::new();
    let n: usize = store.nominations.len();
    let mut i: usize = 0;
    while i < n
        invariant
            n == store.nominations@.len(),
            i <= n,
            r@.len() == store.nominations@.take(i as int).filter(
                nom_of_account_and_email(account_id, email@),
            ).len(),
            forall|k: int|
                0 <= k < r@.len() ==> nom_eqv(
                    store.nominations@.take(i as int).filter(
                        nom_of_account_and_email(account_id, email@),
                    )[k],
                    #[trigger] r@[k],
                ),
        decreases n - i,
    {
        let g = &store.nominations[i];
        if g.account_id == account_id && g.email.eq(email) {
            r.push(clone_nomination(g));
        }
        proof {
            broadcast use vstd::prelude::Seq::lemma_filter_push;

            let s = store.nominations@;
            let p = nom_of_account_and_email(account_id, email@);
            assert(s.take(i + 1) =~= s.take(i as int).push(s[i as int]));
            assert(s.take(i + 1).filter(p) == if p(s[i as int]) {
                s.take(i as int).filter(p).push(s[i as int])
            } else {
                s.take(i as int).filter(p)
            });
        }
        i += 1;
    }
    proof {
        assert(store.nominations@.take(n as int) =~= store.nominations@);
    }
    r
}

/// Copies of the nominations addressed to this guardian, in table order.
pub fn find_all_by_guardian(store: &Store, guardian_id: u64) -> (r: Vec<Nomination>)
    ensures
        r@.len() == store.nominations@.filter(nom_of_guardian(guardian_id)).len(),
        forall|k: int|
            0 <= k < r@.len() ==> nom_eqv(
                store.nominations@.filter(nom_of_guardian(guardian_id))[k],
                #[trigger] r@[k],
            ),
{
    let mut r: Vec<Nomination> = Vec::new();
    let n: usize = store.nominations.len();
    let mut i: usize = 0;
    while i < n
        invariant
            n == store.nominations@.len(),
            i <= n,
            r@.len() == store.nominations@.take(i as int).filter(
                nom_of_guardian(guardian_id),
            ).len(),
            forall|k: int|
                0 <= k < r@.len() ==> nom_eqv(
                    store.nominations@.take(i as int).filter(nom_of_guardian(guardian_id))[k],
                    #[trigger] r@[k],
                ),
        decreases n - i,
    {
        let g = &store.nominations[i];
        if g.guardian_id == guardian_id {
            r.push(clone_nomination(g));
        }
        proof {
            broadcast use vstd::prelude::Seq::lemma_filter_push;

            let s = store.nominations@;
            let p = nom_of_guardian(guardian_id);
            assert(s.take(i + 1) =~= s.take(i as int).push(s[i as int]));
            assert(s.take(i + 1).filter(p) == if p(s[i as int]) {
                s.take(i as int).filter(p).push(s[i as int])
            } else {
                s.take(i as int).filter(p)
            });
        }
        i += 1;
    }
    proof {
        assert(store.nominations@.take(n as int) =~= store.nominations@);
    }
    r
}

/// Copies of the nominations addressed to this guardian with this row id,
/// in table order.
pub fn find_all_by_guardian_and_nomination_id(
    store: &Store,
    guardian_id: u64,
    nomination_id: u64,
) -> (r: Vec<Nomination>)
    ensures
        r@.len() == store.nominations@.filter(
            nom_of_guardian_and_id(guardian_id, nomination_id),
        ).len(),
        forall|k: int|
            0 <= k < r@.len() ==> nom_eqv(
                store.nominations@.filter(nom_of_guardian_and_id(guardian_id, nomination_id))[k],
                #[trigger] r@[k],
            ),
{
    let mut r: Vec<Nomination> = Vec::new();
    let n: usize = store.nominations.len();
    let mut i: usize = 0;
    while i < n
        invariant
            n == store.nominations@.len(),
            i <= n,
            r@.len() == store.nominations@.take(i as int).filter(
                nom_of_guardian_and_id(guardian_id, nomination_id),
            ).len(),
            forall|k: int|
                0 <= k < r@.len() ==> nom_eqv(
                    store.nominations@.take(i as int).filter(
                        nom_of_guardian_and_id(guardian_id, nomination_id),
                    )[k],
                    #[trigger] r@[k],
                ),
        decreases n - i,
    {
        let g = &store.nominations[i];
        if g.guardian_id == guardian_id && g.id == nomination_id {
            r.push(clone_nomination(g));
        }
        proof {
            broadcast use vstd::prelude::Seq::lemma_filter_push;

            let s = store.nominations@;
            let p = nom_of_guardian_and_id(guardian_id, nomination_id);
            assert(s.take(i + 1) =~= s.take(i as int).push(s[i as int]));
            assert(s.take(i + 1).filter(p) == if p(s[i as int]) {
                s.take(i as int).filter(p).push(s[i as int])
            } else {
                s.take(i as int).filter(p)
            });
        }
        i += 1;
    }
    proof {
        assert(store.nominations@.take(n as int) =~= store.nominations@);
    }
    r
}

/// Copies of the nominations addressed to this guardian in this status,
/// in table order.
pub fn find_all_by_guardian_and_status(
    store: &Store,
    guardian_id: u64,
    status: NominationStatus,
) -> (r: Vec<Nomination>)
    ensures
        r@.len() == store.nominations@.filter(
            nom_of_guardian_and_status(guardian_id, status),
        ).len(),
        forall|k: int|
            0 <= k < r@.len() ==> nom_eqv(
                store.nominations@.filter(nom_of_guardian_and_status(guardian_id, status))[k],
                #[trigger] r@[k],
            ),
{
    let mut r: Vec<Nomination> = Vec::new();
    let n: usize = store.nominations.len();
    let mut i: usize = 0;
    while i < n
        invariant
            n == store.nominations@.len(),
            i <= n,
            r@.len() == store.nominations@.take(i as int).filter(
                nom_of_guardian_and_status(guardian_id, status),
            ).len(),
            forall|k: int|
                0 <= k < r@.len() ==> nom_eqv(
                    store.nominations@.take(i as int).filter(
                        nom_of_guardian_and_status(guardian_id, status),
                    )[k],
                    #[trigger] r@[k],
                ),
        decreases n - i,
    {
        let g = &store.nominations[i];
        if g.guardian_id == guardian_id && g.status == status {
            r.push(clone_nomination(g));
        }
        proof {
            broadcast use vstd::prelude::Seq::lemma_filter_push;

            let s = store.nominations@;
            let p = nom_of_guardian_and_status(guardian_id, status);
            assert(s.take(i + 1) =~= s.take(i as int).push(s[i as int]));
            assert(s.take(i + 1).filter(p) == if p(s[i as int]) {
                s.take(i as int).filter(p).push(s[i as int])
            } else {
                s.take(i as int).filter(p)
            });
        }
        i += 1;
    }
    proof {
        assert(store.nominations@.take(n as int) =~= store.nominations@);
    }
    r
}

/// Set the status of the nomination carrying this row id and addressed to
/// this guardian. Every other field and row is untouched.
pub fn update_status_by_guardian_id(
    store: &mut Store,
    nomination_id: u64,
    guardian_id: u64,
    status: NominationStatus,
)
    requires
        old(store).wf(),
    ensures
        final(store).wf(),
        final(store).next_id == old(store).next_id,
        same_except_nominations(*old(store), *final(store)),
        final(store).nominations@.len() == old(store).nominations@.len(),
        forall|j: int|
            0 <= j < final(store).nominations@.len()
                ==> (#[trigger] final(store).nominations@[j]).id == old(store).nominations@[j].id
                && final(store).nominations@[j].email == old(store).nominations@[j].email
                && final(store).nominations@[j].guardian_id == old(
                store,
            ).nominations@[j].guardian_id && final(store).nominations@[j].account_id == old(
                store,
            ).nominations@[j].account_id && final(store).nominations@[j].status == (if old(
                store,
            ).nominations@[j].id == nomination_id && old(store).nominations@[j].guardian_id
                == guardian_id {
                status
            } else {
                old(store).nominations@[j].status
            }),
{
    let n: usize = store.nominations.len();
    let mut i: usize = 0;
    while i < n
        invariant
            old(store).wf(),
            n == store.nominations@.len(),
            n == old(store).nominations@.len(),
            i <= n,
            store.next_id == old(store).next_id,
            same_except_nominations(*old(store), *store),
            forall|j: int|
                0 <= j < i ==> (#[trigger] store.nominations@[j]).id == old(
                    store,
                ).nominations@[j].id && store.nominations@[j].email == old(
                    store,
                ).nominations@[j].email && store.nominations@[j].guardian_id == old(
                    store,
                ).nominations@[j].guardian_id && store.nominations@[j].account_id == old(
                    store,
                ).nominations@[j].account_id && store.nominations@[j].status == (if old(
                    store,
                ).nominations@[j].id == nomination_id && old(store).nominations@[j].guardian_id
                    == guardian_id {
                    status
                } else {
                    old(store).nominations@[j].status
                }),
            forall|j: int|
                i <= j < n ==> #[trigger] store.nominations@[j] == old(store).nominations@[j],
        decreases n - i,
    {
        if store.nominations[i].id == nomination_id && store.nominations[i].guardian_id
            == guardian_id {
            let row = &mut store.nominations[i];
            row.status = status;
        }
        i += 1;
    }
    proof {
        lemma_nom_status_rewrite_keeps_wf(*old(store), *store);
    }
}

proof fn lemma_nom_status_rewrite_keeps_wf(pre: Store, post: Store)
    requires
        pre.wf(),
        same_except_nominations(pre, post),
        post.next_id == pre.next_id,
        post.nominations@.len() == pre.nominations@.len(),
        forall|j: int|
            0 <= j < post.nominations@.len() ==> (#[trigger] post.nominations@[j]).id
                == pre.nominations@[j].id && post.nominations@[j].guardian_id
                == pre.nominations@[j].guardian_id && post.nominations@[j].account_id
                == pre.nominations@[j].account_id,
    ensures
        post.wf(),
{
}

} // verus!
