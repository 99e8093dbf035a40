//! Table access for [`Guardian`] rows: keyed lookups, batch lookup by id,
//! and lazy creation during nomination.

use vstd::prelude::*;

verus! {

use crate::entities::Guardian;
use crate::store::Store;
use crate::store::guardian_email_taken;
use crate::store::has_guardian;
use crate::store::same_except_guardians;

/// Field-wise agreement between two guardian rows.
pub open spec fn guardian_eqv(a: Guardian, b: Guardian) -> bool {
    &&& a.id == b.id
    &&& a.email@ == b.email@
    &&& a.account_id == b.account_id
    &&& match (a.wallet_address, b.wallet_address) {
        (Some(x), Some(y)) => x@ == y@,
        (None, None) => true,
        _ => false,
    }
}

/// An owned copy of a guardian row.
pub fn clone_guardian(g: &Guardian) -> (r: Guardian)
    ensures
        guardian_eqv(*g, r),
{
    Guardian {
        id: g.id,
        email: g.email.clone(),
        account_id: g.account_id,
        wallet_address: match &g.wallet_address {
            Some(w) => Some(w.clone()),
            None => None,
        },
    }
}

/// Append a new guardian row. The caller has already ruled out a row with
/// this email, and a linked account must exist under the same email, so
/// the store invariant survives.
pub fn create(
    store: &mut Store,
    email: String,
    account_id: Option<u64>,
    wallet_address: Option<String>,
) -> (id: u64)
    requires
        old(store).wf(),
        old(store).next_id < u64::MAX,
        !guardian_email_taken(old(store).guardians@, email@),
        (account_id matches Some(aid) ==> exists|k: int|
            0 <= k < old(store).accounts@.len() && (#[trigger] old(store).accounts@[k]).id == aid
                && old(store).accounts@[k].email@ == email@),
    ensures
        final(store).wf(),
        id == old(store).next_id,
        final(store).next_id == old(store).next_id + 1,
        same_except_guardians(*old(store), *final(store)),
        final(store).guardians@.len() == old(store).guardians@.len() + 1,
        forall|j: int|
            0 <= j < old(store).guardians@.len() ==> final(store).guardians@[j] == old(
                store,
            ).guardians@[j],
        final(store).guardians@.last().id == id,
        final(store).guardians@.last().email@ == email@,
        final(store).guardians@.last().account_id == account_id,
        final(store).guardians@.last().wallet_address == wallet_address,
{
    let id = store.next_id;
    store.next_id = store.next_id + 1;
    store.guardians.push(Guardian { id, email, account_id, wallet_address });
    proof {
        lemma_guardian_push_keeps_wf(*old(store), *store);
    }
    id
}

proof fn lemma_guardian_push_keeps_wf(pre: Store, post: Store)
    requires
        pre.wf(),
        post.next_id == pre.next_id + 1,
        same_except_guardians(pre, post),
        post.guardians@.len() == pre.guardians@.len() + 1,
        forall|j: int| 0 <= j < pre.guardians@.len() ==> post.guardians@[j] == pre.guardians@[j],
        post.guardians@.last().id == pre.next_id,
        !guardian_email_taken(pre.guardians@, post.guardians@.last().email@),
        (post.guardians@.last().account_id matches Some(aid) ==> exists|k: int|
            0 <= k < pre.accounts@.len() && (#[trigger] pre.accounts@[k]).id == aid
                && pre.accounts@[k].email@ == post.guardians@.last().email@),
    ensures
        post.wf(),
{
    let s0 = pre.guardians@;
    let s1 = post.guardians@;
    assert(s1.last() == s1[s0.len() as int]);
    assert forall|i: int|
        0 <= i < post.nominations@.len() implies has_guardian(
        s1,
        (#[trigger] post.nominations@[i]).guardian_id,
    ) by {
        assert(has_guardian(s0, pre.nominations@[i].guardian_id));
        let k = choose|k: int|
            0 <= k < s0.len() && (#[trigger] s0[k]).id == pre.nominations@[i].guardian_id;
        assert(s1[k].id == pre.nominations@[i].guardian_id);
    }
    assert forall|i: int|
        0 <= i < post.account_guardians@.len() implies has_guardian(
        s1,
        (#[trigger] post.account_guardians@[i]).guardian_id,
    ) by {
        assert(has_guardian(s0, pre.account_guardians@[i].guardian_id));
        let k = choose|k: int|
            0 <= k < s0.len() && (#[trigger] s0[k]).id == pre.account_guardians@[i].guardian_id;
        assert(s1[k].id == pre.account_guardians@[i].guardian_id);
    }
}

/// The guardian row keyed by this email, if any.
pub fn find_by_email<'a>(store: &'a Store, email: &String) -> (r: Option<&'a Guardian>)
    ensures
        (r is Some) == guardian_email_taken(store.guardians@, email@),
        (r matches Some(g) ==> g.email@ == email@ && exists|i: int|
            0 <= i < store.guardians@.len() && #[trigger] store.guardians@[i] == *g),
{
    let n: usize = store.guardians.len();
    let mut i: usize = 0;
    while i < n
        invariant
            n == store.guardians@.len(),
            i <= n,
            forall|j: int| 0 <= j < i ==> (#[trigger] store.guardians@[j]).email@ != email@,
        decreases n - i,
    {
        if store.guardians[i].email.eq(email) {
            return Some(&store.guardians[i]);
        }
        i += 1;
    }
    None
}

/// The guardian row linked to this registered account, if any.
pub fn find_by_account_id<'a>(store: &'a Store, account_id: u64) -> (r: Option<&'a Guardian>)
    ensures
        (r is Some) == exists|i: int|
            0 <= i < store.guardians@.len() && (#[trigger] store.guardians@[i]).account_id
                == Some(account_id),
        (r matches Some(g) ==> g.account_id == Some(account_id) && exists|i: int|
            0 <= i < store.guardians@.len() && #[trigger] store.guardians@[i] == *g),
{
    let n: usize = store.guardians.len();
    let mut i: usize = 0;
    while i < n
        invariant
            n == store.guardians@.len(),
            i <= n,
            forall|j: int|
                0 <= j < i ==> (#[trigger] store.guardians@[j]).account_id != Some(account_id),
        decreases n - i,
    {
        let linked = match store.guardians[i].account_id {
            Some(aid) => aid == account_id,
            None => false,
        };
        if linked {
            return Some(&store.guardians[i]);
        }
        i += 1;
    }
    None
}

/// The guardian row with this id, if any.
pub fn find_by_id<'a>(store: &'a Store, guardian_id: u64) -> (r: Option<&'a Guardian>)
    ensures
        (r is Some) == has_guardian(store.guardians@, guardian_id),
        (r matches Some(g) ==> g.id == guardian_id && exists|i: int|
            0 <= i < store.guardians@.len() && #[trigger] store.guardians@[i] == *g),
{
    let n: usize = store.guardians.len();
    let mut i: usize = 0;
    while i < n
        invariant
            n == store.guardians@.len(),
            i <= n,
            forall|j: int| 0 <= j < i ==> (#[trigger] store.guardians@[j]).id != guardian_id,
        decreases n - i,
    {
        if store.guardians[i].id == guardian_id {
            return Some(&store.guardians[i]);
        }
        i += 1;
    }
    None
}

/// Predicate: the guardian's id is listed.
pub open spec fn guardian_in_ids(ids: Seq<u64>) -> spec_fn(Guardian) -> bool {
    |g: Guardian| ids.contains(g.id)
}

/// Copies of all guardian rows whose id is listed, in table order.
pub fn find_all_by_ids(store: &Store, guardian_ids: &Vec<u64>) -> (r: Vec<Guardian>)
    ensures
        r@.len() == store.guardians@.filter(guardian_in_ids(guardian_ids@)).len(),
        forall|k: int|
            0 <= k < r@.len() ==> guardian_eqv(
                store.guardians@.filter(guardian_in_ids(guardian_ids@))[k],
                #[trigger] r@[k],
            ),
{
    let mut r: Vec<Guardian> = Vec::new();
    let n: usize = store.guardians.len();
    let mut i: usize = 0;
    while i < n
        invariant
            n == store.guardians@.len(),
            i <= n,
            r@.len() == store.guardians@.take(i as int).filter(
                guardian_in_ids(guardian_ids@),
            ).len(),
            forall|k: int|
                0 <= k < r@.len() ==> guardian_eqv(
                    store.guardians@.take(i as int).filter(guardian_in_ids(guardian_ids@))[k],
                    #[trigger] r@[k],
                ),
        decreases n - i,
    {
        let g = &store.guardians[i];
        if crate::guardian_account_repo::contains_u64(guardian_ids, g.id) {
            r.push(clone_guardian(g));
        }
        proof {
            broadcast use vstd::prelude::Seq::lemma_filter_push;

            let s = store.guardians@;
            assert(s.take(i + 1) =~= s.take(i as int).push(s[i as int]));
            assert(s.take(i + 1).filter(guardian_in_ids(guardian_ids@))
                == if guardian_in_ids(guardian_ids@)(s[i as int]) {
                    s.take(i as int).filter(guardian_in_ids(guardian_ids@)).push(s[i as int])
                } else {
                    s.take(i as int).filter(guardian_in_ids(guardian_ids@))
                });
        }
        i += 1;
    }
    proof {
        assert(store.guardians@.take(n as int) =~= store.guardians@);
    }
    r
}

} // verus!
