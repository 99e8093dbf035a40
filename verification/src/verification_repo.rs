//! Table access for [`Verification`] rows: pending email codes and their
//! expiry times.

use vstd::prelude::*;

verus! {

use crate::entities::Verification;
use crate::store::Store;
use crate::store::same_except_verifications;

/// Field-wise agreement between two verification rows.
pub open spec fn ver_eqv(a: Verification, b: Verification) -> bool {
    &&& a.id == b.id
    &&& a.email@ == b.email@
    &&& a.code@ == b.code@
    &&& a.expires_at == b.expires_at
}

/// Predicate: the row belongs to this email.
pub open spec fn ver_by_email(email: Seq<char>) -> spec_fn(Verification) -> bool {
    |v: Verification| v.email@ == email
}

/// Predicate: the row carries this email and this code.
pub open spec fn ver_by_email_and_code(email: Seq<char>, code: Seq<char>) -> spec_fn(
    Verification,
) -> bool {
    |v: Verification| v.email@ == email && v.code@ == code
}

/// An owned copy of a verification row.
pub fn clone_verification(v: &Verification) -> (r: Verification)
    ensures
        ver_eqv(*v, r),
{
    Verification { id: v.id, email: v.email.clone(), code: v.code.clone(), expires_at: v.expires_at }
}

/// Append a new verification row.
pub fn create(store: &mut Store, email: String, code: String, expires_at: u64) -> (id: u64)
    requires
        old(store).wf(),
        old(store).next_id < u64::MAX,
    ensures
        final(store).wf(),
        id == old(store).next_id,
        final(store).next_id == old(store).next_id + 1,
        same_except_verifications(*old(store), *final(store)),
        final(store).verifications@.len() == old(store).verifications@.len() + 1,
        forall|j: int|
            0 <= j < old(store).verifications@.len() ==> final(store).verifications@[j] == old(
                store,
            ).verifications@[j],
        final(store).verifications@.last().id == id,
        final(store).verifications@.last().email@ == email@,
        final(store).verifications@.last().code@ == code@,
        final(store).verifications@.last().expires_at == expires_at,
{
    let id = store.next_id;
    store.next_id = store.next_id + 1;
    store.verifications.push(Verification { id, email, code, expires_at });
    proof {
        let s0 = old(store).verifications@;
        let s1 = store.verifications@;
        assert forall|a: int, b: int|
            0 <= a < s1.len() && 0 <= b < s1.len() && a != b implies (#[trigger] s1[a]).id != (
        #[trigger] s1[b]).id by {
            if a < s0.len() {
                assert(s0[a].id < old(store).next_id);
            }
            if b < s0.len() {
                assert(s0[b].id < old(store).next_id);
            }
        }
    }
    id
}

/// How many verification rows this email has accumulated.
pub fn count_by_email(store: &Store, email: &String) -> (r: u64)
    ensures
        r == store.verifications@.filter(ver_by_email(email@)).len(),
{
    let mut count: u64 = 0;
    let n: usize = store.verifications.len();
    let mut i: usize = 0;
    while i < n
        invariant
            n == store.verifications@.len(),
            i <= n,
            count == store.verifications@.take(i as int).filter(ver_by_email(email@)).len(),
            count <= i,
        decreases n - i,
    {
        if store.verifications[i].email.eq(email) {
            count = count + 1;
        }
        proof {
            broadcast use vstd::prelude::Seq::lemma_filter_push;

            let s = store.verifications@;
            let p = ver_by_email(email@);
            assert(s.take(i + 1) =~= s.take(i as int).push(s[i as int]));
            assert(s.take(i + 1).filter(p) == if p(s[i as int]) {
                s.take(i as int).filter(p).push(s[i as int])
            } else {
                s.take(i as int).filter(p)
            });
        }
        i += 1;
    }
    proof {
        assert(store.verifications@.take(n as int) =~= store.verifications@);
    }
    count
}

/// Copies of the verification rows for this email, in table order.
pub fn find_all_by_email(store: &Store, email: &String) -> (r: Vec<Verification>)
    ensures
        r@.len() == store.verifications@.filter(ver_by_email(email@)).len(),
        forall|k: int|
            0 <= k < r@.len() ==> ver_eqv(
                store.verifications@.filter(ver_by_email(email@))[k],
                #[trigger] r@[k],
            ),
{
    let mut r: Vec<Verification> = Vec::new();
    let n: usize = store.verifications.len();
    let mut i: usize = 0;
    while i < n
        invariant
            n == store.verifications@.len(),
            i <= n,
            r@.len() == store.verifications@.take(i as int).filter(ver_by_email(email@)).len(),
            forall|k: int|
                0 <= k < r@.len() ==> ver_eqv(
                    store.verifications@.take(i as int).filter(ver_by_email(email@))[k],
                    #[trigger] r@[k],
                ),
        decreases n - i,
    {
        let v = &store.verifications[i];
        if v.email.eq(email) {
            r.push(clone_verification(v));
        }
        proof {
            broadcast use vstd::prelude::Seq::lemma_filter_push;

            let s = store.verifications@;
            let p = ver_by_email(email@);
            assert(s.take(i + 1) =~= s.take(i as int).push(s[i as int]));
            assert(s.take(i + 1).filter(p) == if p(s[i as int]) {
                s.take(i as int).filter(p).push(s[i as int])
            } else {
                s.take(i as int).filter(p)
            });
        }
        i += 1;
    }
    proof {
        assert(store.verifications@.take(n as int) =~= store.verifications@);
    }
    r
}

/// The first verification row carrying this email and code, if any.
pub fn find_by_email_and_code<'a>(store: &'a Store, email: &String, code: &String) -> (r: Option<
    &'a Verification,
>)
    ensures
        match r {
            Some(v) => exists|i: int|
                0 <= i < store.verifications@.len() && #[trigger] store.verifications@[i] == *v
                    && v.email@ == email@ && v.code@ == code@ && (forall|j: int|
                    0 <= j < i ==> !ver_by_email_and_code(email@, code@)(
                        #[trigger] store.verifications@[j],
                    )),
            None => forall|j: int|
                0 <= j < store.verifications@.len() ==> !ver_by_email_and_code(email@, code@)(
                    #[trigger] store.verifications@[j],
                ),
        },
{
    let n: usize = store.verifications.len();
    let mut i: usize = 0;
    while i < n
        invariant
            n == store.verifications@.len(),
            i <= n,
            forall|j: int|
                0 <= j < i ==> !ver_by_email_and_code(email@, code@)(
                    #[trigger] store.verifications@[j],
                ),
        decreases n - i,
    {
        if store.verifications[i].email.eq(email) && store.verifications[i].code.eq(code) {
            return Some(&store.verifications[i]);
        }
        i += 1;
    }
    None
}

} // verus!
