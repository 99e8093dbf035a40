//! Table access for [`Account`] rows: keyed and filtered lookups, insert,
//! and the wallet/eoa address update.

use vstd::prelude::*;

verus! {

use crate::entities::Account;
use crate::store::Store;
use crate::store::account_email_taken;
use crate::store::has_account;
use crate::store::same_except_accounts;

/// Field-wise agreement between two account rows.
pub open spec fn acct_eqv(a: Account, b: Account) -> bool {
    &&& a.id == b.id
    &&& a.email@ == b.email@
    &&& a.wallet_address@ == b.wallet_address@
    &&& a.eoa_address@ == b.eoa_address@
    &&& a.eoa_private_address@ == b.eoa_private_address@
    &&& a.updated_at == b.updated_at
}

/// An owned copy of an account row.
pub fn clone_account(a: &Account) -> (r: Account)
    ensures
        acct_eqv(*a, r),
{
    Account {
        id: a.id,
        email: a.email.clone(),
        wallet_address: a.wallet_address.clone(),
        eoa_address: a.eoa_address.clone(),
        eoa_private_address: a.eoa_private_address.clone(),
        updated_at: a.updated_at,
    }
}

/// Predicate: the account carries this wallet address.
pub open spec fn acct_by_wallet(wallet: Seq<char>) -> spec_fn(Account) -> bool {
    |a: Account| a.wallet_address@ == wallet
}

/// Predicate: the account carries this eoa address.
pub open spec fn acct_by_eoa(eoa: Seq<char>) -> spec_fn(Account) -> bool {
    |a: Account| a.eoa_address@ == eoa
}

/// Predicate: the account carries this email.
pub open spec fn acct_by_email(email: Seq<char>) -> spec_fn(Account) -> bool {
    |a: Account| a.email@ == email
}

/// Predicate: the account's id is listed.
pub open spec fn acct_in_ids(ids: Seq<u64>) -> spec_fn(Account) -> bool {
    |a: Account| ids.contains(a.id)
}

/// Append a new account row under a fresh email.
pub fn create(
    store: &mut Store,
    email: String,
    wallet_address: String,
    eoa_address: String,
    eoa_private: String,
    updated_at: u64,
) -> (id: u64)
    requires
        old(store).wf(),
        old(store).next_id < u64::MAX,
        !account_email_taken(old(store).accounts@, email@),
    ensures
        final(store).wf(),
        id == old(store).next_id,
        final(store).next_id == old(store).next_id + 1,
        same_except_accounts(*old(store), *final(store)),
        final(store).accounts@.len() == old(store).accounts@.len() + 1,
        forall|j: int|
            0 <= j < old(store).accounts@.len() ==> final(store).accounts@[j] == old(
                store,
            ).accounts@[j],
        final(store).accounts@.last().id == id,
        final(store).accounts@.last().email@ == email@,
        final(store).accounts@.last().wallet_address@ == wallet_address@,
        final(store).accounts@.last().eoa_address@ == eoa_address@,
        final(store).accounts@.last().eoa_private_address@ == eoa_private@,
        final(store).accounts@.last().updated_at == updated_at,
{
    let id = store.next_id;
    store.next_id = store.next_id + 1;
    store.accounts.push(
        Account {
            id,
            email,
            wallet_address,
            eoa_address,
            eoa_private_address: eoa_private,
            updated_at,
        },
    );
    proof {
        lemma_account_push_keeps_wf(*old(store), *store);
    }
    id
}

proof fn lemma_account_push_keeps_wf(pre: Store, post: Store)
    requires
        pre.wf(),
        post.next_id == pre.next_id + 1,
        same_except_accounts(pre, post),
        post.accounts@.len() == pre.accounts@.len() + 1,
        forall|j: int| 0 <= j < pre.accounts@.len() ==> post.accounts@[j] == pre.accounts@[j],
        post.accounts@.last().id == pre.next_id,
        !account_email_taken(pre.accounts@, post.accounts@.last().email@),
    ensures
        post.wf(),
{
    let s0 = pre.accounts@;
    let s1 = post.accounts@;
    assert(s1.last() == s1[s0.len() as int]);
    assert forall|i: int|
        0 <= i < post.guardians@.len() implies ((#[trigger] post.guardians@[i]).account_id
        matches Some(aid) ==> exists|k: int|
        0 <= k < s1.len() && (#[trigger] s1[k]).id == aid && s1[k].email@
            == post.guardians@[i].email@) by {
        if post.guardians@[i].account_id is Some {
            let aid = post.guardians@[i].account_id.unwrap();
            assert(pre.emails_consistent());
            let k = choose|k: int|
                0 <= k < s0.len() && (#[trigger] s0[k]).id == aid && s0[k].email@
                    == pre.guardians@[i].email@;
            assert(s1[k].id == aid && s1[k].email@ == post.guardians@[i].email@);
        }
    }
    assert forall|i: int|
        0 <= i < post.nominations@.len() implies has_account(
        s1,
        (#[trigger] post.nominations@[i]).account_id,
    ) by {
        assert(has_account(s0, pre.nominations@[i].account_id));
        let k = choose|k: int|
            0 <= k < s0.len() && (#[trigger] s0[k]).id == pre.nominations@[i].account_id;
        assert(s1[k].id == pre.nominations@[i].account_id);
    }
    assert forall|i: int|
        0 <= i < post.account_guardians@.len() implies has_account(
        s1,
        (#[trigger] post.account_guardians@[i]).account_id,
    ) by {
        assert(has_account(s0, pre.account_guardians@[i].account_id));
        let k = choose|k: int|
            0 <= k < s0.len() && (#[trigger] s0[k]).id == pre.account_guardians@[i].account_id;
        assert(s1[k].id == pre.account_guardians@[i].account_id);
    }
    assert forall|i: int|
        0 <= i < post.guardian_settings@.len() implies has_account(
        s1,
        (#[trigger] post.guardian_settings@[i]).account_id,
    ) by {
        assert(has_account(s0, pre.guardian_settings@[i].account_id));
        let k = choose|k: int|
            0 <= k < s0.len() && (#[trigger] s0[k]).id == pre.guardian_settings@[i].account_id;
        assert(s1[k].id == pre.guardian_settings@[i].account_id);
    }
}

/// The account row with this id, if any.
pub fn find_by_id<'a>(store: &'a Store, account_id: u64) -> (r: Option<&'a Account>)
    ensures
        (r is Some) == has_account(store.accounts@, account_id),
        (r matches Some(a) ==> a.id == account_id && exists|i: int|
            0 <= i < store.accounts@.len() && #[trigger] store.accounts@[i] == *a),
{
    let n: usize = store.accounts.len();
    let mut i: usize = 0;
    while i < n
        invariant
            n == store.accounts@.len(),
            i <= n,
            forall|j: int| 0 <= j < i ==> (#[trigger] store.accounts@[j]).id != account_id,
        decreases n - i,
    {
        if store.accounts[i].id == account_id {
            return Some(&store.accounts[i]);
        }
        i += 1;
    }
    None
}

/// The account row keyed by this email, if any.
pub fn find_by_email<'a>(store: &'a Store, email: &String) -> (r: Option<&'a Account>)
    ensures
        (r is Some) == account_email_taken(store.accounts@, email@),
        (r matches Some(a) ==> a.email@ == email@ && exists|i: int|
            0 <= i < store.accounts@.len() && #[trigger] store.accounts@[i] == *a),
{
    let n: usize = store.accounts.len();
    let mut i: usize = 0;
    while i < n
        invariant
            n == store.accounts@.len(),
            i <= n,
            forall|j: int| 0 <= j < i ==> (#[trigger] store.accounts@[j]).email@ != email@,
        decreases n - i,
    {
        if store.accounts[i].email.eq(email) {
            return Some(&store.accounts[i]);
        }
        i += 1;
    }
    None
}

/// The first account row carrying this wallet address, if any.
pub fn find_by_wallet_address<'a>(store: &'a Store, wallet_address: &String) -> (r: Option<
    &'a Account,
>)
    ensures
        match r {
            Some(a) => exists|i: int|
                0 <= i < store.accounts@.len() && #[trigger] store.accounts@[i] == *a
                    && a.wallet_address@ == wallet_address@ && (forall|j: int|
                    0 <= j < i ==> (#[trigger] store.accounts@[j]).wallet_address@
                        != wallet_address@),
            None => forall|j: int|
                0 <= j < store.accounts@.len() ==> (#[trigger] store.accounts@[j]).wallet_address@
                    != wallet_address@,
        },
{
    let n: usize = store.accounts.len();
    let mut i: usize = 0;
    while i < n
        invariant
            n == store.accounts@.len(),
            i <= n,
            forall|j: int|
                0 <= j < i ==> (#[trigger] store.accounts@[j]).wallet_address@ != wallet_address@,
        decreases n - i,
    {
        if store.accounts[i].wallet_address.eq(wallet_address) {
            return Some(&store.accounts[i]);
        }
        i += 1;
    }
    None
}

/// Copies of the accounts carrying this wallet address, in table order.
pub fn find_all_by_wallet_address(store: &Store, wallet_address: &String) -> (r: Vec<Account>)
    ensures
        r@.len() == store.accounts@.filter(acct_by_wallet(wallet_address@)).len(),
        forall|k: int|
            0 <= k < r@.len() ==> acct_eqv(
                store.accounts@.filter(acct_by_wallet(wallet_address@))[k],
                #[trigger] r@[k],
            ),
{
    let mut r: Vec<Account> = Vec::new();
    let n: usize = store.accounts.len();
    let mut i: usize = 0;
    while i < n
        invariant
            n == store.accounts@.len(),
            i <= n,
            r@.len() == store.accounts@.take(i as int).filter(
                acct_by_wallet(wallet_address@),
            ).len(),
            forall|k: int|
                0 <= k < r@.len() ==> acct_eqv(
                    store.accounts@.take(i as int).filter(acct_by_wallet(wallet_address@))[k],
                    #[trigger] r@[k],
                ),
        decreases n - i,
    {
        let a = &store.accounts[i];
        if a.wallet_address.eq(wallet_address) {
            r.push(clone_account(a));
        }
        proof {
            broadcast use vstd::prelude::Seq::lemma_filter_push;

            let s = store.accounts@;
            let p = acct_by_wallet(wallet_address@);
            assert(s.take(i + 1) =~= s.take(i as int).push(s[i as int]));
            assert(s.take(i + 1).filter(p) == if p(s[i as int]) {
                s.take(i as int).filter(p).push(s[i as int])
            } else {
                s.take(i as int).filter(p)
            });
        }
        i += 1;
    }
    proof {
        assert(store.accounts@.take(n as int) =~= store.accounts@);
    }
    r
}

/// Copies of the accounts carrying this eoa address, in table order.
pub fn find_all_by_eoa_address(store: &Store, eoa_address: &String) -> (r: Vec<Account>)
    ensures
        r@.len() == store.accounts@.filter(acct_by_eoa(eoa_address@)).len(),
        forall|k: int|
            0 <= k < r@.len() ==> acct_eqv(
                store.accounts@.filter(acct_by_eoa(eoa_address@))[k],
                #[trigger] r@[k],
            ),
{
    let mut r: Vec<Account> = Vec::new();
    let n: usize = store.accounts.len();
    let mut i: usize = 0;
    while i < n
        invariant
            n == store.accounts@.len(),
            i <= n,
            r@.len() == store.accounts@.take(i as int).filter(acct_by_eoa(eoa_address@)).len(),
            forall|k: int|
                0 <= k < r@.len() ==> acct_eqv(
                    store.accounts@.take(i as int).filter(acct_by_eoa(eoa_address@))[k],
                    #[trigger] r@[k],
                ),
        decreases n - i,
    {
        let a = &store.accounts[i];
        if a.eoa_address.eq(eoa_address) {
            r.push(clone_account(a));
        }
        proof {
            broadcast use vstd::prelude::Seq::lemma_filter_push;

            let s = store.accounts@;
            let p = acct_by_eoa(eoa_address@);
            assert(s.take(i + 1) =~= s.take(i as int).push(s[i as int]));
            assert(s.take(i + 1).filter(p) == if p(s[i as int]) {
                s.take(i as int).filter(p).push(s[i as int])
            } else {
                s.take(i as int).filter(p)
            });
        }
        i += 1;
    }
    proof {
        assert(store.accounts@.take(n as int) =~= store.accounts@);
    }
    r
}

/// Copies of the accounts carrying this email, in table order.
pub fn find_all_by_email_address(store: &Store, email: &String) -> (r: Vec<Account>)
    ensures
        r@.len() == store.accounts@.filter(acct_by_email(email@)).len(),
        forall|k: int|
            0 <= k < r@.len() ==> acct_eqv(
                store.accounts@.filter(acct_by_email(email@))[k],
                #[trigger] r@[k],
            ),
{
    let mut r: Vec<Account> = Vec::new();
    let n: usize = store.accounts.len();
    let mut i: usize = 0;
    while i < n
        invariant
            n == store.accounts@.len(),
            i <= n,
            r@.len() == store.accounts@.take(i as int).filter(acct_by_email(email@)).len(),
            forall|k: int|
                0 <= k < r@.len() ==> acct_eqv(
                    store.accounts@.take(i as int).filter(acct_by_email(email@))[k],
                    #[trigger] r@[k],
                ),
        decreases n - i,
    {
        let a = &store.accounts[i];
        if a.email.eq(email) {
            r.push(clone_account(a));
        }
        proof {
            broadcast use vstd::prelude::Seq::lemma_filter_push;

            let s = store.accounts@;
            let p = acct_by_email(email@);
            assert(s.take(i + 1) =~= s.take(i as int).push(s[i as int]));
            assert(s.take(i + 1).filter(p) == if p(s[i as int]) {
                s.take(i as int).filter(p).push(s[i as int])
            } else {
                s.take(i as int).filter(p)
            });
        }
        i += 1;
    }
    proof {
        assert(store.accounts@.take(n as int) =~= store.accounts@);
    }
    r
}

/// Copies of the accounts whose id is listed, in table order.
pub fn find_all_by_account_ids(store: &Store, account_ids: &Vec<u64>) -> (r: Vec<Account>)
    ensures
        r@.len() == store.accounts@.filter(acct_in_ids(account_ids@)).len(),
        forall|k: int|
            0 <= k < r@.len() ==> acct_eqv(
                store.accounts@.filter(acct_in_ids(account_ids@))[k],
                #[trigger] r@[k],
            ),
{
    let mut r: Vec<Account> = Vec::new();
    let n: usize = store.accounts.len();
    let mut i: usize = 0;
    while i < n
        invariant
            n == store.accounts@.len(),
            i <= n,
            r@.len() == store.accounts@.take(i as int).filter(acct_in_ids(account_ids@)).len(),
            forall|k: int|
                0 <= k < r@.len() ==> acct_eqv(
                    store.accounts@.take(i as int).filter(acct_in_ids(account_ids@))[k],
                    #[trigger] r@[k],
                ),
        decreases n - i,
    {
        let a = &store.accounts[i];
        if crate::guardian_account_repo::contains_u64(account_ids, a.id) {
            r.push(clone_account(a));
        }
        proof {
            broadcast use vstd::prelude::Seq::lemma_filter_push;

            let s = store.accounts@;
            let p = acct_in_ids(account_ids@);
            assert(s.take(i + 1) =~= s.take(i as int).push(s[i as int]));
            assert(s.take(i + 1).filter(p) == if p(s[i as int]) {
                s.take(i as int).filter(p).push(s[i as int])
            } else {
                s.take(i as int).filter(p)
            });
        }
        i += 1;
    }
    proof {
        assert(store.accounts@.take(n as int) =~= store.accounts@);
    }
    r
}

/// Copies of every account row, in table order.
pub fn find_all(store: &Store) -> (r: Vec<Account>)
    ensures
        r@.len() == store.accounts@.len(),
        forall|k: int|
            0 <= k < r@.len() ==> acct_eqv(store.accounts@[k], #[trigger] r@[k]),
{
    let mut r: Vec<Account> = Vec::new();
    let n: usize = store.accounts.len();
    let mut i: usize = 0;
    while i < n
        invariant
            n == store.accounts@.len(),
            i <= n,
            r@.len() == i,
            forall|k: int| 0 <= k < i ==> acct_eqv(store.accounts@[k], #[trigger] r@[k]),
        decreases n - i,
    {
        r.push(clone_account(&store.accounts[i]));
        i += 1;
    }
    r
}

/// Overwrite the wallet and eoa addresses of the account with this id; a
/// missing value clears the field. Everything else is untouched.
pub fn update(
    store: &mut Store,
    id: u64,
    wallet_address: Option<String>,
    eoa_address: Option<String>,
)
    requires
        old(store).wf(),
    ensures
        final(store).wf(),
        final(store).next_id == old(store).next_id,
        same_except_accounts(*old(store), *final(store)),
        final(store).accounts@.len() == old(store).accounts@.len(),
        forall|j: int|
            0 <= j < final(store).accounts@.len() ==> (#[trigger] final(store).accounts@[j]).id
                == old(store).accounts@[j].id && final(store).accounts@[j].email == old(
                store,
            ).accounts@[j].email && final(store).accounts@[j].eoa_private_address == old(
                store,
            ).accounts@[j].eoa_private_address && final(store).accounts@[j].updated_at == old(
                store,
            ).accounts@[j].updated_at,
        forall|j: int|
            0 <= j < final(store).accounts@.len() && old(store).accounts@[j].id != id
                ==> (#[trigger] final(store).accounts@[j]).wallet_address == old(
                store,
            ).accounts@[j].wallet_address && final(store).accounts@[j].eoa_address == old(
                store,
            ).accounts@[j].eoa_address,
        forall|j: int|
            0 <= j < final(store).accounts@.len() && old(store).accounts@[j].id == id
                ==> (#[trigger] final(store).accounts@[j]).wallet_address@ == (
            match wallet_address {
                Some(w) => w@,
                None => Seq::<char>::empty(),
            }) && final(store).accounts@[j].eoa_address@ == (match eoa_address {
                Some(e) => e@,
                None => Seq::<char>::empty(),
            }),
{
    let new_wallet: String = match wallet_address {
        Some(w) => w,
        None => String::new(),
    };
    let new_eoa: String = match eoa_address {
        Some(e) => e,
        None => String::new(),
    };
    let n: usize = store.accounts.len();
    let mut i: usize = 0;
    while i < n
        invariant
            old(store).wf(),
            n == store.accounts@.len(),
            n == old(store).accounts@.len(),
            i <= n,
            store.next_id == old(store).next_id,
            same_except_accounts(*old(store), *store),
            forall|j: int|
                0 <= j < i ==> (#[trigger] store.accounts@[j]).id == old(store).accounts@[j].id
                    && store.accounts@[j].email == old(store).accounts@[j].email
                    && store.accounts@[j].eoa_private_address == old(
                    store,
                ).accounts@[j].eoa_private_address && store.accounts@[j].updated_at == old(
                    store,
                ).accounts@[j].updated_at,
            forall|j: int|
                0 <= j < i && old(store).accounts@[j].id != id
                    ==> (#[trigger] store.accounts@[j]).wallet_address == old(
                    store,
                ).accounts@[j].wallet_address && store.accounts@[j].eoa_address == old(
                    store,
                ).accounts@[j].eoa_address,
            forall|j: int|
                0 <= j < i && old(store).accounts@[j].id == id
                    ==> (#[trigger] store.accounts@[j]).wallet_address@ == new_wallet@
                    && store.accounts@[j].eoa_address@ == new_eoa@,
            forall|j: int| i <= j < n ==> #[trigger] store.accounts@[j] == old(store).accounts@[j],
            new_wallet@ == (match wallet_address {
                Some(w) => w@,
                None => Seq::<char>::empty(),
            }),
            new_eoa@ == (match eoa_address {
                Some(e) => e@,
                None => Seq::<char>::empty(),
            }),
        decreases n - i,
    {
        if store.accounts[i].id == id {
            let row = &mut store.accounts[i];
            row.wallet_address = new_wallet.clone();
            row.eoa_address = new_eoa.clone();
        }
        i += 1;
    }
    proof {
        lemma_account_rewrite_keeps_wf(*old(store), *store);
    }
}

proof fn lemma_account_rewrite_keeps_wf(pre: Store, post: Store)
    requires
        pre.wf(),
        same_except_accounts(pre, post),
        post.next_id == pre.next_id,
        post.accounts@.len() == pre.accounts@.len(),
        forall|j: int|
            0 <= j < post.accounts@.len() ==> (#[trigger] post.accounts@[j]).id
                == pre.accounts@[j].id && post.accounts@[j].email == pre.accounts@[j].email,
    ensures
        post.wf(),
{
    let s0 = pre.accounts@;
    let s1 = post.accounts@;
    assert forall|i: int|
        0 <= i < post.guardians@.len() implies ((#[trigger] post.guardians@[i]).account_id
        matches Some(aid) ==> exists|k: int|
        0 <= k < s1.len() && (#[trigger] s1[k]).id == aid && s1[k].email@
            == post.guardians@[i].email@) by {
        if post.guardians@[i].account_id is Some {
            let aid = post.guardians@[i].account_id.unwrap();
            assert(pre.emails_consistent());
            let k = choose|k: int|
                0 <= k < s0.len() && (#[trigger] s0[k]).id == aid && s0[k].email@
                    == pre.guardians@[i].email@;
            assert(s1[k].id == aid && s1[k].email@ == post.guardians@[i].email@);
        }
    }
    assert forall|i: int|
        0 <= i < post.nominations@.len() implies has_account(
        s1,
        (#[trigger] post.nominations@[i]).account_id,
    ) by {
        assert(has_account(s0, pre.nominations@[i].account_id));
        let k = choose|k: int|
            0 <= k < s0.len() && (#[trigger] s0[k]).id == pre.nominations@[i].account_id;
        assert(s1[k].id == pre.nominations@[i].account_id);
    }
    assert forall|i: int|
        0 <= i < post.account_guardians@.len() implies has_account(
        s1,
        (#[trigger] post.account_guardians@[i]).account_id,
    ) by {
        assert(has_account(s0, pre.account_guardians@[i].account_id));
        let k = choose|k: int|
            0 <= k < s0.len() && (#[trigger] s0[k]).id == pre.account_guardians@[i].account_id;
        assert(s1[k].id == pre.account_guardians@[i].account_id);
    }
    assert forall|i: int|
        0 <= i < post.guardian_settings@.len() implies has_account(
        s1,
        (#[trigger] post.guardian_settings@[i]).account_id,
    ) by {
        assert(has_account(s0, pre.guardian_settings@[i].account_id));
        let k = choose|k: int|
            0 <= k < s0.len() && (#[trigger] s0[k]).id == pre.guardian_settings@[i].account_id;
        assert(s1[k].id == pre.guardian_settings@[i].account_id);
    }
}

} // verus!
