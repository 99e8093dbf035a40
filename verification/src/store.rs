//! The in-memory backing store: one growable table per record kind plus a
//! counter handing out identifiers.
//!
//! [`Store::wf`] is the invariant every operation requires and preserves:
//! ids are unique and below `next_id`, emails are unique per root entity,
//! and no dependent row is orphaned from its account or guardian.

use vstd::prelude::*;

verus! {

use crate::entities::Account;
use crate::entities::AccountGuardian;
use crate::entities::Guardian;
use crate::entities::GuardianSettings;
use crate::entities::Nomination;
use crate::entities::Verification;

/// Some account row carries this id.
pub open spec fn has_account(s: Seq<Account>, id: u64) -> bool {
    exists|i: int| 0 <= i < s.len() && (#[trigger] s[i]).id == id
}

/// Some guardian row carries this id.
pub open spec fn has_guardian(s: Seq<Guardian>, id: u64) -> bool {
    exists|i: int| 0 <= i < s.len() && (#[trigger] s[i]).id == id
}

/// Some account row carries this email.
pub open spec fn account_email_taken(s: Seq<Account>, email: Seq<char>) -> bool {
    exists|i: int| 0 <= i < s.len() && (#[trigger] s[i]).email@ == email
}

/// Some guardian row carries this email.
pub open spec fn guardian_email_taken(s: Seq<Guardian>, email: Seq<char>) -> bool {
    exists|i: int| 0 <= i < s.len() && (#[trigger] s[i]).email@ == email
}

/// Some nomination row carries this id.
pub open spec fn has_nomination(s: Seq<Nomination>, id: u64) -> bool {
    exists|i: int| 0 <= i < s.len() && (#[trigger] s[i]).id == id
}

/// All tables except `account_guardians` kept as they were.
pub open spec fn same_except_account_guardians(pre: Store, post: Store) -> bool {
    &&& post.accounts == pre.accounts
    &&& post.guardians == pre.guardians
    &&& post.nominations == pre.nominations
    &&& post.guardian_settings == pre.guardian_settings
    &&& post.verifications == pre.verifications
}

/// All tables except `nominations` kept as they were.
pub open spec fn same_except_nominations(pre: Store, post: Store) -> bool {
    &&& post.accounts == pre.accounts
    &&& post.guardians == pre.guardians
    &&& post.account_guardians == pre.account_guardians
    &&& post.guardian_settings == pre.guardian_settings
    &&& post.verifications == pre.verifications
}

/// All tables except `guardians` kept as they were.
pub open spec fn same_except_guardians(pre: Store, post: Store) -> bool {
    &&& post.accounts == pre.accounts
    &&& post.nominations == pre.nominations
    &&& post.account_guardians == pre.account_guardians
    &&& post.guardian_settings == pre.guardian_settings
    &&& post.verifications == pre.verifications
}

/// All tables except `accounts` kept as they were.
pub open spec fn same_except_accounts(pre: Store, post: Store) -> bool {
    &&& post.guardians == pre.guardians
    &&& post.nominations == pre.nominations
    &&& post.account_guardians == pre.account_guardians
    &&& post.guardian_settings == pre.guardian_settings
    &&& post.verifications == pre.verifications
}

/// All tables except `guardian_settings` kept as they were.
pub open spec fn same_except_settings(pre: Store, post: Store) -> bool {
    &&& post.accounts == pre.accounts
    &&& post.guardians == pre.guardians
    &&& post.nominations == pre.nominations
    &&& post.account_guardians == pre.account_guardians
    &&& post.verifications == pre.verifications
}

/// All tables except `verifications` kept as they were.
pub open spec fn same_except_verifications(pre: Store, post: Store) -> bool {
    &&& post.accounts == pre.accounts
    &&& post.guardians == pre.guardians
    &&& post.nominations == pre.nominations
    &&& post.account_guardians == pre.account_guardians
    &&& post.guardian_settings == pre.guardian_settings
}

pub struct Store {
    pub accounts: Vec<Account>,
    pub guardians: Vec<Guardian>,
    pub nominations: Vec<Nomination>,
    pub account_guardians: Vec<AccountGuardian>,
    pub guardian_settings: Vec<GuardianSettings>,
    pub verifications: Vec<Verification>,
    /// Next identifier to hand out; strictly above every id in every table.
    pub next_id: u64,
}

impl Store {
    /// Ids are pairwise distinct within each table.
    pub open spec fn ids_unique(self) -> bool {
        &&& forall|i: int, j: int|
            0 <= i < self.accounts@.len() && 0 <= j < self.accounts@.len() && i != j
                ==> (#[trigger] self.accounts@[i]).id != (#[trigger] self.accounts@[j]).id
        &&& forall|i: int, j: int|
            0 <= i < self.guardians@.len() && 0 <= j < self.guardians@.len() && i != j
                ==> (#[trigger] self.guardians@[i]).id != (#[trigger] self.guardians@[j]).id
        &&& forall|i: int, j: int|
            0 <= i < self.nominations@.len() && 0 <= j < self.nominations@.len() && i != j
                ==> (#[trigger] self.nominations@[i]).id != (#[trigger] self.nominations@[j]).id
        &&& forall|i: int, j: int|
            0 <= i < self.account_guardians@.len() && 0 <= j < self.account_guardians@.len()
                && i != j
                ==> (#[trigger] self.account_guardians@[i]).id
                    != (#[trigger] self.account_guardians@[j]).id
        &&& forall|i: int, j: int|
            0 <= i < self.guardian_settings@.len() && 0 <= j < self.guardian_settings@.len()
                && i != j
                ==> (#[trigger] self.guardian_settings@[i]).id
                    != (#[trigger] self.guardian_settings@[j]).id
        &&& forall|i: int, j: int|
            0 <= i < self.verifications@.len() && 0 <= j < self.verifications@.len() && i != j
                ==> (#[trigger] self.verifications@[i]).id
                    != (#[trigger] self.verifications@[j]).id
    }

    /// Every id in every table is below `next_id`.
    pub open spec fn ids_below_next(self) -> bool {
        &&& forall|i: int|
            0 <= i < self.accounts@.len() ==> (#[trigger] self.accounts@[i]).id < self.next_id
        &&& forall|i: int|
            0 <= i < self.guardians@.len() ==> (#[trigger] self.guardians@[i]).id < self.next_id
        &&& forall|i: int|
            0 <= i < self.nominations@.len() ==> (#[trigger] self.nominations@[i]).id
                < self.next_id
        &&& forall|i: int|
            0 <= i < self.account_guardians@.len()
                ==> (#[trigger] self.account_guardians@[i]).id < self.next_id
        &&& forall|i: int|
            0 <= i < self.guardian_settings@.len()
                ==> (#[trigger] self.guardian_settings@[i]).id < self.next_id
        &&& forall|i: int|
            0 <= i < self.verifications@.len() ==> (#[trigger] self.verifications@[i]).id
                < self.next_id
    }

    /// Each root entity is keyed by a unique email; a linked guardian's
    /// email agrees with the account it links to, so no account has two
    /// guardian rows.
    pub open spec fn emails_consistent(self) -> bool {
        &&& forall|i: int, j: int|
            0 <= i < self.accounts@.len() && 0 <= j < self.accounts@.len() && i != j
                ==> (#[trigger] self.accounts@[i]).email@ != (#[trigger] self.accounts@[j]).email@
        &&& forall|i: int, j: int|
            0 <= i < self.guardians@.len() && 0 <= j < self.guardians@.len() && i != j
                ==> (#[trigger] self.guardians@[i]).email@
                    != (#[trigger] self.guardians@[j]).email@
        &&& forall|i: int|
            0 <= i < self.guardians@.len()
                ==> ((#[trigger] self.guardians@[i]).account_id matches Some(aid) ==> exists|k: int|
                    0 <= k < self.accounts@.len() && (#[trigger] self.accounts@[k]).id == aid
                        && self.accounts@[k].email@ == self.guardians@[i].email@)
    }

    /// Dependent rows always reference existing roots, and each account has
    /// at most one settings row.
    pub open spec fn references_valid(self) -> bool {
        &&& forall|i: int|
            0 <= i < self.nominations@.len() ==> has_account(
                self.accounts@,
                (#[trigger] self.nominations@[i]).account_id,
            ) && has_guardian(self.guardians@, self.nominations@[i].guardian_id)
        &&& forall|i: int|
            0 <= i < self.account_guardians@.len() ==> has_account(
                self.accounts@,
                (#[trigger] self.account_guardians@[i]).account_id,
            ) && has_guardian(self.guardians@, self.account_guardians@[i].guardian_id)
        &&& forall|i: int|
            0 <= i < self.guardian_settings@.len() ==> has_account(
                self.accounts@,
                (#[trigger] self.guardian_settings@[i]).account_id,
            )
        &&& forall|i: int, j: int|
            0 <= i < self.guardian_settings@.len() && 0 <= j < self.guardian_settings@.len()
                && i != j
                ==> (#[trigger] self.guardian_settings@[i]).account_id
                    != (#[trigger] self.guardian_settings@[j]).account_id
    }

    /// The store invariant.
    pub open spec fn wf(self) -> bool {
        &&& self.ids_unique()
        &&& self.ids_below_next()
        &&& self.emails_consistent()
        &&& self.references_valid()
    }

    /// An empty store.
    pub fn new() -> (r: Store)
        ensures
            r.wf(),
            r.accounts@.len() == 0,
            r.guardians@.len() == 0,
            r.nominations@.len() == 0,
            r.account_guardians@.len() == 0,
            r.guardian_settings@.len() == 0,
            r.verifications@.len() == 0,
            r.next_id == 1,
    {
        Store {
            accounts: Vec::new(),
            guardians: Vec::new(),
            nominations: Vec::new(),
            account_guardians: Vec::new(),
            guardian_settings: Vec::new(),
            verifications: Vec::new(),
            next_id: 1,
        }
    }
}

} // verus!
