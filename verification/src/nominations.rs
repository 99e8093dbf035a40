//! The nomination workflow: an account invites a guardian by email, the
//! invited guardian answers, and a still-pending invitation can be
//! withdrawn.

use vstd::prelude::*;

verus! {

use crate::account_repo;
use crate::api::NominationCreateResponse;
use crate::api::NominationDeleteResponse;
use crate::api::NominationUpdateResponse;
use crate::email::email_ok;
use crate::email::is_valid_email;
use crate::entities::Guardian;
use crate::entities::Nomination;
use crate::entities::NominationStatus;
use crate::entities::nomination_status_parse;
use crate::entities::parse_nomination_status;
use crate::errors::CoreError;
use crate::guardian_account_repo;
use crate::guardian_repo;
use crate::nomination_repo;
use crate::nomination_repo::nom_of_account_and_id;
use crate::nomination_repo::nom_of_guardian_and_id;
use crate::store::Store;
use crate::store::account_email_taken;
use crate::store::guardian_email_taken;
use crate::store::has_account;
use crate::store::has_nomination;
use crate::store::same_except_nominations;

/// Whether a nomination in `current` status may be set to `requested`.
/// `Pending` can never be requested; the two terminal statuses exclude
/// each other but re-requesting the same terminal status is permitted.
pub open spec fn transition_allowed(
    requested: NominationStatus,
    current: NominationStatus,
) -> bool {
    match requested {
        NominationStatus::Pending => false,
        NominationStatus::Accepted => current != NominationStatus::Rejected,
        NominationStatus::Rejected => current != NominationStatus::Accepted,
    }
}

/// Check a requested status word against the nomination's current status.
/// The word is read case-insensitively; only the two terminal statuses
/// can be requested, and a terminal status cannot be overturned.
pub fn validate_nomination_status(requested_status: &String, current: NominationStatus) -> (r:
    Result<NominationStatus, CoreError>)
    ensures
        (r is Ok) == (nomination_status_parse(requested_status@) matches Some(st)
            && transition_allowed(st, current)),
        (r matches Ok(st) ==> Some(st) == nomination_status_parse(requested_status@)),
        (r matches Err(e) ==> e is InvalidTransition),
{
    match parse_nomination_status(requested_status.as_str()) {
        Some(NominationStatus::Accepted) => {
            if current == NominationStatus::Rejected {
                Err(CoreError::InvalidTransition)
            } else {
                Ok(NominationStatus::Accepted)
            }
        },
        Some(NominationStatus::Rejected) => {
            if current == NominationStatus::Accepted {
                Err(CoreError::InvalidTransition)
            } else {
                Ok(NominationStatus::Rejected)
            }
        },
        _ => Err(CoreError::InvalidTransition),
    }
}

/// Some guardian row is linked to this registered account.
pub open spec fn has_linked_guardian(gs: Seq<Guardian>, account_id: u64) -> bool {
    exists|i: int| 0 <= i < gs.len() && (#[trigger] gs[i]).account_id == Some(account_id)
}

/// The id of the guardian row linked to this account (meaningful when one
/// exists; the store invariant makes it unique).
pub open spec fn linked_guardian_id(gs: Seq<Guardian>, account_id: u64) -> u64 {
    gs[choose|i: int|
        0 <= i < gs.len() && (#[trigger] gs[i]).account_id == Some(account_id)].id
}

/// The nomination row carrying this id (meaningful when one exists).
pub open spec fn nom_at(noms: Seq<Nomination>, nomination_id: u64) -> Nomination {
    noms[choose|i: int| 0 <= i < noms.len() && (#[trigger] noms[i]).id == nomination_id]
}

/// Two guardian rows linked to one account are the same row: their emails
/// both equal the account's unique email, and guardian emails are unique.
proof fn lemma_linked_guardian_unique(store: Store, account_id: u64, i: int, j: int)
    requires
        store.wf(),
        0 <= i < store.guardians@.len(),
        0 <= j < store.guardians@.len(),
        store.guardians@[i].account_id == Some(account_id),
        store.guardians@[j].account_id == Some(account_id),
    ensures
        i == j,
{
    let gs = store.guardians@;
    let accs = store.accounts@;
    assert(store.emails_consistent());
    let k1 = choose|k: int|
        0 <= k < accs.len() && (#[trigger] accs[k]).id == account_id && accs[k].email@
            == gs[i].email@;
    let k2 = choose|k: int|
        0 <= k < accs.len() && (#[trigger] accs[k]).id == account_id && accs[k].email@
            == gs[j].email@;
    assert(accs[k1].id == account_id && accs[k2].id == account_id);
    assert(k1 == k2);
    assert(gs[i].email@ == gs[j].email@);
}

/// The nomination addressed to this guardian under this row id, if any.
fn find_for_guardian<'a>(store: &'a Store, guardian_id: u64, nomination_id: u64) -> (r: Option<
    &'a Nomination,
>)
    ensures
        (r is Some) == exists|i: int|
            0 <= i < store.nominations@.len() && nom_of_guardian_and_id(guardian_id, nomination_id)(
                #[trigger] store.nominations@[i],
            ),
        (r matches Some(n) ==> n.guardian_id == guardian_id && n.id == nomination_id && exists|
            i: int,
        |
            0 <= i < store.nominations@.len() && #[trigger] store.nominations@[i] == *n),
{
    let n: usize = store.nominations.len();
    let mut i: usize = 0;
    while i < n
        invariant
            n == store.nominations@.len(),
            i <= n,
            forall|j: int|
                0 <= j < i ==> !nom_of_guardian_and_id(guardian_id, nomination_id)(
                    #[trigger] store.nominations@[j],
                ),
        decreases n - i,
    {
        if store.nominations[i].guardian_id == guardian_id && store.nominations[i].id
            == nomination_id {
            return Some(&store.nominations[i]);
        }
        i += 1;
    }
    None
}

/// The invited guardian answers a nomination addressed to it.
///
/// The acting account must itself be registered as a guardian; the
/// requested status word is checked by [`validate_nomination_status`]. On
/// an accepted answer a fresh `Available` account-guardian link appears
/// for the nominating account before the nomination's status is written;
/// on a rejected answer only the status is written.
pub fn update_nomination_status(
    store: &mut Store,
    guardian_account_id: u64,
    nomination_id: u64,
    requested_status: &String,
) -> (r: Result<NominationUpdateResponse, CoreError>)
    requires
        old(store).wf(),
        old(store).next_id < u64::MAX,
    ensures
        final(store).wf(),
        (r is Ok) == (has_account(old(store).accounts@, guardian_account_id)
            && has_linked_guardian(old(store).guardians@, guardian_account_id) && has_nomination(
            old(store).nominations@,
            nomination_id,
        ) && nom_at(old(store).nominations@, nomination_id).guardian_id == linked_guardian_id(
            old(store).guardians@,
            guardian_account_id,
        ) && (nomination_status_parse(requested_status@) matches Some(st) && transition_allowed(
            st,
            nom_at(old(store).nominations@, nomination_id).status,
        ))),
        (r is Err ==> *final(store) == *old(store)),
        (r matches Err(e) ==> (e is NotFound || e is InvalidTransition)),
        (r matches Err(e) ==> (e is NotFound <==> !(has_account(
            old(store).accounts@,
            guardian_account_id,
        ) && has_linked_guardian(old(store).guardians@, guardian_account_id) && has_nomination(
            old(store).nominations@,
            nomination_id,
        ) && nom_at(old(store).nominations@, nomination_id).guardian_id == linked_guardian_id(
            old(store).guardians@,
            guardian_account_id,
        )))),
        (r matches Ok(resp) ==> {
            let gid = linked_guardian_id(old(store).guardians@, guardian_account_id);
            let nom = nom_at(old(store).nominations@, nomination_id);
            &&& resp.nomination_id == nomination_id
            &&& Some(resp.status) == nomination_status_parse(requested_status@)
            &&& final(store).accounts == old(store).accounts
            &&& final(store).guardians == old(store).guardians
            &&& final(store).guardian_settings == old(store).guardian_settings
            &&& final(store).verifications == old(store).verifications
            &&& final(store).nominations@.len() == old(store).nominations@.len()
            &&& (forall|j: int|
                0 <= j < final(store).nominations@.len()
                    ==> (#[trigger] final(store).nominations@[j]).id == old(
                    store,
                ).nominations@[j].id && final(store).nominations@[j].email == old(
                    store,
                ).nominations@[j].email && final(store).nominations@[j].guardian_id == old(
                    store,
                ).nominations@[j].guardian_id && final(store).nominations@[j].account_id == old(
                    store,
                ).nominations@[j].account_id && final(store).nominations@[j].status == (if old(
                    store,
                ).nominations@[j].id == nomination_id && old(store).nominations@[j].guardian_id
                    == gid {
                    resp.status
                } else {
                    old(store).nominations@[j].status
                }))
            &&& (resp.status == NominationStatus::Accepted ==> final(store).account_guardians@
                == old(store).account_guardians@.push(
                crate::entities::AccountGuardian {
                    id: old(store).next_id,
                    guardian_id: gid,
                    account_id: nom.account_id,
                    status: crate::entities::GuardianStatus::Available,
                },
            ) && final(store).next_id == old(store).next_id + 1)
            &&& (resp.status == NominationStatus::Rejected ==> final(store).account_guardians
                == old(store).account_guardians && final(store).next_id == old(store).next_id)
        }),
{
    if account_repo::find_by_id(store, guardian_account_id).is_none() {
        return Err(CoreError::NotFound);
    }
    let g = match guardian_repo::find_by_account_id(store, guardian_account_id) {
        Some(g) => g,
        None => {
            return Err(CoreError::NotFound);
        },
    };
    let gid = g.id;
    proof {
        let gs = store.guardians@;
        let e = choose|i: int| 0 <= i < gs.len() && #[trigger] gs[i] == *g;
        let c = choose|i: int|
            0 <= i < gs.len() && (#[trigger] gs[i]).account_id == Some(guardian_account_id);
        lemma_linked_guardian_unique(*store, guardian_account_id, e, c);
        assert(gid == linked_guardian_id(gs, guardian_account_id));
        assert(gs[e].id == gid);
    }
    let (current, nom_account_id) = match find_for_guardian(store, gid, nomination_id) {
        Some(nom) => (nom.status, nom.account_id),
        None => {
            proof {
                let noms = store.nominations@;
                if has_nomination(noms, nomination_id) {
                    let c = choose|i: int|
                        0 <= i < noms.len() && (#[trigger] noms[i]).id == nomination_id;
                    assert(!nom_of_guardian_and_id(gid, nomination_id)(noms[c]));
                }
            }
            return Err(CoreError::NotFound);
        },
    };
    proof {
        let noms = store.nominations@;
        let e = choose|i: int|
            0 <= i < noms.len() && nom_of_guardian_and_id(gid, nomination_id)(
                #[trigger] noms[i],
            );
        let c = choose|i: int| 0 <= i < noms.len() && (#[trigger] noms[i]).id == nomination_id;
        assert(noms[e].id == nomination_id && noms[c].id == nomination_id);
        assert(e == c);
        assert(nom_at(noms, nomination_id).status == current);
        assert(nom_at(noms, nomination_id).account_id == nom_account_id);
        assert(has_account(store.accounts@, nom_account_id));
    }
    let st = match validate_nomination_status(requested_status, current) {
        Ok(st) => st,
        Err(e) => {
            return Err(e);
        },
    };
    if st == NominationStatus::Accepted {
        guardian_account_repo::create(
            store,
            gid,
            nom_account_id,
            crate::entities::GuardianStatus::Available,
        );
    }
    nomination_repo::update_status_by_guardian_id(store, nomination_id, gid, st);
    Ok(NominationUpdateResponse { nomination_id, status: st })
}

/// The id of the guardian row keyed by this email (meaningful when one
/// exists).
pub open spec fn guardian_id_for_email(gs: Seq<Guardian>, email: Seq<char>) -> u64 {
    gs[choose|i: int| 0 <= i < gs.len() && (#[trigger] gs[i]).email@ == email].id
}

/// The id of the account keyed by this email (meaningful when one
/// exists).
pub open spec fn account_id_for_email(accs: Seq<crate::entities::Account>, email: Seq<char>) -> u64 {
    accs[choose|i: int| 0 <= i < accs.len() && (#[trigger] accs[i]).email@ == email].id
}

/// An account invites `invitee_email` to act as its guardian.
///
/// The email must be syntactically valid and the acting account must
/// exist. An existing guardian row for that email is reused; otherwise a
/// fresh one is created, linked to the account registered under that
/// email when there is one. Either way a new `Pending` nomination row
/// appears.
pub fn create_nomination(
    store: &mut Store,
    acting_account_id: u64,
    invitee_email: &String,
) -> (r: Result<NominationCreateResponse, CoreError>)
    requires
        old(store).wf(),
        old(store).next_id < u64::MAX - 1,
    ensures
        final(store).wf(),
        (r is Ok) == (email_ok(invitee_email@) && has_account(
            old(store).accounts@,
            acting_account_id,
        )),
        (r is Err ==> *final(store) == *old(store)),
        (r matches Err(e) ==> ((e matches CoreError::InvalidInput { offending } && offending@.len()
            == 0) <==> !email_ok(invitee_email@))),
        (r matches Err(e) ==> (e is NotFound <==> (email_ok(invitee_email@) && !has_account(
            old(store).accounts@,
            acting_account_id,
        )))),
        (r matches Ok(resp) ==> {
            &&& final(store).accounts == old(store).accounts
            &&& final(store).account_guardians == old(store).account_guardians
            &&& final(store).guardian_settings == old(store).guardian_settings
            &&& final(store).verifications == old(store).verifications
            &&& final(store).nominations@.len() == old(store).nominations@.len() + 1
            &&& (forall|j: int|
                0 <= j < old(store).nominations@.len() ==> final(store).nominations@[j] == old(
                    store,
                ).nominations@[j])
            &&& resp.nomination_id == final(store).nominations@.last().id
            &&& final(store).nominations@.last().email@ == invitee_email@
            &&& final(store).nominations@.last().account_id == acting_account_id
            &&& final(store).nominations@.last().status == NominationStatus::Pending
            &&& (guardian_email_taken(old(store).guardians@, invitee_email@) ==> {
                &&& final(store).guardians == old(store).guardians
                &&& final(store).nominations@.last().guardian_id == guardian_id_for_email(
                    old(store).guardians@,
                    invitee_email@,
                )
                &&& resp.nomination_id == old(store).next_id
                &&& final(store).next_id == old(store).next_id + 1
            })
            &&& (!guardian_email_taken(old(store).guardians@, invitee_email@) ==> {
                &&& final(store).guardians@.len() == old(store).guardians@.len() + 1
                &&& (forall|j: int|
                    0 <= j < old(store).guardians@.len() ==> final(store).guardians@[j] == old(
                        store,
                    ).guardians@[j])
                &&& final(store).guardians@.last().id == old(store).next_id
                &&& final(store).guardians@.last().email@ == invitee_email@
                &&& final(store).guardians@.last().wallet_address is None
                &&& final(store).guardians@.last().account_id == (if account_email_taken(
                    old(store).accounts@,
                    invitee_email@,
                ) {
                    Some(account_id_for_email(old(store).accounts@, invitee_email@))
                } else {
                    None::<u64>
                })
                &&& final(store).nominations@.last().guardian_id == old(store).next_id
                &&& resp.nomination_id == old(store).next_id + 1
                &&& final(store).next_id == old(store).next_id + 2
            })
        }),
{
    if !is_valid_email(invitee_email.as_str()) {
        return Err(CoreError::InvalidInput { offending: Vec::new() });
    }
    if account_repo::find_by_id(store, acting_account_id).is_none() {
        return Err(CoreError::NotFound);
    }
    match guardian_repo::find_by_email(store, invitee_email) {
        Some(g) => {
            let gid = g.id;
            proof {
                let gs = store.guardians@;
                let e = choose|i: int| 0 <= i < gs.len() && #[trigger] gs[i] == *g;
                let c = choose|i: int|
                    0 <= i < gs.len() && (#[trigger] gs[i]).email@ == invitee_email@;
                assert(gs[e].email@ == invitee_email@ && gs[c].email@ == invitee_email@);
                assert(e == c);
                assert(gid == guardian_id_for_email(gs, invitee_email@));
                assert(crate::store::has_guardian(gs, gid));
            }
            let nid = nomination_repo::create(
                store,
                invitee_email.clone(),
                acting_account_id,
                gid,
                NominationStatus::Pending,
            );
            Ok(NominationCreateResponse { nomination_id: nid })
        },
        None => {
            let linked: Option<u64> = match account_repo::find_by_email(store, invitee_email) {
                Some(ua) => {
                    let aid = ua.id;
                    proof {
                        let accs = store.accounts@;
                        let e = choose|i: int| 0 <= i < accs.len() && #[trigger] accs[i] == *ua;
                        let c = choose|i: int|
                            0 <= i < accs.len() && (#[trigger] accs[i]).email@ == invitee_email@;
                        assert(accs[e].email@ == invitee_email@ && accs[c].email@
                            == invitee_email@);
                        assert(e == c);
                        assert(aid == account_id_for_email(accs, invitee_email@));
                    }
                    Some(aid)
                },
                None => None,
            };
            let gid = guardian_repo::create(store, invitee_email.clone(), linked, None);
            proof {
                assert(store.guardians@.last().id == gid);
                assert(crate::store::has_guardian(store.guardians@, gid));
                assert(has_account(store.accounts@, acting_account_id));
            }
            let nid = nomination_repo::create(
                store,
                invitee_email.clone(),
                acting_account_id,
                gid,
                NominationStatus::Pending,
            );
            Ok(NominationCreateResponse { nomination_id: nid })
        },
    }
}

/// The nominating account withdraws a nomination. Only a still-pending
/// one can go: a resolved nomination is immutable and stays in place.
pub fn delete_nomination(
    store: &mut Store,
    acting_account_id: u64,
    nomination_id: u64,
) -> (r: Result<NominationDeleteResponse, CoreError>)
    requires
        old(store).wf(),
    ensures
        final(store).wf(),
        (r is Ok) == (exists|i: int|
            0 <= i < old(store).nominations@.len() && nom_of_account_and_id(
                acting_account_id,
                nomination_id,
            )(#[trigger] old(store).nominations@[i]) && old(store).nominations@[i].status
                == NominationStatus::Pending),
        (r is Err ==> *final(store) == *old(store)),
        (r matches Err(e) ==> (e is NotFound || e is InvalidState)),
        (r matches Err(e) ==> (e is NotFound <==> (forall|i: int|
            0 <= i < old(store).nominations@.len() ==> !nom_of_account_and_id(
                acting_account_id,
                nomination_id,
            )(#[trigger] old(store).nominations@[i])))),
        (r matches Ok(resp) ==> resp.nomination_id == nomination_id && same_except_nominations(
            *old(store),
            *final(store),
        ) && final(store).next_id == old(store).next_id && exists|i: int|
            0 <= i < old(store).nominations@.len() && nom_of_account_and_id(
                acting_account_id,
                nomination_id,
            )(#[trigger] old(store).nominations@[i]) && final(store).nominations@ == old(
                store,
            ).nominations@.remove(i)),
{
    let current = match nomination_repo::find_by_account_and_id(
        store,
        acting_account_id,
        nomination_id,
    ) {
        Some(nom) => nom.status,
        None => {
            return Err(CoreError::NotFound);
        },
    };
    proof {
        let noms = store.nominations@;
        let e = choose|i: int|
            0 <= i < noms.len() && nom_of_account_and_id(acting_account_id, nomination_id)(
                #[trigger] noms[i],
            );
        assert forall|i: int|
            0 <= i < noms.len() && nom_of_account_and_id(acting_account_id, nomination_id)(
                #[trigger] noms[i],
            ) implies noms[i].status == current by {
            assert(noms[i].id == nomination_id && noms[e].id == nomination_id);
            assert(i == e);
        }
    }
    if current != NominationStatus::Pending {
        return Err(CoreError::InvalidState);
    }
    nomination_repo::delete_by_account_and_id(store, acting_account_id, nomination_id);
    Ok(NominationDeleteResponse { nomination_id })
}

/// The nominations an account-side listing selects: by row id, else by
/// status (an unrecognised status word selects nothing), else by invitee
/// email, else every nomination the account issued.
pub open spec fn selected_account_nominations(
    store: Store,
    account_id: u64,
    params: crate::api::NominationParams,
) -> Seq<Nomination> {
    match params.nomination_id {
        Some(nid) => store.nominations@.filter(nom_of_account_and_id(account_id, nid)),
        None => match params.status {
            Some(st) => match nomination_status_parse(st@) {
                Some(s) => store.nominations@.filter(
                    nomination_repo::nom_of_account_and_status(account_id, s),
                ),
                None => Seq::empty(),
            },
            None => match params.email {
                Some(em) => store.nominations@.filter(
                    nomination_repo::nom_of_account_and_email(account_id, em@),
                ),
                None => store.nominations@.filter(nomination_repo::nom_of_account(account_id)),
            },
        },
    }
}

/// List the nominations the acting account has issued, under the given
/// filter. The status word is matched case-insensitively.
pub fn list_nominations_for_account(
    store: &Store,
    acting_account_id: u64,
    params: &crate::api::NominationParams,
) -> (r: Result<Vec<Nomination>, CoreError>)
    ensures
        (r is Ok) == has_account(store.accounts@, acting_account_id),
        (r matches Err(e) ==> e is NotFound),
        (r matches Ok(v) ==> v@.len() == selected_account_nominations(
            *store,
            acting_account_id,
            *params,
        ).len() && (forall|k: int|
            0 <= k < v@.len() ==> nomination_repo::nom_eqv(
                selected_account_nominations(*store, acting_account_id, *params)[k],
                #[trigger] v@[k],
            ))),
{
    if account_repo::find_by_id(store, acting_account_id).is_none() {
        return Err(CoreError::NotFound);
    }
    let v: Vec<Nomination> = match &params.nomination_id {
        Some(nid) => nomination_repo::find_all_by_account_and_id(store, acting_account_id, *nid),
        None => match &params.status {
            Some(st) => match parse_nomination_status(st.as_str()) {
                Some(s) => nomination_repo::find_all_by_account_and_status(
                    store,
                    acting_account_id,
                    s,
                ),
                None => Vec::new(),
            },
            None => match &params.email {
                Some(em) => nomination_repo::find_all_by_account_and_email(
                    store,
                    acting_account_id,
                    em,
                ),
                None => nomination_repo::find_all_by_account(store, acting_account_id),
            },
        },
    };
    Ok(v)
}

/// The nominations a guardian-side listing selects for this guardian
/// row: by row id, else by status (an unrecognised status word selects
/// nothing), else everything addressed to the guardian.
pub open spec fn selected_guardian_nominations(
    store: Store,
    guardian_row_id: u64,
    params: crate::api::GuardianNominationParams,
) -> Seq<Nomination> {
    match params.nomination_id {
        Some(nid) => store.nominations@.filter(nom_of_guardian_and_id(guardian_row_id, nid)),
        None => match params.status {
            Some(st) => match nomination_status_parse(st@) {
                Some(s) => store.nominations@.filter(
                    nomination_repo::nom_of_guardian_and_status(guardian_row_id, s),
                ),
                None => Seq::empty(),
            },
            None => store.nominations@.filter(nomination_repo::nom_of_guardian(guardian_row_id)),
        },
    }
}

/// List the nominations addressed to the acting account in its guardian
/// role. An account that is nobody's guardian gets an empty list.
pub fn list_nominations_for_guardian(
    store: &Store,
    acting_account_id: u64,
    params: &crate::api::GuardianNominationParams,
) -> (r: Result<Vec<Nomination>, CoreError>)
    requires
        store.wf(),
    ensures
        (r is Ok) == has_account(store.accounts@, acting_account_id),
        (r matches Err(e) ==> e is NotFound),
        (r matches Ok(v) ==> (!has_linked_guardian(store.guardians@, acting_account_id)
            ==> v@.len() == 0)),
        (r matches Ok(v) ==> (has_linked_guardian(store.guardians@, acting_account_id) ==> v@.len()
            == selected_guardian_nominations(
            *store,
            linked_guardian_id(store.guardians@, acting_account_id),
            *params,
        ).len() && (forall|k: int|
            0 <= k < v@.len() ==> nomination_repo::nom_eqv(
                selected_guardian_nominations(
                    *store,
                    linked_guardian_id(store.guardians@, acting_account_id),
                    *params,
                )[k],
                #[trigger] v@[k],
            )))),
{
    if account_repo::find_by_id(store, acting_account_id).is_none() {
        return Err(CoreError::NotFound);
    }
    let g = match guardian_repo::find_by_account_id(store, acting_account_id) {
        Some(g) => g,
        None => {
            return Ok(Vec::new());
        },
    };
    proof {
        let gs = store.guardians@;
        let e = choose|i: int| 0 <= i < gs.len() && #[trigger] gs[i] == *g;
        let c = choose|i: int|
            0 <= i < gs.len() && (#[trigger] gs[i]).account_id == Some(acting_account_id);
        lemma_linked_guardian_unique(*store, acting_account_id, e, c);
        assert(g.id == linked_guardian_id(gs, acting_account_id));
    }
    let v: Vec<Nomination> = match &params.nomination_id {
        Some(nid) => nomination_repo::find_all_by_guardian_and_nomination_id(store, g.id, *nid),
        None => match &params.status {
            Some(st) => match parse_nomination_status(st.as_str()) {
                Some(s) => nomination_repo::find_all_by_guardian_and_status(store, g.id, s),
                None => Vec::new(),
            },
            None => nomination_repo::find_all_by_guardian(store, g.id),
        },
    };
    Ok(v)
}

} // verus!
