//! The team repository's decision logic.
//!
//! A team carries an optional list of member identifiers. At write time
//! every claimed member is validated against the user collection: members
//! that do not exist are silently dropped, and duplicates are kept once,
//! in order of first occurrence.

use vstd::prelude::*;

use crate::object_id::ObjectId;
use crate::response::ApiError;
use crate::store::{Entity, StoreResult};
use crate::user::User;

verus! {

/// A team document. The identifier slot is empty until the store assigns
/// one; the member list is absent when the request carried none.
#[derive(Debug, Clone, PartialEq)]
pub struct Team {
    pub id: Option<ObjectId>,
    pub name: String,
    pub users: Option<Vec<ObjectId>>,
}

impl Entity for Team {
    open spec fn spec_with_id(self, id: ObjectId) -> Team {
        Team { id: Some(id), ..self }
    }

    fn with_id(self, id: ObjectId) -> (r: Team) {
        Team { id: Some(id), name: self.name, users: self.users }
    }
}

/// The byte strings of a list of identifiers.
pub open spec fn id_views(s: Seq<ObjectId>) -> Seq<Seq<u8>> {
    s.map_values(|o: ObjectId| o@)
}

/// Which of a list of member lookups found their user.
pub open spec fn found_flags(s: Seq<StoreResult<User>>) -> Seq<bool> {
    s.map_values(|x: StoreResult<User>| x is Found)
}

/// The member list that a write stores, given which claimed members exist:
/// the existing ones, each kept at its first occurrence.
pub open spec fn filtered_members(p: Seq<Seq<u8>>, found: Seq<bool>) -> Seq<Seq<u8>>
    decreases p.len(),
{
    if p.len() == 0 || found.len() == 0 {
        Seq::empty()
    } else {
        let init = filtered_members(p.drop_last(), found.drop_last());
        if found.last() && !init.contains(p.last()) {
            init.push(p.last())
        } else {
            init
        }
    }
}

/// The stored member list holds exactly the claimed members that exist, and
/// holds each of them once.
pub proof fn lemma_filtered_members(p: Seq<Seq<u8>>, found: Seq<bool>)
    requires
        p.len() == found.len(),
    ensures
        forall|x: Seq<u8>|
            #[trigger] filtered_members(p, found).contains(x) <==> exists|i: int|
                0 <= i < p.len() && found[i] && p[i] == x,
        forall|i: int, j: int|
            0 <= i < j < filtered_members(p, found).len() ==> filtered_members(p, found)[i]
                != filtered_members(p, found)[j],
    decreases p.len(),
{
    let f = filtered_members(p, found);
    if p.len() == 0 {
    } else {
        let p0 = p.drop_last();
        let found0 = found.drop_last();
        lemma_filtered_members(p0, found0);
        let init = filtered_members(p0, found0);
        assert forall|x: Seq<u8>| #[trigger] f.contains(x) implies exists|i: int|
            0 <= i < p.len() && found[i] && p[i] == x by {
            let k = choose|k: int| 0 <= k < f.len() && f[k] == x;
            if k < init.len() {
                assert(init.contains(x));
                let i = choose|i: int| 0 <= i < p0.len() && found0[i] && p0[i] == x;
                assert(found[i] && p[i] == x);
            } else {
                assert(x == p.last() && found.last());
                assert(found[p.len() - 1] && p[p.len() - 1] == x);
            }
        }
        assert forall|x: Seq<u8>|
            (exists|i: int| 0 <= i < p.len() && found[i] && p[i] == x) implies #[trigger] f
            .contains(x) by {
            let i = choose|i: int| 0 <= i < p.len() && found[i] && p[i] == x;
            if i < p.len() - 1 {
                assert(found0[i] && p0[i] == x);
                assert(init.contains(x));
                let k = choose|k: int| 0 <= k < init.len() && init[k] == x;
                assert(f[k] == x);
            } else {
                if init.contains(x) {
                    let k = choose|k: int| 0 <= k < init.len() && init[k] == x;
                    assert(f[k] == x);
                } else {
                    assert(f.last() == x);
                }
            }
        }
        assert forall|i: int, j: int| 0 <= i < j < f.len() implies f[i] != f[j] by {
            if j < init.len() {
            } else if f.len() > init.len() {
                assert(f[j] == p.last());
                assert(init[i] == f[i]);
                assert(init.contains(init[i]));
            }
        }
    }
}

/// Whether a list of identifiers holds one with the given bytes.
fn contains_id(v: &Vec<ObjectId>, x: &ObjectId) -> (b: bool)
    ensures
        b == id_views(v@).contains(x@),
{
    let mut i: usize = 0;
    while i < v.len()
        invariant
            i <= v@.len(),
            forall|j: int| 0 <= j < i ==> id_views(v@)[j] != x@,
        decreases v@.len() - i,
    {
        let e: &ObjectId = &v[i];
        if *e == *x {
            proof {
                assert(id_views(v@)[i as int] == x@);
            }
            return true;
        }
        i = i + 1;
    }
    proof {
        assert forall|k: int| 0 <= k < id_views(v@).len() implies id_views(v@)[k] != x@ by {}
    }
    false
}

/// Builds the member list that a team write stores, from the claimed
/// members and their lookups. Members whose lookup missed are dropped,
/// duplicates are kept once, and any lookup the store failed makes the
/// whole request an `InternalFailure`.
pub fn filter_members(provided: &Vec<ObjectId>, lookups: &Vec<StoreResult<User>>) -> (r: Result<
    Vec<ObjectId>,
    ApiError,
>)
    requires
        provided@.len() == lookups@.len(),
    ensures
        match r {
            Ok(kept) => (forall|i: int| 0 <= i < lookups@.len() ==> !(#[trigger] lookups@[i]
                is Failed)) && id_views(kept@) == filtered_members(
                id_views(provided@),
                found_flags(lookups@),
            ),
            Err(e) => e == ApiError::InternalFailure && exists|i: int|
                0 <= i < lookups@.len() && #[trigger] lookups@[i] is Failed,
        },
{
    let ghost pv = id_views(provided@);
    let ghost fl = found_flags(lookups@);
    let mut kept: Vec<ObjectId> = Vec::new();
    let mut i: usize = 0;
    while i < provided.len()
        invariant
            i <= provided@.len(),
            provided@.len() == lookups@.len(),
            pv == id_views(provided@),
            fl == found_flags(lookups@),
            forall|j: int| 0 <= j < i ==> !(#[trigger] lookups@[j] is Failed),
            id_views(kept@) == filtered_members(pv.take(i as int), fl.take(i as int)),
        decreases provided@.len() - i,
    {
        proof {
            assert(pv.take(i + 1).drop_last() =~= pv.take(i as int));
            assert(fl.take(i + 1).drop_last() =~= fl.take(i as int));
            assert(pv.take(i + 1).last() == provided@[i as int]@);
            assert(fl.take(i + 1).last() == (lookups@[i as int] is Found));
        }
        match &lookups[i] {
            StoreResult::Found(_) => {
                if !contains_id(&kept, &provided[i]) {
                    let id = provided[i].clone();
                    kept.push(id);
                    proof {
                        assert(id_views(kept@) =~= filtered_members(
                            pv.take(i + 1),
                            fl.take(i + 1),
                        ));
                    }
                } else {
                    proof {
                        assert(id_views(kept@) =~= filtered_members(
                            pv.take(i + 1),
                            fl.take(i + 1),
                        ));
                    }
                }
            },
            StoreResult::Missing => {
                proof {
                    assert(id_views(kept@) =~= filtered_members(pv.take(i + 1), fl.take(i + 1)));
                }
            },
            StoreResult::Failed => {
                return Err(ApiError::InternalFailure);
            },
        }
        i = i + 1;
    }
    proof {
        assert(pv.take(provided@.len() as int) =~= pv);
        assert(fl.take(lookups@.len() as int) =~= fl);
    }
    Ok(kept)
}

/// The claimed member identifiers of a create request: the request's list,
/// or none when the request carried no list. These are the identifiers the
/// gateway validates against the user collection.
#[verifier::loop_isolation(false)]
pub fn member_candidates(team: &Team) -> (ids: Vec<ObjectId>)
    ensures
        match team.users {
            Some(u) => id_views(ids@) == id_views(u@),
            None => ids@.len() == 0,
        },
{
    let mut ids: Vec<ObjectId> = Vec::new();
    match &team.users {
        Some(u) => {
            let mut i: usize = 0;
            while i < u.len()
                invariant
                    i <= u@.len(),
                    id_views(ids@) == id_views(u@).take(i as int),
                decreases u@.len() - i,
            {
                let id = u[i].clone();
                ids.push(id);
                i = i + 1;
                proof {
                    assert(id_views(ids@) =~= id_views(u@).take(i as int));
                }
            }
            proof {
                assert(id_views(u@).take(u@.len() as int) =~= id_views(u@));
            }
        },
        None => {},
    }
    ids
}

/// Builds the team document a create persists: the claimed member list is
/// replaced by the validated one, and a request without a member list is
/// stored without one. A store failure during validation fails the whole
/// request.
pub fn create_doc(team: Team, lookups: &Vec<StoreResult<User>>) -> (r: Result<Team, ApiError>)
    requires
        match team.users {
            Some(u) => u@.len() == lookups@.len(),
            None => lookups@.len() == 0,
        },
    ensures
        match r {
            Ok(doc) => {
                &&& doc.id == team.id
                &&& doc.name == team.name
                &&& forall|i: int| 0 <= i < lookups@.len() ==> !(#[trigger] lookups@[i] is Failed)
                &&& match (team.users, doc.users) {
                    (Some(u), Some(kept)) => id_views(kept@) == filtered_members(
                        id_views(u@),
                        found_flags(lookups@),
                    ),
                    (None, None) => true,
                    _ => false,
                }
            },
            Err(e) => e == ApiError::InternalFailure && exists|i: int|
                0 <= i < lookups@.len() && #[trigger] lookups@[i] is Failed,
        },
{
    match team.users {
        Some(u) => {
            let kept = filter_members(&u, lookups)?;
            Ok(Team { id: team.id, name: team.name, users: Some(kept) })
        },
        None => Ok(Team { id: team.id, name: team.name, users: None }),
    }
}

/// What the name-only update leaves in the store: the stored document with
/// its name replaced and every other field kept.
pub fn with_name(stored: Team, name: String) -> (r: Team)
    ensures
        r.id == stored.id,
        r.name == name,
        r.users == stored.users,
{
    Team { id: stored.id, name, users: stored.users }
}

/// Resolves a team's member list to its user records, one lookup per
/// member, in order. There are no partial results: a member whose lookup
/// missed or failed makes the whole request an `InternalFailure`.
#[verifier::loop_isolation(false)]
pub fn collect_members(lookups: Vec<StoreResult<User>>) -> (r: Result<Vec<User>, ApiError>)
    ensures
        match r {
            Ok(users) => users@.len() == lookups@.len() && forall|i: int|
                0 <= i < lookups@.len() ==> (#[trigger] lookups@[i] matches StoreResult::Found(u)
                    && users@[i] == u),
            Err(e) => e == ApiError::InternalFailure && exists|i: int|
                0 <= i < lookups@.len() && !(#[trigger] lookups@[i] is Found),
        },
{
    let ghost all = lookups@;
    let mut users: Vec<User> = Vec::new();
    let mut rest = lookups;
    while rest.len() > 0
        invariant
            users@.len() + rest@.len() == all.len(),
            rest@ == all.subrange(users@.len() as int, all.len() as int),
            forall|i: int|
                0 <= i < users@.len() ==> (#[trigger] all[i] matches StoreResult::Found(u)
                    && users@[i] == u),
        decreases rest@.len(),
    {
        let x = rest.remove(0);
        proof {
            assert(x == all[users@.len() as int]);
        }
        match x {
            StoreResult::Found(u) => {
                users.push(u);
                proof {
                    assert(rest@ =~= all.subrange(users@.len() as int, all.len() as int));
                }
            },
            StoreResult::Missing => {
                proof {
                    assert(!(lookups@[users@.len() as int] is Found));
                }
                return Err(ApiError::InternalFailure);
            },
            StoreResult::Failed => {
                proof {
                    assert(!(lookups@[users@.len() as int] is Found));
                }
                return Err(ApiError::InternalFailure);
            },
        }
    }
    Ok(users)
}

} // verus!
