//! Drone operations: registration, listing, deactivation.
//!
//! A drone belongs to the user who registered it; deactivation is
//! owner-only and gated in the uniform order — existence, then ownership,
//! then state.  Drone numbers are unique across the fleet.

use vstd::prelude::*;

use crate::auth::Identity;
use crate::authz::authorize_owner_only;
use crate::decimal::{id_message, int_dec};
use crate::errors::{ApiFailure, AuthzFailure, NotFoundFailure};
use crate::store::{
    same_admins, same_businesses, same_drones, same_locations, same_orders, same_products,
    same_stats, same_trips, same_users, DroneRow, Store,
};

verus! {

/// A drone registration request.
#[derive(Debug)]
pub struct RegisterDroneRequest {
    /// Name of the drone
    pub name: String,
    /// Unique drone number
    pub number: i32,
}

/// The success payload of drone registration.
#[derive(Debug)]
pub struct RegisterDroneResponse {
    /// ID of the newly registered drone
    pub drone_id: i32,
    /// Name of the drone
    pub name: String,
    /// Drone number
    pub number: i32,
    /// Success message
    pub message: String,
}

/// A drone as listings report it.
#[derive(Debug)]
pub struct Drone {
    /// Drone ID
    pub id: i32,
    /// Name of the drone
    pub name: String,
    /// Unique drone number
    pub number: i32,
    /// Owner user ID
    pub user_id: i32,
}

/// The success payload of a drone deactivation.
#[derive(Debug)]
pub struct DeleteDroneResponse {
    pub message: String,
    pub drone_id: i32,
}

/// The listing entry for one drone row.
pub open spec fn to_drone(d: DroneRow) -> Drone {
    Drone { id: d.id, name: d.name, number: d.number, user_id: d.user_id }
}

/// The listing of `rows` for `owner`: the active drones the owner
/// registered, newest (last inserted) first.
pub open spec fn listed_drones(rows: Seq<DroneRow>, owner: int) -> Seq<Drone>
    decreases rows.len(),
{
    if rows.len() == 0 {
        Seq::empty()
    } else {
        let rest = listed_drones(rows.drop_first(), owner);
        if rows[0].user_id == owner && rows[0].active {
            rest.push(to_drone(rows[0]))
        } else {
            rest
        }
    }
}

/// Registers a drone for the verified caller: the caller must resolve to an
/// existing, active user, and the drone number must be free.  On every
/// failure the store is untouched.
pub fn register_drone(store: &mut Store, identity: &Identity, req: &RegisterDroneRequest) -> (r:
    Result<RegisterDroneResponse, ApiFailure>)
    requires
        old(store).wf(),
        old(store).next_drone_id < i32::MAX,
    ensures
        final(store).wf(),
        r matches Err(_) ==> *final(store) == *old(store),
        !old(store).has_user(identity.subject_id as int) ==> r == Err::<RegisterDroneResponse, _>(
            ApiFailure::NotFound(NotFoundFailure::User),
        ),
        old(store).has_user(identity.subject_id as int) && !old(store).user_at(
            identity.subject_id as int,
        ).active ==> r == Err::<RegisterDroneResponse, _>(ApiFailure::UserInactive),
        old(store).has_user(identity.subject_id as int) && old(store).user_at(
            identity.subject_id as int,
        ).active && old(store).has_drone_number(req.number as int) ==> r == Err::<
            RegisterDroneResponse,
            _,
        >(ApiFailure::DuplicateDroneNumber),
        old(store).has_user(identity.subject_id as int) && old(store).user_at(
            identity.subject_id as int,
        ).active && !old(store).has_drone_number(req.number as int) ==> r is Ok,
        r matches Ok(resp) ==> ({
            &&& old(store).has_user(identity.subject_id as int)
            &&& old(store).user_at(identity.subject_id as int).active
            &&& !old(store).has_drone_number(req.number as int)
            &&& resp.drone_id == old(store).next_drone_id
            &&& resp.name@ == req.name@
            &&& resp.number == req.number
            &&& resp.message@ == "Drone registered successfully"@
            &&& final(store).drones@ == old(store).drones@.push(
                (DroneRow {
                    id: resp.drone_id,
                    name: resp.name,
                    number: req.number,
                    user_id: identity.subject_id,
                    active: true,
                }),
            )
            &&& final(store).next_drone_id == old(store).next_drone_id + 1
            &&& same_users(*old(store), *final(store))
            &&& same_admins(*old(store), *final(store))
            &&& same_businesses(*old(store), *final(store))
            &&& same_products(*old(store), *final(store))
            &&& same_orders(*old(store), *final(store))
            &&& same_locations(*old(store), *final(store))
            &&& same_trips(*old(store), *final(store))
            &&& same_stats(*old(store), *final(store))
        }),
{
    let uix = match store.find_user_ix(identity.subject_id) {
        None => {
            return Err(ApiFailure::NotFound(NotFoundFailure::User));
        },
        Some(ix) => ix,
    };
    if !store.users[uix].active {
        return Err(ApiFailure::UserInactive);
    }
    if store.drone_number_taken(req.number) {
        return Err(ApiFailure::DuplicateDroneNumber);
    }
    let row = DroneRow {
        id: 0,
        name: req.name.clone(),
        number: req.number,
        user_id: identity.subject_id,
        active: true,
    };
    let id = store.insert_drone(row);
    Ok(
        RegisterDroneResponse {
            drone_id: id,
            name: req.name.clone(),
            number: req.number,
            message: "Drone registered successfully".to_owned(),
        },
    )
}

/// Lists the caller's active drones, newest first.
pub fn list_drones(store: &Store, identity: &Identity) -> (r: Vec<Drone>)
    requires
        store.wf(),
    ensures
        r@ == listed_drones(store.drones@, identity.subject_id as int),
{
    let mut out: Vec<Drone> = Vec::new();
    let mut i: usize = store.drones.len();
    proof {
        assert(store.drones@.skip(i as int) =~= Seq::<DroneRow>::empty());
    }
    while i > 0
        invariant
            i <= store.drones@.len(),
            store.wf(),
            out@ == listed_drones(store.drones@.skip(i as int), identity.subject_id as int),
        decreases i,
    {
        i = i - 1;
        proof {
            assert(store.drones@.skip(i as int)[0] == store.drones@[i as int]);
            assert(store.drones@.skip(i as int).drop_first() =~= store.drones@.skip(i as int + 1));
        }
        let d = &store.drones[i];
        if d.user_id == identity.subject_id && d.active {
            let entry = Drone {
                id: d.id,
                name: d.name.clone(),
                number: d.number,
                user_id: d.user_id,
            };
            proof {
                assert(entry == to_drone(store.drones@[i as int]));
            }
            out.push(entry);
        }
    }
    proof {
        assert(store.drones@.skip(0) =~= store.drones@);
    }
    out
}

/// Deactivates a drone: owner only, gated in the uniform order (existence,
/// then ownership, then the already-inactive state, reported as not found).
/// On every failure the store is untouched.
pub fn delete_drone(store: &mut Store, identity: &Identity, drone_id: i32) -> (r: Result<
    DeleteDroneResponse,
    ApiFailure,
>)
    requires
        old(store).wf(),
    ensures
        final(store).wf(),
        r matches Err(_) ==> *final(store) == *old(store),
        !old(store).has_drone(drone_id as int) ==> r == Err::<DeleteDroneResponse, _>(
            ApiFailure::NotFound(NotFoundFailure::Resource),
        ),
        old(store).has_drone(drone_id as int) && old(store).drone_at(drone_id as int).user_id
            != identity.subject_id ==> r == Err::<DeleteDroneResponse, _>(
            ApiFailure::Authz(AuthzFailure::NotOwner),
        ),
        old(store).has_drone(drone_id as int) && old(store).drone_at(drone_id as int).user_id
            == identity.subject_id && !old(store).drone_at(drone_id as int).active ==> r == Err::<
            DeleteDroneResponse,
            _,
        >(ApiFailure::NotFound(NotFoundFailure::Resource)),
        old(store).has_drone(drone_id as int) && old(store).drone_at(drone_id as int).user_id
            == identity.subject_id && old(store).drone_at(drone_id as int).active ==> r is Ok,
        r matches Ok(resp) ==> ({
            let ix = old(store).drone_ix(drone_id as int);
            let pre_d = old(store).drones@[ix];
            &&& old(store).has_drone(drone_id as int)
            &&& pre_d.user_id == identity.subject_id
            &&& pre_d.active
            &&& final(store).drones@ == old(store).drones@.update(
                ix,
                (DroneRow { active: false, ..pre_d }),
            )
            &&& final(store).next_drone_id == old(store).next_drone_id
            &&& same_users(*old(store), *final(store))
            &&& same_admins(*old(store), *final(store))
            &&& same_businesses(*old(store), *final(store))
            &&& same_products(*old(store), *final(store))
            &&& same_orders(*old(store), *final(store))
            &&& same_locations(*old(store), *final(store))
            &&& same_trips(*old(store), *final(store))
            &&& same_stats(*old(store), *final(store))
            &&& resp.drone_id == drone_id
            &&& resp.message@ == "Drone "@ + int_dec(drone_id as int) + " has been deactivated"@
        }),
{
    let ix = match store.find_drone_ix(drone_id) {
        None => {
            return Err(ApiFailure::NotFound(NotFoundFailure::Resource));
        },
        Some(ix) => ix,
    };
    if authorize_owner_only(identity, store.drones[ix].user_id).is_err() {
        return Err(ApiFailure::Authz(AuthzFailure::NotOwner));
    }
    if !store.drones[ix].active {
        return Err(ApiFailure::NotFound(NotFoundFailure::Resource));
    }
    let row = DroneRow {
        id: store.drones[ix].id,
        name: store.drones[ix].name.clone(),
        number: store.drones[ix].number,
        user_id: store.drones[ix].user_id,
        active: false,
    };
    store.set_drone(ix, row);
    let message = id_message("Drone ", drone_id as i64, " has been deactivated");
    Ok(DeleteDroneResponse { message, drone_id })
}

} // verus!
