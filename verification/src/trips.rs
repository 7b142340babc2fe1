//! Trip registration: schedules a drone delivery for an order.
//!
//! The caller must own the drone; the trip runs from the drone's reported
//! position to the location of the business behind the order's first line
//! (all of an order's products are assumed to belong to one business).
//! Weights, distances and times are fixed-point thousandths of their unit;
//! the distance and time estimates are fixed placeholders, out of this
//! crate's scope.  On every failure the store is untouched.

use vstd::prelude::*;

use crate::auth::Identity;
use crate::authz::authorize_owner_only;
use crate::decimal::{id_message, int_dec};
use crate::errors::{ApiFailure, AuthzFailure, NotFoundFailure, ValidationFailure};
use crate::store::{
    same_admins, same_businesses, same_drones, same_orders, same_products, same_stats, same_users,
    LocationRow, Store, TripRow,
};

verus! {

/// A trip registration request; the drone's current position in millionths
/// of a degree, the weight in thousandths of a kilogram.
#[derive(Debug)]
pub struct RegisterTripRequest {
    pub weight_milli: i64,
    pub order_id: i32,
    pub from_latitude_micro: i64,
    pub from_longitude_micro: i64,
    pub drone_id: i32,
}

/// The success payload of trip registration.
#[derive(Debug)]
pub struct RegisterTripResponse {
    pub trip_id: i32,
    pub weight_milli: i64,
    pub distance_milli: i64,
    pub est_time_milli: i64,
    pub state: String,
    pub order_id: i32,
    pub from_location_id: i32,
    pub to_location_id: i32,
    pub drone_id: i32,
    pub message: String,
}

/// What the gates of trip registration decide, in order: the caller must
/// resolve to an existing, active user; the weight must be positive; the
/// drone must exist, belong to the caller and be active; the order must
/// exist; and the business behind the order's first line must exist and
/// have a location.  On success, the id of that location.
pub open spec fn spec_trip_checks(s: Store, subject: int, req: RegisterTripRequest) -> Result<
    int,
    ApiFailure,
> {
    if !s.has_user(subject) {
        Err(ApiFailure::NotFound(NotFoundFailure::User))
    } else if !s.user_at(subject).active {
        Err(ApiFailure::UserInactive)
    } else if req.weight_milli <= 0 {
        Err(ApiFailure::Validation(ValidationFailure::InvalidAmount))
    } else if !s.has_drone(req.drone_id as int) {
        Err(ApiFailure::NotFound(NotFoundFailure::Resource))
    } else if s.drone_at(req.drone_id as int).user_id != subject {
        Err(ApiFailure::Authz(AuthzFailure::NotOwner))
    } else if !s.drone_at(req.drone_id as int).active {
        Err(ApiFailure::DroneInactive)
    } else if !s.has_order(req.order_id as int) {
        Err(ApiFailure::NotFound(NotFoundFailure::Order))
    } else {
        let first = s.order_at(req.order_id as int).lines@[0];
        if !s.has_product(first.product_id as int) {
            Err(ApiFailure::NotFound(NotFoundFailure::Product))
        } else {
            let bid = s.product_at(first.product_id as int).business_id as int;
            if !s.has_business(bid) {
                Err(ApiFailure::NotFound(NotFoundFailure::Business))
            } else {
                match s.business_at(bid).location_id {
                    None => Err(ApiFailure::MissingLocation),
                    Some(loc) => Ok(loc as int),
                }
            }
        }
    }
}

/// The fixed placeholder estimate, in thousandths, used for both the
/// distance and the time of a trip.
pub open spec fn trip_estimate_milli() -> int {
    10000
}

/// Registers a trip for a drone delivery.  The trip starts in state
/// `Requested`; a fresh location is created for the drone's reported
/// position.  On every failure the store is untouched.
pub fn register_trip(store: &mut Store, identity: &Identity, req: &RegisterTripRequest) -> (r:
    Result<RegisterTripResponse, ApiFailure>)
    requires
        old(store).wf(),
        old(store).next_location_id < i32::MAX,
        old(store).next_trip_id < i32::MAX,
    ensures
        final(store).wf(),
        r matches Err(e) ==> *final(store) == *old(store) && spec_trip_checks(
            *old(store),
            identity.subject_id as int,
            *req,
        ) == Err::<int, ApiFailure>(e),
        r matches Ok(resp) ==> ({
            &&& spec_trip_checks(*old(store), identity.subject_id as int, *req) == Ok::<
                _,
                ApiFailure,
            >(resp.to_location_id as int)
            &&& resp.trip_id == old(store).next_trip_id
            &&& resp.weight_milli == req.weight_milli
            &&& resp.distance_milli == trip_estimate_milli()
            &&& resp.est_time_milli == trip_estimate_milli()
            &&& resp.state@ == "Requested"@
            &&& resp.order_id == req.order_id
            &&& resp.from_location_id == old(store).next_location_id
            &&& resp.drone_id == req.drone_id
            &&& resp.message@ == "Trip registered successfully"@
            &&& final(store).locations@.len() == old(store).locations@.len() + 1
            &&& final(store).locations@.drop_last() == old(store).locations@
            &&& final(store).locations@.last().id == resp.from_location_id
            &&& final(store).locations@.last().name matches Some(n) && n@ == "Drone "@ + int_dec(
                req.drone_id as int,
            ) + " start position"@
            &&& final(store).locations@.last().latitude_micro == req.from_latitude_micro
            &&& final(store).locations@.last().longitude_micro == req.from_longitude_micro
            &&& final(store).next_location_id == old(store).next_location_id + 1
            &&& final(store).trips@.len() == old(store).trips@.len() + 1
            &&& final(store).trips@.drop_last() == old(store).trips@
            &&& final(store).trips@.last().id == resp.trip_id
            &&& final(store).trips@.last().weight_milli == req.weight_milli
            &&& final(store).trips@.last().distance_milli == trip_estimate_milli()
            &&& final(store).trips@.last().est_time_milli == trip_estimate_milli()
            &&& final(store).trips@.last().state@ == "Requested"@
            &&& final(store).trips@.last().order_id == req.order_id
            &&& final(store).trips@.last().from_location_id == resp.from_location_id
            &&& final(store).trips@.last().to_location_id == resp.to_location_id
            &&& final(store).trips@.last().drone_id == req.drone_id
            &&& final(store).next_trip_id == old(store).next_trip_id + 1
            &&& same_users(*old(store), *final(store))
            &&& same_admins(*old(store), *final(store))
            &&& same_businesses(*old(store), *final(store))
            &&& same_products(*old(store), *final(store))
            &&& same_drones(*old(store), *final(store))
            &&& same_orders(*old(store), *final(store))
            &&& same_stats(*old(store), *final(store))
        }),
{
    let uix = match store.find_user_ix(identity.subject_id) {
        None => {
            return Err(ApiFailure::NotFound(NotFoundFailure::User));
        },
        Some(ix) => ix,
    };
    if !store.users[uix].active {
        return Err(ApiFailure::UserInactive);
    }
    if req.weight_milli <= 0 {
        return Err(ApiFailure::Validation(ValidationFailure::InvalidAmount));
    }
    let dix = match store.find_drone_ix(req.drone_id) {
        None => {
            return Err(ApiFailure::NotFound(NotFoundFailure::Resource));
        },
        Some(ix) => ix,
    };
    if authorize_owner_only(identity, store.drones[dix].user_id).is_err() {
        return Err(ApiFailure::Authz(AuthzFailure::NotOwner));
    }
    if !store.drones[dix].active {
        return Err(ApiFailure::DroneInactive);
    }
    let oix = match store.find_order_ix(req.order_id) {
        None => {
            return Err(ApiFailure::NotFound(NotFoundFailure::Order));
        },
        Some(ix) => ix,
    };
    proof {
        assert(crate::store::order_wf(store.orders@[oix as int]));
    }
    let first_product_id = store.orders[oix].lines[0].product_id;
    let pix = match store.find_product_ix(first_product_id) {
        None => {
            return Err(ApiFailure::NotFound(NotFoundFailure::Product));
        },
        Some(ix) => ix,
    };
    let bix = match store.find_business_ix(store.products[pix].business_id) {
        None => {
            return Err(ApiFailure::NotFound(NotFoundFailure::Business));
        },
        Some(ix) => ix,
    };
    let to_location_id = match store.businesses[bix].location_id {
        None => {
            return Err(ApiFailure::MissingLocation);
        },
        Some(loc) => loc,
    };
    let location_row = LocationRow {
        id: 0,
        name: Some(id_message("Drone ", req.drone_id as i64, " start position")),
        latitude_micro: req.from_latitude_micro,
        longitude_micro: req.from_longitude_micro,
    };
    let from_location_id = store.insert_location(location_row);
    let trip_row = TripRow {
        id: 0,
        weight_milli: req.weight_milli,
        distance_milli: 10000,
        est_time_milli: 10000,
        state: "Requested".to_owned(),
        order_id: req.order_id,
        from_location_id,
        to_location_id,
        drone_id: req.drone_id,
    };
    let trip_id = store.insert_trip(trip_row);
    Ok(
        RegisterTripResponse {
            trip_id,
            weight_milli: req.weight_milli,
            distance_milli: 10000,
            est_time_milli: 10000,
            state: "Requested".to_owned(),
            order_id: req.order_id,
            from_location_id,
            to_location_id,
            drone_id: req.drone_id,
            message: "Trip registered successfully".to_owned(),
        },
    )
}

} // verus!
