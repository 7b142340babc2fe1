//! Drones and trips.

use marketplace_core::auth::Identity;
use marketplace_core::business::{
    register_business, set_business_location, RegisterBusinessRequest, SetLocationRequest,
};
use marketplace_core::drones::{
    delete_drone, list_drones, register_drone, RegisterDroneRequest,
};
use marketplace_core::errors::{ApiFailure, AuthzFailure, NotFoundFailure, ValidationFailure};
use marketplace_core::orders::{register_order, OrderDetailRequest, RegisterOrderRequest};
use marketplace_core::products::{register_product, RegisterProductRequest};
use marketplace_core::store::{Store, UserRow};
use marketplace_core::trips::{register_trip, RegisterTripRequest};

fn ident(id: i32) -> Identity {
    Identity { subject_id: id, display_name: "who".to_string(), issued_at: 0, expires_at: 0 }
}

fn store_with_user(id: i32, active: bool) -> Store {
    let mut s = Store::new();
    s.users.push(UserRow {
        id,
        username: format!("user{}", id),
        name: "n".to_string(),
        lastname: "l".to_string(),
        phone: 0,
        email: "e".to_string(),
        password_hash: None,
        active,
    });
    s.next_user_id = id + 1;
    s
}

fn drone_req(number: i32) -> RegisterDroneRequest {
    RegisterDroneRequest { name: "Hawk".to_string(), number }
}

#[test]
fn register_drone_needs_active_user_and_free_number() {
    let mut s = store_with_user(1, true);
    let r = register_drone(&mut s, &ident(1), &drone_req(7)).unwrap();
    assert_eq!(r.drone_id, 1);
    assert_eq!(r.number, 7);
    assert_eq!(r.message, "Drone registered successfully");
    let dup = register_drone(&mut s, &ident(1), &drone_req(7));
    assert_eq!(dup.unwrap_err(), ApiFailure::DuplicateDroneNumber);
    assert_eq!(s.drones.len(), 1);
    let nobody = register_drone(&mut s, &ident(9), &drone_req(8));
    assert_eq!(nobody.unwrap_err(), ApiFailure::NotFound(NotFoundFailure::User));
}

#[test]
fn list_drones_shows_own_active_newest_first() {
    let mut s = store_with_user(1, true);
    register_drone(&mut s, &ident(1), &drone_req(7)).unwrap();
    register_drone(&mut s, &ident(1), &drone_req(8)).unwrap();
    delete_drone(&mut s, &ident(1), 1).unwrap();
    let listed = list_drones(&s, &ident(1));
    assert_eq!(listed.len(), 1);
    assert_eq!(listed[0].number, 8);
    assert_eq!(listed[0].user_id, 1);
}

#[test]
fn delete_drone_checks_existence_then_owner_then_state() {
    let mut s = store_with_user(1, true);
    register_drone(&mut s, &ident(1), &drone_req(7)).unwrap();
    let missing = delete_drone(&mut s, &ident(1), 9);
    assert_eq!(missing.unwrap_err(), ApiFailure::NotFound(NotFoundFailure::Resource));
    let denied = delete_drone(&mut s, &ident(2), 1);
    assert_eq!(denied.unwrap_err(), ApiFailure::Authz(AuthzFailure::NotOwner));
    assert!(s.drones[0].active);
    let r = delete_drone(&mut s, &ident(1), 1).unwrap();
    assert_eq!(r.message, "Drone 1 has been deactivated");
    let again = delete_drone(&mut s, &ident(1), 1);
    assert_eq!(again.unwrap_err(), ApiFailure::NotFound(NotFoundFailure::Resource));
}

/// A buyer with a drone, a verified business with a located shop and one
/// product, and one placed order.
fn trip_store() -> Store {
    let mut s = store_with_user(1, true);
    register_business(
        &mut s,
        &ident(1),
        &RegisterBusinessRequest { name: "Shop".to_string(), description: "d".to_string() },
    )
    .unwrap();
    s.businesses[0].verified = true;
    set_business_location(
        &mut s,
        &ident(1),
        1,
        &SetLocationRequest { name: None, latitude_micro: 0, longitude_micro: 0 },
    )
    .unwrap();
    register_product(
        &mut s,
        &ident(1),
        &RegisterProductRequest {
            name: "Widget".to_string(),
            description: "d".to_string(),
            price_cents: 1000,
            business_id: 1,
        },
    )
    .unwrap();
    register_order(
        &mut s,
        &ident(1),
        &RegisterOrderRequest {
            order_details: vec![OrderDetailRequest { product_id: 1, amount: 1 }],
        },
    )
    .unwrap();
    register_drone(&mut s, &ident(1), &drone_req(7)).unwrap();
    s
}

fn trip_req() -> RegisterTripRequest {
    RegisterTripRequest {
        weight_milli: 2_500,
        order_id: 1,
        from_latitude_micro: 1_000_000,
        from_longitude_micro: 2_000_000,
        drone_id: 1,
    }
}

#[test]
fn register_trip_creates_location_and_trip() {
    let mut s = trip_store();
    let r = register_trip(&mut s, &ident(1), &trip_req()).unwrap();
    assert_eq!(r.trip_id, 1);
    assert_eq!(r.state, "Requested");
    assert_eq!(r.weight_milli, 2_500);
    assert_eq!(r.distance_milli, 10_000);
    assert_eq!(r.est_time_milli, 10_000);
    assert_eq!(r.to_location_id, 1);
    assert_eq!(r.from_location_id, 2);
    assert_eq!(r.message, "Trip registered successfully");
    assert_eq!(s.trips.len(), 1);
    assert_eq!(s.locations.len(), 2);
    assert_eq!(s.locations[1].name.as_deref(), Some("Drone 1 start position"));
    assert_eq!(s.locations[1].latitude_micro, 1_000_000);
}

#[test]
fn register_trip_gates_fire_in_order() {
    let mut s = trip_store();
    let mut bad_weight = trip_req();
    bad_weight.weight_milli = 0;
    assert_eq!(
        register_trip(&mut s, &ident(1), &bad_weight).unwrap_err(),
        ApiFailure::Validation(ValidationFailure::InvalidAmount)
    );
    let mut no_drone = trip_req();
    no_drone.drone_id = 9;
    assert_eq!(
        register_trip(&mut s, &ident(1), &no_drone).unwrap_err(),
        ApiFailure::NotFound(NotFoundFailure::Resource)
    );
    assert_eq!(
        register_trip(&mut s, &ident(2), &trip_req()).unwrap_err(),
        ApiFailure::NotFound(NotFoundFailure::User)
    );
    let mut no_order = trip_req();
    no_order.order_id = 9;
    assert_eq!(
        register_trip(&mut s, &ident(1), &no_order).unwrap_err(),
        ApiFailure::NotFound(NotFoundFailure::Order)
    );
    assert_eq!(s.trips.len(), 0);
    assert_eq!(s.locations.len(), 1);
}

#[test]
fn register_trip_denies_non_owner_of_the_drone() {
    let mut s = trip_store();
    s.users.push(UserRow {
        id: 2,
        username: "other".to_string(),
        name: "n".to_string(),
        lastname: "l".to_string(),
        phone: 0,
        email: "e".to_string(),
        password_hash: None,
        active: true,
    });
    s.next_user_id = 3;
    let r = register_trip(&mut s, &ident(2), &trip_req());
    assert_eq!(r.unwrap_err(), ApiFailure::Authz(AuthzFailure::NotOwner));
    assert_eq!(s.trips.len(), 0);
}

#[test]
fn register_trip_requires_a_business_location() {
    let mut s = trip_store();
    s.businesses[0].location_id = None;
    let r = register_trip(&mut s, &ident(1), &trip_req());
    assert_eq!(r.unwrap_err(), ApiFailure::MissingLocation);
    assert_eq!(s.trips.len(), 0);
}
