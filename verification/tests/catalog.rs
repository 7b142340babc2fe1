//! Businesses and products: registration, listing, patching, deactivation,
//! location assignment.

use marketplace_core::auth::Identity;
use marketplace_core::business::{
    delete_business, list_businesses, register_business, set_business_location, update_business,
    RegisterBusinessRequest, SetLocationRequest, UpdateBusinessRequest,
};
use marketplace_core::errors::{ApiFailure, AuthzFailure, NotFoundFailure, Outcome};
use marketplace_core::products::{
    delete_product, list_products_by_business, register_product, update_product,
    RegisterProductRequest, UpdateProductRequest,
};
use marketplace_core::store::{Store, UserRow};

fn ident(id: i32) -> Identity {
    Identity { subject_id: id, display_name: "who".to_string(), issued_at: 0, expires_at: 0 }
}

fn store_with_user(id: i32, active: bool) -> Store {
    let mut s = Store::new();
    s.users.push(UserRow {
        id,
        username: format!("user{}", id),
        name: "n".to_string(),
        lastname: "l".to_string(),
        phone: 0,
        email: "e".to_string(),
        password_hash: None,
        active,
    });
    s.next_user_id = id + 1;
    s
}

fn biz_req() -> RegisterBusinessRequest {
    RegisterBusinessRequest { name: "Corner Shop".to_string(), description: "sells".to_string() }
}

#[test]
fn register_business_starts_unverified_and_active() {
    let mut s = store_with_user(1, true);
    let r = register_business(&mut s, &ident(1), &biz_req()).unwrap();
    assert_eq!(r.business_id, 1);
    assert_eq!(r.owner_id, 1);
    assert!(!r.verified);
    assert!(r.active);
    assert_eq!(r.message, "Business registered successfully");
    assert_eq!(s.businesses.len(), 1);
    assert!(!s.businesses[0].verified);
}

#[test]
fn register_business_requires_an_active_user() {
    let mut s = store_with_user(1, false);
    let r = register_business(&mut s, &ident(1), &biz_req());
    assert_eq!(r.unwrap_err(), ApiFailure::UserInactive);
    assert_eq!(ApiFailure::UserInactive.outcome(), Outcome::Forbidden);
    let r2 = register_business(&mut s, &ident(9), &biz_req());
    assert_eq!(r2.unwrap_err(), ApiFailure::NotFound(NotFoundFailure::User));
    assert_eq!(s.businesses.len(), 0);
}

#[test]
fn list_businesses_returns_own_active_newest_first() {
    let mut s = store_with_user(1, true);
    register_business(&mut s, &ident(1), &biz_req()).unwrap();
    register_business(
        &mut s,
        &ident(1),
        &RegisterBusinessRequest { name: "Second".to_string(), description: "d".to_string() },
    )
    .unwrap();
    s.users.push(UserRow {
        id: 2,
        username: "other".to_string(),
        name: "n".to_string(),
        lastname: "l".to_string(),
        phone: 0,
        email: "e".to_string(),
        password_hash: None,
        active: true,
    });
    s.next_user_id = 3;
    register_business(
        &mut s,
        &ident(2),
        &RegisterBusinessRequest { name: "Foreign".to_string(), description: "d".to_string() },
    )
    .unwrap();
    delete_business(&mut s, &ident(1), 2).unwrap();
    let listed = list_businesses(&s, &ident(1));
    assert_eq!(listed.len(), 1);
    assert_eq!(listed[0].name, "Corner Shop");
    assert_eq!(listed[0].verified, 0);
    assert_eq!(listed[0].active, 1);
}

#[test]
fn update_business_patches_and_reports_noops() {
    let mut s = store_with_user(1, true);
    register_business(&mut s, &ident(1), &biz_req()).unwrap();
    let noop = update_business(
        &mut s,
        &ident(1),
        1,
        &UpdateBusinessRequest { name: None, description: None },
    )
    .unwrap();
    assert_eq!(noop.message, "No fields to update for business 1");
    let r = update_business(
        &mut s,
        &ident(1),
        1,
        &UpdateBusinessRequest { name: Some("Renamed".to_string()), description: None },
    )
    .unwrap();
    assert_eq!(r.message, "Business 1 has been updated successfully");
    assert_eq!(s.businesses[0].name, "Renamed");
    assert_eq!(s.businesses[0].description, "sells");
}

#[test]
fn non_owner_mutation_is_forbidden_and_applies_nothing() {
    let mut s = store_with_user(1, true);
    register_business(&mut s, &ident(1), &biz_req()).unwrap();
    let upd = update_business(
        &mut s,
        &ident(2),
        1,
        &UpdateBusinessRequest { name: Some("Stolen".to_string()), description: None },
    );
    assert_eq!(upd.unwrap_err(), ApiFailure::Authz(AuthzFailure::NotOwner));
    assert_eq!(s.businesses[0].name, "Corner Shop");
    let del = delete_business(&mut s, &ident(2), 1);
    assert_eq!(del.unwrap_err(), ApiFailure::Authz(AuthzFailure::NotOwner));
    assert!(s.businesses[0].active);
    assert_eq!(ApiFailure::Authz(AuthzFailure::NotOwner).outcome(), Outcome::Forbidden);
}

#[test]
fn delete_business_soft_deletes_once() {
    let mut s = store_with_user(1, true);
    register_business(&mut s, &ident(1), &biz_req()).unwrap();
    let r = delete_business(&mut s, &ident(1), 1).unwrap();
    assert_eq!(r.message, "Business 1 has been deactivated");
    assert!(!s.businesses[0].active);
    let again = delete_business(&mut s, &ident(1), 1);
    assert_eq!(again.unwrap_err(), ApiFailure::NotFound(NotFoundFailure::Business));
}

#[test]
fn missing_business_is_not_found_before_ownership() {
    let mut s = store_with_user(1, true);
    let r = delete_business(&mut s, &ident(2), 42);
    assert_eq!(r.unwrap_err(), ApiFailure::NotFound(NotFoundFailure::Business));
}

#[test]
fn set_location_creates_and_links_a_location() {
    let mut s = store_with_user(1, true);
    register_business(&mut s, &ident(1), &biz_req()).unwrap();
    let r = set_business_location(
        &mut s,
        &ident(1),
        1,
        &SetLocationRequest {
            name: Some("HQ".to_string()),
            latitude_micro: -12_345_678,
            longitude_micro: 4_500_000,
        },
    )
    .unwrap();
    assert_eq!(r.location_id, 1);
    assert_eq!(r.business_id, 1);
    assert_eq!(r.latitude, "-12.345678");
    assert_eq!(r.longitude, "4.500000");
    assert_eq!(r.message, "Location set successfully for business 1");
    assert_eq!(s.businesses[0].location_id, Some(1));
    assert_eq!(s.locations.len(), 1);
    assert_eq!(s.locations[0].latitude_micro, -12_345_678);
}

#[test]
fn register_product_is_owner_only() {
    let mut s = store_with_user(1, true);
    register_business(&mut s, &ident(1), &biz_req()).unwrap();
    let req = RegisterProductRequest {
        name: "Widget".to_string(),
        description: "round".to_string(),
        price_cents: 1000,
        business_id: 1,
    };
    let denied = register_product(&mut s, &ident(2), &req);
    assert_eq!(denied.unwrap_err(), ApiFailure::Authz(AuthzFailure::NotOwner));
    assert_eq!(s.products.len(), 0);
    let r = register_product(&mut s, &ident(1), &req).unwrap();
    assert_eq!(r.product_id, 1);
    assert!(r.active);
    assert_eq!(r.message, "Product registered successfully");
}

#[test]
fn list_products_renders_prices_with_two_decimals() {
    let mut s = store_with_user(1, true);
    register_business(&mut s, &ident(1), &biz_req()).unwrap();
    for (name, cents) in [("A", 1000u64), ("B", 5), ("C", 123456)] {
        register_product(
            &mut s,
            &ident(1),
            &RegisterProductRequest {
                name: name.to_string(),
                description: "d".to_string(),
                price_cents: cents,
                business_id: 1,
            },
        )
        .unwrap();
    }
    delete_product(&mut s, &ident(1), 2).unwrap();
    let listed = list_products_by_business(&s, &ident(1), 1).unwrap();
    assert_eq!(listed.len(), 2);
    // newest first
    assert_eq!(listed[0].name, "C");
    assert_eq!(listed[0].price.as_deref(), Some("1234.56"));
    assert_eq!(listed[1].name, "A");
    assert_eq!(listed[1].price.as_deref(), Some("10.00"));
    let denied = list_products_by_business(&s, &ident(2), 1);
    assert_eq!(denied.unwrap_err(), ApiFailure::Authz(AuthzFailure::NotOwner));
}

#[test]
fn update_product_patches_price_and_reports_noops() {
    let mut s = store_with_user(1, true);
    register_business(&mut s, &ident(1), &biz_req()).unwrap();
    register_product(
        &mut s,
        &ident(1),
        &RegisterProductRequest {
            name: "Widget".to_string(),
            description: "round".to_string(),
            price_cents: 1000,
            business_id: 1,
        },
    )
    .unwrap();
    let noop = update_product(
        &mut s,
        &ident(1),
        1,
        &UpdateProductRequest { name: None, description: None, price_cents: None },
    )
    .unwrap();
    assert_eq!(noop.message, "No fields to update for product 1");
    update_product(
        &mut s,
        &ident(1),
        1,
        &UpdateProductRequest { name: None, description: None, price_cents: Some(2500) },
    )
    .unwrap();
    assert_eq!(s.products[0].price_cents, 2500);
    let missing = update_product(
        &mut s,
        &ident(1),
        9,
        &UpdateProductRequest { name: None, description: None, price_cents: None },
    );
    assert_eq!(missing.unwrap_err(), ApiFailure::NotFound(NotFoundFailure::Product));
}

#[test]
fn delete_product_checks_owner_then_state() {
    let mut s = store_with_user(1, true);
    register_business(&mut s, &ident(1), &biz_req()).unwrap();
    register_product(
        &mut s,
        &ident(1),
        &RegisterProductRequest {
            name: "Widget".to_string(),
            description: "round".to_string(),
            price_cents: 1000,
            business_id: 1,
        },
    )
    .unwrap();
    let denied = delete_product(&mut s, &ident(2), 1);
    assert_eq!(denied.unwrap_err(), ApiFailure::Authz(AuthzFailure::NotOwner));
    assert!(s.products[0].active);
    let r = delete_product(&mut s, &ident(1), 1).unwrap();
    assert_eq!(r.message, "Product 1 has been deactivated");
    assert!(!s.products[0].active);
    let again = delete_product(&mut s, &ident(1), 1);
    assert_eq!(again.unwrap_err(), ApiFailure::NotFound(NotFoundFailure::Product));
}
