//! The order transaction engine, end to end against the in-memory store.

use marketplace_core::auth::Identity;
use marketplace_core::orders::{
    register_order, OrderDetailRequest, OrderFailure, RegisterOrderRequest,
};
use marketplace_core::store::{BusinessRow, ProductRow, Store, UserRow};

fn ident(id: i32) -> Identity {
    Identity { subject_id: id, display_name: "who".to_string(), issued_at: 0, expires_at: 0 }
}

fn user(id: i32, username: &str, active: bool) -> UserRow {
    UserRow {
        id,
        username: username.to_string(),
        name: "n".to_string(),
        lastname: "l".to_string(),
        phone: 0,
        email: "e".to_string(),
        password_hash: None,
        active,
    }
}

fn business(id: i32, owner_id: i32, verified: bool) -> BusinessRow {
    BusinessRow {
        id,
        name: "biz".to_string(),
        description: "d".to_string(),
        owner_id,
        verified,
        active: true,
        location_id: None,
    }
}

fn product(id: i32, business_id: i32, price_cents: u64, active: bool) -> ProductRow {
    ProductRow {
        id,
        name: "prod".to_string(),
        description: "d".to_string(),
        price_cents,
        business_id,
        active,
    }
}

/// A buyer (id 1), a verified business (id 3) and product 7 at 10.00.
fn scenario_store() -> Store {
    let mut s = Store::new();
    s.users.push(user(1, "buyer", true));
    s.next_user_id = 2;
    s.businesses.push(business(3, 2, true));
    s.next_business_id = 4;
    s.products.push(product(7, 3, 1000, true));
    s.next_product_id = 8;
    s
}

fn lines(v: &[(i32, i32)]) -> RegisterOrderRequest {
    RegisterOrderRequest {
        order_details: v
            .iter()
            .map(|&(product_id, amount)| OrderDetailRequest { product_id, amount })
            .collect(),
    }
}

#[test]
fn scenario_two_of_product_seven() {
    let mut s = scenario_store();
    let resp = register_order(&mut s, &ident(1), &lines(&[(7, 2)])).unwrap();
    assert_eq!(resp.flight_number, "FL001");
    assert_eq!(resp.total_price_cents, 2000);
    assert!(!resp.approved);
    assert_eq!(resp.message, "Order registered successfully");
    assert_eq!(s.orders.len(), 1);
    let o = &s.orders[0];
    assert_eq!(o.id, resp.order_id);
    assert_eq!(o.user_id, 1);
    assert_eq!(o.total_cents, 2000);
    assert_eq!(o.lines.len(), 1);
    assert_eq!(o.lines[0].product_id, 7);
    assert_eq!(o.lines[0].amount, 2);
    assert_eq!(o.lines[0].unit_price_cents, 1000);
}

#[test]
fn unverified_business_rejects_and_writes_nothing() {
    let mut s = scenario_store();
    s.businesses[0].verified = false;
    let r = register_order(&mut s, &ident(1), &lines(&[(7, 2)]));
    assert_eq!(r.unwrap_err(), OrderFailure::BusinessUnverified);
    assert_eq!(s.orders.len(), 0);
}

#[test]
fn empty_order_is_rejected() {
    let mut s = scenario_store();
    let r = register_order(&mut s, &ident(1), &lines(&[]));
    assert_eq!(r.unwrap_err(), OrderFailure::EmptyOrder);
    assert_eq!(s.orders.len(), 0);
}

#[test]
fn failure_on_third_of_five_lines_writes_zero_rows() {
    let mut s = scenario_store();
    s.products.push(product(8, 3, 500, true));
    s.products.push(product(9, 3, 250, false)); // inactive: the bad third line
    s.next_product_id = 10;
    let req = lines(&[(7, 1), (8, 2), (9, 1), (7, 1), (8, 1)]);
    let r = register_order(&mut s, &ident(1), &req);
    assert_eq!(r.unwrap_err(), OrderFailure::ProductInactive);
    assert_eq!(s.orders.len(), 0);
    assert_eq!(s.next_order_id, 1);
}

#[test]
fn first_failure_wins_in_submission_order() {
    let mut s = scenario_store();
    // amount check of line one fires before the missing product of line two
    let r = register_order(&mut s, &ident(1), &lines(&[(7, 0), (999, 1)]));
    assert_eq!(r.unwrap_err(), OrderFailure::InvalidAmount);
    let r = register_order(&mut s, &ident(1), &lines(&[(999, 1), (7, 0)]));
    assert_eq!(r.unwrap_err(), OrderFailure::ProductNotFound);
}

#[test]
fn unknown_and_inactive_buyers_are_rejected() {
    let mut s = scenario_store();
    assert_eq!(register_order(&mut s, &ident(99), &lines(&[(7, 1)])).unwrap_err(), OrderFailure::UserNotFound);
    s.users[0].active = false;
    assert_eq!(register_order(&mut s, &ident(1), &lines(&[(7, 1)])).unwrap_err(), OrderFailure::UserInactive);
    assert_eq!(s.orders.len(), 0);
}

#[test]
fn validation_is_idempotent_for_unchanged_state() {
    let s1 = scenario_store();
    let mut a = scenario_store();
    let mut b = scenario_store();
    let req = lines(&[(7, 2), (7, 3)]);
    let ra = register_order(&mut a, &ident(1), &req).unwrap();
    let rb = register_order(&mut b, &ident(1), &req).unwrap();
    assert_eq!(ra.total_price_cents, rb.total_price_cents);
    assert_eq!(ra.total_price_cents, 5000);
    // the second pass saw exactly the state the first one saw
    assert_eq!(s1.products.len(), a.products.len());
}

#[test]
fn totals_snapshot_the_price_at_validation_time() {
    let mut s = scenario_store();
    let first = register_order(&mut s, &ident(1), &lines(&[(7, 1)])).unwrap();
    assert_eq!(first.total_price_cents, 1000);
    s.products[0].price_cents = 2500;
    let second = register_order(&mut s, &ident(1), &lines(&[(7, 1)])).unwrap();
    assert_eq!(second.total_price_cents, 2500);
    // the first order still carries the old snapshot
    assert_eq!(s.orders[0].total_cents, 1000);
    assert_eq!(s.orders[0].lines[0].unit_price_cents, 1000);
}

#[test]
fn flight_numbers_count_up_and_wrap() {
    let mut s = scenario_store();
    let r1 = register_order(&mut s, &ident(1), &lines(&[(7, 1)])).unwrap();
    let r2 = register_order(&mut s, &ident(1), &lines(&[(7, 1)])).unwrap();
    assert_eq!(r1.flight_number, "FL001");
    assert_eq!(r2.flight_number, "FL002");
    // fill up to 999 existing orders, then the next one wraps to FL000
    while s.orders.len() < 999 {
        register_order(&mut s, &ident(1), &lines(&[(7, 1)])).unwrap();
    }
    let wrapped = register_order(&mut s, &ident(1), &lines(&[(7, 1)])).unwrap();
    assert_eq!(wrapped.flight_number, "FL000");
    let after = register_order(&mut s, &ident(1), &lines(&[(7, 1)])).unwrap();
    assert_eq!(after.flight_number, "FL001");
}
