//! User accounts: registration, login, update, deactivation, counters —
//! with the real password hasher.

use marketplace_core::auth::{extract, CodecConfig, Identity};
use marketplace_core::errors::{ApiFailure, AuthzFailure, NotFoundFailure, Outcome};
use marketplace_core::store::Store;
use marketplace_core::users::{
    deactivate_user_stats, delete_user, get_stats, increment_user_stats, login, register,
    register_handler, update_user, LoginFailure, LoginRequest, RegisterFailure, RegisterRequest,
    UpdateUserRequest,
};

fn cfg() -> CodecConfig {
    CodecConfig { secret: b"account-secret".to_vec(), validity_hours: 24 }
}

fn ident(id: i32) -> Identity {
    Identity { subject_id: id, display_name: "who".to_string(), issued_at: 0, expires_at: 0 }
}

fn reg_req(username: &str, password: &str) -> RegisterRequest {
    RegisterRequest {
        username: username.to_string(),
        name: "Ada".to_string(),
        lastname: "L".to_string(),
        phone: 5551234,
        email: "ada@example.com".to_string(),
        password: password.to_string(),
    }
}

fn no_patch() -> UpdateUserRequest {
    UpdateUserRequest { name: None, lastname: None, phone: None, email: None, password: None }
}

#[test]
fn register_then_login_round_trip() {
    let mut s = Store::new();
    let cfg = cfg();
    let now = 1_700_000_000i64;
    let resp = register(&mut s, &reg_req("ada", "open sesame"), &cfg, now).unwrap();
    assert_eq!(resp.user_id, 1);
    assert_eq!(resp.username, "ada");
    // the token from registration identifies the fresh user
    let ident = extract(Some(&resp.token), &cfg.secret, now).unwrap();
    assert_eq!(ident.subject_id, 1);
    assert_eq!(ident.display_name, "ada");
    // and the stored hash accepts the password
    let li = login(
        &s,
        &LoginRequest { username: "ada".to_string(), password: "open sesame".to_string() },
        &cfg,
        now,
    )
    .unwrap();
    assert_eq!(li.user_id, 1);
    assert_eq!(li.username, "ada");
}

#[test]
fn login_rejects_wrong_password_and_unknown_user_identically() {
    let mut s = Store::new();
    let cfg = cfg();
    register(&mut s, &reg_req("ada", "right"), &cfg, 0).unwrap();
    let wrong = login(
        &s,
        &LoginRequest { username: "ada".to_string(), password: "wrong".to_string() },
        &cfg,
        0,
    )
    .unwrap_err();
    let unknown = login(
        &s,
        &LoginRequest { username: "bob".to_string(), password: "right".to_string() },
        &cfg,
        0,
    )
    .unwrap_err();
    // the failure never reveals whether the username or the password was wrong
    assert_eq!(wrong, LoginFailure::InvalidCredentials);
    assert_eq!(unknown, LoginFailure::InvalidCredentials);
    assert_eq!(wrong, unknown);
    assert_eq!(LoginFailure::InvalidCredentials.outcome(), Outcome::Unauthorized);
}

#[test]
fn duplicate_username_conflicts_and_writes_nothing() {
    let mut s = Store::new();
    let cfg = cfg();
    register(&mut s, &reg_req("ada", "one"), &cfg, 0).unwrap();
    let r = register(&mut s, &reg_req("ada", "two"), &cfg, 0);
    assert_eq!(r.unwrap_err(), RegisterFailure::Conflict);
    assert_eq!(s.users.len(), 1);
    assert_eq!(RegisterFailure::Conflict.outcome(), Outcome::Conflict);
}

#[test]
fn register_handler_counts_the_account() {
    let mut s = Store::new();
    let resp = register_handler(&mut s, &reg_req("ada", "pw")).unwrap();
    assert_eq!(resp.user_id, 1);
    assert_eq!(resp.message, "User registered successfully");
    assert_eq!(s.stats.total_accounts, 1);
    assert_eq!(s.stats.active_accounts, 1);
    assert_eq!(s.stats.inactive_accounts, 0);
}

#[test]
fn stats_counters_move_as_specified() {
    let mut s = Store::new();
    increment_user_stats(&mut s);
    increment_user_stats(&mut s);
    deactivate_user_stats(&mut s);
    assert_eq!(s.stats.total_accounts, 2);
    assert_eq!(s.stats.active_accounts, 1);
    assert_eq!(s.stats.inactive_accounts, 1);
    let snapshot = get_stats(&s);
    assert_eq!(snapshot.total_accounts, 2);
    assert_eq!(snapshot.active_accounts, 1);
    assert_eq!(snapshot.inactive_accounts, 1);
}

#[test]
fn update_user_noop_reports_no_change() {
    let mut s = Store::new();
    register_handler(&mut s, &reg_req("ada", "pw")).unwrap();
    let r = update_user(&mut s, &ident(1), 1, &no_patch()).unwrap();
    assert_eq!(r.message, "No fields to update for user 1");
    assert_eq!(r.user_id, 1);
}

#[test]
fn update_user_applies_patch_for_self() {
    let mut s = Store::new();
    register_handler(&mut s, &reg_req("ada", "pw")).unwrap();
    let patch = UpdateUserRequest {
        name: Some("Grace".to_string()),
        lastname: None,
        phone: Some(777),
        email: None,
        password: None,
    };
    let r = update_user(&mut s, &ident(1), 1, &patch).unwrap();
    assert_eq!(r.message, "User 1 has been updated successfully");
    assert_eq!(s.users[0].name, "Grace");
    assert_eq!(s.users[0].lastname, "L");
    assert_eq!(s.users[0].phone, 777);
    assert_eq!(s.users[0].email, "ada@example.com");
}

#[test]
fn update_user_denies_stranger_and_changes_nothing() {
    let mut s = Store::new();
    register_handler(&mut s, &reg_req("ada", "pw")).unwrap();
    let patch = UpdateUserRequest {
        name: Some("Mallory".to_string()),
        lastname: None,
        phone: None,
        email: None,
        password: None,
    };
    let r = update_user(&mut s, &ident(2), 1, &patch);
    assert_eq!(r.unwrap_err(), ApiFailure::Authz(AuthzFailure::NotAuthorized));
    assert_eq!(s.users[0].name, "Ada");
}

#[test]
fn update_user_allows_admin_on_others() {
    let mut s = Store::new();
    register_handler(&mut s, &reg_req("ada", "pw")).unwrap();
    s.admins.push(9);
    let patch = UpdateUserRequest {
        name: None,
        lastname: Some("Hopper".to_string()),
        phone: None,
        email: None,
        password: None,
    };
    update_user(&mut s, &ident(9), 1, &patch).unwrap();
    assert_eq!(s.users[0].lastname, "Hopper");
}

#[test]
fn update_user_missing_target_is_not_found() {
    let mut s = Store::new();
    let r = update_user(&mut s, &ident(1), 5, &no_patch());
    assert_eq!(r.unwrap_err(), ApiFailure::NotFound(NotFoundFailure::User));
}

#[test]
fn delete_user_is_admin_only_and_counts() {
    let mut s = Store::new();
    register_handler(&mut s, &reg_req("ada", "pw")).unwrap();
    // a non-admin is denied and nothing changes
    let denied = delete_user(&mut s, &ident(2), 1);
    assert_eq!(denied.unwrap_err(), ApiFailure::Authz(AuthzFailure::NotAuthorized));
    assert!(s.users[0].active);
    // an admin deactivates
    s.admins.push(2);
    let r = delete_user(&mut s, &ident(2), 1).unwrap();
    assert_eq!(r.message, "User 1 has been deactivated");
    assert!(!s.users[0].active);
    assert_eq!(s.stats.active_accounts, 0);
    assert_eq!(s.stats.inactive_accounts, 1);
    // deactivating an already-inactive account reports not found
    let again = delete_user(&mut s, &ident(2), 1);
    assert_eq!(again.unwrap_err(), ApiFailure::NotFound(NotFoundFailure::User));
}

#[test]
fn update_user_can_rotate_the_password() {
    let mut s = Store::new();
    let cfg = cfg();
    register(&mut s, &reg_req("ada", "old"), &cfg, 0).unwrap();
    let patch = UpdateUserRequest {
        name: None,
        lastname: None,
        phone: None,
        email: None,
        password: Some("new".to_string()),
    };
    update_user(&mut s, &ident(1), 1, &patch).unwrap();
    let old = login(
        &s,
        &LoginRequest { username: "ada".to_string(), password: "old".to_string() },
        &cfg,
        0,
    );
    assert_eq!(old.unwrap_err(), LoginFailure::InvalidCredentials);
    login(&s, &LoginRequest { username: "ada".to_string(), password: "new".to_string() }, &cfg, 0)
        .unwrap();
}
