//! Ownership authorizer decision table.

use marketplace_core::auth::Identity;
use marketplace_core::authz::{authorize_owner_only, authorize_self_or_admin};
use marketplace_core::errors::AuthzFailure;

fn ident(id: i32) -> Identity {
    Identity { subject_id: id, display_name: "who".to_string(), issued_at: 0, expires_at: 0 }
}

#[test]
fn owner_only_allows_exactly_the_owner() {
    assert!(authorize_owner_only(&ident(1), 1).is_ok());
    assert!(authorize_owner_only(&ident(0), 0).is_ok());
    assert!(authorize_owner_only(&ident(-3), -3).is_ok());
    assert_eq!(authorize_owner_only(&ident(1), 2), Err(AuthzFailure::NotOwner));
    assert_eq!(authorize_owner_only(&ident(2), 1), Err(AuthzFailure::NotOwner));
    assert_eq!(authorize_owner_only(&ident(-3), 3), Err(AuthzFailure::NotOwner));
}

#[test]
fn self_or_admin_allows_self() {
    assert!(authorize_self_or_admin(&ident(5), 5, false).is_ok());
}

#[test]
fn self_or_admin_allows_admin_on_others() {
    assert!(authorize_self_or_admin(&ident(5), 6, true).is_ok());
}

#[test]
fn self_or_admin_denies_stranger() {
    assert_eq!(authorize_self_or_admin(&ident(5), 6, false), Err(AuthzFailure::NotAuthorized));
}
