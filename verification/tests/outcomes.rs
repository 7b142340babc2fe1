//! The mapping from classified failures to observable outcomes.

use marketplace_core::auth::AuthError;
use marketplace_core::errors::{
    auth_outcome, ApiFailure, AuthzFailure, NotFoundFailure, Outcome, PersistenceFailure,
    ValidationFailure,
};
use marketplace_core::orders::OrderFailure;

#[test]
fn auth_failures_are_unauthorized() {
    assert_eq!(auth_outcome(&AuthError::InvalidToken), Outcome::Unauthorized);
    assert_eq!(auth_outcome(&AuthError::MissingToken), Outcome::Unauthorized);
    assert_eq!(auth_outcome(&AuthError::TokenExpired), Outcome::Unauthorized);
}

#[test]
fn api_failures_map_to_their_outcome_class() {
    assert_eq!(ApiFailure::Authz(AuthzFailure::NotOwner).outcome(), Outcome::Forbidden);
    assert_eq!(ApiFailure::Authz(AuthzFailure::NotAuthorized).outcome(), Outcome::Forbidden);
    assert_eq!(ApiFailure::NotFound(NotFoundFailure::User).outcome(), Outcome::NotFound);
    assert_eq!(ApiFailure::NotFound(NotFoundFailure::Product).outcome(), Outcome::NotFound);
    assert_eq!(ApiFailure::NotFound(NotFoundFailure::Business).outcome(), Outcome::NotFound);
    assert_eq!(ApiFailure::NotFound(NotFoundFailure::Order).outcome(), Outcome::NotFound);
    assert_eq!(ApiFailure::NotFound(NotFoundFailure::Resource).outcome(), Outcome::NotFound);
    assert_eq!(
        ApiFailure::Validation(ValidationFailure::EmptyOrder).outcome(),
        Outcome::BadRequest
    );
    assert_eq!(
        ApiFailure::Validation(ValidationFailure::InvalidAmount).outcome(),
        Outcome::BadRequest
    );
    assert_eq!(
        ApiFailure::Validation(ValidationFailure::ProductInactive).outcome(),
        Outcome::BadRequest
    );
    assert_eq!(
        ApiFailure::Validation(ValidationFailure::BusinessUnverified).outcome(),
        Outcome::BadRequest
    );
    assert_eq!(
        ApiFailure::Persistence(PersistenceFailure::ConnectionTimeout).outcome(),
        Outcome::InternalError
    );
    assert_eq!(
        ApiFailure::Persistence(PersistenceFailure::QueryError).outcome(),
        Outcome::InternalError
    );
    assert_eq!(
        ApiFailure::Persistence(PersistenceFailure::TransactionAbort).outcome(),
        Outcome::InternalError
    );
    assert_eq!(ApiFailure::Conflict.outcome(), Outcome::Conflict);
    assert_eq!(ApiFailure::UserInactive.outcome(), Outcome::Forbidden);
    assert_eq!(ApiFailure::DroneInactive.outcome(), Outcome::BadRequest);
    assert_eq!(ApiFailure::DuplicateDroneNumber.outcome(), Outcome::BadRequest);
    assert_eq!(ApiFailure::MissingLocation.outcome(), Outcome::BadRequest);
    assert_eq!(ApiFailure::Internal.outcome(), Outcome::InternalError);
}

#[test]
fn order_failures_map_to_their_outcome_class() {
    assert_eq!(OrderFailure::UserNotFound.outcome(), Outcome::NotFound);
    assert_eq!(OrderFailure::UserInactive.outcome(), Outcome::Forbidden);
    assert_eq!(OrderFailure::EmptyOrder.outcome(), Outcome::BadRequest);
    assert_eq!(OrderFailure::ProductNotFound.outcome(), Outcome::NotFound);
    assert_eq!(OrderFailure::ProductInactive.outcome(), Outcome::BadRequest);
    assert_eq!(OrderFailure::BusinessUnverified.outcome(), Outcome::BadRequest);
    assert_eq!(OrderFailure::InvalidAmount.outcome(), Outcome::BadRequest);
}
