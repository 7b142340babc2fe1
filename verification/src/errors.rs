//! Failure taxonomy and observable outcomes.
//!
//! Every abort path of an operation produces exactly one classified failure
//! from this taxonomy; the transport layer maps it to a status code via
//! [`Outcome`].  Failures never carry internal error text, only an
//! operator-safe classification.

use vstd::prelude::*;

verus! {

/// Authorization denials.
#[derive(Clone, Copy, Debug, PartialEq, Eq, Structural)]
pub enum AuthzFailure {
    /// The caller does not own the resource.
    NotOwner,
    /// The caller is neither the target user nor an admin.
    NotAuthorized,
}

/// A referenced entity does not exist (or is treated as absent).
#[derive(Clone, Copy, Debug, PartialEq, Eq, Structural)]
pub enum NotFoundFailure {
    User,
    Product,
    Business,
    Order,
    Resource,
}

/// The request itself is unacceptable.
#[derive(Clone, Copy, Debug, PartialEq, Eq, Structural)]
pub enum ValidationFailure {
    EmptyOrder,
    InvalidAmount,
    ProductInactive,
    BusinessUnverified,
}

/// The persistence collaborator failed; the in-flight transaction is rolled
/// back and the failure surfaces as a server error.
#[derive(Clone, Copy, Debug, PartialEq, Eq, Structural)]
pub enum PersistenceFailure {
    ConnectionTimeout,
    QueryError,
    TransactionAbort,
}

/// The observable outcome class that the (excluded) transport layer maps to
/// a status code.
#[derive(Clone, Copy, Debug, PartialEq, Eq, Structural)]
pub enum Outcome {
    Unauthorized,
    Forbidden,
    NotFound,
    Conflict,
    BadRequest,
    InternalError,
}

/// The failure of an ownership-scoped or validating operation.
#[derive(Clone, Copy, Debug, PartialEq, Eq, Structural)]
pub enum ApiFailure {
    Authz(AuthzFailure),
    NotFound(NotFoundFailure),
    Validation(ValidationFailure),
    Persistence(PersistenceFailure),
    /// A unique key (the username) is already taken.
    Conflict,
    /// The acting user account is deactivated.
    UserInactive,
    /// The drone named by the request is deactivated.
    DroneInactive,
    /// The drone number is already taken.
    DuplicateDroneNumber,
    /// The business has no location assigned.
    MissingLocation,
    /// An internal invariant of a collaborator failed.
    Internal,
}

impl ApiFailure {
    /// The observable outcome of this failure.
    pub fn outcome(&self) -> (o: Outcome)
        ensures
            o == match self {
                ApiFailure::Authz(_) => Outcome::Forbidden,
                ApiFailure::NotFound(_) => Outcome::NotFound,
                ApiFailure::Validation(_) => Outcome::BadRequest,
                ApiFailure::Persistence(_) => Outcome::InternalError,
                ApiFailure::Conflict => Outcome::Conflict,
                ApiFailure::UserInactive => Outcome::Forbidden,
                ApiFailure::DroneInactive => Outcome::BadRequest,
                ApiFailure::DuplicateDroneNumber => Outcome::BadRequest,
                ApiFailure::MissingLocation => Outcome::BadRequest,
                ApiFailure::Internal => Outcome::InternalError,
            },
    {
        match self {
            ApiFailure::Authz(_) => Outcome::Forbidden,
            ApiFailure::NotFound(_) => Outcome::NotFound,
            ApiFailure::Validation(_) => Outcome::BadRequest,
            ApiFailure::Persistence(_) => Outcome::InternalError,
            ApiFailure::Conflict => Outcome::Conflict,
            ApiFailure::UserInactive => Outcome::Forbidden,
            ApiFailure::DroneInactive => Outcome::BadRequest,
            ApiFailure::DuplicateDroneNumber => Outcome::BadRequest,
            ApiFailure::MissingLocation => Outcome::BadRequest,
            ApiFailure::Internal => Outcome::InternalError,
        }
    }
}

/// The observable outcome of an authentication failure: always unauthorized.
pub fn auth_outcome(_e: &crate::auth::AuthError) -> (o: Outcome)
    ensures
        o == Outcome::Unauthorized,
{
    Outcome::Unauthorized
}

} // verus!
