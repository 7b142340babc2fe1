//! Ownership authorizer.
//!
//! Two policies gate every ownership-scoped operation:
//! - owner-only: allow exactly when the caller is the owning user;
//! - self-or-admin: allow exactly when the caller is the target user or an
//!   admin (the admin flag is looked up fresh per call by the caller and
//!   handed in, never cached).
//!
//! Callers apply the uniform ordering: resolve existence first (not found),
//! then ownership (forbidden), then state invariants.

use vstd::prelude::*;

use crate::auth::Identity;
use crate::errors::AuthzFailure;

verus! {

/// Allows exactly when the caller is the owner: `Ok` iff
/// `identity.subject_id == owner_user_id`, `Err(NotOwner)` otherwise —
/// exhaustive over equal and unequal ids.
pub fn authorize_owner_only(identity: &Identity, owner_user_id: i32) -> (r: Result<
    (),
    AuthzFailure,
>)
    ensures
        r is Ok <==> identity.subject_id == owner_user_id,
        r matches Err(e) ==> e == AuthzFailure::NotOwner,
{
    if identity.subject_id == owner_user_id {
        Ok(())
    } else {
        Err(AuthzFailure::NotOwner)
    }
}

/// Allows exactly when the caller is the target user or an admin:
/// `Ok` iff `identity.subject_id == target_user_id || is_admin`,
/// `Err(NotAuthorized)` otherwise.  `is_admin` must be looked up fresh for
/// this call.
pub fn authorize_self_or_admin(identity: &Identity, target_user_id: i32, is_admin: bool) -> (r:
    Result<(), AuthzFailure>)
    ensures
        r is Ok <==> (identity.subject_id == target_user_id || is_admin),
        r matches Err(e) ==> e == AuthzFailure::NotAuthorized,
{
    if identity.subject_id == target_user_id || is_admin {
        Ok(())
    } else {
        Err(AuthzFailure::NotAuthorized)
    }
}

} // verus!
