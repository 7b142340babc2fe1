//! User account operations: login, registration, self-or-admin update,
//! admin-only deactivation, and the account counters.
//!
//! Every mutating operation follows the uniform gate ordering — existence
//! first, then authorization, then state — and leaves the store untouched on
//! every failure path.

use vstd::prelude::*;

use crate::auth::{
    bcrypt_matches, bcrypt_wf, create_token, hash_password, token_claims, token_of,
    verify_password, CodecConfig, Identity,
};
use crate::authz::authorize_self_or_admin;
use crate::decimal::{id_message, int_dec};
use crate::errors::{ApiFailure, AuthzFailure, NotFoundFailure, Outcome};
use crate::store::{
    same_admins, same_businesses, same_drones, same_locations, same_orders, same_products,
    same_stats, same_trips, same_users, StatsCounters, Store, UserRow,
};

verus! {

/// A login request: username and plaintext password.
#[derive(Debug)]
pub struct LoginRequest {
    pub username: String,
    pub password: String,
}

/// The success payload of login and of registration with a credential.
#[derive(Debug)]
pub struct AuthResponse {
    pub token: String,
    pub user_id: i32,
    pub username: String,
}

/// The success payload of plain registration.
#[derive(Debug)]
pub struct RegisterResponse {
    pub user_id: i32,
    pub username: String,
    pub message: String,
}

/// A registration request.
#[derive(Debug)]
pub struct RegisterRequest {
    pub username: String,
    pub name: String,
    pub lastname: String,
    pub phone: i64,
    pub email: String,
    pub password: String,
}

/// A typed patch for a user: absent fields stay as they are.
#[derive(Debug)]
pub struct UpdateUserRequest {
    pub name: Option<String>,
    pub lastname: Option<String>,
    pub phone: Option<i64>,
    pub email: Option<String>,
    pub password: Option<String>,
}

impl UpdateUserRequest {
    /// Whether the patch changes nothing.
    pub open spec fn is_noop(&self) -> bool {
        self.name is None && self.lastname is None && self.phone is None && self.email is None
            && self.password is None
    }
}

/// The success payload of a user update.
#[derive(Debug)]
pub struct UpdateUserResponse {
    pub message: String,
    pub user_id: i32,
}

/// The success payload of a user deactivation.
#[derive(Debug)]
pub struct DeleteUserResponse {
    pub message: String,
    pub user_id: i32,
}

/// Why a login failed.
#[derive(Clone, Copy, Debug, PartialEq, Eq, Structural)]
pub enum LoginFailure {
    /// Unknown username, no stored hash, or wrong password; which of the
    /// three is never revealed.
    InvalidCredentials,
    /// A collaborator (hashing, signing) failed.
    Internal,
}

impl LoginFailure {
    /// The observable outcome of this failure.
    pub fn outcome(&self) -> (o: Outcome)
        ensures
            o == match self {
                LoginFailure::InvalidCredentials => Outcome::Unauthorized,
                LoginFailure::Internal => Outcome::InternalError,
            },
    {
        match self {
            LoginFailure::InvalidCredentials => Outcome::Unauthorized,
            LoginFailure::Internal => Outcome::InternalError,
        }
    }
}

/// Why a registration failed.
#[derive(Clone, Copy, Debug, PartialEq, Eq, Structural)]
pub enum RegisterFailure {
    /// The username is already taken.
    Conflict,
    /// A collaborator (hashing, signing) failed.
    Internal,
}

impl RegisterFailure {
    /// The observable outcome of this failure.
    pub fn outcome(&self) -> (o: Outcome)
        ensures
            o == match self {
                RegisterFailure::Conflict => Outcome::Conflict,
                RegisterFailure::Internal => Outcome::InternalError,
            },
    {
        match self {
            RegisterFailure::Conflict => Outcome::Conflict,
            RegisterFailure::Internal => Outcome::InternalError,
        }
    }
}

/// Checks the credentials against the stored hash and issues a fresh
/// credential: for a well-formed stored hash, succeeds exactly for the
/// registered username with a hash matching the password, and fails with
/// the one indistinguishable `InvalidCredentials` otherwise.
pub fn login(store: &Store, req: &LoginRequest, cfg: &CodecConfig, now: i64) -> (r: Result<
    AuthResponse,
    LoginFailure,
>)
    requires
        store.wf(),
        0 <= cfg.validity_hours,
        cfg.validity_hours * 3600 <= i64::MAX,
        now + cfg.validity_hours * 3600 <= i64::MAX,
    ensures
        !store.has_username(req.username@) ==> r == Err::<AuthResponse, _>(
            LoginFailure::InvalidCredentials,
        ),
        r == Err::<AuthResponse, LoginFailure>(LoginFailure::InvalidCredentials) ==> (
        !store.has_username(req.username@) || store.users@[store.username_ix(
            req.username@,
        )].password_hash is None || match store.users@[store.username_ix(
            req.username@,
        )].password_hash {
            Some(h) => !bcrypt_matches(req.password@, h@),
            None => true,
        }),
        store.has_username(req.username@) && (match store.users@[store.username_ix(
            req.username@,
        )].password_hash {
            Some(h) => bcrypt_wf(h@) && bcrypt_matches(req.password@, h@),
            None => false,
        }) ==> r is Ok,
        store.has_username(req.username@) && (match store.users@[store.username_ix(
            req.username@,
        )].password_hash {
            Some(h) => bcrypt_wf(h@) && !bcrypt_matches(req.password@, h@),
            None => false,
        }) ==> r == Err::<AuthResponse, _>(LoginFailure::InvalidCredentials),
        r matches Ok(resp) ==> ({
            let u = store.users@[store.username_ix(req.username@)];
            &&& store.has_username(req.username@)
            &&& u.password_hash matches Some(h) && bcrypt_matches(req.password@, h@)
            &&& resp.user_id == u.id
            &&& resp.username@ == u.username@
            &&& resp.token@ == token_of(
                cfg.secret@,
                int_dec(u.id as int),
                u.username@,
                now + cfg.validity_hours * 3600,
                now as int,
            )
            &&& token_claims(cfg.secret@, resp.token@) == Some(
                (
                    int_dec(u.id as int),
                    u.username@,
                    now + cfg.validity_hours * 3600,
                    now as int,
                ),
            )
        }),
{
    let ix = match store.find_username_ix(&req.username) {
        None => {
            return Err(LoginFailure::InvalidCredentials);
        },
        Some(ix) => ix,
    };
    let stored_hash = match &store.users[ix].password_hash {
        None => {
            return Err(LoginFailure::InvalidCredentials);
        },
        Some(h) => h.clone(),
    };
    match verify_password(req.password.as_str(), stored_hash.as_str()) {
        Err(_) => Err(LoginFailure::Internal),
        Ok(false) => Err(LoginFailure::InvalidCredentials),
        Ok(true) => {
            let user_id = store.users[ix].id;
            let username = store.users[ix].username.clone();
            match create_token(user_id, username, cfg, now) {
                Err(_) => Err(LoginFailure::Internal),
                Ok(token) => Ok(
                    AuthResponse { token, user_id, username: store.users[ix].username.clone() },
                ),
            }
        },
    }
}

/// What registration inserts for a request, a fresh id and a stored hash.
pub open spec fn registered_row(req: RegisterRequest, id: int, post: Store) -> bool {
    let u = post.users@.last();
    &&& u.id == id
    &&& u.username@ == req.username@
    &&& u.name@ == req.name@
    &&& u.lastname@ == req.lastname@
    &&& u.phone == req.phone
    &&& u.email@ == req.email@
    &&& u.active == true
    &&& u.password_hash matches Some(h) && bcrypt_matches(req.password@, h@) && bcrypt_wf(h@)
}

/// Registers a user and issues a credential for the fresh account.
/// Fails with `Conflict` exactly when the username is taken; on every
/// failure the store is untouched.
pub fn register(store: &mut Store, req: &RegisterRequest, cfg: &CodecConfig, now: i64) -> (r:
    Result<AuthResponse, RegisterFailure>)
    requires
        old(store).wf(),
        old(store).next_user_id < i32::MAX,
        0 <= cfg.validity_hours,
        cfg.validity_hours * 3600 <= i64::MAX,
        now + cfg.validity_hours * 3600 <= i64::MAX,
    ensures
        final(store).wf(),
        r matches Err(_) ==> *final(store) == *old(store),
        old(store).has_username(req.username@) ==> r == Err::<AuthResponse, _>(
            RegisterFailure::Conflict,
        ),
        r == Err::<AuthResponse, RegisterFailure>(RegisterFailure::Conflict) ==> old(
            store,
        ).has_username(req.username@),
        r matches Ok(resp) ==> ({
            &&& !old(store).has_username(req.username@)
            &&& resp.user_id == old(store).next_user_id
            &&& resp.username@ == req.username@
            &&& final(store).users@.len() == old(store).users@.len() + 1
            &&& final(store).users@.drop_last() == old(store).users@
            &&& registered_row(*req, resp.user_id as int, *final(store))
            &&& final(store).next_user_id == old(store).next_user_id + 1
            &&& resp.token@ == token_of(
                cfg.secret@,
                int_dec(resp.user_id as int),
                req.username@,
                now + cfg.validity_hours * 3600,
                now as int,
            )
            &&& token_claims(cfg.secret@, resp.token@) == Some(
                (
                    int_dec(resp.user_id as int),
                    req.username@,
                    now + cfg.validity_hours * 3600,
                    now as int,
                ),
            )
            &&& same_admins(*old(store), *final(store))
            &&& same_businesses(*old(store), *final(store))
            &&& same_products(*old(store), *final(store))
            &&& same_drones(*old(store), *final(store))
            &&& same_orders(*old(store), *final(store))
            &&& same_locations(*old(store), *final(store))
            &&& same_trips(*old(store), *final(store))
            &&& same_stats(*old(store), *final(store))
        }),
{
    if store.find_username_ix(&req.username).is_some() {
        return Err(RegisterFailure::Conflict);
    }
    let hash = match hash_password(req.password.as_str()) {
        Err(_) => {
            return Err(RegisterFailure::Internal);
        },
        Ok(h) => h,
    };
    let user_id = store.next_user_id;
    let token = match create_token(user_id, req.username.clone(), cfg, now) {
        Err(_) => {
            return Err(RegisterFailure::Internal);
        },
        Ok(t) => t,
    };
    let row = UserRow {
        id: 0,
        username: req.username.clone(),
        name: req.name.clone(),
        lastname: req.lastname.clone(),
        phone: req.phone,
        email: req.email.clone(),
        password_hash: Some(hash),
        active: true,
    };
    let id = store.insert_user(row);
    Ok(AuthResponse { token, user_id: id, username: req.username.clone() })
}

/// Registers a user without issuing a credential, and counts the fresh
/// account in the statistics.  Fails with `Conflict` exactly when the
/// username is taken; on every failure the store is untouched.
pub fn register_handler(store: &mut Store, req: &RegisterRequest) -> (r: Result<
    RegisterResponse,
    RegisterFailure,
>)
    requires
        old(store).wf(),
        old(store).next_user_id < i32::MAX,
        old(store).stats.total_accounts < i64::MAX,
        old(store).stats.active_accounts < i64::MAX,
    ensures
        final(store).wf(),
        r matches Err(_) ==> *final(store) == *old(store),
        old(store).has_username(req.username@) ==> r == Err::<RegisterResponse, _>(
            RegisterFailure::Conflict,
        ),
        r == Err::<RegisterResponse, RegisterFailure>(RegisterFailure::Conflict) ==> old(
            store,
        ).has_username(req.username@),
        r matches Ok(resp) ==> ({
            &&& !old(store).has_username(req.username@)
            &&& resp.user_id == old(store).next_user_id
            &&& resp.username@ == req.username@
            &&& resp.message@ == "User registered successfully"@
            &&& final(store).users@.len() == old(store).users@.len() + 1
            &&& final(store).users@.drop_last() == old(store).users@
            &&& registered_row(*req, resp.user_id as int, *final(store))
            &&& final(store).next_user_id == old(store).next_user_id + 1
            &&& final(store).stats.total_accounts == old(store).stats.total_accounts + 1
            &&& final(store).stats.active_accounts == old(store).stats.active_accounts + 1
            &&& final(store).stats.inactive_accounts == old(store).stats.inactive_accounts
            &&& same_admins(*old(store), *final(store))
            &&& same_businesses(*old(store), *final(store))
            &&& same_products(*old(store), *final(store))
            &&& same_drones(*old(store), *final(store))
            &&& same_orders(*old(store), *final(store))
            &&& same_locations(*old(store), *final(store))
            &&& same_trips(*old(store), *final(store))
        }),
{
    if store.find_username_ix(&req.username).is_some() {
        return Err(RegisterFailure::Conflict);
    }
    let hash = match hash_password(req.password.as_str()) {
        Err(_) => {
            return Err(RegisterFailure::Internal);
        },
        Ok(h) => h,
    };
    let row = UserRow {
        id: 0,
        username: req.username.clone(),
        name: req.name.clone(),
        lastname: req.lastname.clone(),
        phone: req.phone,
        email: req.email.clone(),
        password_hash: Some(hash),
        active: true,
    };
    let id = store.insert_user(row);
    increment_user_stats(store);
    Ok(
        RegisterResponse {
            user_id: id,
            username: req.username.clone(),
            message: "User registered successfully".to_owned(),
        },
    )
}

/// Reads the global account counters back.
pub fn get_stats(store: &Store) -> (s: StatsCounters)
    ensures
        s == store.stats,
{
    store.stats
}

/// Counts a fresh account: one more total account, one more active account.
pub fn increment_user_stats(store: &mut Store)
    requires
        old(store).wf(),
        old(store).stats.total_accounts < i64::MAX,
        old(store).stats.active_accounts < i64::MAX,
    ensures
        final(store).wf(),
        final(store).stats.total_accounts == old(store).stats.total_accounts + 1,
        final(store).stats.active_accounts == old(store).stats.active_accounts + 1,
        final(store).stats.inactive_accounts == old(store).stats.inactive_accounts,
        same_users(*old(store), *final(store)),
        same_admins(*old(store), *final(store)),
        same_businesses(*old(store), *final(store)),
        same_products(*old(store), *final(store)),
        same_drones(*old(store), *final(store)),
        same_orders(*old(store), *final(store)),
        same_locations(*old(store), *final(store)),
        same_trips(*old(store), *final(store)),
{
    store.stats.total_accounts = store.stats.total_accounts + 1;
    store.stats.active_accounts = store.stats.active_accounts + 1;
}

/// Counts a deactivated account: one fewer active, one more inactive.
pub fn deactivate_user_stats(store: &mut Store)
    requires
        old(store).wf(),
        old(store).stats.active_accounts > i64::MIN,
        old(store).stats.inactive_accounts < i64::MAX,
    ensures
        final(store).wf(),
        final(store).stats.total_accounts == old(store).stats.total_accounts,
        final(store).stats.active_accounts == old(store).stats.active_accounts - 1,
        final(store).stats.inactive_accounts == old(store).stats.inactive_accounts + 1,
        same_users(*old(store), *final(store)),
        same_admins(*old(store), *final(store)),
        same_businesses(*old(store), *final(store)),
        same_products(*old(store), *final(store)),
        same_drones(*old(store), *final(store)),
        same_orders(*old(store), *final(store)),
        same_locations(*old(store), *final(store)),
        same_trips(*old(store), *final(store)),
{
    store.stats.active_accounts = store.stats.active_accounts - 1;
    store.stats.inactive_accounts = store.stats.inactive_accounts + 1;
}

/// Updates a user's own fields: allowed for the user themself or an admin,
/// gated in the uniform order (existence, then authorization).  A patch
/// with no fields changes nothing and reports so.  On every failure the
/// store is untouched.
pub fn update_user(
    store: &mut Store,
    identity: &Identity,
    user_id: i32,
    patch: &UpdateUserRequest,
) -> (r: Result<UpdateUserResponse, ApiFailure>)
    requires
        old(store).wf(),
    ensures
        final(store).wf(),
        r matches Err(_) ==> *final(store) == *old(store),
        !old(store).has_user(user_id as int) ==> r == Err::<UpdateUserResponse, _>(
            ApiFailure::NotFound(NotFoundFailure::User),
        ),
        old(store).has_user(user_id as int) && !(identity.subject_id == user_id || old(
            store,
        ).is_admin_spec(identity.subject_id as int)) ==> r == Err::<UpdateUserResponse, _>(
            ApiFailure::Authz(AuthzFailure::NotAuthorized),
        ),
        r matches Err(e) ==> (e == ApiFailure::NotFound(NotFoundFailure::User) || e
            == ApiFailure::Authz(AuthzFailure::NotAuthorized) || e == ApiFailure::Internal),
        r == Err::<UpdateUserResponse, ApiFailure>(ApiFailure::NotFound(NotFoundFailure::User))
            ==> !old(store).has_user(user_id as int),
        r == Err::<UpdateUserResponse, ApiFailure>(ApiFailure::Authz(AuthzFailure::NotAuthorized))
            ==> !(identity.subject_id == user_id || old(store).is_admin_spec(
            identity.subject_id as int,
        )),
        old(store).has_user(user_id as int) && (identity.subject_id == user_id || old(
            store,
        ).is_admin_spec(identity.subject_id as int)) && patch.password is None ==> r is Ok,
        r matches Ok(resp) ==> ({
            let ix = old(store).user_ix(user_id as int);
            let pre_u = old(store).users@[ix];
            let post_u = final(store).users@[ix];
            &&& old(store).has_user(user_id as int)
            &&& (identity.subject_id == user_id || old(store).is_admin_spec(
                identity.subject_id as int,
            ))
            &&& resp.user_id == user_id
            &&& if patch.is_noop() {
                &&& *final(store) == *old(store)
                &&& resp.message@ == "No fields to update for user "@ + int_dec(user_id as int)
            } else {
                &&& final(store).users@ == old(store).users@.update(ix, post_u)
                &&& post_u.id == pre_u.id
                &&& post_u.username@ == pre_u.username@
                &&& post_u.active == pre_u.active
                &&& post_u.name@ == (match patch.name {
                    Some(n) => n@,
                    None => pre_u.name@,
                })
                &&& post_u.lastname@ == (match patch.lastname {
                    Some(n) => n@,
                    None => pre_u.lastname@,
                })
                &&& post_u.phone == (match patch.phone {
                    Some(p) => p,
                    None => pre_u.phone,
                })
                &&& post_u.email@ == (match patch.email {
                    Some(n) => n@,
                    None => pre_u.email@,
                })
                &&& (match patch.password {
                    Some(pw) => post_u.password_hash matches Some(h) && bcrypt_matches(pw@, h@)
                        && bcrypt_wf(h@),
                    None => post_u.password_hash == pre_u.password_hash,
                })
                &&& same_admins(*old(store), *final(store))
                &&& same_businesses(*old(store), *final(store))
                &&& same_products(*old(store), *final(store))
                &&& same_drones(*old(store), *final(store))
                &&& same_orders(*old(store), *final(store))
                &&& same_locations(*old(store), *final(store))
                &&& same_trips(*old(store), *final(store))
                &&& same_stats(*old(store), *final(store))
                &&& resp.message@ == "User "@ + int_dec(user_id as int)
                    + " has been updated successfully"@
            }
        }),
{
    let ix = match store.find_user_ix(user_id) {
        None => {
            return Err(ApiFailure::NotFound(NotFoundFailure::User));
        },
        Some(ix) => ix,
    };
    let admin = store.is_admin(identity.subject_id);
    if authorize_self_or_admin(identity, user_id, admin).is_err() {
        return Err(ApiFailure::Authz(AuthzFailure::NotAuthorized));
    }
    let no_fields = patch.name.is_none() && patch.lastname.is_none() && patch.phone.is_none()
        && patch.email.is_none() && patch.password.is_none();
    if no_fields {
        let message = id_message("No fields to update for user ", user_id as i64, "");
        proof {
            reveal_strlit("");
            assert(message@ =~= "No fields to update for user "@ + int_dec(user_id as int));
        }
        return Ok(UpdateUserResponse { message, user_id });
    }
    let password_hash = match &patch.password {
        Some(pw) => match hash_password(pw.as_str()) {
            Err(_) => {
                return Err(ApiFailure::Internal);
            },
            Ok(h) => Some(h),
        },
        None => match &store.users[ix].password_hash {
            Some(h) => Some(h.clone()),
            None => None,
        },
    };
    let name = match &patch.name {
        Some(n) => n.clone(),
        None => store.users[ix].name.clone(),
    };
    let lastname = match &patch.lastname {
        Some(n) => n.clone(),
        None => store.users[ix].lastname.clone(),
    };
    let phone = match patch.phone {
        Some(p) => p,
        None => store.users[ix].phone,
    };
    let email = match &patch.email {
        Some(n) => n.clone(),
        None => store.users[ix].email.clone(),
    };
    let row = UserRow {
        id: store.users[ix].id,
        username: store.users[ix].username.clone(),
        name,
        lastname,
        phone,
        email,
        password_hash,
        active: store.users[ix].active,
    };
    store.set_user(ix, row);
    let message = id_message("User ", user_id as i64, " has been updated successfully");
    Ok(UpdateUserResponse { message, user_id })
}

/// Deactivates a user: admin only, gated in the uniform order (existence,
/// then authorization, then the already-inactive state, reported as not
/// found).  Updates the account counters.  On every failure the store is
/// untouched.
pub fn delete_user(store: &mut Store, identity: &Identity, user_id: i32) -> (r: Result<
    DeleteUserResponse,
    ApiFailure,
>)
    requires
        old(store).wf(),
        old(store).stats.active_accounts > i64::MIN,
        old(store).stats.inactive_accounts < i64::MAX,
    ensures
        final(store).wf(),
        r matches Err(_) ==> *final(store) == *old(store),
        !old(store).has_user(user_id as int) ==> r == Err::<DeleteUserResponse, _>(
            ApiFailure::NotFound(NotFoundFailure::User),
        ),
        old(store).has_user(user_id as int) && !old(store).is_admin_spec(identity.subject_id as int)
            ==> r == Err::<DeleteUserResponse, _>(ApiFailure::Authz(AuthzFailure::NotAuthorized)),
        old(store).has_user(user_id as int) && old(store).is_admin_spec(identity.subject_id as int)
            && !old(store).user_at(user_id as int).active ==> r == Err::<DeleteUserResponse, _>(
            ApiFailure::NotFound(NotFoundFailure::User),
        ),
        old(store).has_user(user_id as int) && old(store).is_admin_spec(identity.subject_id as int)
            && old(store).user_at(user_id as int).active ==> r is Ok,
        r matches Ok(resp) ==> ({
            let ix = old(store).user_ix(user_id as int);
            let pre_u = old(store).users@[ix];
            &&& old(store).has_user(user_id as int)
            &&& old(store).is_admin_spec(identity.subject_id as int)
            &&& pre_u.active
            &&& final(store).users@ == old(store).users@.update(
                ix,
                (UserRow { active: false, ..pre_u }),
            )
            &&& final(store).stats.total_accounts == old(store).stats.total_accounts
            &&& final(store).stats.active_accounts == old(store).stats.active_accounts - 1
            &&& final(store).stats.inactive_accounts == old(store).stats.inactive_accounts + 1
            &&& final(store).next_user_id == old(store).next_user_id
            &&& same_admins(*old(store), *final(store))
            &&& same_businesses(*old(store), *final(store))
            &&& same_products(*old(store), *final(store))
            &&& same_drones(*old(store), *final(store))
            &&& same_orders(*old(store), *final(store))
            &&& same_locations(*old(store), *final(store))
            &&& same_trips(*old(store), *final(store))
            &&& resp.user_id == user_id
            &&& resp.message@ == "User "@ + int_dec(user_id as int) + " has been deactivated"@
        }),
{
    let ix = match store.find_user_ix(user_id) {
        None => {
            return Err(ApiFailure::NotFound(NotFoundFailure::User));
        },
        Some(ix) => ix,
    };
    if !store.is_admin(identity.subject_id) {
        return Err(ApiFailure::Authz(AuthzFailure::NotAuthorized));
    }
    if !store.users[ix].active {
        return Err(ApiFailure::NotFound(NotFoundFailure::User));
    }
    let row = UserRow {
        id: store.users[ix].id,
        username: store.users[ix].username.clone(),
        name: store.users[ix].name.clone(),
        lastname: store.users[ix].lastname.clone(),
        phone: store.users[ix].phone,
        email: store.users[ix].email.clone(),
        password_hash: match &store.users[ix].password_hash {
            Some(h) => Some(h.clone()),
            None => None,
        },
        active: false,
    };
    store.set_user(ix, row);
    deactivate_user_stats(store);
    let message = id_message("User ", user_id as i64, " has been deactivated");
    Ok(DeleteUserResponse { message, user_id })
}

} // verus!
