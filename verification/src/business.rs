//! Business operations: registration, listing, update, deactivation, and
//! location assignment.
//!
//! Mutations are owner-only and gated in the uniform order — existence,
//! then ownership, then state — and leave the store untouched on every
//! failure path.

use vstd::prelude::*;

use crate::auth::Identity;
use crate::authz::authorize_owner_only;
use crate::decimal::{id_message, int_dec, micro_seq, micro_to_string};
use crate::errors::{ApiFailure, AuthzFailure, NotFoundFailure};
use crate::store::{
    same_admins, same_businesses, same_drones, same_locations, same_orders, same_products,
    same_stats, same_trips, same_users, BusinessRow, LocationRow, Store,
};

verus! {

/// A business registration request.
#[derive(Debug)]
pub struct RegisterBusinessRequest {
    pub name: String,
    pub description: String,
}

/// The success payload of business registration.
#[derive(Debug)]
pub struct RegisterBusinessResponse {
    pub business_id: i32,
    pub name: String,
    pub description: String,
    pub owner_id: i32,
    pub verified: bool,
    pub active: bool,
    pub message: String,
}

/// A typed patch for a business: absent fields stay as they are.
#[derive(Debug)]
pub struct UpdateBusinessRequest {
    pub name: Option<String>,
    pub description: Option<String>,
}

impl UpdateBusinessRequest {
    /// Whether the patch changes nothing.
    pub open spec fn is_noop(&self) -> bool {
        self.name is None && self.description is None
    }
}

/// The success payload of a business update.
#[derive(Debug)]
pub struct UpdateBusinessResponse {
    pub message: String,
    pub business_id: i32,
}

/// The success payload of a business deactivation.
#[derive(Debug)]
pub struct DeleteBusinessResponse {
    pub message: String,
    pub business_id: i32,
}

/// A business as listings report it; the flags are `0` or `1` as the
/// persisted columns hold them.
#[derive(Debug)]
pub struct Business {
    pub id: i32,
    pub name: String,
    pub description: Option<String>,
    pub owner_id: i32,
    pub verified: i8,
    pub active: i8,
}

/// A location assignment request; coordinates in millionths of a degree.
#[derive(Debug)]
pub struct SetLocationRequest {
    pub name: Option<String>,
    pub latitude_micro: i64,
    pub longitude_micro: i64,
}

/// The success payload of a location assignment; the coordinates echo back
/// rendered as signed decimals.
#[derive(Debug)]
pub struct SetLocationResponse {
    pub location_id: i32,
    pub business_id: i32,
    pub name: Option<String>,
    pub latitude: String,
    pub longitude: String,
    pub message: String,
}

/// `1` for true, `0` for false, as the persisted flag columns hold it.
pub open spec fn bool_flag(b: bool) -> i8 {
    if b {
        1
    } else {
        0
    }
}

/// The listing entry for one business row.
pub open spec fn to_business(b: BusinessRow) -> Business {
    Business {
        id: b.id,
        name: b.name,
        description: Some(b.description),
        owner_id: b.owner_id,
        verified: bool_flag(b.verified),
        active: bool_flag(b.active),
    }
}

/// The listing of `rows` for `owner`: the active businesses the owner owns,
/// newest (last inserted) first.
pub open spec fn listed_businesses(rows: Seq<BusinessRow>, owner: int) -> Seq<Business>
    decreases rows.len(),
{
    if rows.len() == 0 {
        Seq::empty()
    } else {
        let rest = listed_businesses(rows.drop_first(), owner);
        if rows[0].owner_id == owner && rows[0].active {
            rest.push(to_business(rows[0]))
        } else {
            rest
        }
    }
}

/// Registers a business for the verified caller: the caller must resolve to
/// an existing, active user.  New businesses start unverified and active.
/// On every failure the store is untouched.
pub fn register_business(store: &mut Store, identity: &Identity, req: &RegisterBusinessRequest)
    -> (r: Result<RegisterBusinessResponse, ApiFailure>)
    requires
        old(store).wf(),
        old(store).next_business_id < i32::MAX,
    ensures
        final(store).wf(),
        r matches Err(_) ==> *final(store) == *old(store),
        !old(store).has_user(identity.subject_id as int) ==> r == Err::<
            RegisterBusinessResponse,
            _,
        >(ApiFailure::NotFound(NotFoundFailure::User)),
        old(store).has_user(identity.subject_id as int) && !old(store).user_at(
            identity.subject_id as int,
        ).active ==> r == Err::<RegisterBusinessResponse, _>(ApiFailure::UserInactive),
        old(store).has_user(identity.subject_id as int) && old(store).user_at(
            identity.subject_id as int,
        ).active ==> r is Ok,
        r matches Ok(resp) ==> ({
            &&& old(store).has_user(identity.subject_id as int)
            &&& old(store).user_at(identity.subject_id as int).active
            &&& resp.business_id == old(store).next_business_id
            &&& resp.name@ == req.name@
            &&& resp.description@ == req.description@
            &&& resp.owner_id == identity.subject_id
            &&& resp.verified == false
            &&& resp.active == true
            &&& resp.message@ == "Business registered successfully"@
            &&& final(store).businesses@ == old(store).businesses@.push(
                (BusinessRow {
                    id: resp.business_id,
                    name: resp.name,
                    description: resp.description,
                    owner_id: identity.subject_id,
                    verified: false,
                    active: true,
                    location_id: None,
                }),
            )
            &&& final(store).next_business_id == old(store).next_business_id + 1
            &&& same_users(*old(store), *final(store))
            &&& same_admins(*old(store), *final(store))
            &&& same_products(*old(store), *final(store))
            &&& same_drones(*old(store), *final(store))
            &&& same_orders(*old(store), *final(store))
            &&& same_locations(*old(store), *final(store))
            &&& same_trips(*old(store), *final(store))
            &&& same_stats(*old(store), *final(store))
        }),
{
    let uix = match store.find_user_ix(identity.subject_id) {
        None => {
            return Err(ApiFailure::NotFound(NotFoundFailure::User));
        },
        Some(ix) => ix,
    };
    if !store.users[uix].active {
        return Err(ApiFailure::UserInactive);
    }
    let row = BusinessRow {
        id: 0,
        name: req.name.clone(),
        description: req.description.clone(),
        owner_id: identity.subject_id,
        verified: false,
        active: true,
        location_id: None,
    };
    let id = store.insert_business(row);
    Ok(
        RegisterBusinessResponse {
            business_id: id,
            name: req.name.clone(),
            description: req.description.clone(),
            owner_id: identity.subject_id,
            verified: false,
            active: true,
            message: "Business registered successfully".to_owned(),
        },
    )
}

/// Lists the caller's active businesses, newest first.
pub fn list_businesses(store: &Store, identity: &Identity) -> (r: Vec<Business>)
    requires
        store.wf(),
    ensures
        r@ == listed_businesses(store.businesses@, identity.subject_id as int),
{
    let mut out: Vec<Business> = Vec::new();
    let mut i: usize = store.businesses.len();
    proof {
        assert(store.businesses@.skip(i as int) =~= Seq::<BusinessRow>::empty());
    }
    while i > 0
        invariant
            i <= store.businesses@.len(),
            store.wf(),
            out@ == listed_businesses(store.businesses@.skip(i as int), identity.subject_id as int),
        decreases i,
    {
        i = i - 1;
        proof {
            assert(store.businesses@.skip(i as int)[0] == store.businesses@[i as int]);
            assert(store.businesses@.skip(i as int).drop_first() =~= store.businesses@.skip(
                i as int + 1,
            ));
        }
        let b = &store.businesses[i];
        if b.owner_id == identity.subject_id && b.active {
            let entry = Business {
                id: b.id,
                name: b.name.clone(),
                description: Some(b.description.clone()),
                owner_id: b.owner_id,
                verified: if b.verified {
                    1
                } else {
                    0
                },
                active: if b.active {
                    1
                } else {
                    0
                },
            };
            proof {
                assert(entry == to_business(store.businesses@[i as int]));
            }
            out.push(entry);
        }
    }
    proof {
        assert(store.businesses@.skip(0) =~= store.businesses@);
    }
    out
}

/// Updates a business's fields: owner only, gated in the uniform order
/// (existence, then ownership).  A patch with no fields changes nothing and
/// reports so.  On every failure the store is untouched.
pub fn update_business(
    store: &mut Store,
    identity: &Identity,
    business_id: i32,
    patch: &UpdateBusinessRequest,
) -> (r: Result<UpdateBusinessResponse, ApiFailure>)
    requires
        old(store).wf(),
    ensures
        final(store).wf(),
        r matches Err(_) ==> *final(store) == *old(store),
        !old(store).has_business(business_id as int) ==> r == Err::<UpdateBusinessResponse, _>(
            ApiFailure::NotFound(NotFoundFailure::Business),
        ),
        old(store).has_business(business_id as int) && old(store).business_at(
            business_id as int,
        ).owner_id != identity.subject_id ==> r == Err::<UpdateBusinessResponse, _>(
            ApiFailure::Authz(AuthzFailure::NotOwner),
        ),
        old(store).has_business(business_id as int) && old(store).business_at(
            business_id as int,
        ).owner_id == identity.subject_id ==> r is Ok,
        r matches Ok(resp) ==> ({
            let ix = old(store).business_ix(business_id as int);
            let pre_b = old(store).businesses@[ix];
            let post_b = final(store).businesses@[ix];
            &&& old(store).has_business(business_id as int)
            &&& pre_b.owner_id == identity.subject_id
            &&& resp.business_id == business_id
            &&& if patch.is_noop() {
                &&& *final(store) == *old(store)
                &&& resp.message@ == "No fields to update for business "@ + int_dec(
                    business_id as int,
                )
            } else {
                &&& final(store).businesses@ == old(store).businesses@.update(ix, post_b)
                &&& post_b.id == pre_b.id
                &&& post_b.owner_id == pre_b.owner_id
                &&& post_b.verified == pre_b.verified
                &&& post_b.active == pre_b.active
                &&& post_b.location_id == pre_b.location_id
                &&& post_b.name@ == (match patch.name {
                    Some(n) => n@,
                    None => pre_b.name@,
                })
                &&& post_b.description@ == (match patch.description {
                    Some(d) => d@,
                    None => pre_b.description@,
                })
                &&& final(store).next_business_id == old(store).next_business_id
                &&& same_users(*old(store), *final(store))
                &&& same_admins(*old(store), *final(store))
                &&& same_products(*old(store), *final(store))
                &&& same_drones(*old(store), *final(store))
                &&& same_orders(*old(store), *final(store))
                &&& same_locations(*old(store), *final(store))
                &&& same_trips(*old(store), *final(store))
                &&& same_stats(*old(store), *final(store))
                &&& resp.message@ == "Business "@ + int_dec(business_id as int)
                    + " has been updated successfully"@
            }
        }),
{
    let ix = match store.find_business_ix(business_id) {
        None => {
            return Err(ApiFailure::NotFound(NotFoundFailure::Business));
        },
        Some(ix) => ix,
    };
    if authorize_owner_only(identity, store.businesses[ix].owner_id).is_err() {
        return Err(ApiFailure::Authz(AuthzFailure::NotOwner));
    }
    let no_fields = patch.name.is_none() && patch.description.is_none();
    if no_fields {
        let message = id_message("No fields to update for business ", business_id as i64, "");
        proof {
            reveal_strlit("");
            assert(message@ =~= "No fields to update for business "@ + int_dec(business_id as int));
        }
        return Ok(UpdateBusinessResponse { message, business_id });
    }
    let name = match &patch.name {
        Some(n) => n.clone(),
        None => store.businesses[ix].name.clone(),
    };
    let description = match &patch.description {
        Some(d) => d.clone(),
        None => store.businesses[ix].description.clone(),
    };
    let row = BusinessRow {
        id: store.businesses[ix].id,
        name,
        description,
        owner_id: store.businesses[ix].owner_id,
        verified: store.businesses[ix].verified,
        active: store.businesses[ix].active,
        location_id: store.businesses[ix].location_id,
    };
    store.set_business(ix, row);
    let message = id_message("Business ", business_id as i64, " has been updated successfully");
    Ok(UpdateBusinessResponse { message, business_id })
}

/// Deactivates a business: owner only, gated in the uniform order
/// (existence, then ownership, then the already-inactive state, reported as
/// not found).  On every failure the store is untouched.
pub fn delete_business(store: &mut Store, identity: &Identity, business_id: i32) -> (r: Result<
    DeleteBusinessResponse,
    ApiFailure,
>)
    requires
        old(store).wf(),
    ensures
        final(store).wf(),
        r matches Err(_) ==> *final(store) == *old(store),
        !old(store).has_business(business_id as int) ==> r == Err::<DeleteBusinessResponse, _>(
            ApiFailure::NotFound(NotFoundFailure::Business),
        ),
        old(store).has_business(business_id as int) && old(store).business_at(
            business_id as int,
        ).owner_id != identity.subject_id ==> r == Err::<DeleteBusinessResponse, _>(
            ApiFailure::Authz(AuthzFailure::NotOwner),
        ),
        old(store).has_business(business_id as int) && old(store).business_at(
            business_id as int,
        ).owner_id == identity.subject_id && !old(store).business_at(business_id as int).active
            ==> r == Err::<DeleteBusinessResponse, _>(
            ApiFailure::NotFound(NotFoundFailure::Business),
        ),
        old(store).has_business(business_id as int) && old(store).business_at(
            business_id as int,
        ).owner_id == identity.subject_id && old(store).business_at(business_id as int).active
            ==> r is Ok,
        r matches Ok(resp) ==> ({
            let ix = old(store).business_ix(business_id as int);
            let pre_b = old(store).businesses@[ix];
            &&& old(store).has_business(business_id as int)
            &&& pre_b.owner_id == identity.subject_id
            &&& pre_b.active
            &&& final(store).businesses@ == old(store).businesses@.update(
                ix,
                (BusinessRow { active: false, ..pre_b }),
            )
            &&& final(store).next_business_id == old(store).next_business_id
            &&& same_users(*old(store), *final(store))
            &&& same_admins(*old(store), *final(store))
            &&& same_products(*old(store), *final(store))
            &&& same_drones(*old(store), *final(store))
            &&& same_orders(*old(store), *final(store))
            &&& same_locations(*old(store), *final(store))
            &&& same_trips(*old(store), *final(store))
            &&& same_stats(*old(store), *final(store))
            &&& resp.business_id == business_id
            &&& resp.message@ == "Business "@ + int_dec(business_id as int)
                + " has been deactivated"@
        }),
{
    let ix = match store.find_business_ix(business_id) {
        None => {
            return Err(ApiFailure::NotFound(NotFoundFailure::Business));
        },
        Some(ix) => ix,
    };
    if authorize_owner_only(identity, store.businesses[ix].owner_id).is_err() {
        return Err(ApiFailure::Authz(AuthzFailure::NotOwner));
    }
    if !store.businesses[ix].active {
        return Err(ApiFailure::NotFound(NotFoundFailure::Business));
    }
    let row = BusinessRow {
        id: store.businesses[ix].id,
        name: store.businesses[ix].name.clone(),
        description: store.businesses[ix].description.clone(),
        owner_id: store.businesses[ix].owner_id,
        verified: store.businesses[ix].verified,
        active: false,
        location_id: store.businesses[ix].location_id,
    };
    store.set_business(ix, row);
    let message = id_message("Business ", business_id as i64, " has been deactivated");
    Ok(DeleteBusinessResponse { message, business_id })
}

/// Creates a location and assigns it to the business: owner only, gated in
/// the uniform order (existence, then ownership).  On every failure the
/// store is untouched.
pub fn set_business_location(
    store: &mut Store,
    identity: &Identity,
    business_id: i32,
    req: &SetLocationRequest,
) -> (r: Result<SetLocationResponse, ApiFailure>)
    requires
        old(store).wf(),
        old(store).next_location_id < i32::MAX,
    ensures
        final(store).wf(),
        r matches Err(_) ==> *final(store) == *old(store),
        !old(store).has_business(business_id as int) ==> r == Err::<SetLocationResponse, _>(
            ApiFailure::NotFound(NotFoundFailure::Business),
        ),
        old(store).has_business(business_id as int) && old(store).business_at(
            business_id as int,
        ).owner_id != identity.subject_id ==> r == Err::<SetLocationResponse, _>(
            ApiFailure::Authz(AuthzFailure::NotOwner),
        ),
        old(store).has_business(business_id as int) && old(store).business_at(
            business_id as int,
        ).owner_id == identity.subject_id ==> r is Ok,
        r matches Ok(resp) ==> ({
            let ix = old(store).business_ix(business_id as int);
            let pre_b = old(store).businesses@[ix];
            &&& old(store).has_business(business_id as int)
            &&& pre_b.owner_id == identity.subject_id
            &&& resp.location_id == old(store).next_location_id
            &&& resp.business_id == business_id
            &&& final(store).locations@ == old(store).locations@.push(
                (LocationRow {
                    id: resp.location_id,
                    name: resp.name,
                    latitude_micro: req.latitude_micro,
                    longitude_micro: req.longitude_micro,
                }),
            )
            &&& final(store).next_location_id == old(store).next_location_id + 1
            &&& final(store).businesses@ == old(store).businesses@.update(
                ix,
                (BusinessRow { location_id: Some(resp.location_id), ..pre_b }),
            )
            &&& final(store).next_business_id == old(store).next_business_id
            &&& resp.latitude@ == micro_seq(req.latitude_micro as int)
            &&& resp.longitude@ == micro_seq(req.longitude_micro as int)
            &&& resp.message@ == "Location set successfully for business "@ + int_dec(
                business_id as int,
            )
            &&& same_users(*old(store), *final(store))
            &&& same_admins(*old(store), *final(store))
            &&& same_products(*old(store), *final(store))
            &&& same_drones(*old(store), *final(store))
            &&& same_orders(*old(store), *final(store))
            &&& same_trips(*old(store), *final(store))
            &&& same_stats(*old(store), *final(store))
        }),
{
    let ix = match store.find_business_ix(business_id) {
        None => {
            return Err(ApiFailure::NotFound(NotFoundFailure::Business));
        },
        Some(ix) => ix,
    };
    if authorize_owner_only(identity, store.businesses[ix].owner_id).is_err() {
        return Err(ApiFailure::Authz(AuthzFailure::NotOwner));
    }
    let location_name = match &req.name {
        Some(n) => Some(n.clone()),
        None => None,
    };
    let location_row = LocationRow {
        id: 0,
        name: location_name,
        latitude_micro: req.latitude_micro,
        longitude_micro: req.longitude_micro,
    };
    let location_id = store.insert_location(location_row);
    let row = BusinessRow {
        id: store.businesses[ix].id,
        name: store.businesses[ix].name.clone(),
        description: store.businesses[ix].description.clone(),
        owner_id: store.businesses[ix].owner_id,
        verified: store.businesses[ix].verified,
        active: store.businesses[ix].active,
        location_id: Some(location_id),
    };
    store.set_business(ix, row);
    let message = id_message("Location set successfully for business ", business_id as i64, "");
    proof {
        reveal_strlit("");
        assert(message@ =~= "Location set successfully for business "@ + int_dec(
            business_id as int,
        ));
    }
    Ok(
        SetLocationResponse {
            location_id,
            business_id,
            name: match &req.name {
                Some(n) => Some(n.clone()),
                None => None,
            },
            latitude: micro_to_string(req.latitude_micro),
            longitude: micro_to_string(req.longitude_micro),
            message,
        },
    )
}

} // verus!
