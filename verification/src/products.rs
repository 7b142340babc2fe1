//! Product operations: registration, listing, update, deactivation.
//!
//! Every product belongs to a business; mutations are allowed only to the
//! owner of that business, gated in the uniform order — existence, then
//! ownership, then state — and leave the store untouched on every failure
//! path.  Prices are fixed-point cents; listings render them with two
//! fractional digits as the persisted price column does.

use vstd::prelude::*;

use crate::auth::Identity;
use crate::authz::authorize_owner_only;
use crate::decimal::{cents_to_string, id_message, int_dec, money_seq};
use crate::errors::{ApiFailure, AuthzFailure, NotFoundFailure};
use crate::store::{
    same_admins, same_businesses, same_drones, same_locations, same_orders, same_products,
    same_stats, same_trips, same_users, ProductRow, Store,
};
use crate::business::bool_flag;

verus! {

/// A product registration request; the price in cents.
#[derive(Debug)]
pub struct RegisterProductRequest {
    pub name: String,
    pub description: String,
    pub price_cents: u64,
    pub business_id: i32,
}

/// The success payload of product registration.
#[derive(Debug)]
pub struct RegisterProductResponse {
    pub product_id: i32,
    pub name: String,
    pub description: String,
    pub price_cents: u64,
    pub business_id: i32,
    pub active: bool,
    pub message: String,
}

/// A typed patch for a product: absent fields stay as they are.
#[derive(Debug)]
pub struct UpdateProductRequest {
    pub name: Option<String>,
    pub description: Option<String>,
    pub price_cents: Option<u64>,
}

impl UpdateProductRequest {
    /// Whether the patch changes nothing.
    pub open spec fn is_noop(&self) -> bool {
        self.name is None && self.description is None && self.price_cents is None
    }
}

/// The success payload of a product update.
#[derive(Debug)]
pub struct UpdateProductResponse {
    pub message: String,
    pub product_id: i32,
}

/// The success payload of a product deactivation.
#[derive(Debug)]
pub struct DeleteProductResponse {
    pub message: String,
    pub product_id: i32,
}

/// A product as listings report it: the price rendered with two fractional
/// digits, the flag `0` or `1`, as the persisted columns hold them.
#[derive(Debug)]
pub struct Product {
    pub id: i32,
    pub name: String,
    pub description: Option<String>,
    pub price: Option<String>,
    pub business_id: i32,
    pub active: i8,
}

/// Whether `e` is the listing entry for the row `p`: same plain fields,
/// the price rendered with two fractional digits, the flag as `0` or `1`.
pub open spec fn product_entry_matches(p: ProductRow, e: Product) -> bool {
    &&& e.id == p.id
    &&& e.name@ == p.name@
    &&& e.description matches Some(d) && d@ == p.description@
    &&& e.price matches Some(pr) && pr@ == money_seq(p.price_cents as nat)
    &&& e.business_id == p.business_id
    &&& e.active == bool_flag(p.active)
}

/// The rows one business's listing reports: its active products, newest
/// (last inserted) first.
pub open spec fn listed_product_rows(rows: Seq<ProductRow>, business_id: int) -> Seq<ProductRow>
    decreases rows.len(),
{
    if rows.len() == 0 {
        Seq::empty()
    } else {
        let rest = listed_product_rows(rows.drop_first(), business_id);
        if rows[0].business_id == business_id && rows[0].active {
            rest.push(rows[0])
        } else {
            rest
        }
    }
}

/// Registers a product in a business: only the owner of that business may,
/// gated in the uniform order (existence, then ownership).  New products
/// start active.  On every failure the store is untouched.
pub fn register_product(store: &mut Store, identity: &Identity, req: &RegisterProductRequest)
    -> (r: Result<RegisterProductResponse, ApiFailure>)
    requires
        old(store).wf(),
        old(store).next_product_id < i32::MAX,
    ensures
        final(store).wf(),
        r matches Err(_) ==> *final(store) == *old(store),
        !old(store).has_business(req.business_id as int) ==> r == Err::<
            RegisterProductResponse,
            _,
        >(ApiFailure::NotFound(NotFoundFailure::Business)),
        old(store).has_business(req.business_id as int) && old(store).business_at(
            req.business_id as int,
        ).owner_id != identity.subject_id ==> r == Err::<RegisterProductResponse, _>(
            ApiFailure::Authz(AuthzFailure::NotOwner),
        ),
        old(store).has_business(req.business_id as int) && old(store).business_at(
            req.business_id as int,
        ).owner_id == identity.subject_id ==> r is Ok,
        r matches Ok(resp) ==> ({
            &&& old(store).has_business(req.business_id as int)
            &&& old(store).business_at(req.business_id as int).owner_id == identity.subject_id
            &&& resp.product_id == old(store).next_product_id
            &&& resp.name@ == req.name@
            &&& resp.description@ == req.description@
            &&& resp.price_cents == req.price_cents
            &&& resp.business_id == req.business_id
            &&& resp.active == true
            &&& resp.message@ == "Product registered successfully"@
            &&& final(store).products@ == old(store).products@.push(
                (ProductRow {
                    id: resp.product_id,
                    name: resp.name,
                    description: resp.description,
                    price_cents: req.price_cents,
                    business_id: req.business_id,
                    active: true,
                }),
            )
            &&& final(store).next_product_id == old(store).next_product_id + 1
            &&& same_users(*old(store), *final(store))
            &&& same_admins(*old(store), *final(store))
            &&& same_businesses(*old(store), *final(store))
            &&& same_drones(*old(store), *final(store))
            &&& same_orders(*old(store), *final(store))
            &&& same_locations(*old(store), *final(store))
            &&& same_trips(*old(store), *final(store))
            &&& same_stats(*old(store), *final(store))
        }),
{
    let bix = match store.find_business_ix(req.business_id) {
        None => {
            return Err(ApiFailure::NotFound(NotFoundFailure::Business));
        },
        Some(ix) => ix,
    };
    if authorize_owner_only(identity, store.businesses[bix].owner_id).is_err() {
        return Err(ApiFailure::Authz(AuthzFailure::NotOwner));
    }
    let row = ProductRow {
        id: 0,
        name: req.name.clone(),
        description: req.description.clone(),
        price_cents: req.price_cents,
        business_id: req.business_id,
        active: true,
    };
    let id = store.insert_product(row);
    Ok(
        RegisterProductResponse {
            product_id: id,
            name: req.name.clone(),
            description: req.description.clone(),
            price_cents: req.price_cents,
            business_id: req.business_id,
            active: true,
            message: "Product registered successfully".to_owned(),
        },
    )
}

/// Lists a business's active products, newest first: only the owner of the
/// business may, gated in the uniform order (existence, then ownership).
pub fn list_products_by_business(store: &Store, identity: &Identity, business_id: i32) -> (r:
    Result<Vec<Product>, ApiFailure>)
    requires
        store.wf(),
    ensures
        !store.has_business(business_id as int) ==> r == Err::<Vec<Product>, _>(
            ApiFailure::NotFound(NotFoundFailure::Business),
        ),
        store.has_business(business_id as int) && store.business_at(business_id as int).owner_id
            != identity.subject_id ==> r == Err::<Vec<Product>, _>(
            ApiFailure::Authz(AuthzFailure::NotOwner),
        ),
        store.has_business(business_id as int) && store.business_at(business_id as int).owner_id
            == identity.subject_id ==> r is Ok,
        r matches Ok(products) ==> ({
            let rows = listed_product_rows(store.products@, business_id as int);
            &&& store.has_business(business_id as int)
            &&& store.business_at(business_id as int).owner_id == identity.subject_id
            &&& products@.len() == rows.len()
            &&& forall|k: int|
                0 <= k < rows.len() ==> product_entry_matches(rows[k], #[trigger] products@[k])
        }),
{
    let bix = match store.find_business_ix(business_id) {
        None => {
            return Err(ApiFailure::NotFound(NotFoundFailure::Business));
        },
        Some(ix) => ix,
    };
    if authorize_owner_only(identity, store.businesses[bix].owner_id).is_err() {
        return Err(ApiFailure::Authz(AuthzFailure::NotOwner));
    }
    let mut out: Vec<Product> = Vec::new();
    let mut i: usize = store.products.len();
    proof {
        assert(store.products@.skip(i as int) =~= Seq::<ProductRow>::empty());
    }
    while i > 0
        invariant
            i <= store.products@.len(),
            store.wf(),
            out@.len() == listed_product_rows(store.products@.skip(i as int), business_id as int).len(),
            forall|k: int|
                0 <= k < out@.len() ==> product_entry_matches(
                    listed_product_rows(store.products@.skip(i as int), business_id as int)[k],
                    #[trigger] out@[k],
                ),
        decreases i,
    {
        i = i - 1;
        proof {
            assert(store.products@.skip(i as int)[0] == store.products@[i as int]);
            assert(store.products@.skip(i as int).drop_first() =~= store.products@.skip(
                i as int + 1,
            ));
        }
        let p = &store.products[i];
        if p.business_id == business_id && p.active {
            let entry = Product {
                id: p.id,
                name: p.name.clone(),
                description: Some(p.description.clone()),
                price: Some(cents_to_string(p.price_cents)),
                business_id: p.business_id,
                active: if p.active {
                    1
                } else {
                    0
                },
            };
            proof {
                assert(product_entry_matches(store.products@[i as int], entry));
            }
            out.push(entry);
        }
    }
    proof {
        assert(store.products@.skip(0) =~= store.products@);
    }
    Ok(out)
}

/// Updates a product's fields: only the owner of the owning business may,
/// gated in the uniform order (product existence, then business existence,
/// then ownership).  A patch with no fields changes nothing and reports so.
/// On every failure the store is untouched.
pub fn update_product(
    store: &mut Store,
    identity: &Identity,
    product_id: i32,
    patch: &UpdateProductRequest,
) -> (r: Result<UpdateProductResponse, ApiFailure>)
    requires
        old(store).wf(),
    ensures
        final(store).wf(),
        r matches Err(_) ==> *final(store) == *old(store),
        !old(store).has_product(product_id as int) ==> r == Err::<UpdateProductResponse, _>(
            ApiFailure::NotFound(NotFoundFailure::Product),
        ),
        old(store).has_product(product_id as int) && !old(store).has_business(
            old(store).product_at(product_id as int).business_id as int,
        ) ==> r == Err::<UpdateProductResponse, _>(
            ApiFailure::NotFound(NotFoundFailure::Business),
        ),
        old(store).has_product(product_id as int) && old(store).has_business(
            old(store).product_at(product_id as int).business_id as int,
        ) && old(store).business_at(
            old(store).product_at(product_id as int).business_id as int,
        ).owner_id != identity.subject_id ==> r == Err::<UpdateProductResponse, _>(
            ApiFailure::Authz(AuthzFailure::NotOwner),
        ),
        old(store).has_product(product_id as int) && old(store).has_business(
            old(store).product_at(product_id as int).business_id as int,
        ) && old(store).business_at(
            old(store).product_at(product_id as int).business_id as int,
        ).owner_id == identity.subject_id ==> r is Ok,
        r matches Ok(resp) ==> ({
            let ix = old(store).product_ix(product_id as int);
            let pre_p = old(store).products@[ix];
            let post_p = final(store).products@[ix];
            &&& old(store).has_product(product_id as int)
            &&& old(store).has_business(pre_p.business_id as int)
            &&& old(store).business_at(pre_p.business_id as int).owner_id == identity.subject_id
            &&& resp.product_id == product_id
            &&& if patch.is_noop() {
                &&& *final(store) == *old(store)
                &&& resp.message@ == "No fields to update for product "@ + int_dec(
                    product_id as int,
                )
            } else {
                &&& final(store).products@ == old(store).products@.update(ix, post_p)
                &&& post_p.id == pre_p.id
                &&& post_p.business_id == pre_p.business_id
                &&& post_p.active == pre_p.active
                &&& post_p.name@ == (match patch.name {
                    Some(n) => n@,
                    None => pre_p.name@,
                })
                &&& post_p.description@ == (match patch.description {
                    Some(d) => d@,
                    None => pre_p.description@,
                })
                &&& post_p.price_cents == (match patch.price_cents {
                    Some(c) => c,
                    None => pre_p.price_cents,
                })
                &&& final(store).next_product_id == old(store).next_product_id
                &&& same_users(*old(store), *final(store))
                &&& same_admins(*old(store), *final(store))
                &&& same_businesses(*old(store), *final(store))
                &&& same_drones(*old(store), *final(store))
                &&& same_orders(*old(store), *final(store))
                &&& same_locations(*old(store), *final(store))
                &&& same_trips(*old(store), *final(store))
                &&& same_stats(*old(store), *final(store))
                &&& resp.message@ == "Product "@ + int_dec(product_id as int)
                    + " has been updated successfully"@
            }
        }),
{
    let ix = match store.find_product_ix(product_id) {
        None => {
            return Err(ApiFailure::NotFound(NotFoundFailure::Product));
        },
        Some(ix) => ix,
    };
    let bix = match store.find_business_ix(store.products[ix].business_id) {
        None => {
            return Err(ApiFailure::NotFound(NotFoundFailure::Business));
        },
        Some(ix) => ix,
    };
    if authorize_owner_only(identity, store.businesses[bix].owner_id).is_err() {
        return Err(ApiFailure::Authz(AuthzFailure::NotOwner));
    }
    let no_fields = patch.name.is_none() && patch.description.is_none()
        && patch.price_cents.is_none();
    if no_fields {
        let message = id_message("No fields to update for product ", product_id as i64, "");
        proof {
            reveal_strlit("");
            assert(message@ =~= "No fields to update for product "@ + int_dec(product_id as int));
        }
        return Ok(UpdateProductResponse { message, product_id });
    }
    let name = match &patch.name {
        Some(n) => n.clone(),
        None => store.products[ix].name.clone(),
    };
    let description = match &patch.description {
        Some(d) => d.clone(),
        None => store.products[ix].description.clone(),
    };
    let price_cents = match patch.price_cents {
        Some(c) => c,
        None => store.products[ix].price_cents,
    };
    let row = ProductRow {
        id: store.products[ix].id,
        name,
        description,
        price_cents,
        business_id: store.products[ix].business_id,
        active: store.products[ix].active,
    };
    store.set_product(ix, row);
    let message = id_message("Product ", product_id as i64, " has been updated successfully");
    Ok(UpdateProductResponse { message, product_id })
}

/// Deactivates a product: only the owner of the owning business may, gated
/// in the uniform order (product existence, then business existence, then
/// ownership, then the already-inactive state, reported as not found).  On
/// every failure the store is untouched.
pub fn delete_product(store: &mut Store, identity: &Identity, product_id: i32) -> (r: Result<
    DeleteProductResponse,
    ApiFailure,
>)
    requires
        old(store).wf(),
    ensures
        final(store).wf(),
        r matches Err(_) ==> *final(store) == *old(store),
        !old(store).has_product(product_id as int) ==> r == Err::<DeleteProductResponse, _>(
            ApiFailure::NotFound(NotFoundFailure::Product),
        ),
        old(store).has_product(product_id as int) && !old(store).has_business(
            old(store).product_at(product_id as int).business_id as int,
        ) ==> r == Err::<DeleteProductResponse, _>(
            ApiFailure::NotFound(NotFoundFailure::Business),
        ),
        old(store).has_product(product_id as int) && old(store).has_business(
            old(store).product_at(product_id as int).business_id as int,
        ) && old(store).business_at(
            old(store).product_at(product_id as int).business_id as int,
        ).owner_id != identity.subject_id ==> r == Err::<DeleteProductResponse, _>(
            ApiFailure::Authz(AuthzFailure::NotOwner),
        ),
        old(store).has_product(product_id as int) && old(store).has_business(
            old(store).product_at(product_id as int).business_id as int,
        ) && old(store).business_at(
            old(store).product_at(product_id as int).business_id as int,
        ).owner_id == identity.subject_id && !old(store).product_at(product_id as int).active ==> r
            == Err::<DeleteProductResponse, _>(ApiFailure::NotFound(NotFoundFailure::Product)),
        old(store).has_product(product_id as int) && old(store).has_business(
            old(store).product_at(product_id as int).business_id as int,
        ) && old(store).business_at(
            old(store).product_at(product_id as int).business_id as int,
        ).owner_id == identity.subject_id && old(store).product_at(product_id as int).active ==> r
            is Ok,
        r matches Ok(resp) ==> ({
            let ix = old(store).product_ix(product_id as int);
            let pre_p = old(store).products@[ix];
            &&& old(store).has_product(product_id as int)
            &&& old(store).has_business(pre_p.business_id as int)
            &&& old(store).business_at(pre_p.business_id as int).owner_id == identity.subject_id
            &&& pre_p.active
            &&& final(store).products@ == old(store).products@.update(
                ix,
                (ProductRow { active: false, ..pre_p }),
            )
            &&& final(store).next_product_id == old(store).next_product_id
            &&& same_users(*old(store), *final(store))
            &&& same_admins(*old(store), *final(store))
            &&& same_businesses(*old(store), *final(store))
            &&& same_drones(*old(store), *final(store))
            &&& same_orders(*old(store), *final(store))
            &&& same_locations(*old(store), *final(store))
            &&& same_trips(*old(store), *final(store))
            &&& same_stats(*old(store), *final(store))
            &&& resp.product_id == product_id
            &&& resp.message@ == "Product "@ + int_dec(product_id as int) + " has been deactivated"@
        }),
{
    let ix = match store.find_product_ix(product_id) {
        None => {
            return Err(ApiFailure::NotFound(NotFoundFailure::Product));
        },
        Some(ix) => ix,
    };
    let bix = match store.find_business_ix(store.products[ix].business_id) {
        None => {
            return Err(ApiFailure::NotFound(NotFoundFailure::Business));
        },
        Some(ix) => ix,
    };
    if authorize_owner_only(identity, store.businesses[bix].owner_id).is_err() {
        return Err(ApiFailure::Authz(AuthzFailure::NotOwner));
    }
    if !store.products[ix].active {
        return Err(ApiFailure::NotFound(NotFoundFailure::Product));
    }
    let row = ProductRow {
        id: store.products[ix].id,
        name: store.products[ix].name.clone(),
        description: store.products[ix].description.clone(),
        price_cents: store.products[ix].price_cents,
        business_id: store.products[ix].business_id,
        active: false,
    };
    store.set_product(ix, row);
    let message = id_message("Product ", product_id as i64, " has been deactivated");
    Ok(DeleteProductResponse { message, product_id })
}

} // verus!
