//! Authorization-and-consistency core of a multi-tenant marketplace.
//!
//! The crate is organised around four components:
//! - a credential codec that issues and verifies signed, time-bound identity
//!   tokens (`auth`),
//! - an identity extractor that turns an inbound credential into a verified
//!   [`auth::Identity`] or a classified failure (`auth`),
//! - an ownership authorizer deciding owner-only and self-or-admin policies
//!   (`authz`),
//! - a transactional order-placement engine that validates order lines
//!   against live product and business state, prices them, and persists the
//!   order aggregate atomically (`orders`).
//!
//! Persistence is modelled by [`store::Store`], an in-memory image of the
//! rows the operations read and write; every operation states exactly how it
//! changes the store, and every failing operation leaves it untouched.

pub mod auth;
pub mod authz;
pub mod business;
pub mod decimal;
pub mod drones;
pub mod errors;
pub mod orders;
pub mod products;
pub mod store;
pub mod trips;
pub mod users;
