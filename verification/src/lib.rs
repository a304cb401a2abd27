//! A typed client library for a REST commerce admin API.
//!
//! The crate centres on a generic request/response pipeline: a query
//! encoder that turns typed parameter structs into ordered key/value
//! pairs, a transport model that builds authenticated request URLs and
//! classifies HTTP responses, an envelope codec that unwraps the
//! resource key every payload is nested under, and a cursor pagination
//! engine that extracts opaque `page_info` cursors from `Link` response
//! headers. Resource modules (orders, products, variants, inventory,
//! fulfillment services) supply the typed parameters, paths and data
//! shapes that ride on that pipeline.

pub mod client;
pub mod currency;
pub mod delivery_profile;
pub mod encode;
pub mod fulfillment_service;
pub mod inventory;
pub mod order;
pub mod pagination;
pub mod product;
pub mod result;
pub mod shop;
pub mod strutil;
pub mod variant;
