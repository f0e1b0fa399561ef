//! A minimal CRUD service core for a single resource ("items").
//!
//! The library holds the verified logic of the service: configuration
//! resolution, the error taxonomy with its HTTP status mapping, the item
//! model with its patch semantics, the parsing of request bodies, and
//! the store of items with the semantics of the single `items` table.
//! The laws module states and proves the properties that relate these
//! operations to one another.

pub mod config;
pub mod errors;
pub mod item;
pub mod json;
pub mod laws;
pub mod routes;
pub mod store;
