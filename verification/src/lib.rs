//! Data access layer of a collaborative map-annotation service.
//!
//! Users create maps, and each map holds markers: geo-tagged points kept in
//! order by a sort key. The layer turns four operations (create a user, look
//! a user up, create a map, create a marker) into single statements against a
//! relational store and turns the store's answers back into typed results.

pub mod actions;
pub mod clock;
pub mod errors;
pub mod ident;
pub mod letters;
pub mod models;
pub mod schema;
