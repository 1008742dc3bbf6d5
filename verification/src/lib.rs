//! Catalogue of spirits: the domain model, the route model, and the
//! derivations that turn the flat list of records into navigation and
//! detail views.

pub mod coordinator;
pub mod grouping;
pub mod models;
pub mod pattern;
pub mod router;
pub mod text;
pub mod utils;
pub mod views;
