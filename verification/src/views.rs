//! What the views show, as plain values: the navigation of the series and
//! the detail page of a character.

pub mod details;
pub mod nav;
pub mod resources;
pub mod stats;
