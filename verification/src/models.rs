//! The domain model: series, characters and their attributes.

use vstd::prelude::*;

pub mod attributes;
pub mod birthdate;
pub mod class;
pub mod medium;
pub mod series;
pub mod spirit;

pub use attributes::{
    Angel, AngelWording, AstralDress, AstralDressWording, DressNumber, Sephira, SephiraWording,
};
pub use birthdate::{Birthdate, BirthdateError, Month};
pub use class::Class;
pub use medium::{Element, Medium};
pub use series::{Codename, Gender, Series};
pub use spirit::Spirit;

verus! {

/// Root of the game's asset repository.
pub const REPO_ROOT: &'static str =
    "https://raw.githubusercontent.com/n0k0m3/DateALiveData/master/res/basic";

/// Root of the franchise's wiki.
pub const FANDOM_ROOT: &'static str = "https://date-a-live.fandom.com/wiki";

/// Root of the encyclopedia that attribute names link to.
pub const WIKI_ROOT: &'static str = "https://wikipedia.org/wiki";

} // verus!
