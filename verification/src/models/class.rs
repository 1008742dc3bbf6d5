//! The classes by which the lore and the game rank a character.

use crate::models::REPO_ROOT;
use vstd::prelude::*;

verus! {

/// A rank, from the lowest to the highest.
#[derive(Debug, Clone, Copy, PartialEq, Eq, Hash, PartialOrd, Ord, Structural)]
pub enum Class {
    D,
    C,
    B,
    A,
    AA,
    AAA,
    S,
    SS,
    SSS,
    Ex,
}

impl Class {
    /// The class as shown to the reader.
    pub open spec fn spec_label(self) -> Seq<char> {
        match self {
            Class::D => "D"@,
            Class::C => "C"@,
            Class::B => "B"@,
            Class::A => "A"@,
            Class::AA => "AA"@,
            Class::AAA => "AAA"@,
            Class::S => "S"@,
            Class::SS => "SS"@,
            Class::SSS => "SSS"@,
            Class::Ex => "Ex"@,
        }
    }

    /// The name under which the asset repository files the badge of the
    /// class.
    pub open spec fn spec_badge(self) -> Seq<char> {
        match self {
            Class::D => "d"@,
            Class::C => "c"@,
            Class::B => "b"@,
            Class::A | Class::AA | Class::AAA => "a"@,
            Class::S | Class::SS | Class::SSS => "aaa"@,
            Class::Ex => "sss"@,
        }
    }

    /// How many times the badge is shown for the class.
    pub open spec fn spec_repeat(self) -> u8 {
        match self {
            Class::AA | Class::SS => 2,
            Class::AAA | Class::SSS => 3,
            _ => 1,
        }
    }

    /// The address of the badge of the class.
    pub open spec fn spec_icon(self) -> Seq<char> {
        REPO_ROOT@ + "/ui/common/hero/quality_"@ + self.spec_badge() + ".png"@
    }

    /// The class as shown to the reader.
    pub fn label(&self) -> (r: &'static str)
        ensures
            r@ == self.spec_label(),
    {
        match self {
            Class::D => "D",
            Class::C => "C",
            Class::B => "B",
            Class::A => "A",
            Class::AA => "AA",
            Class::AAA => "AAA",
            Class::S => "S",
            Class::SS => "SS",
            Class::SSS => "SSS",
            Class::Ex => "Ex",
        }
    }

    /// The address of the badge of the class, and how many times it is
    /// shown.
    pub fn icon(&self) -> (r: (String, u8))
        ensures
            r.0@ == self.spec_icon(),
            r.1 == self.spec_repeat(),
    {
        let (id, rep): (&'static str, u8) = match self {
            Class::D => ("d", 1),
            Class::C => ("c", 1),
            Class::B => ("b", 1),
            Class::A => ("a", 1),
            Class::AA => ("a", 2),
            Class::AAA => ("a", 3),
            Class::S => ("aaa", 1),
            Class::SS => ("aaa", 2),
            Class::SSS => ("aaa", 3),
            Class::Ex => ("sss", 1),
        };
        let mut url = String::from_str(REPO_ROOT);
        url.append("/ui/common/hero/quality_");
        url.append(id);
        url.append(".png");
        (url, rep)
    }
}

} // verus!
