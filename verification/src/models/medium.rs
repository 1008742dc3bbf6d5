//! The media a character appears in, and the elements of its attacks.

use crate::models::REPO_ROOT;
use crate::text::{decimal, push_decimal};
use crate::utils::Flag;
use vstd::prelude::*;

verus! {

/// A medium of the franchise; the order of the variants is the order of
/// their bits and the order in which badges are shown.
#[derive(Debug, Clone, Copy, PartialEq, Eq, PartialOrd, Ord, Hash, Structural)]
pub enum Medium {
    MainLightNovels,
    SpinoffLightNovels,
    Anime,
    Movie,
    VisualNovels,
    Gacha,
}

impl Default for Medium {
    fn default() -> (r: Self)
        ensures
            r == Medium::MainLightNovels,
    {
        Medium::MainLightNovels
    }
}

impl Medium {
    /// The medium as shown to the reader.
    pub open spec fn spec_label(self) -> Seq<char> {
        match self {
            Medium::MainLightNovels => "Main Light Novels"@,
            Medium::SpinoffLightNovels => "Spin-off Light Novels"@,
            Medium::Anime => "Anime"@,
            Medium::Movie => "Movie"@,
            Medium::VisualNovels => "Visual Novels"@,
            Medium::Gacha => "Gacha"@,
        }
    }

    /// The identifier of the variant.
    pub open spec fn spec_variant_name(self) -> Seq<char> {
        match self {
            Medium::MainLightNovels => "MainLightNovels"@,
            Medium::SpinoffLightNovels => "SpinoffLightNovels"@,
            Medium::Anime => "Anime"@,
            Medium::Movie => "Movie"@,
            Medium::VisualNovels => "VisualNovels"@,
            Medium::Gacha => "Gacha"@,
        }
    }

    /// The medium as shown to the reader.
    pub fn label(&self) -> (r: &'static str)
        ensures
            r@ == self.spec_label(),
    {
        match self {
            Medium::MainLightNovels => "Main Light Novels",
            Medium::SpinoffLightNovels => "Spin-off Light Novels",
            Medium::Anime => "Anime",
            Medium::Movie => "Movie",
            Medium::VisualNovels => "Visual Novels",
            Medium::Gacha => "Gacha",
        }
    }

    /// The identifier of the variant.
    pub fn variant_name(&self) -> (r: &'static str)
        ensures
            r@ == self.spec_variant_name(),
    {
        match self {
            Medium::MainLightNovels => "MainLightNovels",
            Medium::SpinoffLightNovels => "SpinoffLightNovels",
            Medium::Anime => "Anime",
            Medium::Movie => "Movie",
            Medium::VisualNovels => "VisualNovels",
            Medium::Gacha => "Gacha",
        }
    }
}

impl Flag for Medium {
    open spec fn spec_bit(self) -> nat {
        match self {
            Medium::MainLightNovels => 0,
            Medium::SpinoffLightNovels => 1,
            Medium::Anime => 2,
            Medium::Movie => 3,
            Medium::VisualNovels => 4,
            Medium::Gacha => 5,
        }
    }

    open spec fn spec_from_bit(bit: nat) -> Option<Self> {
        if bit == 0 {
            Some(Medium::MainLightNovels)
        } else if bit == 1 {
            Some(Medium::SpinoffLightNovels)
        } else if bit == 2 {
            Some(Medium::Anime)
        } else if bit == 3 {
            Some(Medium::Movie)
        } else if bit == 4 {
            Some(Medium::VisualNovels)
        } else if bit == 5 {
            Some(Medium::Gacha)
        } else {
            None
        }
    }

    open spec fn spec_from_char(c: char) -> Option<Self> {
        if c == 'l' {
            Some(Medium::MainLightNovels)
        } else if c == 's' {
            Some(Medium::SpinoffLightNovels)
        } else if c == 'a' {
            Some(Medium::Anime)
        } else if c == 'm' {
            Some(Medium::Movie)
        } else if c == 'v' {
            Some(Medium::VisualNovels)
        } else if c == 'g' {
            Some(Medium::Gacha)
        } else {
            None
        }
    }

    proof fn lemma_bits() {
    }

    fn bit(self) -> (b: u16) {
        match self {
            Medium::MainLightNovels => 0,
            Medium::SpinoffLightNovels => 1,
            Medium::Anime => 2,
            Medium::Movie => 3,
            Medium::VisualNovels => 4,
            Medium::Gacha => 5,
        }
    }

    fn from_bit(bit: u16) -> (f: Option<Self>) {
        match bit {
            0 => Some(Medium::MainLightNovels),
            1 => Some(Medium::SpinoffLightNovels),
            2 => Some(Medium::Anime),
            3 => Some(Medium::Movie),
            4 => Some(Medium::VisualNovels),
            5 => Some(Medium::Gacha),
            _ => None,
        }
    }

    fn from_char(c: char) -> (f: Option<Self>) {
        match c {
            'l' => Some(Medium::MainLightNovels),
            's' => Some(Medium::SpinoffLightNovels),
            'a' => Some(Medium::Anime),
            'm' => Some(Medium::Movie),
            'v' => Some(Medium::VisualNovels),
            'g' => Some(Medium::Gacha),
            _ => None,
        }
    }
}

/// An element of the game's attacks; the order of the variants is the order
/// of their bits.
#[derive(Debug, Clone, Copy, PartialEq, Eq, Hash, Structural)]
pub enum Element {
    Physical,
    Magic,
    Fire,
    Lightning,
    Tempest,
    Frost,
    Holy,
    Dark,
    Spiritual,
    Space,
}

impl Element {
    /// The element as shown to the reader.
    pub open spec fn spec_label(self) -> Seq<char> {
        match self {
            Element::Physical => "Physical"@,
            Element::Magic => "Magic"@,
            Element::Fire => "Fire"@,
            Element::Lightning => "Lightning"@,
            Element::Tempest => "Tempest"@,
            Element::Frost => "Frost"@,
            Element::Holy => "Holy"@,
            Element::Dark => "Dark"@,
            Element::Spiritual => "Spiritual"@,
            Element::Space => "Space"@,
        }
    }

    /// The number under which the asset repository files the element's
    /// icon; two elements have none.
    pub open spec fn spec_icon_id(self) -> Option<nat> {
        match self {
            Element::Physical => Some(5),
            Element::Magic => Some(1),
            Element::Fire => Some(2),
            Element::Lightning => Some(3),
            Element::Tempest => Some(4),
            Element::Frost => Some(6),
            Element::Holy => Some(7),
            Element::Dark => Some(8),
            Element::Spiritual => None,
            Element::Space => None,
        }
    }

    /// The address of the element's icon, where it has one.
    pub open spec fn spec_icon(self) -> Option<Seq<char>> {
        match self.spec_icon_id() {
            Some(id) => Some(REPO_ROOT@ + "/icon/element/"@ + decimal(id) + ".png"@),
            None => None,
        }
    }

    /// The element as shown to the reader.
    pub fn label(&self) -> (r: &'static str)
        ensures
            r@ == self.spec_label(),
    {
        match self {
            Element::Physical => "Physical",
            Element::Magic => "Magic",
            Element::Fire => "Fire",
            Element::Lightning => "Lightning",
            Element::Tempest => "Tempest",
            Element::Frost => "Frost",
            Element::Holy => "Holy",
            Element::Dark => "Dark",
            Element::Spiritual => "Spiritual",
            Element::Space => "Space",
        }
    }

    /// The address of the element's icon, where it has one.
    pub fn icon(&self) -> (r: Option<String>)
        ensures
            crate::text::opt_view(r) == self.spec_icon(),
    {
        let id: Option<u8> = match self {
            Element::Physical => Some(5),
            Element::Magic => Some(1),
            Element::Fire => Some(2),
            Element::Lightning => Some(3),
            Element::Tempest => Some(4),
            Element::Frost => Some(6),
            Element::Holy => Some(7),
            Element::Dark => Some(8),
            _ => None,
        };
        match id {
            Some(id) => {
                let mut r = String::from_str(REPO_ROOT);
                r.append("/icon/element/");
                push_decimal(&mut r, id as u64);
                r.append(".png");
                Some(r)
            },
            None => None,
        }
    }
}

impl Flag for Element {
    open spec fn spec_bit(self) -> nat {
        match self {
            Element::Physical => 0,
            Element::Magic => 1,
            Element::Fire => 2,
            Element::Lightning => 3,
            Element::Tempest => 4,
            Element::Frost => 5,
            Element::Holy => 6,
            Element::Dark => 7,
            Element::Spiritual => 8,
            Element::Space => 9,
        }
    }

    open spec fn spec_from_bit(bit: nat) -> Option<Self> {
        if bit == 0 {
            Some(Element::Physical)
        } else if bit == 1 {
            Some(Element::Magic)
        } else if bit == 2 {
            Some(Element::Fire)
        } else if bit == 3 {
            Some(Element::Lightning)
        } else if bit == 4 {
            Some(Element::Tempest)
        } else if bit == 5 {
            Some(Element::Frost)
        } else if bit == 6 {
            Some(Element::Holy)
        } else if bit == 7 {
            Some(Element::Dark)
        } else if bit == 8 {
            Some(Element::Spiritual)
        } else if bit == 9 {
            Some(Element::Space)
        } else {
            None
        }
    }

    open spec fn spec_from_char(c: char) -> Option<Self> {
        if c == 'p' {
            Some(Element::Physical)
        } else if c == 'm' {
            Some(Element::Magic)
        } else if c == 'f' {
            Some(Element::Fire)
        } else if c == 'l' {
            Some(Element::Lightning)
        } else if c == 't' {
            Some(Element::Tempest)
        } else if c == 'i' {
            Some(Element::Frost)
        } else if c == 'h' {
            Some(Element::Holy)
        } else if c == 'd' {
            Some(Element::Dark)
        } else if c == 's' {
            Some(Element::Spiritual)
        } else if c == 'v' {
            Some(Element::Space)
        } else {
            None
        }
    }

    proof fn lemma_bits() {
    }

    fn bit(self) -> (b: u16) {
        match self {
            Element::Physical => 0,
            Element::Magic => 1,
            Element::Fire => 2,
            Element::Lightning => 3,
            Element::Tempest => 4,
            Element::Frost => 5,
            Element::Holy => 6,
            Element::Dark => 7,
            Element::Spiritual => 8,
            Element::Space => 9,
        }
    }

    fn from_bit(bit: u16) -> (f: Option<Self>) {
        match bit {
            0 => Some(Element::Physical),
            1 => Some(Element::Magic),
            2 => Some(Element::Fire),
            3 => Some(Element::Lightning),
            4 => Some(Element::Tempest),
            5 => Some(Element::Frost),
            6 => Some(Element::Holy),
            7 => Some(Element::Dark),
            8 => Some(Element::Spiritual),
            9 => Some(Element::Space),
            _ => None,
        }
    }

    fn from_char(c: char) -> (f: Option<Self>) {
        match c {
            'p' => Some(Element::Physical),
            'm' => Some(Element::Magic),
            'f' => Some(Element::Fire),
            'l' => Some(Element::Lightning),
            't' => Some(Element::Tempest),
            'i' => Some(Element::Frost),
            'h' => Some(Element::Holy),
            'd' => Some(Element::Dark),
            's' => Some(Element::Spiritual),
            'v' => Some(Element::Space),
            _ => None,
        }
    }
}

} // verus!
