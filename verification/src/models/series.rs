//! Series, gender and the wording of a character's alias.

use vstd::prelude::*;
use vstd::std_specs::convert::FromSpecImpl;

verus! {

/// The work a character belongs to; the order of the variants is the order
/// in which navigation sections are shown.
#[derive(Debug, Clone, Copy, PartialEq, Eq, Hash, PartialOrd, Ord, Structural)]
pub enum Series {
    DateALive,
    DateABullet,
    Index,
    Neptunia,
    DanMachi,
    Bofuri,
}

impl Default for Series {
    fn default() -> (r: Self)
        ensures
            r == Series::DateALive,
    {
        Series::DateALive
    }
}

impl Series {
    /// All series, in display order.
    pub open spec fn all() -> Seq<Series> {
        seq![
            Series::DateALive,
            Series::DateABullet,
            Series::Index,
            Series::Neptunia,
            Series::DanMachi,
            Series::Bofuri,
        ]
    }

    /// The title of the series as shown to the reader.
    pub open spec fn spec_label(self) -> Seq<char> {
        match self {
            Series::DateALive => "Date A Live"@,
            Series::DateABullet => "Date A Bullet"@,
            Series::Index => "Index"@,
            Series::Neptunia => "Neptunia"@,
            Series::DanMachi => "DanMachi"@,
            Series::Bofuri => "Bofuri"@,
        }
    }

    /// The identifier of the variant.
    pub open spec fn spec_variant_name(self) -> Seq<char> {
        match self {
            Series::DateALive => "DateALive"@,
            Series::DateABullet => "DateABullet"@,
            Series::Index => "Index"@,
            Series::Neptunia => "Neptunia"@,
            Series::DanMachi => "DanMachi"@,
            Series::Bofuri => "Bofuri"@,
        }
    }

    /// Whether the series is a crossover: every series but the two home ones.
    pub open spec fn spec_is_collab(&self) -> bool {
        *self != Series::DateALive && *self != Series::DateABullet
    }

    /// Whether the series is a crossover collaboration.
    #[verifier::when_used_as_spec(spec_is_collab)]
    pub fn is_collab(&self) -> (r: bool)
        ensures
            r == self.spec_is_collab(),
    {
        *self != Series::DateALive && *self != Series::DateABullet
    }

    /// All series, in display order.
    pub fn variants() -> (r: [Series; 6])
        ensures
            r@ == Series::all(),
    {
        let r = [
            Series::DateALive,
            Series::DateABullet,
            Series::Index,
            Series::Neptunia,
            Series::DanMachi,
            Series::Bofuri,
        ];
        assert(r@ =~= Series::all());
        r
    }

    /// The title of the series as shown to the reader.
    pub fn label(&self) -> (r: &'static str)
        ensures
            r@ == self.spec_label(),
    {
        match self {
            Series::DateALive => "Date A Live",
            Series::DateABullet => "Date A Bullet",
            Series::Index => "Index",
            Series::Neptunia => "Neptunia",
            Series::DanMachi => "DanMachi",
            Series::Bofuri => "Bofuri",
        }
    }

    /// The identifier of the variant.
    pub fn variant_name(&self) -> (r: &'static str)
        ensures
            r@ == self.spec_variant_name(),
    {
        match self {
            Series::DateALive => "DateALive",
            Series::DateABullet => "DateABullet",
            Series::Index => "Index",
            Series::Neptunia => "Neptunia",
            Series::DanMachi => "DanMachi",
            Series::Bofuri => "Bofuri",
        }
    }
}

/// A character's gender.
#[derive(Debug, Clone, Copy, PartialEq, Eq, Hash, Structural)]
pub enum Gender {
    Female,
    Male,
}

impl Default for Gender {
    fn default() -> (r: Self)
        ensures
            r == Gender::Female,
    {
        Gender::Female
    }
}

impl Gender {
    /// The gender as shown to the reader.
    pub open spec fn spec_label(self) -> Seq<char> {
        match self {
            Gender::Female => "female"@,
            Gender::Male => "male"@,
        }
    }

    /// The gender as shown to the reader.
    pub fn label(&self) -> (r: &'static str)
        ensures
            r@ == self.spec_label(),
    {
        match self {
            Gender::Female => "female",
            Gender::Male => "male",
        }
    }
}

/// How a series calls the alias of its characters.
#[derive(Debug, Clone, Copy, PartialEq, Eq, Hash, Structural)]
pub enum Codename {
    Codename,
    GoddessTitle,
    Username,
}

impl Default for Codename {
    fn default() -> (r: Self)
        ensures
            r == Codename::Codename,
    {
        Codename::Codename
    }
}

impl From<Series> for Codename {
    fn from(series: Series) -> (r: Self) {
        match series {
            Series::Neptunia => Codename::GoddessTitle,
            Series::Bofuri => Codename::Username,
            _ => Codename::Codename,
        }
    }
}

impl FromSpecImpl<Series> for Codename {
    open spec fn obeys_from_spec() -> bool {
        true
    }

    open spec fn from_spec(series: Series) -> Codename {
        match series {
            Series::Neptunia => Codename::GoddessTitle,
            Series::Bofuri => Codename::Username,
            _ => Codename::Codename,
        }
    }
}

impl Codename {
    /// The wording as shown to the reader.
    pub open spec fn spec_label(self) -> Seq<char> {
        match self {
            Codename::Codename => "Codename"@,
            Codename::GoddessTitle => "Goddess Title"@,
            Codename::Username => "Username"@,
        }
    }

    /// The wording as shown to the reader.
    pub fn label(&self) -> (r: &'static str)
        ensures
            r@ == self.spec_label(),
    {
        match self {
            Codename::Codename => "Codename",
            Codename::GoddessTitle => "Goddess Title",
            Codename::Username => "Username",
        }
    }
}

} // verus!
