//! What a character wields and wears: sephiras, angels and astral dresses.

use crate::models::spirit::Spirit;
use crate::models::{REPO_ROOT, WIKI_ROOT};
use crate::text::{opt_view, str_eq};
use crate::utils::{ordinal, ordinal_number};
use vstd::prelude::*;

verus! {

/// What a series calls the source of a character's power.
#[derive(Debug, Clone, Copy, PartialEq, Eq, Hash, Structural)]
pub enum SephiraWording {
    Sephira,
    Qlipha,
    Land,
}

impl Default for SephiraWording {
    fn default() -> (r: Self)
        ensures
            r == SephiraWording::Sephira,
    {
        SephiraWording::Sephira
    }
}

impl SephiraWording {
    /// The wording as shown to the reader.
    pub open spec fn spec_label(self) -> Seq<char> {
        match self {
            SephiraWording::Sephira => "Sephira"@,
            SephiraWording::Qlipha => "Qlipha"@,
            SephiraWording::Land => "Land"@,
        }
    }

    /// The wording as shown to the reader.
    pub fn label(&self) -> (r: &'static str)
        ensures
            r@ == self.spec_label(),
    {
        match self {
            SephiraWording::Sephira => "Sephira",
            SephiraWording::Qlipha => "Qlipha",
            SephiraWording::Land => "Land",
        }
    }
}

/// The address of the portrait that the asset repository files under
/// `code`.
pub open spec fn portrait(code: Seq<char>) -> Seq<char> {
    REPO_ROOT@ + "/icon/battleDialog/btlPortrait_"@ + code + ".png"@
}

/// The portrait code of the guardian of the sephira called `name`.
pub open spec fn sephira_guardian(name: Seq<char>) -> Option<Seq<char>> {
    if name == "Chesed"@ {
        Some("40210_D1"@)
    } else if name == "Geburah"@ {
        Some("40105_weixiao"@)
    } else if name == "Tiphareth"@ {
        Some("40106_weixiao"@)
    } else {
        None
    }
}

/// The portrait code of the guardian of the qlipha that mirrors the
/// sephira called `name`.
pub open spec fn qlipha_guardian(name: Seq<char>) -> Option<Seq<char>> {
    if name == "Kether"@ {
        Some("40201_a1"@)
    } else if name == "Chokhmah"@ {
        Some("40202_a1"@)
    } else if name == "Binah"@ {
        Some("40203_a1"@)
    } else if name == "Chesed"@ {
        Some("40209_c1"@)
    } else if name == "Geburah"@ {
        Some("31001L_d1"@)
    } else if name == "Tiphareth"@ {
        Some("31101L_a1"@)
    } else {
        None
    }
}

/// The portrait code of the guardian of the land called `name`.
pub open spec fn land_guardian(name: Seq<char>) -> Option<Seq<char>> {
    if name == "Planeptune"@ {
        Some("40214_b1"@)
    } else if name == "Lastation"@ {
        Some("40220_weixiao"@)
    } else if name == "Lowee"@ {
        Some("40216_a1"@)
    } else if name == "Leanbox"@ {
        Some("40218_daiji"@)
    } else {
        None
    }
}

fn sephira_guardian_code(name: &str) -> (r: Option<&'static str>)
    ensures
        match r {
            Some(code) => sephira_guardian(name@) == Some(code@),
            None => sephira_guardian(name@) is None,
        },
{
    if str_eq(name, "Chesed") {
        Some("40210_D1")
    } else if str_eq(name, "Geburah") {
        Some("40105_weixiao")
    } else if str_eq(name, "Tiphareth") {
        Some("40106_weixiao")
    } else {
        None
    }
}

fn qlipha_guardian_code(name: &str) -> (r: Option<&'static str>)
    ensures
        match r {
            Some(code) => qlipha_guardian(name@) == Some(code@),
            None => qlipha_guardian(name@) is None,
        },
{
    if str_eq(name, "Kether") {
        Some("40201_a1")
    } else if str_eq(name, "Chokhmah") {
        Some("40202_a1")
    } else if str_eq(name, "Binah") {
        Some("40203_a1")
    } else if str_eq(name, "Chesed") {
        Some("40209_c1")
    } else if str_eq(name, "Geburah") {
        Some("31001L_d1")
    } else if str_eq(name, "Tiphareth") {
        Some("31101L_a1")
    } else {
        None
    }
}

fn land_guardian_code(name: &str) -> (r: Option<&'static str>)
    ensures
        match r {
            Some(code) => land_guardian(name@) == Some(code@),
            None => land_guardian(name@) is None,
        },
{
    if str_eq(name, "Planeptune") {
        Some("40214_b1")
    } else if str_eq(name, "Lastation") {
        Some("40220_weixiao")
    } else if str_eq(name, "Lowee") {
        Some("40216_a1")
    } else if str_eq(name, "Leanbox") {
        Some("40218_daiji")
    } else {
        None
    }
}

fn portrait_address(code: &str) -> (r: String)
    ensures
        r@ == portrait(code@),
{
    let mut r = String::from_str(REPO_ROOT);
    r.append("/icon/battleDialog/btlPortrait_");
    r.append(code);
    r.append(".png");
    r
}

/// The source of a character's power. What `rest0` and `rest1` hold goes by
/// the wording: for a sephira, `rest0` is the page to link to; for a qlipha,
/// `rest0` is the sephira it mirrors and `rest1` the page; for a land,
/// `rest0` is the folder of its logo.
#[derive(Debug, Clone, PartialEq, Eq, Hash)]
pub struct Sephira {
    pub wording: SephiraWording,
    pub name: String,
    pub subtitle: Option<String>,
    pub rest0: Option<String>,
    pub rest1: Option<String>,
}

impl Sephira {
    /// The page that the attribute links to.
    pub open spec fn spec_link(&self) -> Seq<char> {
        match self.wording {
            SephiraWording::Sephira => WIKI_ROOT@ + "/"@ + match self.rest0 {
                Some(page) => page@,
                None => self.name@,
            },
            SephiraWording::Qlipha => WIKI_ROOT@ + "/"@ + match self.rest1 {
                Some(page) => page@,
                None => self.name@,
            },
            SephiraWording::Land => "https://neptunia.fandom.com/wiki/"@ + self.name@,
        }
    }

    /// The address of the attribute's icon, where it has one.
    pub open spec fn spec_icon(&self) -> Option<Seq<char>> {
        match self.wording {
            SephiraWording::Sephira => Some(
                REPO_ROOT@ + "/icon/equipType/"@ + self.name@ + ".png"@,
            ),
            SephiraWording::Qlipha => match self.rest0 {
                Some(mirrored) => Some(REPO_ROOT@ + "/icon/equipType/"@ + mirrored@ + ".png"@),
                None => None,
            },
            SephiraWording::Land => match self.rest0 {
                Some(folder) => Some(
                    "https://static.wikia.nocookie.net/neptunia/images/"@ + folder@ + "/"@
                        + self.name@ + "_Logo.png"@,
                ),
                None => None,
            },
        }
    }

    /// The address of the portrait of the attribute's guardian, where one is
    /// known.
    pub open spec fn spec_guardian(&self) -> Option<Seq<char>> {
        let code = match self.wording {
            SephiraWording::Sephira => sephira_guardian(self.name@),
            SephiraWording::Qlipha => match self.rest0 {
                Some(mirrored) => qlipha_guardian(mirrored@),
                None => None,
            },
            SephiraWording::Land => land_guardian(self.name@),
        };
        match code {
            Some(code) => Some(portrait(code)),
            None => None,
        }
    }

    /// The wording of the attribute.
    pub fn wording(&self) -> (r: &SephiraWording)
        ensures
            *r == self.wording,
    {
        &self.wording
    }

    /// The name of the attribute.
    pub fn name(&self) -> (r: &str)
        ensures
            r@ == self.name@,
    {
        self.name.as_str()
    }

    /// What the name means, where that is known.
    pub fn subtitle(&self) -> (r: Option<&str>)
        ensures
            match r {
                Some(text) => self.subtitle matches Some(s) && text@ == s@,
                None => self.subtitle is None,
            },
    {
        match &self.subtitle {
            Some(s) => Some(s.as_str()),
            None => None,
        }
    }

    /// The page that the attribute links to.
    pub fn link(&self) -> (r: String)
        ensures
            r@ == self.spec_link(),
    {
        match self.wording {
            SephiraWording::Sephira => {
                let mut r = String::from_str(WIKI_ROOT);
                r.append("/");
                match &self.rest0 {
                    Some(page) => r.append(page.as_str()),
                    None => r.append(self.name.as_str()),
                }
                r
            },
            SephiraWording::Qlipha => {
                let mut r = String::from_str(WIKI_ROOT);
                r.append("/");
                match &self.rest1 {
                    Some(page) => r.append(page.as_str()),
                    None => r.append(self.name.as_str()),
                }
                r
            },
            SephiraWording::Land => {
                let mut r = String::from_str("https://neptunia.fandom.com/wiki/");
                r.append(self.name.as_str());
                r
            },
        }
    }

    /// The address of the attribute's icon, where it has one.
    pub fn icon(&self) -> (r: Option<String>)
        ensures
            opt_view(r) == self.spec_icon(),
    {
        match self.wording {
            SephiraWording::Sephira => {
                let mut r = String::from_str(REPO_ROOT);
                r.append("/icon/equipType/");
                r.append(self.name.as_str());
                r.append(".png");
                Some(r)
            },
            SephiraWording::Qlipha => match &self.rest0 {
                Some(mirrored) => {
                    let mut r = String::from_str(REPO_ROOT);
                    r.append("/icon/equipType/");
                    r.append(mirrored.as_str());
                    r.append(".png");
                    Some(r)
                },
                None => None,
            },
            SephiraWording::Land => match &self.rest0 {
                Some(folder) => {
                    let mut r = String::from_str(
                        "https://static.wikia.nocookie.net/neptunia/images/",
                    );
                    r.append(folder.as_str());
                    r.append("/");
                    r.append(self.name.as_str());
                    r.append("_Logo.png");
                    Some(r)
                },
                None => None,
            },
        }
    }

    /// The address of the portrait of the attribute's guardian, where one is
    /// known.
    pub fn guardian(&self) -> (r: Option<String>)
        ensures
            opt_view(r) == self.spec_guardian(),
    {
        let code = match self.wording {
            SephiraWording::Sephira => sephira_guardian_code(self.name.as_str()),
            SephiraWording::Qlipha => match &self.rest0 {
                Some(mirrored) => qlipha_guardian_code(mirrored.as_str()),
                None => None,
            },
            SephiraWording::Land => land_guardian_code(self.name.as_str()),
        };
        match code {
            Some(code) => Some(portrait_address(code)),
            None => None,
        }
    }
}

/// What a series calls a character's weapon.
#[derive(Debug, Clone, Copy, PartialEq, Eq, Hash, Structural)]
pub enum AngelWording {
    Angel,
    Weapon,
    Demon,
    UnsignedAngel,
    EsperPower,
}

impl AngelWording {
    /// The wording as shown to the reader.
    pub open spec fn spec_label(self) -> Seq<char> {
        match self {
            AngelWording::Angel => "Angel"@,
            AngelWording::Weapon => "Weapon"@,
            AngelWording::Demon => "Demon"@,
            AngelWording::UnsignedAngel => "Unsigned Angel"@,
            AngelWording::EsperPower => "Esper Power"@,
        }
    }

    /// The wording as shown to the reader.
    pub fn label(&self) -> (r: &'static str)
        ensures
            r@ == self.spec_label(),
    {
        match self {
            AngelWording::Angel => "Angel",
            AngelWording::Weapon => "Weapon",
            AngelWording::Demon => "Demon",
            AngelWording::UnsignedAngel => "Unsigned Angel",
            AngelWording::EsperPower => "Esper Power",
        }
    }
}

/// A character's weapon; `rest0` is the page to link to, where it differs
/// from the name.
#[derive(Debug, Clone, PartialEq, Eq, Hash)]
pub struct Angel {
    pub wording: AngelWording,
    pub name: String,
    pub subtitle: Option<String>,
    pub rest0: Option<String>,
}

impl Angel {
    /// The page of the weapon: `rest0` where it is given and not empty,
    /// else the name.
    pub open spec fn spec_page(&self) -> Seq<char> {
        match self.rest0 {
            Some(page) if page@.len() > 0 => page@,
            _ => self.name@,
        }
    }

    /// The page that the weapon links to; only angels and demons have one.
    pub open spec fn spec_link(&self) -> Option<Seq<char>> {
        if self.wording == AngelWording::Angel || self.wording == AngelWording::Demon {
            Some(WIKI_ROOT@ + "/"@ + self.spec_page())
        } else {
            None
        }
    }

    /// The wording of the attribute.
    pub fn wording(&self) -> (r: &AngelWording)
        ensures
            *r == self.wording,
    {
        &self.wording
    }

    /// The name of the attribute.
    pub fn name(&self) -> (r: &str)
        ensures
            r@ == self.name@,
    {
        self.name.as_str()
    }

    /// What the name means, where that is known.
    pub fn subtitle(&self) -> (r: Option<&str>)
        ensures
            match r {
                Some(text) => self.subtitle matches Some(s) && text@ == s@,
                None => self.subtitle is None,
            },
    {
        match &self.subtitle {
            Some(s) => Some(s.as_str()),
            None => None,
        }
    }

    /// The page that the weapon links to; only angels and demons have one.
    pub fn link(&self) -> (r: Option<String>)
        ensures
            opt_view(r) == self.spec_link(),
    {
        if self.wording == AngelWording::Angel || self.wording == AngelWording::Demon {
            let mut r = String::from_str(WIKI_ROOT);
            r.append("/");
            match &self.rest0 {
                Some(page) => {
                    if page.as_str().is_empty() {
                        r.append(self.name.as_str());
                    } else {
                        r.append(page.as_str());
                    }
                },
                None => r.append(self.name.as_str()),
            }
            Some(r)
        } else {
            None
        }
    }
}

/// What a series calls a character's armour.
#[derive(Debug, Clone, Copy, PartialEq, Eq, Hash, Structural)]
pub enum AstralDressWording {
    AstralDress,
    CrUnit,
}

impl AstralDressWording {
    /// The wording as shown to the reader.
    pub open spec fn spec_label(self) -> Seq<char> {
        match self {
            AstralDressWording::AstralDress => "Astral Dress"@,
            AstralDressWording::CrUnit => "CR-Unit"@,
        }
    }

    /// The wording as shown to the reader.
    pub fn label(&self) -> (r: &'static str)
        ensures
            r@ == self.spec_label(),
    {
        match self {
            AstralDressWording::AstralDress => "Astral Dress",
            AstralDressWording::CrUnit => "CR-Unit",
        }
    }
}

/// The number of an astral dress: a rank in a series, or a word for it.
#[derive(Debug, Clone, PartialEq, Eq, Hash)]
pub enum DressNumber {
    Rank(u16),
    Word(String),
}

impl DressNumber {
    /// The number as shown to the reader: the ordinal of a rank, a word as
    /// it is.
    pub open spec fn spec_text(&self) -> Seq<char> {
        match self {
            DressNumber::Rank(n) => ordinal(*n as nat),
            DressNumber::Word(word) => word@,
        }
    }

    /// The number as shown to the reader.
    pub fn text(&self) -> (r: String)
        ensures
            r@ == self.spec_text(),
    {
        match self {
            DressNumber::Rank(n) => ordinal_number(*n),
            DressNumber::Word(word) => word.clone(),
        }
    }
}

/// What a dress of the form `form` is called.
pub open spec fn dress_title(form: Seq<char>) -> Seq<char> {
    if form == "Pseudo-Spirit"@ {
        "Incantation Spirit Dress"@
    } else if form == "Quasi-Spirit"@ {
        "Stranded Spirit Dress"@
    } else {
        "Spirit Dress of God's Authority"@
    }
}

/// A character's armour.
#[derive(Debug, Clone, PartialEq, Eq, Hash)]
pub struct AstralDress {
    pub wording: AstralDressWording,
    pub name: String,
    pub number: Option<DressNumber>,
}

impl AstralDress {
    /// The title and number of the dress as worn by `spirit`, where the
    /// dress has a number.
    pub open spec fn spec_subtitle(&self, spirit: &Spirit) -> Option<Seq<char>> {
        match self.number {
            Some(number) => Some(dress_title(spirit.form@) + ", "@ + number.spec_text()),
            None => None,
        }
    }

    /// The page that the dress links to: astral dresses have one, but for
    /// those of the form `Quasi-Spirit`.
    pub open spec fn spec_link(&self, spirit: &Spirit) -> Option<Seq<char>> {
        if self.wording == AstralDressWording::AstralDress && spirit.form@ != "Quasi-Spirit"@ {
            Some(WIKI_ROOT@ + "/Names_of_God_in_Judaism"@)
        } else {
            None
        }
    }

    /// The wording of the attribute.
    pub fn wording(&self) -> (r: &AstralDressWording)
        ensures
            *r == self.wording,
    {
        &self.wording
    }

    /// The name of the attribute.
    pub fn name(&self) -> (r: &str)
        ensures
            r@ == self.name@,
    {
        self.name.as_str()
    }

    /// The title and number of the dress as worn by `spirit`, where the
    /// dress has a number.
    pub fn subtitle(&self, spirit: &Spirit) -> (r: Option<String>)
        ensures
            opt_view(r) == self.spec_subtitle(spirit),
    {
        match &self.number {
            Some(number) => {
                let form = spirit.form.as_str();
                let title = if str_eq(form, "Pseudo-Spirit") {
                    "Incantation Spirit Dress"
                } else if str_eq(form, "Quasi-Spirit") {
                    "Stranded Spirit Dress"
                } else {
                    "Spirit Dress of God's Authority"
                };
                let mut r = String::from_str(title);
                r.append(", ");
                let n = number.text();
                r.append(n.as_str());
                Some(r)
            },
            None => None,
        }
    }

    /// The page that the dress links to, where it has one.
    pub fn link(&self, spirit: &Spirit) -> (r: Option<String>)
        ensures
            opt_view(r) == self.spec_link(spirit),
    {
        if self.wording == AstralDressWording::AstralDress && !str_eq(
            spirit.form.as_str(),
            "Quasi-Spirit",
        ) {
            let mut r = String::from_str(WIKI_ROOT);
            r.append("/Names_of_God_in_Judaism");
            Some(r)
        } else {
            None
        }
    }
}

} // verus!
