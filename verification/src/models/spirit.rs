//! The character record.

use crate::models::attributes::{Angel, AstralDress, Sephira};
use crate::models::birthdate::Birthdate;
use crate::models::class::Class;
use crate::models::medium::{Element, Medium};
use crate::models::series::{Codename, Gender, Series};
use crate::models::{FANDOM_ROOT, REPO_ROOT};
use crate::pattern::{is_match, matched, replace_all, replaced_all, PatternError};
use crate::text::opt_view;
use crate::utils::CharFlags;
use vstd::prelude::*;
use vstd::std_specs::convert::FromSpec;

verus! {

/// The pattern of a parenthesis and what it holds.
pub const PARENTHESIS: &'static str = "\\((.+)\\)";

/// What a parenthesis is replaced by: an underscore and what it held.
pub const UNDERSCORED: &'static str = "_$1";

/// The pattern of one character that can stand in no word.
pub const NOT_WORD: &'static str = "\\W";

/// The pattern of a text made of digits alone.
pub const DIGITS: &'static str = "^\\d+$";

/// The form of a character as it stands in an address: each parenthesis
/// replaced by an underscore and what it held, then every character that can
/// stand in no word removed. `None` where the pattern engine turns a pattern
/// down.
pub open spec fn form_slug(form: Seq<char>) -> Option<Seq<char>> {
    match replaced_all(PARENTHESIS@, form, UNDERSCORED@) {
        Some(underscored) => replaced_all(NOT_WORD@, underscored, ""@),
        None => None,
    }
}

/// The address of the picture filed under `id`: in the asset repository
/// where the id is a number, else on the wiki's image host.
pub open spec fn picture(id: Seq<char>, numeric: bool) -> Seq<char> {
    if numeric {
        REPO_ROOT@ + "/icon/teampic/"@ + id + ".png"@
    } else {
        "https://static.wikia.nocookie.net/date-a-live/images/"@ + id + ".png"@
    }
}

/// The address of the picture filed under `id`, by whether the id is a
/// number.
pub fn picture_address(id: &str, numeric: bool) -> (r: String)
    ensures
        r@ == picture(id@, numeric),
{
    if numeric {
        let mut r = String::from_str(REPO_ROOT);
        r.append("/icon/teampic/");
        r.append(id);
        r.append(".png");
        r
    } else {
        let mut r = String::from_str("https://static.wikia.nocookie.net/date-a-live/images/");
        r.append(id);
        r.append(".png");
        r
    }
}

/// A character in one of its forms. The pair of first and last name says
/// who the character is; the form tells its variants apart.
#[derive(Debug, Clone, PartialEq, Eq)]
pub struct Spirit {
    pub series: Option<Series>,
    pub firstname: String,
    pub lastname: Option<String>,
    pub gender: Option<Gender>,
    pub codename: Option<String>,
    pub form: String,
    pub media: CharFlags<Medium>,
    pub icon_id: Option<String>,
    pub image_id: Option<String>,
    pub sephiras: Vec<Sephira>,
    pub angels: Vec<Angel>,
    pub astraldresses: Vec<AstralDress>,
    pub birthdate: Option<Birthdate>,
    pub height: Option<u8>,
    pub weight: Option<u8>,
    pub bust: Option<u8>,
    pub waist: Option<u8>,
    pub hips: Option<u8>,
    pub class: Option<Class>,
    pub spacequake_class: Option<Class>,
    pub angel_class: Option<Class>,
    pub astraldress_class: Option<Class>,
    pub strength: Option<u16>,
    pub consistency: Option<u16>,
    pub spirit_power: Option<u16>,
    pub agility: Option<u16>,
    pub intelligence: Option<u16>,
    pub rank: Option<Class>,
    pub attack: Option<u8>,
    pub combo: Option<u8>,
    pub support: Option<u8>,
    pub defense: Option<u8>,
    pub control: Option<u8>,
    pub damage: Option<u8>,
    pub elements: CharFlags<Element>,
    pub wiki_link: Option<String>,
    pub spoiler: Option<bool>,
}

impl Spirit {
    /// The series of the character; the main series where none is given.
    pub open spec fn spec_series(&self) -> Series {
        match self.series {
            Some(series) => series,
            None => Series::DateALive,
        }
    }

    /// The gender of the character; female where none is given.
    pub open spec fn spec_gender(&self) -> Gender {
        match self.gender {
            Some(gender) => gender,
            None => Gender::Female,
        }
    }

    /// Whether the record gives away the end of the story; it does not where
    /// nothing is said.
    pub open spec fn spec_spoiler(&self) -> bool {
        match self.spoiler {
            Some(spoiler) => spoiler,
            None => false,
        }
    }

    /// Who the character is: its first name and, where it has one, its last
    /// name.
    pub open spec fn identity(&self) -> (Seq<char>, Option<Seq<char>>) {
        (self.firstname@, opt_view(self.lastname))
    }

    /// The label that reads the record out: its form, then its first name.
    pub open spec fn spec_a11y(&self) -> Seq<char> {
        self.form@ + " "@ + self.firstname@
    }

    /// The address of the character's face, where the record files one.
    pub open spec fn spec_icon(&self) -> Option<Seq<char>> {
        match self.icon_id {
            Some(id) => Some(REPO_ROOT@ + "/icon/hero/face/"@ + id@ + ".png"@),
            None => None,
        }
    }

    /// The address of the character's full picture: by the picture's id
    /// where the record has one, else by the id of the face.
    pub open spec fn spec_image(&self) -> Result<Option<Seq<char>>, PatternError> {
        match self.image_id {
            Some(id) => match matched(DIGITS@, id@) {
                Some(numeric) => Ok(Some(picture(id@, numeric))),
                None => Err(PatternError),
            },
            None => match self.icon_id {
                Some(id) => Ok(Some(picture(id@, true))),
                None => Ok(None),
            },
        }
    }

    /// The address of the character's page on the wiki, where the record
    /// names one.
    pub open spec fn spec_wiki_link(&self) -> Option<Seq<char>> {
        match self.wiki_link {
            Some(page) => Some(FANDOM_ROOT@ + "/"@ + page@),
            None => None,
        }
    }

    /// A record of that first name and form, with nothing else known.
    pub fn new(firstname: String, form: String) -> (r: Spirit)
        ensures
            r.firstname == firstname,
            r.form == form,
            r.series is None,
            r.lastname is None,
            r.gender is None,
            r.codename is None,
            r.media@ == Set::<Medium>::empty(),
            r.icon_id is None,
            r.image_id is None,
            r.sephiras@.len() == 0,
            r.angels@.len() == 0,
            r.astraldresses@.len() == 0,
            r.birthdate is None,
            r.height is None && r.weight is None,
            r.bust is None && r.waist is None && r.hips is None,
            r.class is None && r.spacequake_class is None,
            r.angel_class is None && r.astraldress_class is None,
            r.strength is None && r.consistency is None && r.spirit_power is None,
            r.agility is None && r.intelligence is None,
            r.rank is None,
            r.attack is None && r.combo is None && r.support is None,
            r.defense is None && r.control is None && r.damage is None,
            r.elements@ == Set::<Element>::empty(),
            r.wiki_link is None,
            r.spoiler is None,
    {
        Spirit {
            series: None,
            firstname,
            lastname: None,
            gender: None,
            codename: None,
            form,
            media: CharFlags::empty(),
            icon_id: None,
            image_id: None,
            sephiras: Vec::new(),
            angels: Vec::new(),
            astraldresses: Vec::new(),
            birthdate: None,
            height: None,
            weight: None,
            bust: None,
            waist: None,
            hips: None,
            class: None,
            spacequake_class: None,
            angel_class: None,
            astraldress_class: None,
            strength: None,
            consistency: None,
            spirit_power: None,
            agility: None,
            intelligence: None,
            rank: None,
            attack: None,
            combo: None,
            support: None,
            defense: None,
            control: None,
            damage: None,
            elements: CharFlags::empty(),
            wiki_link: None,
            spoiler: None,
        }
    }

    /// The series of the character; the main series where none is given.
    #[verifier::when_used_as_spec(spec_series)]
    pub fn series(&self) -> (r: Series)
        ensures
            r == self.spec_series(),
    {
        match self.series {
            Some(series) => series,
            None => Series::default(),
        }
    }

    /// The form of the character as it stands in an address.
    pub fn form_url(&self) -> (r: Result<String, PatternError>)
        ensures
            match form_slug(self.form@) {
                Some(slug) => r matches Ok(s) && s@ == slug,
                None => r is Err,
            },
    {
        match replace_all(PARENTHESIS, self.form.as_str(), UNDERSCORED) {
            Some(underscored) => match replace_all(NOT_WORD, underscored.as_str(), "") {
                Some(slug) => Ok(slug),
                None => Err(PatternError),
            },
            None => Err(PatternError),
        }
    }

    /// The gender of the character; female where none is given.
    #[verifier::when_used_as_spec(spec_gender)]
    pub fn gender(&self) -> (r: Gender)
        ensures
            r == self.spec_gender(),
    {
        match self.gender {
            Some(gender) => gender,
            None => Gender::default(),
        }
    }

    /// The label that reads the record out: its form, then its first name.
    pub fn a11y(&self) -> (r: String)
        ensures
            r@ == self.spec_a11y(),
    {
        let mut r = self.form.clone();
        r.append(" ");
        r.append(self.firstname.as_str());
        r
    }

    /// The alias of the character, with what its series calls an alias.
    pub fn codename(&self) -> (r: Option<(Codename, &str)>)
        ensures
            match r {
                Some((wording, alias)) => {
                    &&& self.codename matches Some(c)
                    &&& alias@ == c@
                    &&& wording == Codename::from_spec(self.spec_series())
                },
                None => self.codename is None,
            },
    {
        match &self.codename {
            Some(alias) => Some((Codename::from(self.series()), alias.as_str())),
            None => None,
        }
    }

    /// The address of the character's face, where the record files one.
    pub fn icon(&self) -> (r: Option<String>)
        ensures
            opt_view(r) == self.spec_icon(),
    {
        match &self.icon_id {
            Some(id) => {
                let mut r = String::from_str(REPO_ROOT);
                r.append("/icon/hero/face/");
                r.append(id.as_str());
                r.append(".png");
                Some(r)
            },
            None => None,
        }
    }

    /// The address of the character's full picture, where the record files
    /// one.
    pub fn image(&self) -> (r: Result<Option<String>, PatternError>)
        ensures
            match self.spec_image() {
                Ok(address) => r matches Ok(a) && opt_view(a) == address,
                Err(_) => r is Err,
            },
    {
        match &self.image_id {
            Some(id) => match is_match(DIGITS, id.as_str()) {
                Some(numeric) => Ok(Some(picture_address(id.as_str(), numeric))),
                None => Err(PatternError),
            },
            None => match &self.icon_id {
                Some(id) => Ok(Some(picture_address(id.as_str(), true))),
                None => Ok(None),
            },
        }
    }

    /// The address of the character's page on the wiki, where the record
    /// names one.
    pub fn wiki_link(&self) -> (r: Option<String>)
        ensures
            opt_view(r) == self.spec_wiki_link(),
    {
        match &self.wiki_link {
            Some(page) => {
                let mut r = String::from_str(FANDOM_ROOT);
                r.append("/");
                r.append(page.as_str());
                Some(r)
            },
            None => None,
        }
    }

    /// Whether the record gives away the end of the story.
    #[verifier::when_used_as_spec(spec_spoiler)]
    pub fn spoiler(&self) -> (r: bool)
        ensures
            r == self.spec_spoiler(),
    {
        match self.spoiler {
            Some(spoiler) => spoiler,
            None => false,
        }
    }
}

} // verus!
