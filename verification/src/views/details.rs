//! The detail page of a character: its header and the sections of its
//! body, each shown by what the record holds.

use crate::models::{
    Angel, AstralDress, Codename, Gender, Medium, Sephira, Spirit,
};
use crate::pattern::PatternError;
use crate::text::{decimal, occurs_in, opt_view, push_decimal, str_contains};
use crate::utils::is_listing;
use vstd::prelude::*;
use vstd::std_specs::convert::FromSpec;

verus! {

/// The header of the detail page.
#[derive(Debug, Clone, PartialEq, Eq)]
pub struct Header {
    pub form: String,
    pub firstname: String,
    /// The last name; empty where the character has none.
    pub lastname: String,
    /// The address of the full picture; empty where the record files none.
    pub image: String,
    /// What stands for the picture where it cannot be shown.
    pub alt: String,
}

/// Whether `header` is the header of the detail page of `spirit`.
pub open spec fn is_header(header: Header, spirit: Spirit) -> bool {
    &&& header.form@ == spirit.form@
    &&& header.firstname@ == spirit.firstname@
    &&& header.lastname@ == match spirit.lastname {
        Some(lastname) => lastname@,
        None => Seq::empty(),
    }
    &&& spirit.spec_image() matches Ok(image)
    &&& header.image@ == match image {
        Some(address) => address,
        None => Seq::empty(),
    }
    &&& header.alt@ == spirit.spec_a11y() + " full body"@
}

/// The header of the detail page of `spirit`. Fails only where the pattern
/// engine cannot tell what kind of picture the record files.
pub fn header(spirit: &Spirit) -> (r: Result<Header, PatternError>)
    ensures
        match r {
            Ok(header) => is_header(header, *spirit),
            Err(_) => spirit.spec_image() is Err,
        },
{
    let image = match spirit.image() {
        Ok(Some(address)) => address,
        Ok(None) => String::new(),
        Err(error) => {
            return Err(error);
        },
    };
    let lastname = match &spirit.lastname {
        Some(lastname) => lastname.clone(),
        None => String::new(),
    };
    let mut alt = spirit.a11y();
    alt.append(" full body");
    Ok(
        Header {
            form: spirit.form.clone(),
            firstname: spirit.firstname.clone(),
            lastname,
            image,
            alt,
        },
    )
}

/// Which of the optional parts of the body are shown.
#[derive(Debug, Clone, PartialEq, Eq)]
pub struct Sections {
    /// The address of the wiki page to link to, where the record names one.
    pub wiki_link: Option<String>,
    /// Whether the section of lore statistics is shown.
    pub lore_stats: bool,
    /// Whether the section of game statistics is shown.
    pub gacha_stats: bool,
}

/// Whether the record is that of a spirit of the lore: it appears in the
/// main novels and its form does not name a wizard.
pub open spec fn is_lore_spirit(spirit: Spirit) -> bool {
    spirit.media@.contains(Medium::MainLightNovels) && !occurs_in(spirit.form@, "Wizard"@)
}

/// Which of the optional parts of the body of the detail page of `spirit`
/// are shown.
pub fn sections(spirit: &Spirit) -> (r: Sections)
    ensures
        opt_view(r.wiki_link) == spirit.spec_wiki_link(),
        r.lore_stats == is_lore_spirit(*spirit),
        r.gacha_stats == spirit.media@.contains(Medium::Gacha),
{
    Sections {
        wiki_link: spirit.wiki_link(),
        lore_stats: spirit.media.contains(Medium::MainLightNovels) && !str_contains(
            spirit.form.as_str(),
            "Wizard",
        ),
        gacha_stats: spirit.media.contains(Medium::Gacha),
    }
}

/// The badge of one medium in which a character appears.
#[derive(Debug, Clone, PartialEq, Eq)]
pub struct MediaBadge {
    /// The class of the badge.
    pub class: &'static str,
    /// The text of the badge.
    pub label: &'static str,
    /// What a pointer over the badge shows.
    pub title: String,
}

/// Whether `badge` is the badge of `medium`.
pub open spec fn is_media_badge(badge: MediaBadge, medium: Medium) -> bool {
    &&& badge.class@ == medium.spec_variant_name()
    &&& badge.label@ == medium.spec_label()
    &&& badge.title@ == "This character appears in the "@ + medium.spec_label()
}

/// The badge of `medium`.
pub fn media_badge(medium: Medium) -> (r: MediaBadge)
    ensures
        is_media_badge(r, medium),
{
    let label = medium.label();
    let mut title = String::from_str("This character appears in the ");
    title.append(label);
    MediaBadge { class: medium.variant_name(), label, title }
}

/// The badges of the media in which `spirit` appears, in the order of the
/// media.
pub fn media_badges(spirit: &Spirit) -> (r: Vec<MediaBadge>)
    ensures
        exists|media: Seq<Medium>|
            {
                &&& #[trigger] is_listing(media, spirit.media@)
                &&& r.len() == media.len()
                &&& forall|k: int| 0 <= k < r.len() ==> is_media_badge(#[trigger] r[k], media[k])
            },
{
    let media = spirit.media.to_vec();
    let mut badges: Vec<MediaBadge> = Vec::new();
    let mut k: usize = 0;
    while k < media.len()
        invariant
            k <= media.len(),
            badges.len() == k,
            forall|l: int| 0 <= l < k ==> is_media_badge(#[trigger] badges[l], media[l]),
        decreases media.len() - k,
    {
        badges.push(media_badge(media[k]));
        k += 1;
    }
    proof {
        assert(is_listing(media@, spirit.media@));
    }
    badges
}

/// What unfolds under the row of a sephira: its icon and its guardian.
#[derive(Debug, Clone, PartialEq, Eq)]
pub struct Emblems {
    pub icon: Option<String>,
    pub guardian: Option<String>,
}

/// One row of the table of attributes.
#[derive(Debug, Clone, PartialEq, Eq)]
pub struct AttributeRow {
    /// The heading of the row: what the attribute is called.
    pub wording: &'static str,
    /// The name of the attribute.
    pub name: String,
    /// Where the name links to, where it links at all.
    pub link: Option<String>,
    /// What follows the name after a dash, where anything does.
    pub subtitle: Option<String>,
    /// What unfolds under the row, where it can be unfolded.
    pub emblems: Option<Emblems>,
}

/// Whether `row` is the row of the sephira `sephira`.
pub open spec fn is_sephira_row(row: AttributeRow, sephira: Sephira) -> bool {
    &&& row.wording@ == sephira.wording.spec_label()
    &&& row.name@ == sephira.name@
    &&& opt_view(row.link) == Some(sephira.spec_link())
    &&& opt_view(row.subtitle) == opt_view(sephira.subtitle)
    &&& row.emblems matches Some(emblems)
    &&& opt_view(emblems.icon) == sephira.spec_icon()
    &&& opt_view(emblems.guardian) == sephira.spec_guardian()
}

/// Whether `row` is the row of the angel `angel`.
pub open spec fn is_angel_row(row: AttributeRow, angel: Angel) -> bool {
    &&& row.wording@ == angel.wording.spec_label()
    &&& row.name@ == angel.name@
    &&& opt_view(row.link) == angel.spec_link()
    &&& opt_view(row.subtitle) == opt_view(angel.subtitle)
    &&& row.emblems is None
}

/// Whether `row` is the row of the astral dress `dress` as worn by
/// `spirit`.
pub open spec fn is_dress_row(row: AttributeRow, dress: AstralDress, spirit: Spirit) -> bool {
    &&& row.wording@ == dress.wording.spec_label()
    &&& row.name@ == dress.name@
    &&& opt_view(row.link) == dress.spec_link(&spirit)
    &&& opt_view(row.subtitle) == dress.spec_subtitle(&spirit)
    &&& row.emblems is None
}

fn clone_opt(text: &Option<String>) -> (r: Option<String>)
    ensures
        opt_view(r) == opt_view(*text),
{
    match text {
        Some(text) => Some(text.clone()),
        None => None,
    }
}

/// The row of the sephira `sephira`.
pub fn sephira_row(sephira: &Sephira) -> (r: AttributeRow)
    ensures
        is_sephira_row(r, *sephira),
{
    AttributeRow {
        wording: sephira.wording.label(),
        name: sephira.name.clone(),
        link: Some(sephira.link()),
        subtitle: clone_opt(&sephira.subtitle),
        emblems: Some(Emblems { icon: sephira.icon(), guardian: sephira.guardian() }),
    }
}

/// The row of the angel `angel`.
pub fn angel_row(angel: &Angel) -> (r: AttributeRow)
    ensures
        is_angel_row(r, *angel),
{
    AttributeRow {
        wording: angel.wording.label(),
        name: angel.name.clone(),
        link: angel.link(),
        subtitle: clone_opt(&angel.subtitle),
        emblems: None,
    }
}

/// The row of the astral dress `dress` as worn by `spirit`.
pub fn dress_row(dress: &AstralDress, spirit: &Spirit) -> (r: AttributeRow)
    ensures
        is_dress_row(r, *dress, *spirit),
{
    AttributeRow {
        wording: dress.wording.label(),
        name: dress.name.clone(),
        link: dress.link(spirit),
        subtitle: dress.subtitle(spirit),
        emblems: None,
    }
}

/// The table of attributes of a character.
#[derive(Debug, Clone, PartialEq, Eq)]
pub struct Attributes {
    /// The row of the alias: what the series calls an alias, and the
    /// alias; missing where the record gives none.
    pub codename: Option<(&'static str, String)>,
    pub sephiras: Vec<AttributeRow>,
    pub angels: Vec<AttributeRow>,
    pub astraldresses: Vec<AttributeRow>,
}

/// Whether `table` is the table of attributes of `spirit`: the row of its
/// alias, then a row for each sephira, each angel and each astral dress of
/// the record, in the order of the record.
pub open spec fn is_attributes(table: Attributes, spirit: Spirit) -> bool {
    &&& match table.codename {
        Some((wording, alias)) => {
            &&& spirit.codename matches Some(c)
            &&& alias@ == c@
            &&& wording@ == Codename::from_spec(spirit.spec_series()).spec_label()
        },
        None => spirit.codename is None,
    }
    &&& table.sephiras.len() == spirit.sephiras.len()
    &&& forall|k: int|
        0 <= k < table.sephiras.len() ==> is_sephira_row(
            #[trigger] table.sephiras[k],
            spirit.sephiras[k],
        )
    &&& table.angels.len() == spirit.angels.len()
    &&& forall|k: int|
        0 <= k < table.angels.len() ==> is_angel_row(#[trigger] table.angels[k], spirit.angels[k])
    &&& table.astraldresses.len() == spirit.astraldresses.len()
    &&& forall|k: int|
        0 <= k < table.astraldresses.len() ==> is_dress_row(
            #[trigger] table.astraldresses[k],
            spirit.astraldresses[k],
            spirit,
        )
}

/// The table of attributes of `spirit`.
pub fn attributes(spirit: &Spirit) -> (r: Attributes)
    ensures
        is_attributes(r, *spirit),
{
    let codename = match spirit.codename() {
        Some((wording, alias)) => Some((wording.label(), String::from_str(alias))),
        None => None,
    };
    let mut sephiras: Vec<AttributeRow> = Vec::new();
    let mut i: usize = 0;
    while i < spirit.sephiras.len()
        invariant
            i <= spirit.sephiras.len(),
            sephiras.len() == i,
            forall|k: int|
                0 <= k < i ==> is_sephira_row(#[trigger] sephiras[k], spirit.sephiras[k]),
        decreases spirit.sephiras.len() - i,
    {
        sephiras.push(sephira_row(&spirit.sephiras[i]));
        i += 1;
    }
    let mut angels: Vec<AttributeRow> = Vec::new();
    let mut j: usize = 0;
    while j < spirit.angels.len()
        invariant
            j <= spirit.angels.len(),
            angels.len() == j,
            forall|k: int| 0 <= k < j ==> is_angel_row(#[trigger] angels[k], spirit.angels[k]),
        decreases spirit.angels.len() - j,
    {
        angels.push(angel_row(&spirit.angels[j]));
        j += 1;
    }
    let mut astraldresses: Vec<AttributeRow> = Vec::new();
    let mut l: usize = 0;
    while l < spirit.astraldresses.len()
        invariant
            l <= spirit.astraldresses.len(),
            astraldresses.len() == l,
            forall|k: int|
                0 <= k < l ==> is_dress_row(
                    #[trigger] astraldresses[k],
                    spirit.astraldresses[k],
                    *spirit,
                ),
        decreases spirit.astraldresses.len() - l,
    {
        astraldresses.push(dress_row(&spirit.astraldresses[l], spirit));
        l += 1;
    }
    Attributes { codename, sephiras, angels, astraldresses }
}

/// The table of personal information; a value that is missing is shown as
/// unknown.
#[derive(Debug, Clone, PartialEq, Eq)]
pub struct PersonalInfo {
    pub birthdate: Option<String>,
    pub height: Option<String>,
    pub weight: Option<String>,
    /// The row of the three measurements: missing (the outer `None`) for
    /// every gender but female, unknown (the inner one) unless the record
    /// gives all three.
    pub measurements: Option<Option<String>>,
}

/// A length in centimetres, as shown.
pub open spec fn centimetres(n: u8) -> Seq<char> {
    decimal(n as nat) + " cm"@
}

/// A weight in kilograms, as shown.
pub open spec fn kilograms(n: u8) -> Seq<char> {
    decimal(n as nat) + " kg"@
}

/// The three measurements, as shown.
pub open spec fn three_sizes(bust: u8, waist: u8, hips: u8) -> Seq<char> {
    decimal(bust as nat) + "·"@ + decimal(waist as nat) + "·"@ + decimal(hips as nat) + " cm"@
}

/// The row of the three measurements of a record.
pub open spec fn spec_measurements(spirit: Spirit) -> Option<Option<Seq<char>>> {
    if spirit.spec_gender() == Gender::Female {
        if spirit.bust is Some && spirit.waist is Some && spirit.hips is Some {
            Some(Some(three_sizes(spirit.bust->0, spirit.waist->0, spirit.hips->0)))
        } else {
            Some(None)
        }
    } else {
        None
    }
}

/// Whether `info` is the table of personal information of `spirit`.
pub open spec fn is_personal_info(info: PersonalInfo, spirit: Spirit) -> bool {
    &&& opt_view(info.birthdate) == match spirit.birthdate {
        Some(birthdate) => Some(birthdate.spec_text()),
        None => None,
    }
    &&& opt_view(info.height) == match spirit.height {
        Some(height) => Some(centimetres(height)),
        None => None,
    }
    &&& opt_view(info.weight) == match spirit.weight {
        Some(weight) => Some(kilograms(weight)),
        None => None,
    }
    &&& match info.measurements {
        Some(row) => spec_measurements(spirit) == Some(opt_view(row)),
        None => spec_measurements(spirit) is None,
    }
}

/// The table of personal information of `spirit`.
pub fn personal_info(spirit: &Spirit) -> (r: PersonalInfo)
    ensures
        is_personal_info(r, *spirit),
{
    let birthdate = match &spirit.birthdate {
        Some(birthdate) => Some(birthdate.to_text()),
        None => None,
    };
    let height = match spirit.height {
        Some(height) => {
            let mut text = String::new();
            push_decimal(&mut text, height as u64);
            text.append(" cm");
            assert(text@ =~= centimetres(height));
            Some(text)
        },
        None => None,
    };
    let weight = match spirit.weight {
        Some(weight) => {
            let mut text = String::new();
            push_decimal(&mut text, weight as u64);
            text.append(" kg");
            assert(text@ =~= kilograms(weight));
            Some(text)
        },
        None => None,
    };
    let measurements = if spirit.gender() == Gender::Female {
        match (spirit.bust, spirit.waist, spirit.hips) {
            (Some(bust), Some(waist), Some(hips)) => {
                let mut text = String::new();
                push_decimal(&mut text, bust as u64);
                text.append("·");
                push_decimal(&mut text, waist as u64);
                text.append("·");
                push_decimal(&mut text, hips as u64);
                text.append(" cm");
                assert(text@ =~= three_sizes(bust, waist, hips));
                Some(Some(text))
            },
            _ => Some(None),
        }
    } else {
        None
    };
    PersonalInfo { birthdate, height, weight, measurements }
}

} // verus!
