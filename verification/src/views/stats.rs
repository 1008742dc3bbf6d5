//! The statistics of a character: the values that a radar chart draws,
//! and the two sections that hold such a chart.

use crate::models::{Class, Element, Spirit};
use crate::text::{decimal, decimal_string, opt_view};
use crate::utils::is_listing;
use vstd::prelude::*;

verus! {

/// The highest value of a lore statistic.
pub const LORE_MAX: u16 = 300;

/// The highest value of a game statistic.
pub const GACHA_MAX: u16 = 100;

/// One statistic of a chart.
#[derive(Debug, Clone, Copy, PartialEq, Eq)]
pub struct Stat {
    pub name: &'static str,
    pub abbrev: &'static str,
    pub value: u16,
}

/// A share of the full radius, as a fraction.
#[derive(Debug, Clone, Copy, PartialEq, Eq, Structural)]
pub struct Ratio {
    pub numerator: u16,
    pub denominator: u16,
}

/// How far along its ray the point of a statistic lies: the value over the
/// highest value, and the whole ray where the value is higher still.
pub open spec fn spec_ratio(value: u16, max: u16) -> Ratio {
    if value <= max {
        Ratio { numerator: value, denominator: max }
    } else {
        Ratio { numerator: 1, denominator: 1 }
    }
}

/// How far along its ray the point of a statistic lies.
pub fn stat_ratio(value: u16, max: u16) -> (r: Ratio)
    ensures
        r == spec_ratio(value, max),
{
    if value <= max {
        Ratio { numerator: value, denominator: max }
    } else {
        Ratio { numerator: 1, denominator: 1 }
    }
}

/// What a chart writes beside the point of a statistic.
#[derive(Debug, Clone, PartialEq, Eq)]
pub struct StatLabel {
    /// What a pointer over the label shows: the name of the statistic.
    pub title: &'static str,
    /// The short name, followed by a blank.
    pub abbrev: String,
    /// The value, in decimal.
    pub value: String,
}

/// What a chart writes beside the point of `stat`.
pub fn stat_label(stat: &Stat) -> (r: StatLabel)
    ensures
        r.title@ == stat.name@,
        r.abbrev@ == stat.abbrev@ + " "@,
        r.value@ == decimal(stat.value as nat),
{
    let mut abbrev = String::from_str(stat.abbrev);
    abbrev.append(" ");
    StatLabel { title: stat.name, abbrev, value: decimal_string(stat.value as u64) }
}

/// The five lore statistics of a record, where it has all five.
pub open spec fn spec_lore_values(spirit: Spirit) -> Option<Seq<u16>> {
    if spirit.strength is Some && spirit.consistency is Some && spirit.spirit_power is Some
        && spirit.agility is Some && spirit.intelligence is Some {
        Some(
            seq![
                spirit.strength->0,
                spirit.consistency->0,
                spirit.spirit_power->0,
                spirit.agility->0,
                spirit.intelligence->0,
            ],
        )
    } else {
        None
    }
}

/// The six game statistics of a record, where it has all six.
pub open spec fn spec_gacha_values(spirit: Spirit) -> Option<Seq<u16>> {
    if spirit.attack is Some && spirit.combo is Some && spirit.support is Some
        && spirit.defense is Some && spirit.control is Some && spirit.damage is Some {
        Some(
            seq![
                spirit.attack->0 as u16,
                spirit.combo->0 as u16,
                spirit.support->0 as u16,
                spirit.defense->0 as u16,
                spirit.control->0 as u16,
                spirit.damage->0 as u16,
            ],
        )
    } else {
        None
    }
}

/// The names of the lore statistics, in the order of the chart.
pub open spec fn lore_names() -> Seq<(Seq<char>, Seq<char>)> {
    seq![
        ("Strength"@, "STR"@),
        ("Consistency"@, "CST"@),
        ("Spiritual Power"@, "SPI"@),
        ("Agility"@, "AGI"@),
        ("Intelligence"@, "INT"@),
    ]
}

/// The names of the game statistics, in the order of the chart.
pub open spec fn gacha_names() -> Seq<(Seq<char>, Seq<char>)> {
    seq![
        ("Attack"@, "ATK"@),
        ("Combination"@, "CMB"@),
        ("Support"@, "SUP"@),
        ("Defense"@, "DEF"@),
        ("Control"@, "CTL"@),
        ("Damage"@, "DMG"@),
    ]
}

/// Whether `stats` gives the values `values` under the names `names`, one
/// by one.
pub open spec fn is_chart(stats: Seq<Stat>, names: Seq<(Seq<char>, Seq<char>)>, values: Seq<u16>) -> bool {
    &&& stats.len() == names.len()
    &&& stats.len() == values.len()
    &&& forall|k: int|
        0 <= k < stats.len() ==> {
            &&& (#[trigger] stats[k]).name@ == names[k].0
            &&& stats[k].abbrev@ == names[k].1
            &&& stats[k].value == values[k]
        }
}

/// The chart of the lore statistics of `spirit`: all five, or none where
/// one is missing.
pub fn lore_stats(spirit: &Spirit) -> (r: Option<Vec<Stat>>)
    ensures
        match r {
            Some(stats) => spec_lore_values(*spirit) matches Some(values) && is_chart(
                stats@,
                lore_names(),
                values,
            ),
            None => spec_lore_values(*spirit) is None,
        },
{
    match (
        spirit.strength,
        spirit.consistency,
        spirit.spirit_power,
        spirit.agility,
        spirit.intelligence,
    ) {
        (Some(strength), Some(consistency), Some(spirit_power), Some(agility), Some(intelligence)) => {
            let mut stats: Vec<Stat> = Vec::new();
            stats.push(Stat { name: "Strength", abbrev: "STR", value: strength });
            stats.push(Stat { name: "Consistency", abbrev: "CST", value: consistency });
            stats.push(Stat { name: "Spiritual Power", abbrev: "SPI", value: spirit_power });
            stats.push(Stat { name: "Agility", abbrev: "AGI", value: agility });
            stats.push(Stat { name: "Intelligence", abbrev: "INT", value: intelligence });
            Some(stats)
        },
        _ => None,
    }
}

/// The chart of the game statistics of `spirit`: all six, or none where
/// one is missing.
pub fn gacha_stats(spirit: &Spirit) -> (r: Option<Vec<Stat>>)
    ensures
        match r {
            Some(stats) => spec_gacha_values(*spirit) matches Some(values) && is_chart(
                stats@,
                gacha_names(),
                values,
            ),
            None => spec_gacha_values(*spirit) is None,
        },
{
    match (
        spirit.attack,
        spirit.combo,
        spirit.support,
        spirit.defense,
        spirit.control,
        spirit.damage,
    ) {
        (Some(attack), Some(combo), Some(support), Some(defense), Some(control), Some(damage)) => {
            let mut stats: Vec<Stat> = Vec::new();
            stats.push(Stat { name: "Attack", abbrev: "ATK", value: attack as u16 });
            stats.push(Stat { name: "Combination", abbrev: "CMB", value: combo as u16 });
            stats.push(Stat { name: "Support", abbrev: "SUP", value: support as u16 });
            stats.push(Stat { name: "Defense", abbrev: "DEF", value: defense as u16 });
            stats.push(Stat { name: "Control", abbrev: "CTL", value: control as u16 });
            stats.push(Stat { name: "Damage", abbrev: "DMG", value: damage as u16 });
            Some(stats)
        },
        _ => None,
    }
}

/// The badge of a class: its address and how many times it is shown; none
/// where the class is not known.
pub fn class_badge(class: &Option<Class>) -> (r: Option<(String, u8)>)
    ensures
        match r {
            Some(badge) => class matches Some(c) && badge.0@ == c.spec_icon() && badge.1
                == c.spec_repeat(),
            None => class is None,
        },
{
    match class {
        Some(class) => Some(class.icon()),
        None => None,
    }
}

/// The table of the lore section: the badges of the four classes of a
/// record, each missing where the class is not known.
#[derive(Debug, Clone, PartialEq, Eq)]
pub struct LoreClasses {
    pub class: Option<(String, u8)>,
    pub spacequake_class: Option<(String, u8)>,
    pub angel_class: Option<(String, u8)>,
    pub astraldress_class: Option<(String, u8)>,
}

/// Whether `badge` is the badge of `class`.
pub open spec fn is_badge(badge: Option<(String, u8)>, class: Option<Class>) -> bool {
    match badge {
        Some(b) => class matches Some(c) && b.0@ == c.spec_icon() && b.1 == c.spec_repeat(),
        None => class is None,
    }
}

/// The table of the lore section of `spirit`.
pub fn lore_classes(spirit: &Spirit) -> (r: LoreClasses)
    ensures
        is_badge(r.class, spirit.class),
        is_badge(r.spacequake_class, spirit.spacequake_class),
        is_badge(r.angel_class, spirit.angel_class),
        is_badge(r.astraldress_class, spirit.astraldress_class),
{
    LoreClasses {
        class: class_badge(&spirit.class),
        spacequake_class: class_badge(&spirit.spacequake_class),
        angel_class: class_badge(&spirit.angel_class),
        astraldress_class: class_badge(&spirit.astraldress_class),
    }
}

/// The rank of a record in the game: what the rank is called, and its
/// badge.
#[derive(Debug, Clone, PartialEq, Eq)]
pub struct RankBadge {
    pub label: &'static str,
    pub icon: String,
    pub repeat: u8,
}

/// The rank of `spirit` in the game, where it is known.
pub fn rank_badge(spirit: &Spirit) -> (r: Option<RankBadge>)
    ensures
        match r {
            Some(badge) => {
                &&& spirit.rank matches Some(rank)
                &&& badge.label@ == rank.spec_label()
                &&& badge.icon@ == rank.spec_icon()
                &&& badge.repeat == rank.spec_repeat()
            },
            None => spirit.rank is None,
        },
{
    match &spirit.rank {
        Some(rank) => {
            let (icon, repeat) = rank.icon();
            Some(RankBadge { label: rank.label(), icon, repeat })
        },
        None => None,
    }
}

/// The badge of one element of a record.
#[derive(Debug, Clone, PartialEq, Eq)]
pub struct ElementBadge {
    pub label: &'static str,
    /// The classes of the badge.
    pub class: String,
    /// The address of the icon, where the element has one.
    pub icon: Option<String>,
    /// What stands for the icon where it cannot be shown.
    pub alt: String,
}

/// Whether `badge` is the badge of `element`.
pub open spec fn is_element_badge(badge: ElementBadge, element: Element) -> bool {
    &&& badge.label@ == element.spec_label()
    &&& badge.class@ == "element "@ + element.spec_label()
    &&& opt_view(badge.icon) == element.spec_icon()
    &&& badge.alt@ == element.spec_label() + " element icon"@
}

/// The badge of `element`.
pub fn element_badge(element: Element) -> (r: ElementBadge)
    ensures
        is_element_badge(r, element),
{
    let label = element.label();
    let mut class = String::from_str("element ");
    class.append(label);
    let mut alt = String::from_str(label);
    alt.append(" element icon");
    ElementBadge { label, class, icon: element.icon(), alt }
}

/// The badges of the elements of `spirit`, in the order of the elements.
pub fn element_badges(spirit: &Spirit) -> (r: Vec<ElementBadge>)
    ensures
        exists|elements: Seq<Element>|
            {
                &&& #[trigger] is_listing(elements, spirit.elements@)
                &&& r.len() == elements.len()
                &&& forall|k: int|
                    0 <= k < r.len() ==> is_element_badge(#[trigger] r[k], elements[k])
            },
{
    let elements = spirit.elements.to_vec();
    let mut badges: Vec<ElementBadge> = Vec::new();
    let mut k: usize = 0;
    while k < elements.len()
        invariant
            k <= elements.len(),
            badges.len() == k,
            forall|l: int| 0 <= l < k ==> is_element_badge(#[trigger] badges[l], elements[l]),
        decreases elements.len() - k,
    {
        badges.push(element_badge(elements[k]));
        k += 1;
    }
    proof {
        assert(is_listing(elements@, spirit.elements@));
    }
    badges
}

} // verus!
