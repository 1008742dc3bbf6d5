//! The navigation view: one section for each series, one block for each
//! character, one link for each of its forms.

use crate::grouping::{
    group_by_identity, identity_sequence, indices, is_grouping, members_of, visible, Group,
};
use crate::models::spirit::form_slug;
use crate::models::{Series, Spirit};
use crate::pattern::PatternError;
use crate::router::details_path;
use crate::text::opt_view;
use vstd::prelude::*;

verus! {

/// The link to one form of a character.
#[derive(Debug, Clone, PartialEq, Eq)]
pub struct NavItem {
    /// Where the link leads.
    pub href: String,
    /// The text of the link: the form.
    pub label: String,
    /// The label that reads the link out.
    pub a11y: String,
    /// The address of the face to show; a placeholder is shown where there
    /// is none.
    pub icon: Option<String>,
    /// What stands for the face where it cannot be shown.
    pub alt: String,
}

/// Whether `item` is the link to `spirit`.
pub open spec fn is_nav_item(item: NavItem, spirit: Spirit) -> bool {
    &&& form_slug(spirit.form@) matches Some(slug)
    &&& item.href@ == "#"@ + details_path(spirit.firstname@, slug)
    &&& item.label@ == spirit.form@
    &&& item.a11y@ == spirit.spec_a11y()
    &&& opt_view(item.icon) == spirit.spec_icon()
    &&& item.alt@ == spirit.spec_a11y() + " face"@
}

/// The link to `spirit`. Fails only where the pattern engine gives its form
/// no address form.
pub fn nav_item(spirit: &Spirit) -> (r: Result<NavItem, PatternError>)
    ensures
        match r {
            Ok(item) => is_nav_item(item, *spirit),
            Err(_) => form_slug(spirit.form@) is None,
        },
{
    let slug = match spirit.form_url() {
        Ok(slug) => slug,
        Err(error) => {
            return Err(error);
        },
    };
    let mut href = String::from_str("#");
    href.append(crate::router::DETAILS_PREFIX);
    href.append(spirit.firstname.as_str());
    href.append("/");
    href.append(slug.as_str());
    let a11y = spirit.a11y();
    let mut alt = a11y.clone();
    alt.append(" face");
    proof {
        assert(href@ =~= "#"@ + details_path(spirit.firstname@, slug@));
    }
    Ok(NavItem { href, label: spirit.form.clone(), a11y, icon: spirit.icon(), alt })
}

/// The block of one character: its name and the links to its forms.
#[derive(Debug, Clone, PartialEq, Eq)]
pub struct NavChara {
    pub firstname: String,
    /// The last name; empty where the character has none.
    pub lastname: String,
    /// The classes of the block.
    pub class: String,
    pub items: Vec<NavItem>,
}

/// Whether `chara` is the block of the character `group` of the list
/// `data`.
pub open spec fn is_nav_chara(chara: NavChara, group: Group, data: Seq<Spirit>) -> bool {
    &&& chara.firstname@ == group.firstname@
    &&& chara.lastname@ == match group.lastname {
        Some(lastname) => lastname@,
        None => Seq::empty(),
    }
    &&& chara.class@ == "chara "@ + group.firstname@
    &&& chara.items.len() == group.members.len()
    &&& forall|k: int|
        0 <= k < chara.items.len() ==> is_nav_item(
            #[trigger] chara.items[k],
            data[group.members[k] as int],
        )
}

/// The block of the character `group` of the list `data`. Fails only where
/// the pattern engine gives the form of one of its records no address form.
pub fn nav_chara(group: &Group, data: &Vec<Spirit>) -> (r: Result<NavChara, PatternError>)
    requires
        forall|k: int| 0 <= k < group.members.len() ==> (#[trigger] group.members[k]) < data.len(),
    ensures
        match r {
            Ok(chara) => is_nav_chara(chara, *group, data@),
            Err(_) => exists|k: int|
                0 <= k < group.members.len() && form_slug(
                    data[#[trigger] group.members[k] as int].form@,
                ) is None,
        },
{
    let mut items: Vec<NavItem> = Vec::new();
    let mut k: usize = 0;
    while k < group.members.len()
        invariant
            k <= group.members.len(),
            items.len() == k,
            forall|l: int| 0 <= l < group.members.len() ==> (#[trigger] group.members[l]) < data.len(),
            forall|l: int|
                0 <= l < k ==> is_nav_item(#[trigger] items[l], data[group.members[l] as int]),
        decreases group.members.len() - k,
    {
        match nav_item(&data[group.members[k]]) {
            Ok(item) => items.push(item),
            Err(error) => {
                assert(form_slug(data[group.members[k as int] as int].form@) is None);
                return Err(error);
            },
        }
        k += 1;
    }
    let lastname = match &group.lastname {
        Some(lastname) => lastname.clone(),
        None => String::new(),
    };
    let mut class = String::from_str("chara ");
    class.append(group.firstname.as_str());
    Ok(NavChara { firstname: group.firstname.clone(), lastname, class, items })
}

/// The section of one series.
#[derive(Debug, Clone, PartialEq, Eq)]
pub struct NavSeries {
    pub series: Series,
    /// The id of the section's heading.
    pub id: &'static str,
    /// The title of the section.
    pub title: &'static str,
    /// Whether the title carries the badge of a crossover.
    pub collab: bool,
    pub charas: Vec<NavChara>,
}

/// Whether `section` is the section of `series` over the list `data`: its
/// heading is that of the series, and its blocks are the characters that
/// the navigation of the series shows, each with its records in the order
/// of the list, the characters in the order in which the list first names
/// them.
pub open spec fn is_nav_series(section: NavSeries, data: Seq<Spirit>, series: Series, spoilers: bool) -> bool {
    let shown = visible(data, series, spoilers);
    let keys = identity_sequence(data, shown);
    &&& section.series == series
    &&& section.id@ == series.spec_variant_name()
    &&& section.title@ == series.spec_label()
    &&& section.collab == series.spec_is_collab()
    &&& section.charas.len() == keys.len()
    &&& forall|j: int|
        0 <= j < section.charas.len() ==> {
            let chara = #[trigger] section.charas[j];
            let members = members_of(data, shown, keys[j]);
            &&& chara.firstname@ == keys[j].0
            &&& chara.lastname@ == match keys[j].1 {
                Some(lastname) => lastname,
                None => Seq::empty(),
            }
            &&& chara.class@ == "chara "@ + keys[j].0
            &&& chara.items.len() == members.len()
            &&& forall|k: int|
                0 <= k < chara.items.len() ==> is_nav_item(#[trigger] chara.items[k], data[members[k]])
        }
}

/// Whether the pattern engine gives the form of a record that the
/// navigation of `series` shows no address form.
pub open spec fn lacks_slug(data: Seq<Spirit>, series: Series, spoilers: bool) -> bool {
    exists|k: int|
        0 <= k < visible(data, series, spoilers).len() && form_slug(
            data[#[trigger] visible(data, series, spoilers)[k]].form@,
        ) is None
}

/// The section of `series` over the list `data`. Fails only where the
/// pattern engine gives the form of a record of the section no address
/// form.
pub fn nav_series(data: &Vec<Spirit>, series: Series, spoilers: bool) -> (r: Result<
    NavSeries,
    PatternError,
>)
    ensures
        match r {
            Ok(section) => is_nav_series(section, data@, series, spoilers),
            Err(_) => lacks_slug(data@, series, spoilers),
        },
{
    let groups = group_by_identity(data, series, spoilers);
    let ghost shown = visible(data@, series, spoilers);
    let ghost keys = identity_sequence(data@, shown);
    proof {
        crate::grouping::lemma_visible(data@, series, spoilers);
        assert forall|j: int| 0 <= j < groups.len() implies forall|k: int|
            0 <= k < (#[trigger] groups[j]).members.len() ==> shown.contains(
                #[trigger] groups[j].members[k] as int,
            ) by {
            crate::grouping::law_members(data@, shown, groups[j].identity());
            assert forall|k: int| 0 <= k < groups[j].members.len() implies shown.contains(
                #[trigger] groups[j].members[k] as int,
            ) by {
                assert(indices(groups[j].members@)[k] == groups[j].members[k] as int);
            }
        }
    }
    let mut charas: Vec<NavChara> = Vec::new();
    let mut j: usize = 0;
    while j < groups.len()
        invariant
            j <= groups.len(),
            charas.len() == j,
            shown == visible(data@, series, spoilers),
            keys == identity_sequence(data@, shown),
            is_grouping(groups@, data@, shown),
            forall|p: int| 0 <= p < shown.len() ==> 0 <= #[trigger] shown[p] < data.len(),
            forall|a: int|
                0 <= a < groups.len() ==> forall|k: int|
                    0 <= k < (#[trigger] groups[a]).members.len() ==> shown.contains(
                        #[trigger] groups[a].members[k] as int,
                    ),
            forall|a: int| 0 <= a < j ==> is_nav_chara(#[trigger] charas[a], groups[a], data@),
        decreases groups.len() - j,
    {
        let group = &groups[j];
        proof {
            assert forall|k: int| 0 <= k < group.members.len() implies (#[trigger] group.members[k])
                < data.len() by {
                assert(shown.contains(group.members[k] as int));
            }
        }
        match nav_chara(group, data) {
            Ok(chara) => charas.push(chara),
            Err(error) => {
                proof {
                    let k = choose|k: int|
                        0 <= k < group.members.len() && form_slug(
                            data@[#[trigger] group.members[k] as int].form@,
                        ) is None;
                    assert(shown.contains(group.members[k] as int));
                    let p = choose|p: int| 0 <= p < shown.len() && shown[p] == group.members[k] as int;
                    assert(form_slug(data@[shown[p]].form@) is None);
                }
                return Err(error);
            },
        }
        j += 1;
    }
    let section = NavSeries {
        series,
        id: series.variant_name(),
        title: series.label(),
        collab: series.is_collab(),
        charas,
    };
    proof {
        assert forall|a: int| 0 <= a < section.charas.len() implies {
            let chara = #[trigger] section.charas[a];
            let members = members_of(data@, shown, keys[a]);
            &&& chara.firstname@ == keys[a].0
            &&& chara.lastname@ == match keys[a].1 {
                Some(lastname) => lastname,
                None => Seq::empty(),
            }
            &&& chara.class@ == "chara "@ + keys[a].0
            &&& chara.items.len() == members.len()
            &&& forall|k: int|
                0 <= k < chara.items.len() ==> is_nav_item(#[trigger] chara.items[k], data@[members[k]])
        } by {
            let chara = section.charas[a];
            let group = groups[a];
            assert(is_nav_chara(chara, group, data@));
            assert(group.identity() == keys[a]);
            let members = members_of(data@, shown, keys[a]);
            assert(indices(group.members@) == members);
            assert forall|k: int| 0 <= k < chara.items.len() implies is_nav_item(
                #[trigger] chara.items[k],
                data@[members[k]],
            ) by {
                assert(indices(group.members@)[k] == group.members[k] as int);
            }
        }
    }
    Ok(section)
}

/// The sections of the navigation view, one for each series in the order
/// of the series. Fails only where the pattern engine gives the form of a
/// record that is shown no address form.
pub fn nav_sections(data: &Vec<Spirit>, spoilers: bool) -> (r: Result<Vec<NavSeries>, PatternError>)
    ensures
        match r {
            Ok(sections) => {
                &&& sections.len() == Series::all().len()
                &&& forall|j: int|
                    0 <= j < sections.len() ==> is_nav_series(
                        #[trigger] sections[j],
                        data@,
                        Series::all()[j],
                        spoilers,
                    )
            },
            Err(_) => exists|j: int|
                0 <= j < Series::all().len() && lacks_slug(data@, #[trigger] Series::all()[j], spoilers),
        },
{
    let all = Series::variants();
    let mut sections: Vec<NavSeries> = Vec::new();
    let mut j: usize = 0;
    while j < 6
        invariant
            j <= 6,
            all@ == Series::all(),
            sections.len() == j,
            forall|a: int|
                0 <= a < j ==> is_nav_series(#[trigger] sections[a], data@, Series::all()[a], spoilers),
        decreases 6 - j,
    {
        match nav_series(data, all[j], spoilers) {
            Ok(section) => sections.push(section),
            Err(error) => {
                assert(lacks_slug(data@, Series::all()[j as int], spoilers));
                return Err(error);
            },
        }
        j += 1;
    }
    Ok(sections)
}

/// Whether the reader has to confirm before the switch for spoilers is
/// flipped: only before spoilers are allowed.
pub open spec fn asks_confirmation(spoilers: bool) -> bool {
    !spoilers
}

/// Whether spoilers are allowed once the switch is flipped: they are where
/// they were not and the reader confirmed.
pub open spec fn spec_toggle(spoilers: bool, confirmed: bool) -> bool {
    !spoilers && confirmed
}

/// Whether the reader has to confirm before the switch for spoilers is
/// flipped.
pub fn needs_confirmation(spoilers: bool) -> (r: bool)
    ensures
        r == asks_confirmation(spoilers),
{
    !spoilers
}

/// Flips the switch for spoilers and returns what it then shows. `confirmed`
/// says what the reader answered, and counts only where an answer was asked
/// for.
pub fn toggle_spoilers(spoilers: bool, confirmed: bool) -> (r: bool)
    ensures
        r == spec_toggle(spoilers, confirmed),
{
    !spoilers && confirmed
}

} // verus!
