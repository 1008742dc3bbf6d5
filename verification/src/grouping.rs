//! The grouping engine: from the flat list of records to what the
//! navigation of one series shows, character by character.

use crate::models::{Series, Spirit};
use crate::text::{opt_str_eq, opt_view, str_eq};
use vstd::prelude::*;

verus! {

/// Who a character is: its first name and, where it has one, its last name.
pub type Identity = (Seq<char>, Option<Seq<char>>);

/// Whether the navigation of `series` shows `spirit`: it belongs to the
/// series, and it gives nothing away unless spoilers are allowed.
pub open spec fn is_shown(spirit: Spirit, series: Series, spoilers: bool) -> bool {
    spirit.spec_series() == series && (spoilers || !spirit.spec_spoiler())
}

/// The places in `data` of the records that the navigation of `series`
/// shows, in the order of the list.
pub open spec fn visible(data: Seq<Spirit>, series: Series, spoilers: bool) -> Seq<int>
    decreases data.len(),
{
    if data.len() == 0 {
        Seq::empty()
    } else {
        let before = visible(data.drop_last(), series, spoilers);
        if is_shown(data.last(), series, spoilers) {
            before.push(data.len() - 1)
        } else {
            before
        }
    }
}

/// The identities of the records at the places `shown`, each once, in the
/// order in which they are first met.
pub open spec fn identity_sequence(data: Seq<Spirit>, shown: Seq<int>) -> Seq<Identity>
    decreases shown.len(),
{
    if shown.len() == 0 {
        Seq::empty()
    } else {
        let before = identity_sequence(data, shown.drop_last());
        let identity = data[shown.last()].identity();
        if before.contains(identity) {
            before
        } else {
            before.push(identity)
        }
    }
}

/// Those of the places `shown` whose record is of the identity `identity`,
/// in the order of `shown`.
pub open spec fn members_of(data: Seq<Spirit>, shown: Seq<int>, identity: Identity) -> Seq<int>
    decreases shown.len(),
{
    if shown.len() == 0 {
        Seq::empty()
    } else {
        let before = members_of(data, shown.drop_last(), identity);
        if data[shown.last()].identity() == identity {
            before.push(shown.last())
        } else {
            before
        }
    }
}

/// Those of the places `shown` whose record gives nothing away, in the
/// order of `shown`.
pub open spec fn without_spoilers(data: Seq<Spirit>, shown: Seq<int>) -> Seq<int>
    decreases shown.len(),
{
    if shown.len() == 0 {
        Seq::empty()
    } else {
        let before = without_spoilers(data, shown.drop_last());
        if data[shown.last()].spec_spoiler() {
            before
        } else {
            before.push(shown.last())
        }
    }
}

/// Places held as machine integers, taken as plain integers.
pub open spec fn indices(places: Seq<usize>) -> Seq<int> {
    Seq::new(places.len(), |k: int| places[k] as int)
}

/// One character of a series with its variants.
#[derive(Debug, Clone, PartialEq, Eq)]
pub struct Group {
    pub firstname: String,
    pub lastname: Option<String>,
    /// The places in the full list of the character's records.
    pub members: Vec<usize>,
}

impl Group {
    /// Who the group is about.
    pub open spec fn identity(&self) -> Identity {
        (self.firstname@, opt_view(self.lastname))
    }
}

/// Whether `groups` is the grouping of the records at the places `shown`:
/// one group for each identity, in the order in which the identities are
/// first met, each with all the places of its identity in their order.
pub open spec fn is_grouping(groups: Seq<Group>, data: Seq<Spirit>, shown: Seq<int>) -> bool {
    &&& groups.len() == identity_sequence(data, shown).len()
    &&& forall|j: int|
        0 <= j < groups.len() ==> {
            &&& (#[trigger] groups[j]).identity() == identity_sequence(data, shown)[j]
            &&& indices(groups[j].members@) == members_of(data, shown, groups[j].identity())
        }
}

/// Whether the navigation of `series` shows `spirit`.
pub fn shows(spirit: &Spirit, series: Series, spoilers: bool) -> (r: bool)
    ensures
        r == is_shown(*spirit, series, spoilers),
{
    spirit.series() == series && (spoilers || !spirit.spoiler())
}

/// The places in `data` of the records that the navigation of `series`
/// shows, in the order of the list.
pub fn visible_places(data: &Vec<Spirit>, series: Series, spoilers: bool) -> (places: Vec<usize>)
    ensures
        indices(places@) == visible(data@, series, spoilers),
{
    let mut places: Vec<usize> = Vec::new();
    let mut i: usize = 0;
    while i < data.len()
        invariant
            i <= data.len(),
            indices(places@) == visible(data@.take(i as int), series, spoilers),
        decreases data.len() - i,
    {
        proof {
            assert(data@.take(i + 1).drop_last() =~= data@.take(i as int));
        }
        let ghost before = places@;
        if shows(&data[i], series, spoilers) {
            places.push(i);
            assert(indices(places@) =~= indices(before).push(i as int));
        }
        i += 1;
    }
    proof {
        assert(data@.take(i as int) =~= data@);
    }
    places
}

/// Every place that is shown lies in the list, and its record is shown.
pub proof fn lemma_visible(data: Seq<Spirit>, series: Series, spoilers: bool)
    ensures
        forall|k: int|
            0 <= k < visible(data, series, spoilers).len() ==> {
                let place = #[trigger] visible(data, series, spoilers)[k];
                0 <= place < data.len() && is_shown(data[place], series, spoilers)
            },
        forall|k: int, l: int|
            0 <= k < l < visible(data, series, spoilers).len() ==> visible(
                data,
                series,
                spoilers,
            )[k] < visible(data, series, spoilers)[l],
        forall|place: int|
            0 <= place < data.len() && is_shown(data[place], series, spoilers) ==> visible(
                data,
                series,
                spoilers,
            ).contains(place),
    decreases data.len(),
{
    if data.len() > 0 {
        let rest = data.drop_last();
        lemma_visible(rest, series, spoilers);
        let before = visible(rest, series, spoilers);
        let all = visible(data, series, spoilers);
        assert forall|place: int|
            0 <= place < data.len() && is_shown(data[place], series, spoilers) implies all.contains(
            place,
        ) by {
            if place < data.len() - 1 {
                assert(rest[place] == data[place]);
                assert(is_shown(rest[place], series, spoilers));
                assert(before.contains(place));
                let k = choose|k: int| 0 <= k < before.len() && before[k] == place;
                assert(all[k] == place);
            } else {
                assert(all[all.len() - 1] == place);
            }
        }
        assert forall|k: int| 0 <= k < all.len() implies {
            let place = #[trigger] all[k];
            0 <= place < data.len() && is_shown(data[place], series, spoilers)
        } by {
            if k < before.len() {
                assert(all[k] == before[k]);
                assert(rest[before[k]] == data[before[k]]);
            }
        }
    }
}

/// The grouping of the records of one series: every record that the
/// navigation of `series` shows, under its character, the characters in the
/// order in which the list first names them.
#[verifier::loop_isolation(false)]
pub fn group_by_identity(data: &Vec<Spirit>, series: Series, spoilers: bool) -> (groups: Vec<Group>)
    ensures
        is_grouping(groups@, data@, visible(data@, series, spoilers)),
{
    let mut groups: Vec<Group> = Vec::new();
    let mut i: usize = 0;
    while i < data.len()
        invariant
            i <= data.len(),
            is_grouping(groups@, data@, visible(data@.take(i as int), series, spoilers)),
            forall|a: int, b: int|
                0 <= a < b < groups.len() ==> (#[trigger] groups[a]).identity() != (
                #[trigger] groups[b]).identity(),
            forall|identity: Identity|
                !identity_sequence(
                    data@,
                    visible(data@.take(i as int), series, spoilers),
                ).contains(identity) ==> #[trigger] members_of(
                    data@,
                    visible(data@.take(i as int), series, spoilers),
                    identity,
                ).len() == 0,
        decreases data.len() - i,
    {
        let ghost shown = visible(data@.take(i as int), series, spoilers);
        let ghost keys = identity_sequence(data@, shown);
        proof {
            assert(data@.take(i + 1).drop_last() =~= data@.take(i as int));
        }
        if shows(&data[i], series, spoilers) {
            let ghost next = shown.push(i as int);
            let ghost identity = data@[i as int].identity();
            proof {
                assert(visible(data@.take(i + 1), series, spoilers) == next);
                assert(next.drop_last() =~= shown);
            }
            let spirit = &data[i];
            let mut j: usize = 0;
            while j < groups.len() && !(str_eq(
                groups[j].firstname.as_str(),
                spirit.firstname.as_str(),
            ) && opt_str_eq(&groups[j].lastname, &spirit.lastname))
                invariant
                    j <= groups.len(),
                    forall|k: int| 0 <= k < j ==> (#[trigger] groups[k]).identity() != identity,
                decreases groups.len() - j,
            {
                j += 1;
            }
            let ghost old_groups = groups@;
            if j < groups.len() {
                groups[j].members.push(i);
                proof {
                    assert(keys[j as int] == identity);
                    assert(keys.contains(identity));
                    assert(identity_sequence(data@, next) == keys);
                    assert forall|k: int| 0 <= k < groups.len() implies {
                        &&& (#[trigger] groups[k]).identity() == keys[k]
                        &&& indices(groups[k].members@) == members_of(
                            data@,
                            next,
                            groups[k].identity(),
                        )
                    } by {
                        if k == j {
                            assert(indices(groups[k].members@) =~= indices(
                                old_groups[k].members@,
                            ).push(i as int));
                        } else {
                            assert(groups[k] == old_groups[k]);
                            assert(old_groups[k].identity() != old_groups[j as int].identity());
                        }
                    }
                }
            } else {
                let lastname = match &spirit.lastname {
                    Some(lastname) => Some(lastname.clone()),
                    None => None,
                };
                let mut members: Vec<usize> = Vec::new();
                members.push(i);
                groups.push(Group { firstname: spirit.firstname.clone(), lastname, members });
                proof {
                    assert(!keys.contains(identity)) by {
                        if keys.contains(identity) {
                            let k = choose|k: int| 0 <= k < keys.len() && keys[k] == identity;
                            assert(old_groups[k].identity() == identity);
                        }
                    }
                    assert(identity_sequence(data@, next) == keys.push(identity));
                    assert(members_of(data@, shown, identity).len() == 0);
                    assert forall|k: int| 0 <= k < groups.len() implies {
                        &&& (#[trigger] groups[k]).identity() == keys.push(identity)[k]
                        &&& indices(groups[k].members@) == members_of(
                            data@,
                            next,
                            groups[k].identity(),
                        )
                    } by {
                        if k < old_groups.len() {
                            assert(groups[k] == old_groups[k]);
                            assert(old_groups[k].identity() == keys[k]);
                            assert(keys.contains(keys[k]));
                        } else {
                            assert(groups[k].identity() == identity);
                            assert(indices(groups[k].members@) =~= Seq::<int>::empty().push(
                                i as int,
                            ));
                            assert(members_of(data@, shown, identity) =~= Seq::<int>::empty());
                        }
                    }
                }
            }
            proof {
                let new_keys = identity_sequence(data@, next);
                assert(new_keys == if keys.contains(identity) {
                    keys
                } else {
                    keys.push(identity)
                });
                assert forall|other: Identity| !new_keys.contains(other) implies #[trigger] members_of(
                    data@,
                    next,
                    other,
                ).len() == 0 by {
                    if keys.contains(other) {
                        let k = choose|k: int| 0 <= k < keys.len() && keys[k] == other;
                        assert(new_keys[k] == other);
                    }
                    if other == identity {
                        if keys.contains(identity) {
                        } else {
                            assert(new_keys[new_keys.len() - 1] == identity);
                        }
                    }
                    assert(!keys.contains(other));
                    assert(other != identity);
                    assert(members_of(data@, shown, other).len() == 0);
                    assert(members_of(data@, next, other) == members_of(data@, shown, other));
                }
            }
        } else {
            proof {
                assert(visible(data@.take(i + 1), series, spoilers) == shown);
            }
        }
        i += 1;
    }
    proof {
        assert(data@.take(i as int) =~= data@);
    }
    groups
}

/// The identity sequence names every identity that is shown, and each
/// once: no identity stands twice in it, each of its identities is that of
/// a record shown, and the identity of each record shown stands in it.
pub proof fn law_identities_once(data: Seq<Spirit>, shown: Seq<int>)
    ensures
        forall|a: int, b: int|
            0 <= a < b < identity_sequence(data, shown).len() ==> identity_sequence(data, shown)[a]
                != identity_sequence(data, shown)[b],
        forall|j: int|
            0 <= j < identity_sequence(data, shown).len() ==> exists|k: int|
                0 <= k < shown.len() && data[shown[k]].identity() == #[trigger] identity_sequence(
                    data,
                    shown,
                )[j],
        forall|k: int|
            0 <= k < shown.len() ==> identity_sequence(data, shown).contains(
                data[#[trigger] shown[k]].identity(),
            ),
    decreases shown.len(),
{
    if shown.len() > 0 {
        let rest = shown.drop_last();
        law_identities_once(data, rest);
        let before = identity_sequence(data, rest);
        let keys = identity_sequence(data, shown);
        let identity = data[shown.last()].identity();
        assert forall|j: int| 0 <= j < keys.len() implies exists|k: int|
            0 <= k < shown.len() && data[shown[k]].identity() == #[trigger] keys[j] by {
            if j < before.len() {
                assert(keys[j] == before[j]);
                let k = choose|k: int| 0 <= k < rest.len() && data[rest[k]].identity() == before[j];
                assert(shown[k] == rest[k]);
            } else {
                assert(data[shown[shown.len() - 1]].identity() == keys[j]);
            }
        }
        assert forall|k: int| 0 <= k < shown.len() implies keys.contains(
            data[#[trigger] shown[k]].identity(),
        ) by {
            if k < rest.len() {
                assert(shown[k] == rest[k]);
                let found = data[rest[k]].identity();
                assert(before.contains(found));
                let j = choose|j: int| 0 <= j < before.len() && before[j] == found;
                assert(keys[j] == found);
            } else if before.contains(identity) {
            } else {
                assert(keys[keys.len() - 1] == identity);
            }
        }
    }
}

/// The identity sequence is in the order in which the identities are first
/// met: of two of its identities, the earlier one is met at a place before
/// which the later one is not met.
pub proof fn law_identities_first_seen(data: Seq<Spirit>, shown: Seq<int>, a: int, b: int)
    requires
        0 <= a < b < identity_sequence(data, shown).len(),
    ensures
        exists|k: int|
            {
                &&& 0 <= k < shown.len()
                &&& data[#[trigger] shown[k]].identity() == identity_sequence(data, shown)[a]
                &&& forall|l: int|
                    0 <= l <= k ==> data[#[trigger] shown[l]].identity() != identity_sequence(
                        data,
                        shown,
                    )[b]
            },
    decreases shown.len(),
{
    let rest = shown.drop_last();
    let before = identity_sequence(data, rest);
    let keys = identity_sequence(data, shown);
    if b < before.len() {
        law_identities_first_seen(data, rest, a, b);
        let k = choose|k: int|
            {
                &&& 0 <= k < rest.len()
                &&& data[#[trigger] rest[k]].identity() == before[a]
                &&& forall|l: int| 0 <= l <= k ==> data[#[trigger] rest[l]].identity() != before[b]
            };
        assert(shown[k] == rest[k]);
        assert forall|l: int| 0 <= l <= k implies data[#[trigger] shown[l]].identity() != keys[b] by {
            assert(shown[l] == rest[l]);
        }
    } else {
        law_identities_once(data, rest);
        assert(keys[a] == before[a]);
        let k = choose|k: int| 0 <= k < rest.len() && data[rest[k]].identity() == before[a];
        assert(shown[k] == rest[k]);
        assert forall|l: int| 0 <= l <= k implies data[#[trigger] shown[l]].identity() != keys[b] by {
            assert(shown[l] == rest[l]);
            assert(before.contains(data[rest[l]].identity()));
        }
    }
}

/// The members of an identity are the places shown whose record is of that
/// identity, and no others.
pub proof fn law_members(data: Seq<Spirit>, shown: Seq<int>, identity: Identity)
    ensures
        forall|k: int|
            0 <= k < members_of(data, shown, identity).len() ==> {
                let place = #[trigger] members_of(data, shown, identity)[k];
                shown.contains(place) && data[place].identity() == identity
            },
        forall|k: int|
            0 <= k < shown.len() && data[shown[k]].identity() == identity ==> members_of(
                data,
                shown,
                identity,
            ).contains(#[trigger] shown[k]),
    decreases shown.len(),
{
    if shown.len() > 0 {
        let rest = shown.drop_last();
        law_members(data, rest, identity);
        let before = members_of(data, rest, identity);
        let all = members_of(data, shown, identity);
        assert forall|k: int| 0 <= k < all.len() implies {
            let place = #[trigger] all[k];
            shown.contains(place) && data[place].identity() == identity
        } by {
            if k < before.len() {
                assert(all[k] == before[k]);
                let l = choose|l: int| 0 <= l < rest.len() && rest[l] == before[k];
                assert(shown[l] == before[k]);
            } else {
                assert(shown[shown.len() - 1] == all[k]);
            }
        }
        assert forall|k: int|
            0 <= k < shown.len() && data[shown[k]].identity() == identity implies all.contains(
            #[trigger] shown[k],
        ) by {
            if k < rest.len() {
                assert(shown[k] == rest[k]);
                assert(before.contains(rest[k]));
                let l = choose|l: int| 0 <= l < before.len() && before[l] == rest[k];
                assert(all[l] == rest[k]);
            } else {
                assert(all[all.len() - 1] == shown[k]);
            }
        }
    }
}

proof fn lemma_without_spoilers_local(first: Seq<Spirit>, second: Seq<Spirit>, shown: Seq<int>)
    requires
        forall|k: int| 0 <= k < shown.len() ==> first[#[trigger] shown[k]] == second[shown[k]],
    ensures
        without_spoilers(first, shown) == without_spoilers(second, shown),
    decreases shown.len(),
{
    if shown.len() > 0 {
        let rest = shown.drop_last();
        assert forall|k: int| 0 <= k < rest.len() implies first[#[trigger] rest[k]] == second[rest[k]] by {
            assert(rest[k] == shown[k]);
        }
        lemma_without_spoilers_local(first, second, rest);
        assert(first[shown[shown.len() - 1]] == second[shown[shown.len() - 1]]);
    }
}

/// While spoilers are hidden, the navigation shows what it shows with
/// spoilers allowed, less the records that give something away, in the
/// same order.
pub proof fn law_hidden_is_allowed_without_spoilers(data: Seq<Spirit>, series: Series)
    ensures
        visible(data, series, false) == without_spoilers(data, visible(data, series, true)),
    decreases data.len(),
{
    if data.len() > 0 {
        let rest = data.drop_last();
        law_hidden_is_allowed_without_spoilers(rest, series);
        lemma_visible(rest, series, true);
        let allowed = visible(rest, series, true);
        assert forall|k: int| 0 <= k < allowed.len() implies rest[#[trigger] allowed[k]]
            == data[allowed[k]] by {}
        lemma_without_spoilers_local(rest, data, allowed);
        if is_shown(data.last(), series, true) {
            assert(allowed.push(data.len() - 1).drop_last() =~= allowed);
        }
    }
}

proof fn lemma_members_without_spoilers(data: Seq<Spirit>, shown: Seq<int>, identity: Identity)
    ensures
        members_of(data, without_spoilers(data, shown), identity) == without_spoilers(
            data,
            members_of(data, shown, identity),
        ),
    decreases shown.len(),
{
    if shown.len() > 0 {
        let rest = shown.drop_last();
        lemma_members_without_spoilers(data, rest, identity);
        let last = shown.last();
        if !data[last].spec_spoiler() {
            assert(without_spoilers(data, rest).push(last).drop_last() =~= without_spoilers(
                data,
                rest,
            ));
        }
        if data[last].identity() == identity {
            assert(members_of(data, rest, identity).push(last).drop_last() =~= members_of(
                data,
                rest,
                identity,
            ));
        }
    }
}

/// While spoilers are hidden, no record that gives something away stands
/// under any character.
pub proof fn law_spoilers_hidden(data: Seq<Spirit>, series: Series, identity: Identity)
    ensures
        forall|k: int|
            0 <= k < members_of(data, visible(data, series, false), identity).len() ==> !data[
                #[trigger] members_of(data, visible(data, series, false), identity)[k]
            ].spec_spoiler(),
{
    let shown = visible(data, series, false);
    let members = members_of(data, shown, identity);
    lemma_visible(data, series, false);
    law_members(data, shown, identity);
    assert forall|k: int| 0 <= k < members.len() implies !data[#[trigger] members[k]].spec_spoiler() by {
        assert(shown.contains(members[k]));
        let l = choose|l: int| 0 <= l < shown.len() && shown[l] == members[k];
        assert(is_shown(data[shown[l]], series, false));
    }
}

/// Allowing spoilers adds to a character the records that give something
/// away and leaves the others as they stood: what stands under the
/// character while spoilers are hidden is what stands under it with
/// spoilers allowed, less those records, in the same order.
pub proof fn law_spoilers_keep_order(data: Seq<Spirit>, series: Series, identity: Identity)
    ensures
        members_of(data, visible(data, series, false), identity) == without_spoilers(
            data,
            members_of(data, visible(data, series, true), identity),
        ),
        forall|place: int|
            0 <= place < data.len() && data[place].spec_series() == series && data[place].identity()
                == identity ==> #[trigger] members_of(
                data,
                visible(data, series, true),
                identity,
            ).contains(place),
{
    law_hidden_is_allowed_without_spoilers(data, series);
    lemma_members_without_spoilers(data, visible(data, series, true), identity);
    lemma_visible(data, series, true);
    let shown = visible(data, series, true);
    law_members(data, shown, identity);
    assert forall|place: int|
        0 <= place < data.len() && data[place].spec_series() == series && data[place].identity()
            == identity implies #[trigger] members_of(data, shown, identity).contains(place) by {
        assert(is_shown(data[place], series, true));
        assert(shown.contains(place));
        let k = choose|k: int| 0 <= k < shown.len() && shown[k] == place;
        assert(members_of(data, shown, identity).contains(shown[k]));
    }
}

} // verus!
