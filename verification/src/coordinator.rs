//! The root coordinator: what to show for the current route and the list
//! of records, and when to lead the address back to the navigation view.

use crate::models::spirit::form_slug;
use crate::models::Spirit;
use crate::router::{
    details_path, hash_path, is_segment, law_details_path_matches, match_route, HashRouter,
    Navigation, Route, RouteView, RouterError, HOME_PATH,
};
use crate::text::{opt_view, str_eq};
use vstd::prelude::*;

verus! {

/// What the root shows.
#[derive(Debug, Clone, Copy, PartialEq, Eq, Structural)]
pub enum Screen {
    /// Nothing: the list of records is not there yet.
    Nothing,
    /// The detail page of the record at this place of the list.
    Details(usize),
    /// The navigation view, the address being led back to it.
    Navigation,
}

/// Whether `spirit` is the record that a detail route of `name` and `form`
/// asks for: its first name is `name` and the address form of its form is
/// `form`.
pub open spec fn answers(spirit: Spirit, name: Seq<char>, form: Seq<char>) -> bool {
    spirit.firstname@ == name && form_slug(spirit.form@) == Some(form)
}

/// The place of the first record of `data` that answers `name` and `form`.
pub open spec fn spec_find(data: Seq<Spirit>, name: Seq<char>, form: Seq<char>) -> Option<int>
    decreases data.len(),
{
    if data.len() == 0 {
        None
    } else {
        match spec_find(data.drop_last(), name, form) {
            Some(place) => Some(place),
            None => if answers(data.last(), name, form) {
                Some(data.len() - 1)
            } else {
                None
            },
        }
    }
}

/// What the root shows for `route` and `data`: nothing while the list is
/// empty; the detail page of the record that the route asks for, where
/// there is one; the navigation view otherwise.
pub open spec fn spec_resolve(route: RouteView, data: Seq<Spirit>) -> Screen {
    if data.len() == 0 {
        Screen::Nothing
    } else {
        match route {
            RouteView::SpiritDetails { name, form } => match spec_find(data, name, form) {
                Some(place) => Screen::Details(place as usize),
                None => Screen::Navigation,
            },
            RouteView::Home => Screen::Navigation,
        }
    }
}

/// What is found is the first record that answers, and nothing is found
/// only where none does.
pub proof fn lemma_find(data: Seq<Spirit>, name: Seq<char>, form: Seq<char>)
    ensures
        match spec_find(data, name, form) {
            Some(place) => {
                &&& 0 <= place < data.len()
                &&& answers(data[place], name, form)
                &&& forall|j: int| 0 <= j < place ==> !answers(#[trigger] data[j], name, form)
            },
            None => forall|j: int| 0 <= j < data.len() ==> !answers(#[trigger] data[j], name, form),
        },
    decreases data.len(),
{
    if data.len() > 0 {
        let rest = data.drop_last();
        lemma_find(rest, name, form);
        match spec_find(rest, name, form) {
            Some(place) => {
                assert(rest[place] == data[place]);
                assert forall|j: int| 0 <= j < place implies !answers(
                    #[trigger] data[j],
                    name,
                    form,
                ) by {
                    assert(rest[j] == data[j]);
                }
            },
            None => {
                assert forall|j: int| 0 <= j < data.len() - 1 implies !answers(
                    #[trigger] data[j],
                    name,
                    form,
                ) by {
                    assert(rest[j] == data[j]);
                }
            },
        }
    }
}

proof fn lemma_find_first(data: Seq<Spirit>, name: Seq<char>, form: Seq<char>, place: int)
    requires
        0 <= place < data.len(),
        answers(data[place], name, form),
        forall|j: int| 0 <= j < place ==> !answers(#[trigger] data[j], name, form),
    ensures
        spec_find(data, name, form) == Some(place),
{
    lemma_find(data, name, form);
}

/// The place of the first record of `data` whose first name is `name` and
/// whose form has the address form `form`.
pub fn find_spirit(data: &Vec<Spirit>, name: &str, form: &str) -> (r: Option<usize>)
    ensures
        match r {
            Some(place) => spec_find(data@, name@, form@) == Some(place as int),
            None => spec_find(data@, name@, form@) is None,
        },
{
    let mut i: usize = 0;
    while i < data.len()
        invariant
            i <= data.len(),
            forall|j: int| 0 <= j < i ==> !answers(#[trigger] data@[j], name@, form@),
        decreases data.len() - i,
    {
        if str_eq(data[i].firstname.as_str(), name) {
            match data[i].form_url() {
                Ok(slug) => {
                    if str_eq(slug.as_str(), form) {
                        proof {
                            lemma_find_first(data@, name@, form@, i as int);
                        }
                        return Some(i);
                    }
                },
                Err(_) => {},
            }
        }
        i += 1;
    }
    proof {
        lemma_find(data@, name@, form@);
    }
    None
}

/// What the root shows for `route` and `data`.
pub fn resolve(route: &Route, data: &Vec<Spirit>) -> (r: Screen)
    ensures
        r == spec_resolve(route@, data@),
{
    if data.len() == 0 {
        return Screen::Nothing;
    }
    match route {
        Route::SpiritDetails { name, form } => {
            proof {
                lemma_find(data@, name@, form@);
            }
            match find_spirit(data, name.as_str(), form.as_str()) {
                Some(place) => Screen::Details(place),
                None => Screen::Navigation,
            }
        },
        Route::Home => Screen::Navigation,
    }
}

/// What one pass of the root yields: what to show, the marks to set on the
/// root element, and what to do to the address.
#[derive(Debug, Clone, PartialEq, Eq)]
pub struct Frame {
    pub screen: Screen,
    /// The mark of the route: the name of its variant once the pass is
    /// over.
    pub id: &'static str,
    /// The mark of the record: its first name, where a detail page is
    /// shown.
    pub class: Option<String>,
    /// The navigation to carry out, where the navigation view is shown.
    pub navigation: Option<Navigation>,
}

/// The record mark of a screen.
pub open spec fn spec_class(screen: Screen, data: Seq<Spirit>) -> Option<Seq<char>> {
    match screen {
        Screen::Details(place) => Some(data[place as int].firstname@),
        _ => None,
    }
}

/// One pass of the root over the current route and the list of records.
/// Where the navigation view is shown the router is led back to the path
/// of the navigation view, and the frame says how to replace the address.
/// Fails where no router is mounted.
pub fn coordinate(router: &mut HashRouter, data: &Vec<Spirit>) -> (r: Result<Frame, RouterError>)
    ensures
        match old(router)@ {
            None => r matches Err(error) && error == RouterError::NotMounted && final(router)@ is None,
            Some(path) => {
                let screen = spec_resolve(match_route(path), data@);
                &&& r matches Ok(frame)
                &&& frame.screen == screen
                &&& opt_view(frame.class) == spec_class(screen, data@)
                &&& HashRouter::spec_route(final(router)@) matches Some(route)
                &&& frame.id@ == Route::spec_variant_name(route)
                &&& if screen == Screen::Navigation {
                    &&& final(router)@ == Some(HOME_PATH@)
                    &&& frame.navigation matches Some(navigation)
                    &&& navigation.changed == (path != HOME_PATH@)
                    &&& navigation.url@ == "#"@ + HOME_PATH@
                } else {
                    &&& final(router)@ == old(router)@
                    &&& frame.navigation is None
                }
            },
        },
{
    let route = match router.route() {
        Some(route) => route,
        None => {
            return Err(RouterError::NotMounted);
        },
    };
    let screen = resolve(&route, data);
    match screen {
        Screen::Navigation => {
            match router.navigate_replace(HOME_PATH) {
                Ok(navigation) => {
                    let home = Route::match_path(HOME_PATH);
                    Ok(Frame { screen, id: home.variant_name(), class: None, navigation: Some(navigation) })
                },
                Err(error) => Err(error),
            }
        },
        Screen::Details(place) => {
            proof {
                if let RouteView::SpiritDetails { name, form } = route@ {
                    lemma_find(data@, name, form);
                }
            }
            Ok(
                Frame {
                    screen,
                    id: route.variant_name(),
                    class: Some(data[place].firstname.clone()),
                    navigation: None,
                },
            )
        },
        Screen::Nothing => Ok(Frame { screen, id: route.variant_name(), class: None, navigation: None }),
    }
}

/// The address form leads back to the record: a detail route made of the
/// first name of a record and the address form of its form finds that
/// record, unless an earlier record of the list has the same first name and
/// the same address form.
pub proof fn law_round_trip(data: Seq<Spirit>, place: int)
    requires
        0 <= place < data.len(),
        form_slug(data[place].form@) is Some,
        forall|j: int|
            0 <= j < place ==> !(#[trigger] data[j].firstname@ == data[place].firstname@
                && form_slug(data[j].form@) == form_slug(data[place].form@)),
    ensures
        spec_find(data, data[place].firstname@, form_slug(data[place].form@)->0) == Some(place),
{
    let name = data[place].firstname@;
    let form = form_slug(data[place].form@)->0;
    assert forall|j: int| 0 <= j < place implies !answers(#[trigger] data[j], name, form) by {
        assert(!(data[j].firstname@ == data[place].firstname@ && form_slug(data[j].form@)
            == form_slug(data[place].form@)));
    }
    lemma_find_first(data, name, form, place);
}

/// The link of a record leads to its detail page: the hash made of the
/// prefix of detail pages, the first name of a record and the address form
/// of its form names the route that finds that record. This holds where
/// the first name and the address form can each stand as a segment of a
/// path, and no earlier record of the list has the same two.
pub proof fn law_link_round_trip(data: Seq<Spirit>, place: int)
    requires
        0 <= place < data.len() <= usize::MAX,
        form_slug(data[place].form@) matches Some(slug) && is_segment(slug),
        is_segment(data[place].firstname@),
        forall|j: int|
            0 <= j < place ==> !(#[trigger] data[j].firstname@ == data[place].firstname@
                && form_slug(data[j].form@) == form_slug(data[place].form@)),
    ensures
        spec_resolve(
            match_route(
                hash_path(
                    "#"@ + details_path(data[place].firstname@, form_slug(data[place].form@)->0),
                ),
            ),
            data,
        ) == Screen::Details(place as usize),
{
    let name = data[place].firstname@;
    let form = form_slug(data[place].form@)->0;
    let path = details_path(name, form);
    reveal_strlit("#");
    assert(("#"@ + path).skip(1) =~= path);
    law_details_path_matches(name, form);
    law_round_trip(data, place);
}

} // verus!
