//! The pictures that the pages of a character load, so that they can be
//! fetched ahead of time.

use crate::models::{Class, Element, Sephira, Spirit};
use crate::pattern::PatternError;
use crate::utils::is_listing;
use vstd::prelude::*;

verus! {

/// An address that may be missing, as a list of one address or of none.
pub open spec fn optional(address: Option<Seq<char>>) -> Seq<Seq<char>> {
    match address {
        Some(address) => seq![address],
        None => Seq::empty(),
    }
}

/// The icon and the guardian of each sephira, as far as it has them, in
/// the order of the sephiras.
pub open spec fn sephira_resources(sephiras: Seq<Sephira>) -> Seq<Seq<char>>
    decreases sephiras.len(),
{
    if sephiras.len() == 0 {
        Seq::empty()
    } else {
        sephira_resources(sephiras.drop_last()) + optional(sephiras.last().spec_icon()) + optional(
            sephiras.last().spec_guardian(),
        )
    }
}

/// The badge of a class, where the class is known.
pub open spec fn class_resource(class: Option<Class>) -> Seq<Seq<char>> {
    match class {
        Some(class) => seq![class.spec_icon()],
        None => Seq::empty(),
    }
}

/// The icon of each element that has one, in the order of the elements.
pub open spec fn element_resources(elements: Seq<Element>) -> Seq<Seq<char>>
    decreases elements.len(),
{
    if elements.len() == 0 {
        Seq::empty()
    } else {
        element_resources(elements.drop_last()) + optional(elements.last().spec_icon())
    }
}

/// The pictures of a record whose elements are listed as `elements` and
/// whose full picture is `image`: its face, its full picture, what its
/// sephiras show, the badges of its four classes and of its rank, and the
/// icons of its elements.
pub open spec fn spec_resources(spirit: Spirit, image: Option<Seq<char>>, elements: Seq<Element>) -> Seq<
    Seq<char>,
> {
    optional(spirit.spec_icon()) + optional(image) + sephira_resources(spirit.sephiras@)
        + class_resource(spirit.class) + class_resource(spirit.spacequake_class) + class_resource(
        spirit.angel_class,
    ) + class_resource(spirit.astraldress_class) + class_resource(spirit.rank) + element_resources(
        elements,
    )
}

/// The views of a list of texts.
pub open spec fn texts(list: Seq<String>) -> Seq<Seq<char>> {
    Seq::new(list.len(), |k: int| list[k]@)
}

fn push_optional(list: &mut Vec<String>, address: Option<String>)
    ensures
        texts(final(list)@) == texts(old(list)@) + optional(crate::text::opt_view(address)),
{
    let ghost before = list@;
    match address {
        Some(address) => {
            list.push(address);
            assert(texts(list@) =~= texts(before) + seq![address@]);
        },
        None => {
            assert(texts(list@) =~= texts(before) + Seq::<Seq<char>>::empty());
        },
    }
}

fn push_class(list: &mut Vec<String>, class: &Option<Class>)
    ensures
        texts(final(list)@) == texts(old(list)@) + class_resource(*class),
{
    let ghost before = list@;
    match class {
        Some(class) => {
            let badge = class.icon();
            list.push(badge.0);
            assert(texts(list@) =~= texts(before) + seq![class.spec_icon()]);
        },
        None => {
            assert(texts(list@) =~= texts(before) + Seq::<Seq<char>>::empty());
        },
    }
}

/// The pictures that the pages of `spirit` load. Fails only where the
/// pattern engine cannot tell what kind of picture the record files.
pub fn resources(spirit: &Spirit) -> (r: Result<Vec<String>, PatternError>)
    ensures
        match r {
            Ok(list) => exists|elements: Seq<Element>|
                {
                    &&& #[trigger] is_listing(elements, spirit.elements@)
                    &&& spirit.spec_image() matches Ok(image)
                    &&& texts(list@) == spec_resources(*spirit, image, elements)
                },
            Err(_) => spirit.spec_image() is Err,
        },
{
    let image = match spirit.image() {
        Ok(image) => image,
        Err(error) => {
            return Err(error);
        },
    };
    let ghost image_view = crate::text::opt_view(image);
    let mut list: Vec<String> = Vec::new();
    assert(texts(list@) =~= Seq::<Seq<char>>::empty());
    push_optional(&mut list, spirit.icon());
    push_optional(&mut list, image);
    let ghost head = texts(list@);
    assert(head =~= optional(spirit.spec_icon()) + optional(image_view));
    let mut i: usize = 0;
    while i < spirit.sephiras.len()
        invariant
            i <= spirit.sephiras.len(),
            texts(list@) == head + sephira_resources(spirit.sephiras@.take(i as int)),
        decreases spirit.sephiras.len() - i,
    {
        proof {
            assert(spirit.sephiras@.take(i + 1).drop_last() =~= spirit.sephiras@.take(i as int));
        }
        let ghost before = texts(list@);
        push_optional(&mut list, spirit.sephiras[i].icon());
        push_optional(&mut list, spirit.sephiras[i].guardian());
        proof {
            assert(texts(list@) =~= head + sephira_resources(spirit.sephiras@.take(i + 1)));
        }
        i += 1;
    }
    proof {
        assert(spirit.sephiras@.take(i as int) =~= spirit.sephiras@);
    }
    push_class(&mut list, &spirit.class);
    push_class(&mut list, &spirit.spacequake_class);
    push_class(&mut list, &spirit.angel_class);
    push_class(&mut list, &spirit.astraldress_class);
    push_class(&mut list, &spirit.rank);
    let ghost middle = texts(list@);
    let elements = spirit.elements.to_vec();
    let mut k: usize = 0;
    while k < elements.len()
        invariant
            k <= elements.len(),
            texts(list@) == middle + element_resources(elements@.take(k as int)),
        decreases elements.len() - k,
    {
        proof {
            assert(elements@.take(k + 1).drop_last() =~= elements@.take(k as int));
        }
        push_optional(&mut list, elements[k].icon());
        proof {
            assert(texts(list@) =~= middle + element_resources(elements@.take(k + 1)));
        }
        k += 1;
    }
    proof {
        assert(elements@.take(k as int) =~= elements@);
        assert(is_listing(elements@, spirit.elements@));
        assert(texts(list@) =~= spec_resources(*spirit, image_view, elements@));
    }
    Ok(list)
}

} // verus!
