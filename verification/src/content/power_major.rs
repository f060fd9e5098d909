//! The major power card catalog.

use vstd::prelude::*;
use crate::concept::PowerSpeed;
use crate::deck::power::{
    LandFilter, PowerCardDescription, PowerCardKind, PowerEffect, PowerTargetFilter,
};
use crate::spirit::{Element, ElementMap};

verus! {

/// The base major power cards.
pub fn make_major_power_cards() -> (r: Vec<PowerCardDescription>)
    ensures
        r.len() == 1,
{
    let mut v: Vec<PowerCardDescription> = Vec::new();
    v.push(
        PowerCardDescription {
            name: "Accelerated Rot",
            kind: PowerCardKind::Minor,
            elements: ElementMap::from_slice(&[Element::Sun, Element::Water, Element::Plant]),
            cost: 4,
            speed: PowerSpeed::Slow,
            target_filter: PowerTargetFilter::Land {
                range: 2,
                src: LandFilter::Any,
                dst: LandFilter::JungleOrWetlands,
            },
            effect: PowerEffect::NotImplemented,
        },
    );
    v
}

} // verus!
