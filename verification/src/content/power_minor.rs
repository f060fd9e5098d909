//! The minor power card catalog.

use vstd::prelude::*;
use crate::concept::PowerSpeed;
use crate::deck::power::{
    LandFilter, PowerCardDescription, PowerCardKind, PowerEffect, PowerTargetFilter, SpiritFilter,
};
use crate::spirit::{Element, ElementMap};

verus! {

fn elements(slice: &[Element]) -> ElementMap<bool> {
    ElementMap::from_slice(slice)
}

/// The base minor power cards.
pub fn make_minor_power_cards() -> (r: Vec<PowerCardDescription>)
    ensures
        r.len() == 12,
{
    let mut v: Vec<PowerCardDescription> = Vec::new();
    v.push(
        PowerCardDescription {
            name: "Call of The Dahan Ways",
            kind: PowerCardKind::Minor,
            elements: elements(&[Element::Moon, Element::Water, Element::Animal]),
            cost: 1,
            speed: PowerSpeed::Slow,
            target_filter: PowerTargetFilter::Land {
                range: 1,
                src: LandFilter::Any,
                dst: LandFilter::HasDahan,
            },
            effect: PowerEffect::NotImplemented,
        },
    );
    v.push(
        PowerCardDescription {
            name: "Call to Bloodshed",
            kind: PowerCardKind::Minor,
            elements: elements(&[Element::Sun, Element::Fire, Element::Animal]),
            cost: 1,
            speed: PowerSpeed::Slow,
            target_filter: PowerTargetFilter::Land {
                range: 1,
                src: LandFilter::Any,
                dst: LandFilter::HasDahan,
            },
            effect: PowerEffect::CallToBloodshed,
        },
    );
    v.push(
        PowerCardDescription {
            name: "Call to Isolation",
            kind: PowerCardKind::Minor,
            elements: elements(&[Element::Sun, Element::Air, Element::Animal]),
            cost: 0,
            speed: PowerSpeed::Fast,
            target_filter: PowerTargetFilter::Land {
                range: 1,
                src: LandFilter::Any,
                dst: LandFilter::HasDahan,
            },
            effect: PowerEffect::NotImplemented,
        },
    );
    v.push(
        PowerCardDescription {
            name: "Call to Migrate",
            kind: PowerCardKind::Minor,
            elements: elements(&[Element::Fire, Element::Air, Element::Animal]),
            cost: 1,
            speed: PowerSpeed::Slow,
            target_filter: PowerTargetFilter::Land {
                range: 1,
                src: LandFilter::Any,
                dst: LandFilter::Any,
            },
            effect: PowerEffect::CallToMigrate,
        },
    );
    v.push(
        PowerCardDescription {
            name: "Call to Tend",
            kind: PowerCardKind::Minor,
            elements: elements(&[Element::Water, Element::Plant, Element::Animal]),
            cost: 1,
            speed: PowerSpeed::Slow,
            target_filter: PowerTargetFilter::Land {
                range: 1,
                src: LandFilter::Any,
                dst: LandFilter::HasDahan,
            },
            effect: PowerEffect::CallToTend,
        },
    );
    v.push(
        PowerCardDescription {
            name: "Dark and Tangled Woods",
            kind: PowerCardKind::Minor,
            elements: elements(&[Element::Moon, Element::Earth, Element::Plant]),
            cost: 1,
            speed: PowerSpeed::Fast,
            target_filter: PowerTargetFilter::Land {
                range: 1,
                src: LandFilter::Any,
                dst: LandFilter::Any,
            },
            effect: PowerEffect::DarkAndTangledWoods,
        },
    );
    v.push(
        PowerCardDescription {
            name: "Delusions of Danger",
            kind: PowerCardKind::Minor,
            elements: elements(&[Element::Sun, Element::Moon, Element::Air]),
            cost: 1,
            speed: PowerSpeed::Fast,
            target_filter: PowerTargetFilter::Land {
                range: 1,
                src: LandFilter::Any,
                dst: LandFilter::Any,
            },
            effect: PowerEffect::DelusionsOfDanger,
        },
    );
    v.push(
        PowerCardDescription {
            name: "Devouring Ants",
            kind: PowerCardKind::Minor,
            elements: elements(&[Element::Sun, Element::Earth, Element::Animal]),
            cost: 1,
            speed: PowerSpeed::Slow,
            target_filter: PowerTargetFilter::Land {
                range: 1,
                src: LandFilter::Any,
                dst: LandFilter::Any,
            },
            effect: PowerEffect::DevouringAnts,
        },
    );
    v.push(
        PowerCardDescription {
            name: "Dirft Down into Slumber",
            kind: PowerCardKind::Minor,
            elements: elements(&[Element::Air, Element::Earth, Element::Plant]),
            cost: 0,
            speed: PowerSpeed::Fast,
            target_filter: PowerTargetFilter::Land {
                range: 2,
                src: LandFilter::Any,
                dst: LandFilter::Any,
            },
            effect: PowerEffect::DriftDownIntoSlumber,
        },
    );
    v.push(
        PowerCardDescription {
            name: "Drought",
            kind: PowerCardKind::Minor,
            elements: elements(&[Element::Sun, Element::Fire, Element::Earth]),
            cost: 1,
            speed: PowerSpeed::Slow,
            target_filter: PowerTargetFilter::Land {
                range: 1,
                src: LandFilter::Any,
                dst: LandFilter::Any,
            },
            effect: PowerEffect::NotImplemented,
        },
    );
    v.push(
        PowerCardDescription {
            name: "Elemental Boon",
            kind: PowerCardKind::Minor,
            elements: elements(&[]),
            cost: 1,
            speed: PowerSpeed::Fast,
            target_filter: PowerTargetFilter::Spirit(SpiritFilter::Any),
            effect: PowerEffect::NotImplemented,
        },
    );
    v.push(
        PowerCardDescription {
            name: "Encompassing Ward",
            kind: PowerCardKind::Minor,
            elements: elements(&[Element::Sun, Element::Water, Element::Earth]),
            cost: 1,
            speed: PowerSpeed::Fast,
            target_filter: PowerTargetFilter::Spirit(SpiritFilter::Any),
            effect: PowerEffect::NotImplemented,
        },
    );
    v
}

} // verus!
