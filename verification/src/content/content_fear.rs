//! The base fear card catalog.  The card behaviours are not written yet:
//! each level resolves as a named placeholder effect.

use vstd::prelude::*;
use crate::deck::fear::FearCardDescription;
use crate::effect::{Effect, NotImplementedEffect};

verus! {

fn fear_card(name: &'static str) -> FearCardDescription {
    FearCardDescription {
        name,
        effect_1: Effect::NotImplementedEffect(NotImplementedEffect { what: name }),
        effect_2: Effect::NotImplementedEffect(NotImplementedEffect { what: name }),
        effect_3: Effect::NotImplementedEffect(NotImplementedEffect { what: name }),
    }
}

/// The fifteen base fear cards.
pub fn make_fear_cards() -> (r: Vec<FearCardDescription>)
    ensures
        r.len() == 15,
{
    let mut v: Vec<FearCardDescription> = Vec::new();
    v.push(fear_card("Trade Suffers"));
    v.push(fear_card("Overseas Trade Seems Safer"));
    v.push(fear_card("Isolation"));
    v.push(fear_card("Belief Takes Root"));
    v.push(fear_card("Wary of the Interior"));
    v.push(fear_card("Seek Safety"));
    v.push(fear_card("Avoid the Dahan"));
    v.push(fear_card("Dahan Enheartened"));
    v.push(fear_card("Dahan Raid"));
    v.push(fear_card("Retreat!"));
    v.push(fear_card("Tall Tales of Savagery"));
    v.push(fear_card("Dahan on their Guard"));
    v.push(fear_card("Emigration Accelerates"));
    v.push(fear_card("Scapegoats"));
    v.push(fear_card("Fear of the Unseen"));
    v
}

} // verus!
