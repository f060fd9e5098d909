//! River Surges in Sunlight.

use vstd::prelude::*;
use crate::concept::{LandKind, PowerSpeed};
use crate::deck::power::{
    LandFilter, PowerCardDescription, PowerCardKind, PowerEffect, PowerTargetFilter, SpiritFilter,
};
use crate::decision::{ChooseGrowthDecision, GrowthChoice, GrowthEffect};
use crate::effect::{AddPresenceEffect, Effect, GenerateEnergyEffect, NotImplementedEffect};
use crate::game::{GameState, MAX_EFFECT_DEPTH, effect_core};
use crate::spirit::{Element, ElementMap, PresenceState};
use crate::step::StepFailure;

verus! {

broadcast use vstd::std_specs::control_flow::spec_from_blanket_identity;

pub const RIVER_TOP_TRACK_START: u8 = 1;

pub const RIVER_BOT_TRACK_START: u8 = 7;

#[derive(Clone)]
pub struct SpiritDescriptionRiver {

}

impl SpiritDescriptionRiver {
    pub fn new() -> SpiritDescriptionRiver {
        SpiritDescriptionRiver {  }
    }

    pub fn name(&self) -> &'static str {
        "River Surges in Sunlight"
    }

    pub fn all_names(&self) -> Vec<&'static str> {
        let mut v: Vec<&'static str> = Vec::new();
        v.push("River Surges in Sunlight");
        v.push("river");
        v.push("rss");
        v.push("rsis");
        v
    }

    pub fn get_power_cards(&self, spirit_index: u8) -> (r: Vec<PowerCardDescription>)
        ensures
            r.len() == 4,
    {
        let mut v: Vec<PowerCardDescription> = Vec::new();
        v.push(
            PowerCardDescription {
                name: "Boon of Vigor",
                kind: PowerCardKind::Spirit(spirit_index),
                elements: ElementMap::from_slice(
                    &[Element::Sun, Element::Water, Element::Plant],
                ),
                cost: 0,
                speed: PowerSpeed::Fast,
                target_filter: PowerTargetFilter::Spirit(SpiritFilter::Any),
                effect: PowerEffect::BoonOfVigor,
            },
        );
        v.push(
            PowerCardDescription {
                name: "Flash Floods",
                kind: PowerCardKind::Spirit(spirit_index),
                elements: ElementMap::from_slice(&[Element::Sun, Element::Water]),
                cost: 1,
                speed: PowerSpeed::Fast,
                target_filter: PowerTargetFilter::Land {
                    range: 1,
                    src: LandFilter::Any,
                    dst: LandFilter::Any,
                },
                effect: PowerEffect::FlashFloods,
            },
        );
        v.push(
            PowerCardDescription {
                name: "River's Bounty",
                kind: PowerCardKind::Spirit(spirit_index),
                elements: ElementMap::from_slice(
                    &[Element::Sun, Element::Water, Element::Animal],
                ),
                cost: 0,
                speed: PowerSpeed::Slow,
                target_filter: PowerTargetFilter::Land {
                    range: 0,
                    src: LandFilter::Any,
                    dst: LandFilter::Any,
                },
                effect: PowerEffect::RiversBounty,
            },
        );
        v.push(
            PowerCardDescription {
                name: "Wash Away",
                kind: PowerCardKind::Spirit(spirit_index),
                elements: ElementMap::from_slice(&[Element::Water, Element::Earth]),
                cost: 1,
                speed: PowerSpeed::Slow,
                target_filter: PowerTargetFilter::Land {
                    range: 1,
                    src: LandFilter::Any,
                    dst: LandFilter::Any,
                },
                effect: PowerEffect::WashAway,
            },
        );
        v
    }

    pub fn get_power_progression(&self) -> Vec<&'static str> {
        let mut v: Vec<&'static str> = Vec::new();
        v.push("Uncanny Melting");
        v.push("Nature's Resilence");
        v.push("Pull Beneath the Hungry Earth");
        v.push("Acelerated Rot");
        v.push("Song of Sanctity");
        v.push("Tsunami");
        v.push("Encompassing Ward");
        v
    }

    /// Whether the presence disc at `presence_index` may be placed: discs
    /// come off each track in order, lowest open slot first.
    pub fn may_place_presence(
        &self,
        state: &[PresenceState; 13],
        presence_index: usize,
    ) -> (r: Result<bool, StepFailure>)
        requires
            presence_index < 13,
    {
        match state[presence_index] {
            PresenceState::OnTrack(track_loc) => {
                if track_loc == RIVER_TOP_TRACK_START || track_loc == RIVER_BOT_TRACK_START {
                    Ok(true)
                } else if track_loc >= 1 && (track_loc as usize) <= 13 {
                    Ok(state[(track_loc - 1) as usize] != PresenceState::OnTrack(track_loc - 1))
                } else {
                    Ok(true)
                }
            },
            _ => Ok(true),
        }
    }

    /// River starts with one presence in the highest wetland of its board
    /// and the rest on its growth tracks.
    pub fn do_setup(&self, game: &mut GameState, spirit_index: u8) -> (r: Result<(), StepFailure>)
        ensures
            effect_core(*old(game), *final(game), r),
            r == Result::<(), StepFailure>::Err(StepFailure::DecisionRequired) ==> final(game).effect_stack@.len() > old(game).effect_stack@.len(),
    {
        if (spirit_index as usize) >= game.desc.table.boards.len() {
            return Err(StepFailure::InternalError("no board for this spirit"));
        }
        let board = &game.desc.table.boards[spirit_index as usize];
        let mut found: Option<u8> = None;
        let mut i: usize = 0;
        while i < board.lands.len()
            invariant
                i <= board.lands.len(),
            decreases board.lands.len() - i,
        {
            if board.lands[i].kind == LandKind::Wetlands {
                found = Some(board.lands[i].index_on_table);
            }
            i = i + 1;
        }
        let land_index = match found {
            Some(l) => l,
            None => { return Err(StepFailure::InternalError("no wetland on the board")) },
        };
        game.do_effect(
            Effect::AddPresenceEffect(
                AddPresenceEffect { land_index, spirit_index, presence_index: 0 },
            ),
            MAX_EFFECT_DEPTH,
        )?;
        let mut spirit = game.take_spirit(spirit_index)?;
        let mut p: usize = 1;
        while p < 13
            invariant
                1 <= p <= 13,
                game.step == old(game).step,
                game.desc == old(game).desc,
                game.effect_stack@ == old(game).effect_stack@,
                game.choices@.len() <= old(game).choices@.len(),
                spirit_index < game.spirits.len(),
            decreases 13 - p,
        {
            spirit.presence[p] = PresenceState::OnTrack(p as u8);
            p = p + 1;
        }
        game.put_spirit(spirit_index, spirit);
        Ok(())
    }

    /// River's three growth options: reclaim, gain a card and one energy;
    /// two presence at range one; or presence at range two and a card.
    pub fn do_growth(&self, game: &mut GameState, spirit_index: u8) -> (r: Result<(), StepFailure>)
        ensures
            effect_core(*old(game), *final(game), r),
            r == Result::<(), StepFailure>::Err(StepFailure::DecisionRequired) ==> final(game).effect_stack@.len() > old(game).effect_stack@.len(),
    {
        let mut a: Vec<GrowthEffect> = Vec::new();
        a.push(GrowthEffect::ReclaimAll);
        a.push(GrowthEffect::GainPowerCard);
        a.push(GrowthEffect::GenerateEnergy(1));
        let mut b: Vec<GrowthEffect> = Vec::new();
        b.push(GrowthEffect::AddPresence(1));
        b.push(GrowthEffect::AddPresence(1));
        let mut c: Vec<GrowthEffect> = Vec::new();
        c.push(GrowthEffect::AddPresence(2));
        c.push(GrowthEffect::GainPowerCard);
        let mut choices: Vec<GrowthChoice> = Vec::new();
        choices.push(GrowthChoice { effects: a });
        choices.push(GrowthChoice { effects: b });
        choices.push(GrowthChoice { effects: c });
        game.do_effect(
            Effect::ChooseGrowthDecision(
                ChooseGrowthDecision { spirit_index, count: 1, choices },
            ),
            MAX_EFFECT_DEPTH,
        )
    }

    /// River's income: energy from the top track, card plays (and perhaps
    /// a reclaim) from the bottom track.
    pub fn do_income(&self, game: &mut GameState, spirit_index: u8) -> (r: Result<(), StepFailure>)
        ensures
            effect_core(*old(game), *final(game), r),
            r == Result::<(), StepFailure>::Err(StepFailure::DecisionRequired) ==> final(game).effect_stack@.len() > old(game).effect_stack@.len(),
    {
        if (spirit_index as usize) >= game.spirits.len() {
            return Err(StepFailure::InternalError("spirit index out of range"));
        }
        let mut top_track_min: u8 = 15;
        let mut bot_track_min: u8 = 15;
        let mut p: usize = 0;
        while p < 13
            invariant
                p <= 13,
                *game == *old(game),
                spirit_index < game.spirits.len(),
            decreases 13 - p,
        {
            match game.spirits[spirit_index as usize].presence[p] {
                PresenceState::OnTrack(track_loc) => {
                    if track_loc >= RIVER_BOT_TRACK_START {
                        if track_loc < bot_track_min {
                            bot_track_min = track_loc;
                        }
                    } else {
                        if track_loc < top_track_min {
                            top_track_min = track_loc;
                        }
                    }
                },
                _ => {},
            }
            p = p + 1;
        }
        // The loop finds the lowest track slot still holding presence; the
        // lowest open slot is one less, and normative track numbering adds
        // one back, so the two cancel.
        let top_track_min = top_track_min.saturating_sub(RIVER_TOP_TRACK_START);
        let bot_track_min = bot_track_min.saturating_sub(RIVER_BOT_TRACK_START);
        let energy: u8 = match top_track_min {
            1 | 2 => 2,
            3 => 3,
            4 | 5 => 4,
            6 => 5,
            _ => 1,
        };
        let mut reclaim_one = false;
        let card_plays: u8 = match bot_track_min {
            1 | 2 => 2,
            3 => 3,
            4 => {
                reclaim_one = true;
                3
            },
            5 => {
                reclaim_one = true;
                4
            },
            6 => {
                reclaim_one = true;
                5
            },
            _ => 1,
        };
        let mut spirit = game.take_spirit(spirit_index)?;
        spirit.plays = card_plays;
        game.put_spirit(spirit_index, spirit);
        game.do_effect(
            Effect::GenerateEnergyEffect(GenerateEnergyEffect { spirit_index, energy }),
            MAX_EFFECT_DEPTH,
        )?;
        if reclaim_one {
            game.do_effect(
                Effect::NotImplementedEffect(NotImplementedEffect { what: "Reclaim One" }),
                MAX_EFFECT_DEPTH,
            )?;
        }
        Ok(())
    }
}

} // verus!
