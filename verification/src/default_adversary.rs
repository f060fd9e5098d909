//! The adversary used when none is chosen.

use vstd::prelude::*;
use crate::concept::{AdversaryDescription, InvaderActionKind};
use crate::deck::invader::InvaderCard;
use crate::effect::{AdversarySetupStandardEffect, Effect};
use crate::game::GameState;
use crate::step::StepFailure;

verus! {

broadcast use vstd::std_specs::control_flow::spec_from_blanket_identity;

#[derive(Clone)]
pub struct DefaultAdversaryDescription {

}

impl DefaultAdversaryDescription {
    pub fn new() -> DefaultAdversaryDescription {
        DefaultAdversaryDescription {  }
    }

    /// Nine fear cards in three even tiers, the standard ravage / build /
    /// explore sequence, and the standard invader deck setup.
    pub fn description(&self) -> (r: AdversaryDescription)
        ensures
            r.invader_steps.len() == 3,
    {
        let mut invader_steps: Vec<InvaderActionKind> = Vec::new();
        invader_steps.push(InvaderActionKind::Ravage);
        invader_steps.push(InvaderActionKind::Build);
        invader_steps.push(InvaderActionKind::Explore);
        let mut setup: Vec<Effect> = Vec::new();
        setup.push(Effect::AdversarySetupStandardEffect(AdversarySetupStandardEffect {  }));
        AdversaryDescription { fear_cards: (3, 3, 3), invader_steps, setup }
    }
}

/// Finds the bottom-most card of the draw pile that the predicate picks.
fn find_phase3(draw: &Vec<InvaderCard>) -> (r: Option<usize>)
    ensures
        r is Some ==> r->0 < draw.len(),
{
    let mut i: usize = 0;
    while i < draw.len()
        decreases draw.len() - i,
    {
        if let InvaderCard::Phase3(_, _) = draw[i] {
            return Some(i);
        }
        i = i + 1;
    }
    None
}

fn find_phase2(draw: &Vec<InvaderCard>) -> (r: Option<usize>)
    ensures
        r is Some ==> r->0 < draw.len(),
{
    let mut i: usize = 0;
    while i < draw.len()
        decreases draw.len() - i,
    {
        if let InvaderCard::Phase2(_) = draw[i] {
            return Some(i);
        }
        i = i + 1;
    }
    None
}

fn find_phase1(draw: &Vec<InvaderCard>) -> (r: Option<usize>)
    ensures
        r is Some ==> r->0 < draw.len(),
{
    let mut i: usize = 0;
    while i < draw.len()
        decreases draw.len() - i,
    {
        if let InvaderCard::Phase1(_) = draw[i] {
            return Some(i);
        }
        i = i + 1;
    }
    None
}

/// The standard invader deck setup: one card of each phase leaves the
/// deck before play.
pub fn invader_deck_setup_standard(game: &mut GameState) -> (r: Result<(), StepFailure>)
    ensures
        final(game).desc == old(game).desc,
        final(game).step == old(game).step,
        final(game).choices == old(game).choices,
        final(game).effect_stack == old(game).effect_stack,
        r is Err ==> r->Err_0 is InternalError,
{
    let p3 = match find_phase3(&game.invader.draw) {
        Some(i) => i,
        None => { return Err(StepFailure::InternalError("no phase three card to remove")) },
    };
    game.invader.draw.remove(p3);
    let p2 = match find_phase2(&game.invader.draw) {
        Some(i) => i,
        None => { return Err(StepFailure::InternalError("no phase two card to remove")) },
    };
    game.invader.draw.remove(p2);
    let p1 = match find_phase1(&game.invader.draw) {
        Some(i) => i,
        None => { return Err(StepFailure::InternalError("no phase one card to remove")) },
    };
    game.invader.draw.remove(p1);
    Ok(())
}

} // verus!
