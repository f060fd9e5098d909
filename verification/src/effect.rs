//! The closed catalog of effects: units of game-state mutation, some of
//! which are decisions that consume an externally supplied choice.

use vstd::prelude::*;
use crate::deck::power::PowerCardDescription;
use crate::decision::{
    AddPresenceDecision, CardPlaysDecision, CascadeBlightDecision, ChooseEffectDecision,
    ChooseGrowthDecision, DestroyInvadersDecision, DoCardPlayDecision, DoCardPlaysDecision,
    DoDamageToDahanDecision, DoDamageToInvadersDecision, GainMajorPowerCardDecision,
    GainMinorPowerCardDecision, GainPowerCardDecision, GatherDecision, PushDecision,
};
use crate::piece::{InvaderKind, InvaderMap};

verus! {

/// Adds one blight to a land, taking it from the blight card; a second
/// blight cascades to an adjacent land of the player's choice.
#[derive(Clone)]
pub struct AddBlightEffect {
    pub land_index: u8,
}

/// Moves one presence disc of a spirit from wherever it is onto a land.
#[derive(Clone)]
pub struct AddPresenceEffect {
    pub land_index: u8,
    pub spirit_index: u8,
    pub presence_index: u8,
}

/// Adds fresh invaders of one kind to a land.
#[derive(Clone)]
pub struct AddInvaderEffect {
    pub land_index: u8,
    pub kind: InvaderKind,
    pub count: u8,
}

/// Adds fresh dahan to a land.
#[derive(Clone)]
pub struct AddDahanEffect {
    pub land_index: u8,
    pub count: u8,
}

/// Damage dealt to the land itself; two or more blights it.
#[derive(Clone)]
pub struct DoDamageToLandEffect {
    pub land_index: u8,
    pub damage: u16,
}

/// The invaders in a land attack the dahan and the land.
#[derive(Clone)]
pub struct DoInvaderAttackEffect {
    pub land_index: u8,
}

/// The dahan in a land strike back at the invaders.
#[derive(Clone)]
pub struct DoDahanAttackEffect {
    pub land_index: u8,
}

/// Deals the same damage to every invader of the selected kinds in a land.
#[derive(Clone)]
pub struct DoDamageToEachInvaderEffect {
    pub land_index: u8,
    pub damage: u16,
    pub kinds: InvaderMap<bool>,
}

/// Generates fear, draining the fear pool and earning fear cards.
#[derive(Clone)]
pub struct GenerateFearEffect {
    pub fear: u8,
    pub land_index: Option<u8>,
}

/// Grants energy to a spirit.
#[derive(Clone)]
pub struct GenerateEnergyEffect {
    pub spirit_index: u8,
    pub energy: u8,
}

/// Returns all of a spirit's discarded cards to its hand.
#[derive(Clone)]
pub struct ReclaimAllEffect {
    pub spirit_index: u8,
}

/// An invader explore step in one land.
#[derive(Clone)]
pub struct ExploreEffect {
    pub land_index: u8,
}

/// An invader build step in one land.
#[derive(Clone)]
pub struct BuildEffect {
    pub land_index: u8,
}

/// An invader ravage step in one land.
#[derive(Clone)]
pub struct RavageEffect {
    pub land_index: u8,
}

/// A placeholder for content that is not written yet; does nothing.
#[derive(Clone)]
pub struct NotImplementedEffect {
    pub what: &'static str,
}

/// Grants defense to a land until time passes.
#[derive(Clone)]
pub struct PersistDefenseEffect {
    pub land_index: u8,
    pub defense: u16,
}

/// Returns blight from a land to the blight card.
#[derive(Clone)]
pub struct RemoveBlightEffect {
    pub land_index: u8,
    pub count: u8,
}

/// Removes (or destroys) one dahan from a land.
#[derive(Clone)]
pub struct RemoveDahanEffect {
    pub land_index: u8,
    pub dahan_index: usize,
    pub destroyed: bool,
}

/// Removes (or destroys) one invader from a land; towns and cities
/// generate fear when destroyed.
#[derive(Clone)]
pub struct RemoveInvaderEffect {
    pub land_index: u8,
    pub invader_index: usize,
    pub destroyed: bool,
}

/// Lets a spirit play some of its slow cards as fast this round.
#[derive(Clone)]
pub struct MayPlaySlowsAsFastsEffect {
    pub spirit_index: u8,
    pub amount: u8,
}

/// An atomic sub-effect: what one chosen option of a choice-posing
/// effect does.  The catalog is closed; each variant is interpreted by
/// the effect machinery.
#[derive(Clone)]
pub enum SubEffect {
    /// A sub-effect that is not written yet; does nothing.
    NotImplemented(&'static str),
    /// Ends the game at once in victory, with the given reason.
    Victory(&'static str),
    /// Ends the game at once in defeat, with the given reason.
    Defeat(&'static str),
    /// One damage per dahan to the invaders in the targeted land.
    BloodshedDamage,
    /// Gather up to three dahan into the targeted land.
    BloodshedGather,
    /// Remove one blight from the targeted land.
    TendRemoveBlight,
    /// Push up to three dahan from the targeted land.
    TendPush,
    /// Push one explorer from the targeted land.
    DelusionsPushExplorer,
    /// Two fear in the targeted land.
    DelusionsFear,
}

/// The adversary's setup, run as an effect at game start: by default one
/// card of each phase leaves the invader deck.
#[derive(Clone)]
pub struct AdversarySetupStandardEffect {

}

/// Any effect the game can apply.  A closed tagged union stands in for
/// dynamic dispatch: the catalog of effects is finite, and the solver must
/// be able to inspect the one on top of the stack.
#[derive(Clone)]
pub enum Effect {
    AddBlightEffect(AddBlightEffect),
    AddPresenceEffect(AddPresenceEffect),
    AddInvaderEffect(AddInvaderEffect),
    AddDahanEffect(AddDahanEffect),
    DoDamageToLandEffect(DoDamageToLandEffect),
    DoInvaderAttackEffect(DoInvaderAttackEffect),
    DoDahanAttackEffect(DoDahanAttackEffect),
    DoDamageToEachInvaderEffect(DoDamageToEachInvaderEffect),
    GenerateFearEffect(GenerateFearEffect),
    GenerateEnergyEffect(GenerateEnergyEffect),
    ReclaimAllEffect(ReclaimAllEffect),
    ExploreEffect(ExploreEffect),
    BuildEffect(BuildEffect),
    RavageEffect(RavageEffect),
    NotImplementedEffect(NotImplementedEffect),
    PersistDefenseEffect(PersistDefenseEffect),
    RemoveBlightEffect(RemoveBlightEffect),
    RemoveDahanEffect(RemoveDahanEffect),
    RemoveInvaderEffect(RemoveInvaderEffect),
    MayPlaySlowsAsFastsEffect(MayPlaySlowsAsFastsEffect),
    AdversarySetupStandardEffect(AdversarySetupStandardEffect),
    /// A power card resolved as an effect.
    PowerCard(PowerCardDescription),
    CardPlaysDecision(CardPlaysDecision),
    DoCardPlayDecision(DoCardPlayDecision),
    DoCardPlaysDecision(DoCardPlaysDecision),
    CascadeBlightDecision(CascadeBlightDecision),
    DoDamageToDahanDecision(DoDamageToDahanDecision),
    DoDamageToInvadersDecision(DoDamageToInvadersDecision),
    DestroyInvadersDecision(DestroyInvadersDecision),
    ChooseGrowthDecision(ChooseGrowthDecision),
    GainMinorPowerCardDecision(GainMinorPowerCardDecision),
    GainMajorPowerCardDecision(GainMajorPowerCardDecision),
    GainPowerCardDecision(GainPowerCardDecision),
    AddPresenceDecision(AddPresenceDecision),
    ChooseEffectDecision(ChooseEffectDecision),
    PushDecision(PushDecision),
    GatherDecision(GatherDecision),
}

impl Effect {
    /// Whether this effect is a decision: one that may consume a choice
    /// from the queue and can enumerate its valid choices.
    pub open spec fn spec_is_decision(self) -> bool {
        match self {
            Effect::CardPlaysDecision(_) => true,
            Effect::DoCardPlayDecision(_) => true,
            Effect::DoCardPlaysDecision(_) => true,
            Effect::CascadeBlightDecision(_) => true,
            Effect::DoDamageToDahanDecision(_) => true,
            Effect::DoDamageToInvadersDecision(_) => true,
            Effect::DestroyInvadersDecision(_) => true,
            Effect::ChooseGrowthDecision(_) => true,
            Effect::GainMinorPowerCardDecision(_) => true,
            Effect::GainMajorPowerCardDecision(_) => true,
            Effect::GainPowerCardDecision(_) => true,
            Effect::AddPresenceDecision(_) => true,
            Effect::ChooseEffectDecision(_) => true,
            Effect::PushDecision(_) => true,
            Effect::GatherDecision(_) => true,
            _ => false,
        }
    }

    /// Effects that can reach no decision: applying one never rejects a
    /// choice, whatever is in the queue.
    pub open spec fn spec_never_rejects(self) -> bool {
        match self {
            Effect::AddPresenceEffect(_) => true,
            Effect::AddInvaderEffect(_) => true,
            Effect::AddDahanEffect(_) => true,
            Effect::GenerateFearEffect(_) => true,
            Effect::GenerateEnergyEffect(_) => true,
            Effect::ReclaimAllEffect(_) => true,
            Effect::ExploreEffect(_) => true,
            Effect::BuildEffect(_) => true,
            Effect::NotImplementedEffect(_) => true,
            Effect::PersistDefenseEffect(_) => true,
            Effect::RemoveBlightEffect(_) => true,
            Effect::RemoveDahanEffect(_) => true,
            Effect::RemoveInvaderEffect(_) => true,
            Effect::MayPlaySlowsAsFastsEffect(_) => true,
            Effect::AdversarySetupStandardEffect(_) => true,
            Effect::GainMinorPowerCardDecision(_) => true,
            Effect::GainMajorPowerCardDecision(_) => true,
            _ => false,
        }
    }

    pub fn is_decision(&self) -> (r: bool)
        ensures
            r == self.spec_is_decision(),
    {
        match self {
            Effect::CardPlaysDecision(_) => true,
            Effect::DoCardPlayDecision(_) => true,
            Effect::DoCardPlaysDecision(_) => true,
            Effect::CascadeBlightDecision(_) => true,
            Effect::DoDamageToDahanDecision(_) => true,
            Effect::DoDamageToInvadersDecision(_) => true,
            Effect::DestroyInvadersDecision(_) => true,
            Effect::ChooseGrowthDecision(_) => true,
            Effect::GainMinorPowerCardDecision(_) => true,
            Effect::GainMajorPowerCardDecision(_) => true,
            Effect::GainPowerCardDecision(_) => true,
            Effect::AddPresenceDecision(_) => true,
            Effect::ChooseEffectDecision(_) => true,
            Effect::PushDecision(_) => true,
            Effect::GatherDecision(_) => true,
            _ => false,
        }
    }
}

} // verus!
