//! Power cards and the decks that hold them.

use vstd::prelude::*;
use crate::board::{LandDescription, LandState};
use crate::concept::{LandKind, PowerSpeed};
use crate::rng::{DeterministicChaCha, shuffle_vec};
use crate::spirit::{ElementMap, SpiritState};
use crate::step::StepFailure;

verus! {

broadcast use vstd::std_specs::control_flow::spec_from_blanket_identity;

/// Which deck a power card belongs to.
#[derive(PartialEq, Eq, Structural, Hash, Copy, Clone, Debug)]
pub enum PowerCardKind {
    Minor,
    Major,
    Spirit(u8),
}

/// A predicate on spirits, from the closed set the cards use.
#[derive(PartialEq, Eq, Structural, Copy, Clone, Debug)]
pub enum SpiritFilter {
    Any,
}

/// A predicate on lands, from the closed set the cards use.
#[derive(PartialEq, Eq, Structural, Copy, Clone, Debug)]
pub enum LandFilter {
    Any,
    HasDahan,
    JungleOrWetlands,
}

pub open spec fn spec_spirit_filter(f: SpiritFilter, spirit: SpiritState) -> bool {
    match f {
        SpiritFilter::Any => true,
    }
}

pub fn eval_spirit_filter(f: SpiritFilter, spirit: &SpiritState) -> (r: bool)
    ensures
        r == spec_spirit_filter(f, *spirit),
{
    match f {
        SpiritFilter::Any => true,
    }
}

pub open spec fn spec_land_filter(f: LandFilter, land: LandState, desc: LandDescription) -> bool {
    match f {
        LandFilter::Any => true,
        LandFilter::HasDahan => land.dahan.len() != 0,
        LandFilter::JungleOrWetlands => desc.kind == LandKind::Jungle || desc.kind
            == LandKind::Wetlands,
    }
}

pub fn eval_land_filter(f: LandFilter, land: &LandState, desc: &LandDescription) -> (r: bool)
    ensures
        r == spec_land_filter(f, *land, *desc),
{
    match f {
        LandFilter::Any => true,
        LandFilter::HasDahan => land.dahan.len() != 0,
        LandFilter::JungleOrWetlands => desc.kind == LandKind::Jungle || desc.kind
            == LandKind::Wetlands,
    }
}

/// What a power card may target.
#[derive(PartialEq, Eq, Structural, Copy, Clone, Debug)]
pub enum PowerTargetFilter {
    Spirit(SpiritFilter),
    Land { range: u8, src: LandFilter, dst: LandFilter },
}

/// What a power card play targeted.
#[derive(PartialEq, Eq, Structural, Hash, Copy, Clone, Debug)]
pub enum PowerTarget {
    Spirit(u8),
    Land(u8),
}

/// The frame of one power card being resolved.
#[derive(PartialEq, Eq, Structural, Hash, Copy, Clone, Debug)]
pub struct PowerUsage {
    pub target: PowerTarget,
    pub using_spirit_index: u8,
    pub src_land_index: Option<u8>,
}

impl PowerUsage {
    pub fn target_land(&self) -> (r: Result<u8, StepFailure>)
        ensures
            self.target is Land ==> r == Result::<u8, StepFailure>::Ok(self.target->Land_0),
            !(self.target is Land) ==> r is Err,
            r is Err ==> r->Err_0 is RulesViolation,
    {
        match self.target {
            PowerTarget::Land(land_index) => Ok(land_index),
            _ => Err(StepFailure::RulesViolation("Power must target a land.")),
        }
    }

    pub fn target_spirit(&self) -> (r: Result<u8, StepFailure>)
        ensures
            self.target is Spirit ==> r == Result::<u8, StepFailure>::Ok(self.target->Spirit_0),
            !(self.target is Spirit) ==> r is Err,
            r is Err ==> r->Err_0 is RulesViolation,
    {
        match self.target {
            PowerTarget::Spirit(spirit_index) => Ok(spirit_index),
            _ => Err(StepFailure::RulesViolation("Power must target a spirit.")),
        }
    }
}

/// The closed catalog of power-card behaviours.
#[derive(PartialEq, Eq, Structural, Copy, Clone, Debug)]
pub enum PowerEffect {
    /// A card whose behaviour is not written yet; applying it does nothing.
    NotImplemented,
    BoonOfVigor,
    FlashFloods,
    RiversBounty,
    WashAway,
    HarbringersOfTheLightning,
    LightningsBoon,
    RagingStorm,
    ShatterHomesteads,
    CallToBloodshed,
    CallToMigrate,
    CallToTend,
    DarkAndTangledWoods,
    DelusionsOfDanger,
    DevouringAnts,
    DriftDownIntoSlumber,
}

/// The immutable description of one power card.
#[derive(Copy, Clone)]
pub struct PowerCardDescription {
    pub name: &'static str,
    pub kind: PowerCardKind,
    pub elements: ElementMap<bool>,
    pub cost: u8,
    pub speed: PowerSpeed,
    pub target_filter: PowerTargetFilter,
    pub effect: PowerEffect,
}

/// A power card in play, remembering its index in its deck of origin.
#[derive(Copy, Clone)]
pub struct PowerCard {
    pub desc: PowerCardDescription,
    pub index: usize,
}

/// A minor or major power deck.
#[derive(Clone)]
pub struct PowerDeck {
    pub draw: Vec<PowerCard>,
    pub pending: Vec<PowerCard>,
    pub discard: Vec<PowerCard>,
}

impl PowerDeck {
    pub fn new() -> (r: PowerDeck)
        ensures
            r.draw.len() == 0,
            r.pending.len() == 0,
            r.discard.len() == 0,
    {
        PowerDeck { draw: Vec::new(), pending: Vec::new(), discard: Vec::new() }
    }

    /// Numbers the catalog and shuffles it into the draw pile.
    pub fn init(&mut self, desc: &Vec<PowerCardDescription>, rng: &mut DeterministicChaCha)
        ensures
            final(self).draw.len() == desc.len(),
            final(self).pending == old(self).pending,
            final(self).discard == old(self).discard,
    {
        let mut draw: Vec<PowerCard> = Vec::new();
        let mut i: usize = 0;
        while i < desc.len()
            invariant
                draw.len() == i,
                i <= desc.len(),
            decreases desc.len() - i,
        {
            draw.push(PowerCard { desc: desc[i], index: i });
            i = i + 1;
        }
        self.draw = draw;
        shuffle_vec(&mut self.draw, rng);
    }

    /// Takes `count` cards off the top of the draw pile, shuffling the
    /// discard pile back in when the draw pile runs dry.
    pub fn draw(&mut self, rng: &mut DeterministicChaCha, count: usize) -> (r: Result<
        Vec<PowerCard>,
        StepFailure,
    >)
        ensures
            r is Ok ==> r->Ok_0.len() == count,
            final(self).pending == old(self).pending,
    {
        let mut res: Vec<PowerCard> = Vec::new();
        let mut i: usize = 0;
        while i < count
            invariant
                i <= count,
                res.len() == i,
                self.pending == old(self).pending,
            decreases count - i,
        {
            if self.draw.len() == 0 {
                self.shuffle_discard_into_draw(rng);
            }
            match self.draw.pop() {
                Some(card) => {
                    res.insert(0, card);
                },
                None => {
                    return Err(StepFailure::InternalError("power deck is out of cards"));
                },
            }
            i = i + 1;
        }
        Ok(res)
    }

    /// Draws cards straight onto the pending row.
    pub fn draw_into_pending(&mut self, rng: &mut DeterministicChaCha, count: usize) -> (r: Result<
        (),
        StepFailure,
    >)
        ensures
            r is Ok ==> final(self).pending.len() == old(self).pending.len() + count,
    {
        let drawn = self.draw(rng, count)?;
        let mut drawn = drawn;
        self.pending.append(&mut drawn);
        Ok(())
    }

    pub fn discard_pending(&mut self)
        ensures
            final(self).draw == old(self).draw,
            final(self).pending.len() == 0,
            final(self).discard@ == old(self).discard@ + old(self).pending@,
    {
        self.discard.append(&mut self.pending);
    }

    pub fn shuffle_discard_into_draw(&mut self, rng: &mut DeterministicChaCha)
        ensures
            final(self).draw.len() == old(self).draw.len() + old(self).discard.len(),
            final(self).discard.len() == 0,
            final(self).pending == old(self).pending,
    {
        self.draw.append(&mut self.discard);
        shuffle_vec(&mut self.draw, rng);
    }
}

/// One spirit's own power cards: hand, pending plays, discard, and the
/// cards forgotten for good.
#[derive(Clone)]
pub struct SpiritPowerDeck {
    pub hand: Vec<PowerCard>,
    pub pending: Vec<PowerCard>,
    pub discard: Vec<PowerCard>,
    pub forgotten: Vec<PowerCard>,
}

impl SpiritPowerDeck {
    pub fn new() -> (r: SpiritPowerDeck)
        ensures
            r.hand.len() == 0,
            r.pending.len() == 0,
            r.discard.len() == 0,
            r.forgotten.len() == 0,
    {
        SpiritPowerDeck {
            hand: Vec::new(),
            pending: Vec::new(),
            discard: Vec::new(),
            forgotten: Vec::new(),
        }
    }

    /// Numbers the spirit's card catalog into its starting hand.
    pub fn init(&mut self, desc: &Vec<PowerCardDescription>)
        ensures
            final(self).hand.len() == desc.len(),
            final(self).pending == old(self).pending,
            final(self).discard == old(self).discard,
            final(self).forgotten == old(self).forgotten,
    {
        let mut hand: Vec<PowerCard> = Vec::new();
        let mut i: usize = 0;
        while i < desc.len()
            invariant
                hand.len() == i,
                i <= desc.len(),
            decreases desc.len() - i,
        {
            hand.push(PowerCard { desc: desc[i], index: i });
            i = i + 1;
        }
        self.hand = hand;
    }

    pub fn discard_pending(&mut self)
        ensures
            final(self).hand == old(self).hand,
            final(self).pending.len() == 0,
            final(self).discard@ == old(self).discard@ + old(self).pending@,
            final(self).forgotten == old(self).forgotten,
    {
        self.discard.append(&mut self.pending);
    }

    /// Returns every discarded card to the hand.
    pub fn reclaim_discard_into_hand(&mut self)
        ensures
            final(self).hand@ == old(self).hand@ + old(self).discard@,
            final(self).pending == old(self).pending,
            final(self).discard.len() == 0,
            final(self).forgotten == old(self).forgotten,
    {
        self.hand.append(&mut self.discard);
    }
}

} // verus!
