//! The fear deck: earned cards, terror levels, and pending fear effects.

use vstd::prelude::*;
use crate::concept::TerrorLevel;
use crate::effect::Effect;
use crate::rng::{DeterministicChaCha, shuffle_vec};
use crate::step::StepFailure;

verus! {

/// One fear card, with one effect per terror level.
#[derive(Clone)]
pub struct FearCardDescription {
    pub name: &'static str,
    pub effect_1: Effect,
    pub effect_2: Effect,
    pub effect_3: Effect,
}

/// A fear card in play, remembering its index in the full catalog.
#[derive(Clone)]
pub struct FearCard {
    pub desc: FearCardDescription,
    pub index: usize,
}

/// The fear deck in play.  The bottom `tier3_count` cards of the draw pile
/// resolve at terror level three, the next up to `tier2_count` at level two.
#[derive(Clone)]
pub struct FearDeck {
    pub tier2_count: usize,
    pub tier3_count: usize,
    pub draw: Vec<FearCard>,
    pub pending: Vec<FearCard>,
    pub discard: Vec<FearCard>,
}

impl FearDeck {
    pub fn new() -> (r: FearDeck)
        ensures
            r.tier2_count == 0,
            r.tier3_count == 0,
            r.draw.len() == 0,
            r.pending.len() == 0,
            r.discard.len() == 0,
    {
        FearDeck {
            tier2_count: 0,
            tier3_count: 0,
            draw: Vec::new(),
            pending: Vec::new(),
            discard: Vec::new(),
        }
    }

    /// Shuffles the catalog and deals the adversary's counts of level one,
    /// two and three cards into the draw pile.  Errs when the catalog is
    /// too small for the requested counts.
    pub fn init(
        &mut self,
        desc: &Vec<FearCardDescription>,
        rng: &mut DeterministicChaCha,
        fear_card_counts: (u8, u8, u8),
    ) -> (r: Result<(), StepFailure>)
        ensures
            r is Err ==> r->Err_0 is InternalError,
            r is Ok ==> final(self).draw.len() == fear_card_counts.0 + fear_card_counts.1
                + fear_card_counts.2,
            r is Ok ==> final(self).tier3_count == fear_card_counts.2,
            r is Ok ==> final(self).tier2_count == fear_card_counts.1 + fear_card_counts.2,
            (fear_card_counts.0 + fear_card_counts.1 + fear_card_counts.2 <= desc.len())
                ==> r is Ok,
            final(self).pending == old(self).pending,
            final(self).discard == old(self).discard,
    {
        let (t1, t2, t3) = fear_card_counts;
        let total: usize = (t1 as usize) + (t2 as usize) + (t3 as usize);
        if total > desc.len() {
            return Err(StepFailure::InternalError("not enough fear cards in the catalog"));
        }
        let mut all_cards: Vec<FearCard> = Vec::new();
        let mut i: usize = 0;
        while i < desc.len()
            invariant
                all_cards.len() == i,
                i <= desc.len(),
            decreases desc.len() - i,
        {
            all_cards.push(FearCard { desc: desc[i].clone(), index: i });
            i = i + 1;
        }
        shuffle_vec(&mut all_cards, rng);
        self.tier3_count = t3 as usize;
        self.tier2_count = (t3 as usize) + (t2 as usize);
        self.draw = Vec::new();
        let mut n: usize = 0;
        while n < total
            invariant
                self.draw.len() == n,
                n <= total,
                total <= all_cards.len() + n,
                self.tier3_count == t3,
                self.tier2_count == t3 + t2,
                self.pending == old(self).pending,
                self.discard == old(self).discard,
            decreases total - n,
        {
            let card = all_cards.pop().unwrap();
            self.draw.push(card);
            n = n + 1;
        }
        Ok(())
    }

    /// The current terror level, driven by how far the draw pile has sunk.
    pub open spec fn spec_terror_level(self) -> TerrorLevel {
        if self.draw.len() <= self.tier3_count {
            TerrorLevel::III
        } else if self.draw.len() <= self.tier2_count {
            TerrorLevel::II
        } else {
            TerrorLevel::I
        }
    }

    pub fn terror_level(&self) -> (r: TerrorLevel)
        ensures
            r == self.spec_terror_level(),
    {
        let remaining_cards = self.draw.len();
        if remaining_cards <= self.tier3_count {
            TerrorLevel::III
        } else if remaining_cards <= self.tier2_count {
            TerrorLevel::II
        } else {
            TerrorLevel::I
        }
    }

    /// Moves the top card of the draw pile onto the pending row.
    pub fn draw_into_pending(&mut self) -> (r: Result<(), StepFailure>)
        ensures
            r is Err ==> r->Err_0 is InternalError,
            final(self).discard == old(self).discard,
            final(self).tier2_count == old(self).tier2_count,
            final(self).tier3_count == old(self).tier3_count,
            r is Ok ==> final(self).draw.len() == old(self).draw.len() - 1,
            r is Ok ==> final(self).pending.len() == old(self).pending.len() + 1,
            r is Err ==> *final(self) == *old(self),
            old(self).draw.len() >= 1 ==> r is Ok,
    {
        if self.draw.len() == 0 {
            return Err(StepFailure::InternalError("fear draw pile is empty"));
        }
        let card = self.draw.pop().unwrap();
        self.pending.push(card);
        Ok(())
    }

    /// Discards the whole pending row.
    pub fn advance(&mut self)
        ensures
            final(self).draw == old(self).draw,
            final(self).pending.len() == 0,
            final(self).discard@ == old(self).discard@ + old(self).pending@,
            final(self).tier2_count == old(self).tier2_count,
            final(self).tier3_count == old(self).tier3_count,
    {
        self.discard.append(&mut self.pending);
    }
}

} // verus!
