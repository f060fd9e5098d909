//! The invader deck: phased explore/build/ravage cards.

use vstd::prelude::*;
use std::collections::VecDeque;
use crate::board::LandDescription;
use crate::concept::{InvaderActionKind, LandKind};
use crate::rng::{DeterministicChaCha, shuffle_range};
use crate::step::StepFailure;

verus! {

/// One invader card; later phases target more kinds of land.
#[derive(PartialEq, Eq, Structural, Copy, Clone, Debug)]
pub enum InvaderCard {
    Phase1(LandKind),
    Phase2(LandKind),
    Phase3(LandKind, LandKind),
}

impl InvaderCard {
    /// Which lands the card targets.  The phase-two coastal card (printed
    /// with the ocean symbol) targets every coastal land that is not ocean.
    pub open spec fn spec_can_target(self, land: LandDescription) -> bool {
        match self {
            InvaderCard::Phase1(kind) => kind == land.kind,
            InvaderCard::Phase2(LandKind::Ocean) => land.kind != LandKind::Ocean
                && land.is_coastal,
            InvaderCard::Phase2(kind) => kind == land.kind,
            InvaderCard::Phase3(kind_a, kind_b) => kind_a == land.kind || kind_b == land.kind,
        }
    }

    pub fn can_target(&self, land: &LandDescription) -> (r: bool)
        ensures
            r == self.spec_can_target(*land),
    {
        match *self {
            InvaderCard::Phase1(kind) => kind == land.kind,
            InvaderCard::Phase2(LandKind::Ocean) => land.kind != LandKind::Ocean
                && land.is_coastal,
            InvaderCard::Phase2(kind) => kind == land.kind,
            InvaderCard::Phase3(kind_a, kind_b) => kind_a == land.kind || kind_b == land.kind,
        }
    }
}

/// The full fifteen-card invader deck, stacked phase three at the bottom,
/// then phase two, then phase one on top.
pub fn generate_invader_deck() -> (r: Vec<InvaderCard>)
    ensures
        r.len() == 15,
        forall|i: int| 0 <= i < 6 ==> (#[trigger] r@[i]) is Phase3,
        forall|i: int| 6 <= i < 11 ==> (#[trigger] r@[i]) is Phase2,
        forall|i: int| 11 <= i < 15 ==> (#[trigger] r@[i]) is Phase1,
        r@ == seq![
            InvaderCard::Phase3(LandKind::Jungle, LandKind::Mountain),
            InvaderCard::Phase3(LandKind::Jungle, LandKind::Sands),
            InvaderCard::Phase3(LandKind::Jungle, LandKind::Wetlands),
            InvaderCard::Phase3(LandKind::Mountain, LandKind::Sands),
            InvaderCard::Phase3(LandKind::Mountain, LandKind::Wetlands),
            InvaderCard::Phase3(LandKind::Sands, LandKind::Wetlands),
            InvaderCard::Phase2(LandKind::Ocean),
            InvaderCard::Phase2(LandKind::Jungle),
            InvaderCard::Phase2(LandKind::Mountain),
            InvaderCard::Phase2(LandKind::Sands),
            InvaderCard::Phase2(LandKind::Wetlands),
            InvaderCard::Phase1(LandKind::Jungle),
            InvaderCard::Phase1(LandKind::Mountain),
            InvaderCard::Phase1(LandKind::Sands),
            InvaderCard::Phase1(LandKind::Wetlands),
        ],
{
    let mut v: Vec<InvaderCard> = Vec::new();
    v.push(InvaderCard::Phase3(LandKind::Jungle, LandKind::Mountain));
    v.push(InvaderCard::Phase3(LandKind::Jungle, LandKind::Sands));
    v.push(InvaderCard::Phase3(LandKind::Jungle, LandKind::Wetlands));
    v.push(InvaderCard::Phase3(LandKind::Mountain, LandKind::Sands));
    v.push(InvaderCard::Phase3(LandKind::Mountain, LandKind::Wetlands));
    v.push(InvaderCard::Phase3(LandKind::Sands, LandKind::Wetlands));
    v.push(InvaderCard::Phase2(LandKind::Ocean));
    v.push(InvaderCard::Phase2(LandKind::Jungle));
    v.push(InvaderCard::Phase2(LandKind::Mountain));
    v.push(InvaderCard::Phase2(LandKind::Sands));
    v.push(InvaderCard::Phase2(LandKind::Wetlands));
    v.push(InvaderCard::Phase1(LandKind::Jungle));
    v.push(InvaderCard::Phase1(LandKind::Mountain));
    v.push(InvaderCard::Phase1(LandKind::Sands));
    v.push(InvaderCard::Phase1(LandKind::Wetlands));
    proof {
        assert(v@ =~= seq![
            InvaderCard::Phase3(LandKind::Jungle, LandKind::Mountain),
            InvaderCard::Phase3(LandKind::Jungle, LandKind::Sands),
            InvaderCard::Phase3(LandKind::Jungle, LandKind::Wetlands),
            InvaderCard::Phase3(LandKind::Mountain, LandKind::Sands),
            InvaderCard::Phase3(LandKind::Mountain, LandKind::Wetlands),
            InvaderCard::Phase3(LandKind::Sands, LandKind::Wetlands),
            InvaderCard::Phase2(LandKind::Ocean),
            InvaderCard::Phase2(LandKind::Jungle),
            InvaderCard::Phase2(LandKind::Mountain),
            InvaderCard::Phase2(LandKind::Sands),
            InvaderCard::Phase2(LandKind::Wetlands),
            InvaderCard::Phase1(LandKind::Jungle),
            InvaderCard::Phase1(LandKind::Mountain),
            InvaderCard::Phase1(LandKind::Sands),
            InvaderCard::Phase1(LandKind::Wetlands),
        ]);
    }
    v
}

/// The invader deck in play: a draw pile, a discard pile, one pending slot
/// per action in the adversary's sequence, and that sequence.
#[derive(Clone)]
pub struct InvaderDeck {
    pub draw: Vec<InvaderCard>,
    pub discard: Vec<InvaderCard>,
    pub pending: VecDeque<Vec<InvaderCard>>,
    pub sequence: Vec<InvaderActionKind>,
}

impl InvaderDeck {
    /// One pending slot per action of the sequence, and a sequence short
    /// enough to index with a `u8`.
    pub open spec fn well_formed(self) -> bool {
        &&& self.pending.len() == self.sequence.len()
        &&& self.sequence.len() <= 8
    }

    pub fn new() -> (r: InvaderDeck)
        ensures
            r.draw.len() == 0,
            r.discard.len() == 0,
            r.pending.len() == 0,
            r.sequence.len() == 0,
            r.well_formed(),
    {
        InvaderDeck {
            draw: Vec::new(),
            discard: Vec::new(),
            pending: VecDeque::new(),
            sequence: Vec::new(),
        }
    }

    pub fn step_count(&self) -> (r: u8)
        requires
            self.well_formed(),
        ensures
            r == self.sequence.len(),
    {
        self.sequence.len() as u8
    }

    pub fn get_step_kind(&self, index: u8) -> (r: Option<InvaderActionKind>)
        ensures
            (index < self.sequence.len()) == (r is Some),
            r is Some ==> r->0 == self.sequence@[index as int],
    {
        if (index as usize) < self.sequence.len() {
            Some(self.sequence[index as usize])
        } else {
            None
        }
    }

    /// Installs the draw pile, discard pile and action sequence, and opens
    /// one empty pending slot per action.  Sequences longer than the `u8`
    /// step numbering allows are rejected.
    pub fn set_state(
        &mut self,
        draw: Vec<InvaderCard>,
        discard: Vec<InvaderCard>,
        sequence: Vec<InvaderActionKind>,
    ) -> (r: Result<(), StepFailure>)
        ensures
            r is Err ==> r->Err_0 is InternalError,
            r is Ok ==> final(self).well_formed(),
            r is Ok ==> final(self).draw == draw,
            r is Ok ==> final(self).discard == discard,
            r is Ok ==> final(self).sequence == sequence,
            r is Ok ==> sequence.len() <= 8,
            r is Err ==> *final(self) == *old(self),
            sequence.len() <= 8 ==> r is Ok,
    {
        if sequence.len() > 8 {
            return Err(StepFailure::InternalError("invader action sequence too long"));
        }
        self.draw = draw;
        self.discard = discard;
        self.sequence = sequence;
        self.pending = VecDeque::new();
        let mut i: usize = 0;
        while i < self.sequence.len()
            invariant
                self.pending.len() == i,
                i <= self.sequence.len(),
                self.sequence.len() <= 8,
                self.draw == draw,
                self.discard == discard,
                self.sequence == sequence,
            decreases self.sequence.len() - i,
        {
            self.pending.push_back(Vec::new());
            i = i + 1;
        }
        Ok(())
    }

    /// Shuffles each phase of the draw pile separately, keeping the phases
    /// stacked in order.  The pile must be phase-partitioned bottom-up, as
    /// `generate_invader_deck` stacks it (minus any removed cards).
    pub fn shuffle_draw(&mut self, rng: &mut DeterministicChaCha) -> (r: Result<(), StepFailure>)
        ensures
            r is Err ==> r->Err_0 is InternalError,
            final(self).draw.len() == old(self).draw.len(),
            final(self).draw@.to_multiset() == old(self).draw@.to_multiset(),
            final(self).discard == old(self).discard,
            final(self).pending == old(self).pending,
            final(self).sequence == old(self).sequence,
    {
        let mut partition2: Option<usize> = None;
        let mut partition1: Option<usize> = None;
        let mut i: usize = 0;
        while i < self.draw.len()
            invariant
                self == old(self),
                partition2 is Some ==> partition2->0 < self.draw.len(),
                partition1 is Some ==> partition1->0 < self.draw.len(),
            decreases self.draw.len() - i,
        {
            match self.draw[i] {
                InvaderCard::Phase2(_) => {
                    if partition2.is_none() {
                        partition2 = Some(i);
                    }
                },
                InvaderCard::Phase1(_) => {
                    if partition1.is_none() {
                        partition1 = Some(i);
                    }
                },
                _ => {},
            }
            i = i + 1;
        }
        let (p2, p1) = match (partition2, partition1) {
            (Some(p2), Some(p1)) => (p2, p1),
            _ => { return Err(StepFailure::InternalError("invader deck is missing a phase")) },
        };
        if !(p2 < p1) {
            return Err(StepFailure::InternalError("invader deck phases are out of order"));
        }
        let len = self.draw.len();
        let ghost d0 = self.draw@;
        shuffle_range(&mut self.draw, 0, p2, rng);
        let ghost d1 = self.draw@;
        shuffle_range(&mut self.draw, p2, p1, rng);
        let ghost d2 = self.draw@;
        shuffle_range(&mut self.draw, p1, len, rng);
        proof {
            let d3 = self.draw@;
            assert(d1.subrange(p2 as int, p1 as int) =~= d0.subrange(p2 as int, p1 as int));
            assert(d1.subrange(p1 as int, len as int) =~= d0.subrange(p1 as int, len as int));
            assert(d2.subrange(0, p2 as int) =~= d1.subrange(0, p2 as int));
            assert(d2.subrange(p1 as int, len as int) =~= d1.subrange(p1 as int, len as int));
            assert(d3.subrange(0, p2 as int) =~= d2.subrange(0, p2 as int));
            assert(d3.subrange(p2 as int, p1 as int) =~= d2.subrange(p2 as int, p1 as int));
            lemma_three_part_shuffle(d0, d3, p2 as int, p1 as int);
        }
        Ok(())
    }

    /// Takes `count` cards off the top of the draw pile, keeping order.
    pub fn draw(&mut self, count: usize) -> (r: Vec<InvaderCard>)
        requires
            count <= old(self).draw.len(),
        ensures
            r.len() == count,
            r@ == old(self).draw@.subrange(
                old(self).draw.len() - count,
                old(self).draw.len() as int,
            ),
            final(self).draw@ == old(self).draw@.subrange(0, old(self).draw.len() - count),
            final(self).discard == old(self).discard,
            final(self).pending == old(self).pending,
            final(self).sequence == old(self).sequence,
    {
        let mut res: Vec<InvaderCard> = Vec::new();
        let mut i: usize = 0;
        while i < count
            invariant
                i <= count,
                count <= old(self).draw.len(),
                res.len() == i,
                res@ == old(self).draw@.subrange(
                    old(self).draw.len() - i,
                    old(self).draw.len() as int,
                ),
                self.draw@ == old(self).draw@.subrange(0, old(self).draw.len() - i),
                self.discard == old(self).discard,
                self.pending == old(self).pending,
                self.sequence == old(self).sequence,
            decreases count - i,
        {
            let card = self.draw.pop().unwrap();
            res.insert(0, card);
            proof {
                assert(self.draw@ =~= old(self).draw@.subrange(0, old(self).draw.len() - i - 1));
                assert(res@ =~= old(self).draw@.subrange(
                    old(self).draw.len() - i - 1,
                    old(self).draw.len() as int,
                ));
            }
            i = i + 1;
        }
        res
    }

    /// Draws the top card of the draw pile into the newest pending slot;
    /// the other slots are untouched.
    pub fn draw_into_pending(&mut self) -> (r: Result<(), StepFailure>)
        ensures
            r is Err ==> r->Err_0 is InternalError,
            final(self).sequence == old(self).sequence,
            final(self).discard == old(self).discard,
            final(self).pending.len() == old(self).pending.len(),
            r is Ok ==> final(self).draw.len() == old(self).draw.len() - 1,
            r is Ok ==> final(self).draw@ == old(self).draw@.subrange(
                0,
                old(self).draw.len() - 1,
            ),
            r is Ok ==> final(self).pending@[old(self).pending.len() - 1]@ == old(self).pending@[
                old(self).pending.len() - 1
            ]@.push(old(self).draw@.last()),
            r is Ok ==> forall|a: int|
                0 <= a < old(self).pending.len() - 1 ==> final(self).pending@[a] == old(self).pending@[a],
            r is Ok ==> old(self).draw.len() >= 1 && old(self).pending.len() >= 1,
            r is Err ==> *final(self) == *old(self),
            (old(self).draw.len() >= 1 && old(self).pending.len() >= 1) ==> r is Ok,
    {
        if self.draw.len() == 0 {
            return Err(StepFailure::InternalError("invader draw pile is empty"));
        }
        if self.pending.len() == 0 {
            return Err(StepFailure::InternalError("no pending invader slot"));
        }
        let drawn = self.draw(1);
        let card = drawn[0];
        let slot = self.pending.len() - 1;
        let mut back = self.pending.remove(slot).unwrap();
        back.push(card);
        self.pending.insert(slot, back);
        proof {
            assert(old(self).draw@.subrange(
                old(self).draw.len() - 1,
                old(self).draw.len() as int,
            ) =~= seq![old(self).draw@.last()]);
        }
        Ok(())
    }

    /// Discards the oldest pending slot and opens a fresh one.
    pub fn advance(&mut self) -> (r: Result<(), StepFailure>)
        ensures
            r is Err ==> r->Err_0 is InternalError,
            final(self).sequence == old(self).sequence,
            final(self).draw == old(self).draw,
            final(self).pending.len() == old(self).pending.len(),
            r is Err ==> *final(self) == *old(self),
            old(self).pending.len() >= 1 ==> r is Ok,
    {
        if self.pending.len() == 0 {
            return Err(StepFailure::InternalError("no pending invader slot"));
        }
        let mut front = self.pending.pop_front().unwrap();
        self.discard.append(&mut front);
        self.pending.push_back(Vec::new());
        Ok(())
    }
}

/// Shuffling three consecutive ranges of a pile in place keeps the whole
/// pile's multiset of cards.
proof fn lemma_three_part_shuffle(
    before: Seq<InvaderCard>,
    after: Seq<InvaderCard>,
    p2: int,
    p1: int,
)
    requires
        0 <= p2 <= p1 <= before.len(),
        after.len() == before.len(),
        after.subrange(0, p2).to_multiset() == before.subrange(0, p2).to_multiset(),
        after.subrange(p2, p1).to_multiset() == before.subrange(p2, p1).to_multiset(),
        after.subrange(p1, after.len() as int).to_multiset() == before.subrange(
            p1,
            before.len() as int,
        ).to_multiset(),
    ensures
        after.to_multiset() == before.to_multiset(),
{
    assert(before =~= before.subrange(0, p2) + before.subrange(p2, p1) + before.subrange(
        p1,
        before.len() as int,
    ));
    assert(after =~= after.subrange(0, p2) + after.subrange(p2, p1) + after.subrange(
        p1,
        after.len() as int,
    ));
    vstd::seq_lib::lemma_multiset_commutative(before.subrange(0, p2), before.subrange(p2, p1));
    vstd::seq_lib::lemma_multiset_commutative(after.subrange(0, p2), after.subrange(p2, p1));
    vstd::seq_lib::lemma_multiset_commutative(
        before.subrange(0, p2) + before.subrange(p2, p1),
        before.subrange(p1, before.len() as int),
    );
    vstd::seq_lib::lemma_multiset_commutative(
        after.subrange(0, p2) + after.subrange(p2, p1),
        after.subrange(p1, after.len() as int),
    );
}

} // verus!
