//! Spirits: element tracking, presence, and per-spirit mutable state.

use vstd::prelude::*;
use crate::deck::power::SpiritPowerDeck;

verus! {

/// A fixed-size map from spirit index to a value.
#[derive(Copy, Clone)]
pub struct SpiritMap<T> {
    pub items: [T; 6],
}

impl<T: Copy> SpiritMap<T> {
    pub open spec fn spec_get(self, s: int) -> T {
        self.items@[s]
    }

    pub fn new(v: T) -> (r: SpiritMap<T>)
        ensures
            forall|s: int| 0 <= s < 6 ==> r.spec_get(s) == v,
    {
        SpiritMap { items: [v, v, v, v, v, v] }
    }

    pub fn get(&self, s: u8) -> (r: T)
        requires
            s < 6,
        ensures
            r == self.spec_get(s as int),
    {
        self.items[s as usize]
    }

    pub fn set(&mut self, s: u8, value: T)
        requires
            s < 6,
        ensures
            final(self).spec_get(s as int) == value,
            forall|j: int| 0 <= j < 6 && j != s ==> final(self).spec_get(j) == old(self).spec_get(j),
    {
        self.items[s as usize] = value;
    }
}

/// The eight elements a spirit can gather.
#[derive(PartialEq, Eq, Structural, Hash, Copy, Clone, Debug)]
pub enum Element {
    Sun,
    Moon,
    Fire,
    Air,
    Water,
    Earth,
    Plant,
    Animal,
}

pub open spec fn element_index_spec(e: Element) -> int {
    match e {
        Element::Sun => 0,
        Element::Moon => 1,
        Element::Fire => 2,
        Element::Air => 3,
        Element::Water => 4,
        Element::Earth => 5,
        Element::Plant => 6,
        Element::Animal => 7,
    }
}

pub fn element_index(e: Element) -> (r: usize)
    ensures
        r == element_index_spec(e),
        r < 8,
{
    match e {
        Element::Sun => 0,
        Element::Moon => 1,
        Element::Fire => 2,
        Element::Air => 3,
        Element::Water => 4,
        Element::Earth => 5,
        Element::Plant => 6,
        Element::Animal => 7,
    }
}

/// A fixed-size map from `Element` to a value.
#[derive(Copy, Clone)]
pub struct ElementMap<T> {
    pub items: [T; 8],
}

impl<T: Copy> ElementMap<T> {
    pub open spec fn spec_get(self, e: Element) -> T {
        self.items@[element_index_spec(e)]
    }

    pub fn new(v: T) -> (r: ElementMap<T>)
        ensures
            forall|e: Element| r.spec_get(e) == v,
    {
        ElementMap { items: [v, v, v, v, v, v, v, v] }
    }

    pub fn get(&self, e: Element) -> (r: T)
        ensures
            r == self.spec_get(e),
    {
        self.items[element_index(e)]
    }

    pub fn set(&mut self, e: Element, value: T)
        ensures
            final(self).spec_get(e) == value,
            forall|x: Element| x != e ==> final(self).spec_get(x) == old(self).spec_get(x),
    {
        let i = element_index(e);
        self.items[i] = value;
        proof {
            assert(forall|x: Element| x != e ==> element_index_spec(x) != element_index_spec(e));
        }
    }

    /// Builder-style update, as used when describing a card's elements.
    pub fn map(self, e: Element, value: T) -> (r: Self)
        ensures
            r.spec_get(e) == value,
            forall|x: Element| x != e ==> r.spec_get(x) == self.spec_get(x),
    {
        let mut m = self;
        m.set(e, value);
        m
    }

    pub fn set_all(&mut self, v: T)
        ensures
            forall|e: Element| final(self).spec_get(e) == v,
    {
        self.items = [v, v, v, v, v, v, v, v];
    }
}

impl ElementMap<bool> {
    /// The element set holding exactly the listed elements.
    pub fn from_slice(slice: &[Element]) -> (r: ElementMap<bool>)
        ensures
            forall|e: Element| r.spec_get(e) == slice@.contains(e),
    {
        let mut res = ElementMap::new(false);
        let mut i: usize = 0;
        while i < slice.len()
            invariant
                i <= slice.len(),
                forall|e: Element| res.spec_get(e) == slice@.subrange(0, i as int).contains(e),
            decreases slice.len() - i,
        {
            let e = slice[i];
            res.set(e, true);
            proof {
                assert forall|x: Element| res.spec_get(x) == slice@.subrange(0, i + 1).contains(
                    x,
                ) by {
                    if x == e {
                        assert(slice@.subrange(0, i + 1)[i as int] == e);
                    } else {
                        assert(slice@.subrange(0, i + 1).drop_last() =~= slice@.subrange(
                            0,
                            i as int,
                        ));
                        assert(slice@.subrange(0, i as int).contains(x) ==> slice@.subrange(
                            0,
                            i + 1,
                        ).contains(x)) by {
                            let s1 = slice@.subrange(0, i as int);
                            if s1.contains(x) {
                                let w = choose|w: int| 0 <= w < s1.len() && s1[w] == x;
                                assert(slice@.subrange(0, i + 1)[w] == x);
                            }
                        }
                        assert(slice@.subrange(0, i + 1).contains(x) ==> slice@.subrange(
                            0,
                            i as int,
                        ).contains(x)) by {
                            let s2 = slice@.subrange(0, i + 1);
                            if s2.contains(x) {
                                let w = choose|w: int| 0 <= w < s2.len() && s2[w] == x;
                                assert(w < i);
                                assert(slice@.subrange(0, i as int)[w] == x);
                            }
                        }
                    }
                }
            }
            i = i + 1;
        }
        proof {
            assert(slice@.subrange(0, slice@.len() as int) =~= slice@);
        }
        res
    }
}

/// Where one presence disc of a spirit is.
#[derive(PartialEq, Eq, Structural, Hash, Copy, Clone, Debug)]
pub enum PresenceState {
    /// On the table, in the land with this index.
    OnBoard(u8),
    /// Still on the growth track, at this slot.
    OnTrack(u8),
    Destroyed,
    RemovedFromGame,
}

/// Which spirit a spirit description describes.
#[derive(Clone)]
pub enum SpiritDescription {
    River(crate::content::SpiritDescriptionRiver),
    Lightning(crate::content::SpiritDescriptionLightning),
}

/// The mutable state of one spirit.
#[derive(Clone)]
pub struct SpiritState {
    pub presence: [PresenceState; 13],
    pub deck: SpiritPowerDeck,
    pub energy: u8,
    pub plays: u8,
    pub elements: ElementMap<u8>,
    pub may_play_slows_as_fasts: u8,
}

impl SpiritState {
    pub fn new() -> (r: SpiritState)
        ensures
            r.energy == 0,
            r.plays == 0,
            r.deck.hand.len() == 0,
            r.deck.pending.len() == 0,
            r.deck.discard.len() == 0,
            forall|i: int| 0 <= i < 13 ==> r.presence@[i] == PresenceState::RemovedFromGame,
    {
        SpiritState {
            presence: [PresenceState::RemovedFromGame; 13],
            deck: SpiritPowerDeck::new(),
            energy: 0,
            plays: 0,
            elements: ElementMap::new(0),
            may_play_slows_as_fasts: 0,
        }
    }

    /// At the end of a round: pending plays are discarded and the
    /// round-scoped counters reset.
    pub fn time_passes(&mut self)
        ensures
            final(self).presence == old(self).presence,
            final(self).energy == old(self).energy,
            final(self).plays == 0,
            final(self).may_play_slows_as_fasts == 0,
            final(self).deck.pending.len() == 0,
            final(self).deck.hand == old(self).deck.hand,
            final(self).deck.discard@ == old(self).deck.discard@ + old(self).deck.pending@,
    {
        self.deck.discard_pending();
        self.plays = 0;
        self.elements.set_all(0);
        self.may_play_slows_as_fasts = 0;
    }
}

} // verus!
