//! Decks of cards.
//!
//! Decks follow physical card rules: pushing a card puts it on top of the
//! stack and popping takes it off the top, so the first card reached when
//! iterating is the bottom card.

use vstd::prelude::*;
use crate::rng::{DeterministicChaCha, shuffle_vec};

pub mod fear;
pub mod invader;
pub mod power;

verus! {

/// A plain draw/discard deck.
#[derive(Clone)]
pub struct SimpleDeck<T> {
    pub draw: Vec<T>,
    pub discard: Vec<T>,
}

impl<T> SimpleDeck<T> {
    pub fn new() -> (r: Self)
        ensures
            r.draw.len() == 0,
            r.discard.len() == 0,
    {
        SimpleDeck::<T> { draw: Vec::new(), discard: Vec::new() }
    }

    pub fn set_state(&mut self, draw: Vec<T>, discard: Vec<T>)
        ensures
            final(self).draw == draw,
            final(self).discard == discard,
    {
        self.draw = draw;
        self.discard = discard;
    }

    pub fn shuffle_draw(&mut self, rng: &mut DeterministicChaCha)
        ensures
            final(self).draw.len() == old(self).draw.len(),
            final(self).draw@.to_multiset() == old(self).draw@.to_multiset(),
            final(self).discard == old(self).discard,
    {
        shuffle_vec(&mut self.draw, rng);
    }

    /// Takes `count` cards off the top, keeping their stacking order.
    pub fn draw(&mut self, count: usize) -> (r: Vec<T>)
        requires
            count <= old(self).draw.len(),
        ensures
            r.len() == count,
            final(self).draw@ == old(self).draw@.subrange(
                0,
                old(self).draw.len() - count,
            ),
            r@ == old(self).draw@.subrange(
                old(self).draw.len() - count,
                old(self).draw.len() as int,
            ),
            final(self).discard == old(self).discard,
    {
        let mut res: Vec<T> = Vec::new();
        let mut i: usize = 0;
        while i < count
            invariant
                i <= count,
                count <= old(self).draw.len(),
                self.draw@ == old(self).draw@.subrange(0, old(self).draw.len() - i),
                res@ == old(self).draw@.subrange(
                    old(self).draw.len() - i,
                    old(self).draw.len() as int,
                ),
                self.discard == old(self).discard,
            decreases count - i,
        {
            let card = self.draw.pop().unwrap();
            res.insert(0, card);
            proof {
                assert(self.draw@ =~= old(self).draw@.subrange(0, old(self).draw.len() - i - 1));
                assert(res@ =~= old(self).draw@.subrange(
                    old(self).draw.len() - i - 1,
                    old(self).draw.len() as int,
                ));
            }
            i = i + 1;
        }
        res
    }
}

} // verus!
