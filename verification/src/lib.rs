//! A turn-based game engine coupled with a parallel-style decision-tree
//! solver.
//!
//! The game side is a deterministic, resumable step machine: `game::GameState::step`
//! advances one turn phase at a time, applying nested effects that may pause
//! for an externally supplied choice.  Resumption is replay: the caller
//! re-runs the step from the top of the phase with the choice queue
//! pre-seeded, and with an empty queue an effect never rejects a choice —
//! it pauses instead — so replaying a known prefix is free of duplicate
//! side effects.
//!
//! The solver side, in `solve`, drives many clones of that machine over a
//! work queue: branches execute until blocked or terminal, expand by trying
//! every strategy-ranked choice, and fold their statistics bottom-up into
//! the root, which also keeps the best-found trajectory for replay.
//! Statistics merging is associative and commutative, so the totals do not
//! depend on scheduling.

use vstd::prelude::*;

pub mod board;
pub mod concept;
pub mod content;
pub mod deck;
pub mod default_adversary;
pub mod decision;
pub mod effect;
pub mod game;
pub mod piece;
pub mod resolve;
pub mod rng;
pub mod solve;
pub mod spirit;
pub mod step;

verus! {

} // verus!
