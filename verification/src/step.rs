//! The nested turn-phase state machine and the step result taxonomy.

use vstd::prelude::*;

verus! {

/// Where within the invader phase the game currently is.
#[derive(PartialEq, Eq, Structural, Hash, Copy, Clone, Debug)]
pub enum InvaderStep {
    BlightedIsland,
    /// Index of the event card, index of the part.
    Event(u8, u8),
    /// Index of the pending fear card.
    FearEffect(u8),
    /// Index of the action slot, index of the card within the slot.
    InvaderAction(u8, u8),
    InvaderAdvance,
}

/// Where within the spirit phase the game currently is.
#[derive(PartialEq, Eq, Structural, Hash, Copy, Clone, Debug)]
pub enum SpiritStep {
    Growth,
    Income,
    Play,
}

/// Where within one full turn the game currently is.
#[derive(PartialEq, Eq, Structural, Hash, Copy, Clone, Debug)]
pub enum TurnStep {
    Spirit(SpiritStep),
    FastPower,
    Invader(InvaderStep),
    SlowPower,
    TimePasses,
}

/// The whole-game phase: setup, numbered turns, and the two terminal states.
#[derive(PartialEq, Eq, Structural, Hash, Copy, Clone, Debug)]
pub enum GameStep {
    Init,
    SetupSpirit,
    SetupExplore,
    Turn(u8, TurnStep),
    Victory,
    Defeat,
}

impl GameStep {
    /// Terminal phases may not be stepped again.
    pub open spec fn is_terminal(self) -> bool {
        self is Victory || self is Defeat
    }
}

/// The result taxonomy of `step()` and of effect application.
///
/// `GameOverVictory`, `GameOverDefeat` and `DecisionRequired` are expected
/// control-flow signals; the other three report a programmer or strategy bug.
#[derive(PartialEq, Eq, Copy, Clone, Debug)]
pub enum StepFailure {
    InternalError(&'static str),
    RulesViolation(&'static str),
    GameOverVictory,
    GameOverDefeat,
    DecisionRequired,
    DecisionMismatch,
}

impl StepFailure {
    /// The two outcomes that the decision well-formedness law rules out
    /// when a valid choice is supplied.
    pub open spec fn is_choice_rejection(self) -> bool {
        self is RulesViolation || self is DecisionMismatch
    }
}

/// Holds of a step result whenever the choice queue was empty on entry:
/// with nothing to consume, an effect either succeeds, pauses, ends the
/// game, or trips an internal guard; it never rejects a choice.
pub open spec fn no_choice_rejection(r: Result<(), StepFailure>) -> bool {
    match r {
        Ok(()) => true,
        Err(f) => !f.is_choice_rejection(),
    }
}

} // verus!
