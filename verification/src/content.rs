//! The bundled content: one board, two spirits, and the card catalogs.

use vstd::prelude::*;
use crate::board::BoardDescription;
use crate::concept::ContentPack;
use crate::deck::fear::FearCardDescription;
use crate::deck::power::PowerCardDescription;
use crate::game::{GameState, effect_core};
use crate::spirit::SpiritDescription;
use crate::step::StepFailure;

pub mod content_board;
pub mod content_fear;
pub mod power_major;
pub mod power_minor;
pub mod spirit_lightning;
pub mod spirit_river;

pub use content_board::make_board_a;
pub use content_fear::make_fear_cards;
pub use power_major::make_major_power_cards;
pub use power_minor::make_minor_power_cards;
pub use spirit_lightning::SpiritDescriptionLightning;
pub use spirit_river::SpiritDescriptionRiver;

verus! {

/// The base content pack.
#[derive(Clone)]
pub struct CoreContent {

}

impl CoreContent {
    pub fn new() -> CoreContent {
        CoreContent {  }
    }
}

impl SpiritDescription {
    pub fn name(&self) -> &'static str {
        match self {
            SpiritDescription::River(s) => s.name(),
            SpiritDescription::Lightning(s) => s.name(),
        }
    }

    pub fn all_names(&self) -> Vec<&'static str> {
        match self {
            SpiritDescription::River(s) => s.all_names(),
            SpiritDescription::Lightning(s) => s.all_names(),
        }
    }

    pub fn get_power_cards(&self, spirit_index: u8) -> Vec<PowerCardDescription> {
        match self {
            SpiritDescription::River(s) => s.get_power_cards(spirit_index),
            SpiritDescription::Lightning(s) => s.get_power_cards(spirit_index),
        }
    }

    pub fn get_power_progression(&self) -> Vec<&'static str> {
        match self {
            SpiritDescription::River(s) => s.get_power_progression(),
            SpiritDescription::Lightning(s) => s.get_power_progression(),
        }
    }

    /// Whether the presence disc at `presence_index` may be placed.
    pub fn may_place_presence(
        &self,
        state: &[crate::spirit::PresenceState; 13],
        presence_index: usize,
    ) -> (r: Result<bool, StepFailure>)
        requires
            presence_index < 13,
    {
        match self {
            SpiritDescription::River(s) => s.may_place_presence(state, presence_index),
            SpiritDescription::Lightning(s) => s.may_place_presence(state, presence_index),
        }
    }

    /// Runs the spirit's setup at the fixed lifecycle point.
    pub fn do_setup(&self, game: &mut GameState, spirit_index: u8) -> (r: Result<(), StepFailure>)
        ensures
            effect_core(*old(game), *final(game), r),
            r == Result::<(), StepFailure>::Err(StepFailure::DecisionRequired) ==> final(game).effect_stack@.len() > old(game).effect_stack@.len(),
    {
        match self {
            SpiritDescription::River(s) => s.do_setup(game, spirit_index),
            SpiritDescription::Lightning(s) => s.do_setup(game, spirit_index),
        }
    }

    /// Poses the spirit's growth decision.
    pub fn do_growth(&self, game: &mut GameState, spirit_index: u8) -> (r: Result<(), StepFailure>)
        ensures
            effect_core(*old(game), *final(game), r),
            r == Result::<(), StepFailure>::Err(StepFailure::DecisionRequired) ==> final(game).effect_stack@.len() > old(game).effect_stack@.len(),
    {
        match self {
            SpiritDescription::River(s) => s.do_growth(game, spirit_index),
            SpiritDescription::Lightning(s) => s.do_growth(game, spirit_index),
        }
    }

    /// Grants the spirit's income from its growth tracks.
    pub fn do_income(&self, game: &mut GameState, spirit_index: u8) -> (r: Result<(), StepFailure>)
        ensures
            effect_core(*old(game), *final(game), r),
            r == Result::<(), StepFailure>::Err(StepFailure::DecisionRequired) ==> final(game).effect_stack@.len() > old(game).effect_stack@.len(),
    {
        match self {
            SpiritDescription::River(s) => s.do_income(game, spirit_index),
            SpiritDescription::Lightning(s) => s.do_income(game, spirit_index),
        }
    }
}

impl ContentPack {
    pub fn get_spirits(&self) -> Vec<SpiritDescription> {
        match self {
            ContentPack::Core(_) => {
                let mut v: Vec<SpiritDescription> = Vec::new();
                v.push(SpiritDescription::River(SpiritDescriptionRiver::new()));
                v
            },
        }
    }

    pub fn get_boards(&self) -> Vec<BoardDescription> {
        match self {
            ContentPack::Core(_) => {
                let mut v: Vec<BoardDescription> = Vec::new();
                v.push(make_board_a());
                v
            },
        }
    }

    pub fn get_fear_cards(&self) -> Vec<FearCardDescription> {
        match self {
            ContentPack::Core(_) => make_fear_cards(),
        }
    }

    pub fn get_power_cards(&self) -> Vec<PowerCardDescription> {
        match self {
            ContentPack::Core(_) => {
                let mut res = make_minor_power_cards();
                let mut major = make_major_power_cards();
                res.append(&mut major);
                res
            },
        }
    }
}

} // verus!
