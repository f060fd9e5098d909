//! The game: its immutable description and its mutable state, with the
//! turn-phase step machine.

use vstd::prelude::*;
use std::collections::VecDeque;
use crate::board::{LandDescription, LandState, TableDescription, TableState};
use crate::concept::{AdversaryDescription, ContentPack, join_fear_cards, join_power_cards};
use crate::deck::fear::{FearCardDescription, FearDeck};
use crate::deck::invader::InvaderDeck;
use crate::deck::power::{PowerCardDescription, PowerCardKind, PowerDeck, PowerUsage};
use crate::decision::DecisionChoice;
use crate::effect::Effect;
use crate::piece::{Dahan, Invader, TokenMap};
use crate::rng::DeterministicChaCha;
use crate::spirit::{SpiritDescription, SpiritMap, SpiritState};
use crate::concept::InvaderActionKind;
use crate::concept::TerrorLevel;
use crate::step::{GameStep, InvaderStep, SpiritStep, StepFailure, TurnStep, no_choice_rejection};

verus! {

broadcast use vstd::std_specs::control_flow::spec_from_blanket_identity;

/// How deeply effects may nest before the machinery reports an internal
/// error; real games stay far below this.
pub const MAX_EFFECT_DEPTH: u32 = 64;

/// The immutable description of one game.
#[derive(Clone)]
pub struct GameDescription {
    pub content: Vec<ContentPack>,
    pub adversary: AdversaryDescription,
    pub spirits: Vec<SpiritDescription>,
    pub table: TableDescription,
    pub fear: Vec<FearCardDescription>,
    pub powers: Vec<PowerCardDescription>,
}

impl GameDescription {
    /// Assembles a game description: the content's fear and power cards
    /// are joined, and each spirit contributes its own power cards.  The
    /// step machine supports up to six spirits, so only those contribute.
    pub fn new(
        content: Vec<ContentPack>,
        adversary: AdversaryDescription,
        spirits: Vec<SpiritDescription>,
        table: TableDescription,
    ) -> GameDescription {
        let fear_cards = join_fear_cards(&content);
        let mut power_cards = join_power_cards(&content);
        let mut i: usize = 0;
        while i < spirits.len() && i < 6
            decreases spirits.len() - i,
        {
            let mut spirit_cards = spirits[i].get_power_cards(i as u8);
            power_cards.append(&mut spirit_cards);
            i = i + 1;
        }
        GameDescription { content, adversary, spirits, table, fear: fear_cards, powers: power_cards }
    }
}

/// The mutable state of one game, including its deterministic random
/// source: a clone of the state replays identically.
pub struct GameState {
    pub desc: GameDescription,
    pub rng: DeterministicChaCha,
    pub step: GameStep,
    pub next_step: GameStep,
    pub game_over_reason: Option<&'static str>,
    pub choice_count: u32,
    pub choices: VecDeque<DecisionChoice>,
    pub effect_stack: Vec<Effect>,
    pub power_usages: Vec<PowerUsage>,
    pub table: TableState,
    pub invader: InvaderDeck,
    pub fear: FearDeck,
    pub fear_pool: u8,
    pub fear_generated: u8,
    pub fear_generated_total: u8,
    pub blight_remaining: u8,
    pub spirits: Vec<SpiritState>,
    pub minor_powers: PowerDeck,
    pub major_powers: PowerDeck,
}

impl Clone for GameState {
    /// A fully independent copy; branching requires many divergent copies
    /// with no aliased mutable state.
    fn clone(&self) -> Self {
        GameState {
            desc: self.desc.clone(),
            rng: self.rng.clone(),
            step: self.step,
            next_step: self.next_step,
            game_over_reason: self.game_over_reason,
            choice_count: self.choice_count,
            choices: self.choices.clone(),
            effect_stack: self.effect_stack.clone(),
            power_usages: self.power_usages.clone(),
            table: self.table.clone(),
            invader: self.invader.clone(),
            fear: self.fear.clone(),
            fear_pool: self.fear_pool,
            fear_generated: self.fear_generated,
            fear_generated_total: self.fear_generated_total,
            blight_remaining: self.blight_remaining,
            spirits: self.spirits.clone(),
            minor_powers: self.minor_powers.clone(),
            major_powers: self.major_powers.clone(),
        }
    }
}

/// The frame every effect application preserves: the committed phase
/// moves only when the game ends; the description never changes; and
/// choices are only ever consumed, never invented.
pub open spec fn effect_core(pre: GameState, post: GameState, r: Result<(), StepFailure>) -> bool {
    &&& r is Ok ==> post.step == pre.step
    &&& r == Result::<(), StepFailure>::Err(StepFailure::GameOverVictory) ==> post.step is Victory
    &&& r == Result::<(), StepFailure>::Err(StepFailure::GameOverDefeat) ==> post.step is Defeat
    &&& post.desc == pre.desc
    &&& post.choices@.len() <= pre.choices@.len()
    &&& r is Ok ==> post.effect_stack@ == pre.effect_stack@
    &&& r is Err ==> post.effect_stack@.len() >= pre.effect_stack@.len() && (forall|i: int|
        0 <= i < pre.effect_stack@.len() ==> (#[trigger] post.effect_stack@[i])
            == pre.effect_stack@[i])
}

/// The full contract of an effect application: the frame above, and the
/// replay guarantee that with an empty choice queue an effect never
/// rejects a choice — it pauses with `DecisionRequired` instead.
pub open spec fn effect_frame(pre: GameState, post: GameState, r: Result<(), StepFailure>) -> bool {
    &&& effect_core(pre, post, r)
    &&& pre.choices@.len() == 0 ==> no_choice_rejection(r)
}

/// Whether the power usage on top of the stack suits what the effect
/// will read; trivially true of everything but a power card, whose
/// behaviour reads the target its play put there.
pub open spec fn power_usage_matches(pre: GameState, e: Effect) -> bool {
    match e {
        Effect::PowerCard(desc) => match desc.effect {
            crate::deck::power::PowerEffect::BoonOfVigor => pre.power_usages@.len() > 0
                && pre.power_usages@.last().target is Spirit,
            crate::deck::power::PowerEffect::FlashFloods => pre.power_usages@.len() > 0
                && pre.power_usages@.last().target is Land,
            crate::deck::power::PowerEffect::RiversBounty => pre.power_usages@.len() > 0
                && pre.power_usages@.last().target is Land,
            crate::deck::power::PowerEffect::WashAway => pre.power_usages@.len() > 0
                && pre.power_usages@.last().target is Land,
            crate::deck::power::PowerEffect::CallToMigrate => pre.power_usages@.len() > 0
                && pre.power_usages@.last().target is Land,
            crate::deck::power::PowerEffect::DarkAndTangledWoods => pre.power_usages@.len() > 0
                && pre.power_usages@.last().target is Land,
            crate::deck::power::PowerEffect::DevouringAnts => pre.power_usages@.len() > 0
                && pre.power_usages@.last().target is Land,
            crate::deck::power::PowerEffect::DriftDownIntoSlumber => pre.power_usages@.len() > 0
                && pre.power_usages@.last().target is Land,
            _ => true,
        },
        _ => true,
    }
}

/// A land state with nothing in it, used to swap a land out for editing.
pub fn empty_land() -> LandState {
    LandState {
        is_in_play: false,
        tokens: TokenMap::new(0),
        presence: SpiritMap::new(0),
        invaders: Vec::<Invader>::new(),
        dahan: Vec::<Dahan>::new(),
        defense: 0,
        fear_generated_here_this_round: 0,
    }
}

impl GameState {
    /// The starting state for a description: everything empty, five blight
    /// on the blight card, the step machine at `Init`.
    pub fn new(desc: GameDescription, rng: DeterministicChaCha) -> (r: GameState)
        ensures
            r.step == GameStep::Init,
            r.next_step == GameStep::Init,
            r.choices@.len() == 0,
            r.effect_stack.len() == 0,
            r.blight_remaining == 5,
            r.spirits.len() == 0,
            r.table.lands.len() == desc.table.lands.len(),
            r.desc == desc,
    {
        let table = TableState::new(&desc.table);
        GameState {
            desc,
            rng,
            step: GameStep::Init,
            next_step: GameStep::Init,
            game_over_reason: None,
            choice_count: 0,
            choices: VecDeque::new(),
            effect_stack: Vec::new(),
            power_usages: Vec::new(),
            table,
            invader: InvaderDeck::new(),
            fear: FearDeck::new(),
            fear_pool: 0,
            fear_generated: 0,
            fear_generated_total: 0,
            blight_remaining: 5,
            spirits: Vec::new(),
            minor_powers: PowerDeck::new(),
            major_powers: PowerDeck::new(),
        }
    }

    pub fn is_over(&self) -> (r: bool)
        ensures
            r == self.step.is_terminal(),
    {
        match self.step {
            GameStep::Victory | GameStep::Defeat => true,
            _ => false,
        }
    }

    pub fn get_land(&self, land_index: u8) -> (r: Result<&LandState, StepFailure>)
        ensures
            r is Err ==> r->Err_0 is InternalError,
            (land_index < self.table.lands.len()) == (r is Ok),
            r is Ok ==> r->Ok_0 == &self.table.lands@[land_index as int],
    {
        if (land_index as usize) < self.table.lands.len() {
            Ok(&self.table.lands[land_index as usize])
        } else {
            Err(StepFailure::InternalError("land index out of range"))
        }
    }

    /// Swaps the land out for editing; put it back with `put_land`.
    pub fn take_land(&mut self, land_index: u8) -> (r: Result<LandState, StepFailure>)
        ensures
            r is Err ==> r->Err_0 is InternalError,
            final(self).desc == old(self).desc,
            final(self).step == old(self).step,
            final(self).choices == old(self).choices,
            (land_index < old(self).table.lands.len()) == (r is Ok),
            r is Ok ==> r->Ok_0 == old(self).table.lands@[land_index as int],
            r is Ok ==> final(self).table.lands.len() == old(self).table.lands.len(),
            r is Ok ==> forall|j: int|
                0 <= j < old(self).table.lands.len() && j != land_index ==> final(self).table.lands@[j] == old(self).table.lands@[j],
            r is Err ==> *final(self) == *old(self),
            *final(self) == (GameState { table: final(self).table, ..*old(self) }),
    {
        if (land_index as usize) < self.table.lands.len() {
            let mut land = empty_land();
            self.table.lands.set_and_swap(land_index as usize, &mut land);
            Ok(land)
        } else {
            Err(StepFailure::InternalError("land index out of range"))
        }
    }

    /// Puts an edited land back in its slot.
    pub fn put_land(&mut self, land_index: u8, land: LandState)
        requires
            land_index < old(self).table.lands.len(),
        ensures
            final(self).desc == old(self).desc,
            final(self).step == old(self).step,
            final(self).choices == old(self).choices,
            final(self).table.lands@ == old(self).table.lands@.update(land_index as int, land),
            *final(self) == (GameState { table: final(self).table, ..*old(self) }),
    {
        self.table.lands.set(land_index as usize, land);
    }

    pub fn get_land_desc(&self, land_index: u8) -> (r: Result<LandDescription, StepFailure>)
        ensures
            r is Err ==> r->Err_0 is InternalError,
            (land_index < self.desc.table.lands.len()) == (r is Ok),
            r is Ok ==> r->Ok_0.adjacent@ == self.desc.table.lands@[land_index as int].adjacent@
                && r->Ok_0.kind == self.desc.table.lands@[land_index as int].kind
                && r->Ok_0.is_coastal == self.desc.table.lands@[land_index as int].is_coastal
                && r->Ok_0.index_on_table == self.desc.table.lands@[
                land_index as int
            ].index_on_table,
    {
        if (land_index as usize) < self.desc.table.lands.len() {
            Ok(self.desc.table.lands[land_index as usize].clone())
        } else {
            Err(StepFailure::InternalError("land index out of range"))
        }
    }

    /// The indexes of the lands adjacent to the given one, as its
    /// description lists them.
    pub fn get_adjacent_land_indexes(&self, land_index: u8) -> (r: Result<Vec<u8>, StepFailure>)
        ensures
            r is Err ==> r->Err_0 is InternalError,
            (land_index < self.desc.table.lands.len()) == (r is Ok),
            r is Ok ==> r->Ok_0@ == self.desc.table.lands@[land_index as int].adjacent@,
    {
        let desc = self.get_land_desc(land_index)?;
        Ok(desc.adjacent)
    }

    pub fn get_spirit(&self, spirit_index: u8) -> (r: Result<&SpiritState, StepFailure>)
        ensures
            r is Err ==> r->Err_0 is InternalError,
            (spirit_index < self.spirits.len()) == (r is Ok),
            r is Ok ==> r->Ok_0 == &self.spirits@[spirit_index as int],
    {
        if (spirit_index as usize) < self.spirits.len() {
            Ok(&self.spirits[spirit_index as usize])
        } else {
            Err(StepFailure::InternalError("spirit index out of range"))
        }
    }

    /// Swaps the spirit out for editing; put it back with `put_spirit`.
    pub fn take_spirit(&mut self, spirit_index: u8) -> (r: Result<SpiritState, StepFailure>)
        ensures
            r is Err ==> r->Err_0 is InternalError,
            final(self).desc == old(self).desc,
            final(self).step == old(self).step,
            final(self).choices == old(self).choices,
            (spirit_index < old(self).spirits.len()) == (r is Ok),
            r is Ok ==> r->Ok_0 == old(self).spirits@[spirit_index as int],
            r is Ok ==> final(self).spirits.len() == old(self).spirits.len(),
            r is Ok ==> forall|j: int|
                0 <= j < old(self).spirits.len() && j != spirit_index ==> final(self).spirits@[j]
                    == old(self).spirits@[j],
            r is Err ==> *final(self) == *old(self),
            *final(self) == (GameState { spirits: final(self).spirits, ..*old(self) }),
    {
        if (spirit_index as usize) < self.spirits.len() {
            let mut spirit = SpiritState::new();
            self.spirits.set_and_swap(spirit_index as usize, &mut spirit);
            Ok(spirit)
        } else {
            Err(StepFailure::InternalError("spirit index out of range"))
        }
    }

    /// Puts an edited spirit back in its slot.
    pub fn put_spirit(&mut self, spirit_index: u8, spirit: SpiritState)
        requires
            spirit_index < old(self).spirits.len(),
        ensures
            final(self).desc == old(self).desc,
            final(self).step == old(self).step,
            final(self).choices == old(self).choices,
            final(self).spirits@ == old(self).spirits@.update(spirit_index as int, spirit),
            *final(self) == (GameState { spirits: final(self).spirits, ..*old(self) }),
    {
        self.spirits.set(spirit_index as usize, spirit);
    }

    pub fn get_spirit_desc(&self, spirit_index: u8) -> (r: Result<&SpiritDescription, StepFailure>)
        ensures
            r is Err ==> r->Err_0 is InternalError,
            (spirit_index < self.desc.spirits.len()) == (r is Ok),
    {
        if (spirit_index as usize) < self.desc.spirits.len() {
            Ok(&self.desc.spirits[spirit_index as usize])
        } else {
            Err(StepFailure::InternalError("spirit index out of range"))
        }
    }

    /// The frame of the power card currently resolving.
    pub fn get_power_usage(&self) -> (r: Result<PowerUsage, StepFailure>)
        ensures
            r is Err ==> r->Err_0 is InternalError,
            (self.power_usages.len() > 0) == (r is Ok),
            r is Ok ==> r->Ok_0 == self.power_usages@.last(),
    {
        if self.power_usages.len() > 0 {
            Ok(self.power_usages[self.power_usages.len() - 1])
        } else {
            Err(StepFailure::InternalError("no current power usage"))
        }
    }

    /// Pops the front of the choice queue; an empty queue means the
    /// caller must pause and ask for a decision.
    pub fn consume_choice(&mut self) -> (r: Result<DecisionChoice, StepFailure>)
        ensures
            final(self).desc == old(self).desc,
            final(self).step == old(self).step,
            (old(self).choices@.len() > 0) == (r is Ok),
            r is Ok ==> final(self).choices@ == old(self).choices@.drop_first(),
            r is Ok ==> r->Ok_0 == old(self).choices@.first(),
            r is Ok ==> final(self).choice_count as int == (if old(self).choice_count
                == u32::MAX {
                u32::MAX as int
            } else {
                old(self).choice_count + 1
            }),
            r is Err ==> r == Result::<DecisionChoice, StepFailure>::Err(
                StepFailure::DecisionRequired,
            ),
            r is Err ==> final(self).choices@ == old(self).choices@,
            r is Err ==> final(self).choice_count == old(self).choice_count,
            final(self).choices@.len() <= old(self).choices@.len(),
            *final(self) == (GameState {
                choices: final(self).choices,
                choice_count: final(self).choice_count,
                ..*old(self)
            }),
    {
        match self.choices.pop_front() {
            Some(v) => {
                self.choice_count = self.choice_count.saturating_add(1);
                Ok(v)
            },
            None => Err(StepFailure::DecisionRequired),
        }
    }

    /// Ends the game in defeat; always returns the defeat signal.
    pub fn do_defeat(&mut self, defeat_reason: &'static str) -> (r: Result<(), StepFailure>)
        ensures
            r == Result::<(), StepFailure>::Err(StepFailure::GameOverDefeat),
            final(self).step is Defeat,
            final(self).desc == old(self).desc,
            final(self).choices == old(self).choices,
            final(self).effect_stack == old(self).effect_stack,
            final(self).game_over_reason == Some(defeat_reason),
            *final(self) == (GameState {
                step: final(self).step,
                game_over_reason: final(self).game_over_reason,
                ..*old(self)
            }),
    {
        self.game_over_reason = Some(defeat_reason);
        self.step = GameStep::Defeat;
        Err(StepFailure::GameOverDefeat)
    }

    /// Ends the game in victory; always returns the victory signal.
    pub fn do_victory(&mut self, victory_reason: &'static str) -> (r: Result<(), StepFailure>)
        ensures
            r == Result::<(), StepFailure>::Err(StepFailure::GameOverVictory),
            final(self).step is Victory,
            final(self).desc == old(self).desc,
            final(self).choices == old(self).choices,
            final(self).effect_stack == old(self).effect_stack,
            final(self).game_over_reason == Some(victory_reason),
            *final(self) == (GameState {
                step: final(self).step,
                game_over_reason: final(self).game_over_reason,
                ..*old(self)
            }),
    {
        self.game_over_reason = Some(victory_reason);
        self.step = GameStep::Victory;
        Err(StepFailure::GameOverVictory)
    }

    /// Commits the computed next phase as the current phase.
    pub fn advance(&mut self) -> (r: Result<(), StepFailure>)
        ensures
            r is Ok,
            final(self).step == old(self).next_step,
            *final(self) == (GameState { step: old(self).next_step, ..*old(self) }),
    {
        self.step = self.next_step;
        Ok(())
    }
}

/// The fixed turn-phase structure: which phase may be committed after
/// stepping each phase.  Setup runs in order into the first turn; a turn
/// walks growth, income, play, fast powers, the invader phase, slow
/// powers and time passing; the invader phase stays within itself until
/// its advance ends it; time passing starts the next turn.
pub open spec fn next_phase_ok(pre: GameStep, next: GameStep) -> bool {
    match pre {
        GameStep::Init => next == GameStep::SetupSpirit,
        GameStep::SetupSpirit => next == GameStep::SetupExplore,
        GameStep::SetupExplore => next == GameStep::Turn(
            0,
            TurnStep::Spirit(SpiritStep::Growth),
        ),
        GameStep::Turn(turn, turn_step) => match turn_step {
            TurnStep::Spirit(SpiritStep::Growth) => next == GameStep::Turn(
                turn,
                TurnStep::Spirit(SpiritStep::Income),
            ),
            TurnStep::Spirit(SpiritStep::Income) => next == GameStep::Turn(
                turn,
                TurnStep::Spirit(SpiritStep::Play),
            ),
            TurnStep::Spirit(SpiritStep::Play) => next == GameStep::Turn(
                turn,
                TurnStep::FastPower,
            ),
            TurnStep::FastPower => next == GameStep::Turn(
                turn,
                TurnStep::Invader(InvaderStep::BlightedIsland),
            ),
            TurnStep::Invader(InvaderStep::InvaderAdvance) => next == GameStep::Turn(
                turn,
                TurnStep::SlowPower,
            ),
            TurnStep::Invader(_) => (next matches GameStep::Turn(t, TurnStep::Invader(_)) && t
                == turn),
            TurnStep::SlowPower => next == GameStep::Turn(turn, TurnStep::TimePasses),
            TurnStep::TimePasses => turn < 255 && next == GameStep::Turn(
                (turn + 1) as u8,
                TurnStep::Spirit(SpiritStep::Growth),
            ),
        },
        GameStep::Victory => false,
        GameStep::Defeat => false,
    }
}

/// Which fear card the event scan would show next: just past the card the
/// committed phase finished, or the first one.
pub open spec fn fear_scan_start(step: GameStep) -> int {
    match step {
        GameStep::Turn(_, TurnStep::Invader(InvaderStep::FearEffect(card))) => card + 1,
        _ => 0,
    }
}

/// Where the pending-card scan resumes: just past the action part the
/// committed phase finished, or at the very start of the sequence.
pub open spec fn invader_scan_start(step: GameStep) -> (int, int) {
    match step {
        GameStep::Turn(_, TurnStep::Invader(InvaderStep::InvaderAction(action, part))) => (
            action as int,
            part + 1,
        ),
        _ => (0, 0),
    }
}

/// Every pending invader card at or after the scan position is done: the
/// resume slot has no part left past the resume part, and every later
/// slot is empty.
pub open spec fn invader_pending_exhausted(inv: InvaderDeck, a0: int, p0: int) -> bool {
    &&& a0 < inv.pending.len() ==> inv.pending@[a0]@.len() <= p0
    &&& forall|a: int| a0 < a < inv.pending.len() ==> (#[trigger] inv.pending@[a])@.len() == 0
}

/// `(a, p)` is the first scan position from `(a0, p0)` on that still has
/// a pending card: every slot strictly between is done, and the position
/// itself is in range.
pub open spec fn invader_scan_found(inv: InvaderDeck, a0: int, p0: int, a: int, p: int) -> bool {
    &&& a0 <= a < inv.pending.len()
    &&& p == if a == a0 { p0 } else { 0 }
    &&& p < inv.pending@[a]@.len()
    &&& a > a0 ==> inv.pending@[a0]@.len() <= p0
    &&& forall|b: int| a0 < b < a ==> (#[trigger] inv.pending@[b])@.len() == 0
}

impl GameState {
    pub fn step_to_next_event(&mut self) -> (r: Result<InvaderStep, StepFailure>)
        ensures
            final(self).desc == old(self).desc,
            final(self).choices == old(self).choices,
            final(self).effect_stack == old(self).effect_stack,
            r is Ok ==> final(self).step == old(self).step,
            r is Err ==> (r->Err_0 is InternalError || r->Err_0 is GameOverDefeat),
            r == Result::<InvaderStep, StepFailure>::Err(StepFailure::GameOverDefeat) ==> final(self).step is Defeat,
            ({
                let c = fear_scan_start(old(self).step);
                &&& (c <= 255 && c < old(self).fear.pending.len()) ==> (*final(self) == *old(self)
                    && r == Result::<InvaderStep, StepFailure>::Ok(
                    InvaderStep::FearEffect(c as u8),
                ))
                &&& (c > 255) ==> (r is Err && r->Err_0 is InternalError)
            }),
    {
        self.step_to_next_fear()
    }

    pub fn step_to_next_fear(&mut self) -> (r: Result<InvaderStep, StepFailure>)
        ensures
            final(self).desc == old(self).desc,
            final(self).choices == old(self).choices,
            final(self).effect_stack == old(self).effect_stack,
            r is Ok ==> final(self).step == old(self).step,
            r is Err ==> (r->Err_0 is InternalError || r->Err_0 is GameOverDefeat),
            r == Result::<InvaderStep, StepFailure>::Err(StepFailure::GameOverDefeat) ==> final(self).step is Defeat,
            ({
                let c = fear_scan_start(old(self).step);
                &&& (c <= 255 && c < old(self).fear.pending.len()) ==> (*final(self) == *old(self)
                    && r == Result::<InvaderStep, StepFailure>::Ok(
                    InvaderStep::FearEffect(c as u8),
                ))
                &&& (c > 255) ==> (r is Err && r->Err_0 is InternalError)
            }),
    {
        let next_card: u8 = match self.step {
            GameStep::Turn(_, TurnStep::Invader(InvaderStep::FearEffect(card))) => {
                if card == 255 {
                    return Err(StepFailure::InternalError("fear card numbering overflow"));
                }
                card + 1
            },
            _ => 0,
        };
        if (next_card as usize) < self.fear.pending.len() {
            Ok(InvaderStep::FearEffect(next_card))
        } else {
            self.step_to_next_invader()
        }
    }

    /// Finds the next pending invader card, bottom action to top; when all
    /// pending cards are done, draws the turn's card or, with the draw
    /// pile empty, ends the game in defeat.
    pub fn step_to_next_invader(&mut self) -> (r: Result<InvaderStep, StepFailure>)
        ensures
            final(self).desc == old(self).desc,
            final(self).choices == old(self).choices,
            final(self).effect_stack == old(self).effect_stack,
            r is Ok ==> final(self).step == old(self).step,
            r is Err ==> (r->Err_0 is InternalError || r->Err_0 is GameOverDefeat),
            r == Result::<InvaderStep, StepFailure>::Err(StepFailure::GameOverDefeat) ==> final(self).step is Defeat,
            (r is Err && r->Err_0 is InternalError) == !({
                let inv = old(self).invader;
                &&& inv.sequence.len() <= 8
                &&& inv.pending.len() == inv.sequence.len()
                &&& invader_scan_start(old(self).step).1 <= 255
            }),
            ({
                let a0 = invader_scan_start(old(self).step).0;
                let p0 = invader_scan_start(old(self).step).1;
                let inv = old(self).invader;
                let n = inv.sequence.len() as int;
                (inv.sequence.len() <= 8 && inv.pending.len() == inv.sequence.len() && p0 <= 255)
                    ==> {
                    &&& !invader_pending_exhausted(inv, a0, p0) ==> (*final(self) == *old(self)
                        && (r matches Ok(InvaderStep::InvaderAction(a, p))
                        && invader_scan_found(inv, a0, p0, a as int, p as int)))
                    &&& (invader_pending_exhausted(inv, a0, p0) && (n == 0 || inv.pending@[n
                        - 1]@.len() > 0)) ==> (*final(self) == *old(self)
                        && r == Result::<InvaderStep, StepFailure>::Ok(InvaderStep::InvaderAdvance))
                    &&& (invader_pending_exhausted(inv, a0, p0) && n > 0 && inv.pending@[n
                        - 1]@.len() == 0 && inv.draw.len() == 0) ==> (r == Result::<
                        InvaderStep,
                        StepFailure,
                    >::Err(StepFailure::GameOverDefeat) && (*final(self) == (GameState {
                        step: final(self).step,
                        game_over_reason: final(self).game_over_reason,
                        ..*old(self)
                    })))
                    &&& (invader_pending_exhausted(inv, a0, p0) && n > 0 && inv.pending@[n
                        - 1]@.len() == 0 && inv.draw.len() >= 1) ==> {
                        &&& r == Result::<InvaderStep, StepFailure>::Ok(
                            InvaderStep::InvaderAction((n - 1) as u8, 0),
                        )
                        &&& final(self).invader.draw@ == inv.draw@.subrange(0, inv.draw.len() - 1)
                        &&& final(self).invader.discard == inv.discard
                        &&& final(self).invader.sequence == inv.sequence
                        &&& final(self).invader.pending.len() == inv.pending.len()
                        &&& final(self).invader.pending@[n - 1]@ == seq![inv.draw@.last()]
                        &&& forall|a: int|
                            0 <= a < n - 1 ==> final(self).invader.pending@[a] == inv.pending@[a]
                        &&& (*final(self) == (GameState {
                            invader: final(self).invader,
                            ..*old(self)
                        }))
                    }
                }
            }),
    {
        if self.invader.sequence.len() > 8 {
            return Err(StepFailure::InternalError("invader action sequence too long"));
        }
        if self.invader.pending.len() != self.invader.sequence.len() {
            return Err(StepFailure::InternalError("invader pending slots out of step"));
        }
        let step_count: u8 = self.invader.sequence.len() as u8;
        let (a0, p0): (u8, u8) = match self.step {
            GameStep::Turn(_, TurnStep::Invader(InvaderStep::InvaderAction(action, part))) => {
                if part == 255 {
                    return Err(StepFailure::InternalError("invader card numbering overflow"));
                }
                (action, part + 1)
            },
            _ => (0, 0),
        };
        let ghost ga0 = invader_scan_start(old(self).step).0;
        let ghost gp0 = invader_scan_start(old(self).step).1;
        proof {
            assert(a0 as int == ga0 && p0 as int == gp0);
        }
        let mut next_action = a0;
        let mut next_part = p0;
        while next_action < step_count
            invariant
                *self == *old(self),
                step_count == self.invader.sequence.len(),
                step_count <= 8,
                self.invader.pending.len() == self.invader.sequence.len(),
                ga0 == invader_scan_start(old(self).step).0,
                gp0 == invader_scan_start(old(self).step).1,
                0 <= gp0 <= 255,
                0 <= ga0,
                ga0 <= next_action as int,
                next_part as int == (if next_action as int == ga0 { gp0 } else { 0int }),
                ga0 < next_action as int ==> self.invader.pending@[ga0]@.len() <= gp0,
                forall|b: int|
                    ga0 < b < next_action as int ==> (#[trigger] self.invader.pending@[b])@.len()
                        == 0,
            decreases step_count - next_action,
        {
            if (next_part as usize) < self.invader.pending[next_action as usize].len() {
                proof {
                    assert(invader_scan_found(
                        self.invader,
                        ga0,
                        gp0,
                        next_action as int,
                        next_part as int,
                    ));
                }
                return Ok(InvaderStep::InvaderAction(next_action, next_part));
            }
            next_action = next_action + 1;
            next_part = 0;
        }
        proof {
            assert(invader_pending_exhausted(self.invader, ga0, gp0));
        }
        // The last action is a draw: its pending slot starts the turn
        // empty, so we backtrack to it after drawing.
        if step_count > 0 {
            let back_len = self.invader.pending[(step_count - 1) as usize].len();
            if back_len == 0 {
                if self.invader.draw.len() == 0 {
                    match self.do_defeat("Invader deck empty!") {
                        Ok(_) => {},
                        Err(e) => {
                            return Err(e);
                        },
                    }
                } else {
                    match self.invader.draw_into_pending() {
                        Ok(()) => {},
                        Err(e) => {
                            return Err(e);
                        },
                    }
                }
                return Ok(InvaderStep::InvaderAction(step_count - 1, 0));
            }
        }
        Ok(InvaderStep::InvaderAdvance)
    }

    /// One atomic advancement of the turn-phase machine.  It computes and
    /// records the next phase, pausing with `DecisionRequired` when input
    /// is missing and signalling terminal outcomes through the result; a
    /// successful step always drains the whole choice queue, and the
    /// committed phase is untouched until `advance`.
    pub fn step(&mut self) -> (r: Result<(), StepFailure>)
        requires
            !old(self).step.is_terminal(),
        ensures
            final(self).desc == old(self).desc,
            r is Ok ==> final(self).step == old(self).step,
            r is Ok ==> final(self).choices@.len() == 0,
            r is Ok ==> next_phase_ok(old(self).step, final(self).next_step),
            (r is Ok && old(self).step matches GameStep::Turn(t, TurnStep::TimePasses)) ==> ({
                &&& forall|l: int|
                    0 <= l < final(self).table.lands.len() ==> (#[trigger] final(self).table.lands@[l]).defense == 0 && final(self).table.lands@[l].fear_generated_here_this_round == 0
                &&& forall|si: int|
                    0 <= si < final(self).spirits.len() ==> (#[trigger] final(self).spirits@[si]).plays == 0 && final(self).spirits@[si].may_play_slows_as_fasts == 0 && final(self).spirits@[si].deck.pending.len() == 0
            }),
            r == Result::<(), StepFailure>::Err(StepFailure::DecisionRequired) ==> final(self).effect_stack@.len() > old(self).effect_stack@.len(),
            r == Result::<(), StepFailure>::Err(StepFailure::GameOverVictory) ==> final(self).step is Victory,
            r == Result::<(), StepFailure>::Err(StepFailure::GameOverDefeat) ==> final(self).step is Defeat,
    {
        let step = self.step;
        let next: GameStep = match step {
            GameStep::Init => {
                if self.desc.spirits.len() > 6 {
                    return Err(StepFailure::InternalError("too many spirits"));
                }
                let invaders = crate::deck::invader::generate_invader_deck();
                let sequence = self.desc.adversary.invader_steps.clone();
                match self.invader.set_state(invaders, Vec::new(), sequence) {
                    Ok(()) => {},
                    Err(e) => {
                        return Err(e);
                    },
                }
                match self.invader.shuffle_draw(&mut self.rng) {
                    Ok(()) => {},
                    Err(e) => {
                        return Err(e);
                    },
                }
                let fear_descs = self.desc.fear.clone();
                let counts = self.desc.adversary.fear_cards;
                match self.fear.init(&fear_descs, &mut self.rng, counts) {
                    Ok(()) => {},
                    Err(e) => {
                        return Err(e);
                    },
                }
                let sc = self.desc.spirits.len();
                self.fear_pool = (4 * sc) as u8;
                let setup = self.desc.adversary.setup.clone();
                let mut i: usize = 0;
                while i < setup.len()
                    invariant
                        i <= setup.len(),
                        self.step == old(self).step,
                        self.desc == old(self).desc,
                        self.effect_stack@ == old(self).effect_stack@,
                    decreases setup.len() - i,
                {
                    let e = setup[i].clone();
                    self.do_effect(e, MAX_EFFECT_DEPTH)?;
                    i = i + 1;
                }
                let mut sidx: usize = 0;
                while sidx < self.desc.spirits.len()
                    invariant
                        self.step == old(self).step,
                        self.desc == old(self).desc,
                        self.effect_stack@ == old(self).effect_stack@,
                    decreases self.desc.spirits.len() - sidx,
                {
                    self.spirits.push(SpiritState::new());
                    sidx = sidx + 1;
                }
                let mut minor: Vec<PowerCardDescription> = Vec::new();
                let mut major: Vec<PowerCardDescription> = Vec::new();
                let mut pi: usize = 0;
                while pi < self.desc.powers.len()
                    invariant
                        pi <= self.desc.powers.len(),
                        self.step == old(self).step,
                        self.desc == old(self).desc,
                        self.effect_stack@ == old(self).effect_stack@,
                    decreases self.desc.powers.len() - pi,
                {
                    let card = self.desc.powers[pi];
                    match card.kind {
                        PowerCardKind::Minor => {
                            minor.push(card);
                        },
                        PowerCardKind::Major => {
                            major.push(card);
                        },
                        _ => {},
                    }
                    pi = pi + 1;
                }
                self.minor_powers.init(&minor, &mut self.rng);
                self.major_powers.init(&major, &mut self.rng);
                GameStep::SetupSpirit
            },
            GameStep::SetupSpirit => {
                if self.desc.spirits.len() > 6 {
                    return Err(StepFailure::InternalError("too many spirits"));
                }
                let mut index: usize = 0;
                while index < self.desc.spirits.len()
                    invariant
                        index <= self.desc.spirits.len(),
                        self.desc.spirits.len() <= 6,
                        self.step == old(self).step,
                        self.desc == old(self).desc,
                        self.effect_stack@ == old(self).effect_stack@,
                    decreases self.desc.spirits.len() - index,
                {
                    let spirit_desc = self.desc.spirits[index].clone();
                    spirit_desc.do_setup(self, index as u8)?;
                    let mut powers: Vec<PowerCardDescription> = Vec::new();
                    let mut pi: usize = 0;
                    while pi < self.desc.powers.len()
                        invariant
                            pi <= self.desc.powers.len(),
                            index < self.desc.spirits.len(),
                            self.desc.spirits.len() <= 6,
                            self.step == old(self).step,
                            self.desc == old(self).desc,
                            self.effect_stack@ == old(self).effect_stack@,
                        decreases self.desc.powers.len() - pi,
                    {
                        let card = self.desc.powers[pi];
                        if card.kind == PowerCardKind::Spirit(index as u8) {
                            powers.push(card);
                        }
                        pi = pi + 1;
                    }
                    let mut spirit = self.take_spirit(index as u8)?;
                    spirit.deck.init(&powers);
                    self.put_spirit(index as u8, spirit);
                    index = index + 1;
                }
                GameStep::SetupExplore
            },
            GameStep::SetupExplore => {
                match self.invader.draw_into_pending() {
                    Ok(()) => {},
                    Err(e) => {
                        return Err(e);
                    },
                }
                if self.invader.pending.len() == 0 {
                    return Err(StepFailure::InternalError("no pending invader slot"));
                }
                let back = &self.invader.pending[self.invader.pending.len() - 1];
                if back.len() == 0 {
                    return Err(StepFailure::InternalError("no invader card drawn"));
                }
                let card = back[0];
                let targets = self.targets_of(card);
                let mut t: usize = 0;
                while t < targets.len()
                    invariant
                        t <= targets.len(),
                        self.step == old(self).step,
                        self.desc == old(self).desc,
                        self.effect_stack@ == old(self).effect_stack@,
                    decreases targets.len() - t,
                {
                    self.do_effect(
                        Effect::ExploreEffect(
                            crate::effect::ExploreEffect { land_index: targets[t] },
                        ),
                        MAX_EFFECT_DEPTH,
                    )?;
                    t = t + 1;
                }
                match self.invader.advance() {
                    Ok(()) => {},
                    Err(e) => {
                        return Err(e);
                    },
                }
                GameStep::Turn(0, TurnStep::Spirit(SpiritStep::Growth))
            },
            GameStep::Turn(turn, turn_step) => match turn_step {
                TurnStep::Spirit(SpiritStep::Growth) => {
                    if self.desc.spirits.len() > 6 {
                        return Err(StepFailure::InternalError("too many spirits"));
                    }
                    let mut i: usize = 0;
                    while i < self.desc.spirits.len()
                        invariant
                            i <= self.desc.spirits.len(),
                            self.desc.spirits.len() <= 6,
                            self.step == old(self).step,
                            self.desc == old(self).desc,
                            self.effect_stack@ == old(self).effect_stack@,
                        decreases self.desc.spirits.len() - i,
                    {
                        let spirit_desc = self.desc.spirits[i].clone();
                        spirit_desc.do_growth(self, i as u8)?;
                        i = i + 1;
                    }
                    GameStep::Turn(turn, TurnStep::Spirit(SpiritStep::Income))
                },
                TurnStep::Spirit(SpiritStep::Income) => {
                    if self.desc.spirits.len() > 6 {
                        return Err(StepFailure::InternalError("too many spirits"));
                    }
                    let mut i: usize = 0;
                    while i < self.desc.spirits.len()
                        invariant
                            i <= self.desc.spirits.len(),
                            self.desc.spirits.len() <= 6,
                            self.step == old(self).step,
                            self.desc == old(self).desc,
                            self.effect_stack@ == old(self).effect_stack@,
                        decreases self.desc.spirits.len() - i,
                    {
                        let spirit_desc = self.desc.spirits[i].clone();
                        spirit_desc.do_income(self, i as u8)?;
                        i = i + 1;
                    }
                    GameStep::Turn(turn, TurnStep::Spirit(SpiritStep::Play))
                },
                TurnStep::Spirit(SpiritStep::Play) => {
                    if self.desc.spirits.len() > 6 {
                        return Err(StepFailure::InternalError("too many spirits"));
                    }
                    let mut i: usize = 0;
                    while i < self.desc.spirits.len()
                        invariant
                            i <= self.desc.spirits.len(),
                            self.desc.spirits.len() <= 6,
                            self.step == old(self).step,
                            self.desc == old(self).desc,
                            self.effect_stack@ == old(self).effect_stack@,
                        decreases self.desc.spirits.len() - i,
                    {
                        self.do_effect(
                            Effect::CardPlaysDecision(
                                crate::decision::CardPlaysDecision { spirit_index: i as u8 },
                            ),
                            MAX_EFFECT_DEPTH,
                        )?;
                        i = i + 1;
                    }
                    GameStep::Turn(turn, TurnStep::FastPower)
                },
                TurnStep::FastPower => {
                    self.do_effect(
                        Effect::DoCardPlaysDecision(
                            crate::decision::DoCardPlaysDecision {
                                power_speed: crate::concept::PowerSpeed::Fast,
                            },
                        ),
                        MAX_EFFECT_DEPTH,
                    )?;
                    GameStep::Turn(turn, TurnStep::Invader(InvaderStep::BlightedIsland))
                },
                TurnStep::Invader(inv_step) => match inv_step {
                    InvaderStep::BlightedIsland => {
                        let next = self.step_to_next_event()?;
                        GameStep::Turn(turn, TurnStep::Invader(next))
                    },
                    InvaderStep::Event(_event_card, _event_part) => {
                        let next = self.step_to_next_event()?;
                        GameStep::Turn(turn, TurnStep::Invader(next))
                    },
                    InvaderStep::FearEffect(fear_card) => {
                        if (fear_card as usize) >= self.fear.pending.len() {
                            return Err(StepFailure::InternalError("fear card index out of range"));
                        }
                        let card_desc = self.fear.pending[fear_card as usize].desc.clone();
                        let terror_level = self.fear.terror_level();
                        let effect = match terror_level {
                            TerrorLevel::I => card_desc.effect_1,
                            TerrorLevel::II => card_desc.effect_2,
                            TerrorLevel::III => card_desc.effect_3,
                        };
                        self.do_effect(effect, MAX_EFFECT_DEPTH)?;
                        let next = self.step_to_next_fear()?;
                        GameStep::Turn(turn, TurnStep::Invader(next))
                    },
                    InvaderStep::InvaderAction(inv_action, inv_card) => {
                        let inv_kind = match self.invader.get_step_kind(inv_action) {
                            Some(k) => k,
                            None => {
                                return Err(
                                    StepFailure::InternalError("invader action out of range"),
                                );
                            },
                        };
                        if (inv_action as usize) >= self.invader.pending.len() {
                            return Err(
                                StepFailure::InternalError("invader pending slot out of range"),
                            );
                        }
                        let slot = &self.invader.pending[inv_action as usize];
                        if (inv_card as usize) >= slot.len() {
                            return Err(
                                StepFailure::InternalError("invader card index out of range"),
                            );
                        }
                        let card = slot[inv_card as usize];
                        let targets = self.targets_of(card);
                        let mut t: usize = 0;
                        while t < targets.len()
                            invariant
                                t <= targets.len(),
                                self.step == old(self).step,
                                self.desc == old(self).desc,
                                self.effect_stack@ == old(self).effect_stack@,
                            decreases targets.len() - t,
                        {
                            match inv_kind {
                                InvaderActionKind::Explore => {
                                    self.do_effect(
                                        Effect::ExploreEffect(
                                            crate::effect::ExploreEffect {
                                                land_index: targets[t],
                                            },
                                        ),
                                        MAX_EFFECT_DEPTH,
                                    )?;
                                },
                                InvaderActionKind::Build => {
                                    self.do_effect(
                                        Effect::BuildEffect(
                                            crate::effect::BuildEffect { land_index: targets[t] },
                                        ),
                                        MAX_EFFECT_DEPTH,
                                    )?;
                                },
                                InvaderActionKind::Ravage => {
                                    self.do_effect(
                                        Effect::RavageEffect(
                                            crate::effect::RavageEffect { land_index: targets[t] },
                                        ),
                                        MAX_EFFECT_DEPTH,
                                    )?;
                                },
                            }
                            t = t + 1;
                        }
                        let next = self.step_to_next_invader()?;
                        GameStep::Turn(turn, TurnStep::Invader(next))
                    },
                    InvaderStep::InvaderAdvance => {
                        match self.invader.advance() {
                            Ok(()) => {},
                            Err(e) => {
                                return Err(e);
                            },
                        }
                        GameStep::Turn(turn, TurnStep::SlowPower)
                    },
                },
                TurnStep::SlowPower => {
                    self.do_effect(
                        Effect::DoCardPlaysDecision(
                            crate::decision::DoCardPlaysDecision {
                                power_speed: crate::concept::PowerSpeed::Slow,
                            },
                        ),
                        MAX_EFFECT_DEPTH,
                    )?;
                    GameStep::Turn(turn, TurnStep::TimePasses)
                },
                TurnStep::TimePasses => {
                    if self.table.lands.len() > 255 {
                        return Err(StepFailure::InternalError("too many lands"));
                    }
                    let mut li: usize = 0;
                    while li < self.table.lands.len()
                        invariant
                            li <= self.table.lands.len(),
                            self.table.lands.len() <= 255,
                            self.step == old(self).step,
                            self.desc == old(self).desc,
                            self.effect_stack@ == old(self).effect_stack@,
                            forall|l: int|
                                0 <= l < li ==> (#[trigger] self.table.lands@[l]).defense == 0
                                    && self.table.lands@[l].fear_generated_here_this_round == 0,
                        decreases self.table.lands.len() - li,
                    {
                        let mut land = self.take_land(li as u8)?;
                        land.time_passes();
                        self.put_land(li as u8, land);
                        li = li + 1;
                    }
                    if self.spirits.len() > 255 {
                        return Err(StepFailure::InternalError("too many spirits"));
                    }
                    let mut si: usize = 0;
                    while si < self.spirits.len()
                        invariant
                            si <= self.spirits.len(),
                            self.spirits.len() <= 255,
                            self.step == old(self).step,
                            self.desc == old(self).desc,
                            self.effect_stack@ == old(self).effect_stack@,
                            forall|l: int|
                                0 <= l < self.table.lands.len() ==> (
                                #[trigger] self.table.lands@[l]).defense == 0
                                    && self.table.lands@[l].fear_generated_here_this_round == 0,
                            forall|j: int|
                                0 <= j < si ==> (#[trigger] self.spirits@[j]).plays == 0
                                    && self.spirits@[j].may_play_slows_as_fasts == 0
                                    && self.spirits@[j].deck.pending.len() == 0,
                        decreases self.spirits.len() - si,
                    {
                        let mut spirit = self.take_spirit(si as u8)?;
                        spirit.time_passes();
                        self.put_spirit(si as u8, spirit);
                        si = si + 1;
                    }
                    if turn == 255 {
                        return Err(StepFailure::InternalError("turn counter overflow"));
                    }
                    GameStep::Turn(turn + 1, TurnStep::Spirit(SpiritStep::Growth))
                },
            },
            GameStep::Victory => {
                return Err(StepFailure::InternalError("cannot step a terminal phase"));
            },
            GameStep::Defeat => {
                return Err(StepFailure::InternalError("cannot step a terminal phase"));
            },
        };
        self.next_step = next;
        if self.choices.len() > 0 {
            return Err(StepFailure::InternalError("There are unconsumed choices!"));
        }
        Ok(())
    }

    /// The table indexes of the lands an invader card targets.
    fn targets_of(&self, card: crate::deck::invader::InvaderCard) -> (r: Vec<u8>) {
        let mut targets: Vec<u8> = Vec::new();
        let mut li: usize = 0;
        while li < self.desc.table.lands.len()
            invariant
                li <= self.desc.table.lands.len(),
            decreases self.desc.table.lands.len() - li,
        {
            if card.can_target(&self.desc.table.lands[li]) {
                targets.push(self.desc.table.lands[li].index_on_table);
            }
            li = li + 1;
        }
        targets
    }
}

/// The number of invader cards in the pending slots.
pub open spec fn pending_total(s: Seq<Vec<crate::deck::invader::InvaderCard>>) -> int
    decreases s.len(),
{
    if s.len() == 0 {
        0
    } else {
        pending_total(s.drop_last()) + s.last().len()
    }
}

/// The dahan standing on the table.
pub open spec fn dahan_total(s: Seq<LandState>) -> int
    decreases s.len(),
{
    if s.len() == 0 {
        0
    } else {
        dahan_total(s.drop_last()) + s.last().dahan.len()
    }
}

/// The blight on the table.
pub open spec fn blight_total(s: Seq<LandState>) -> int
    decreases s.len(),
{
    if s.len() == 0 {
        0
    } else {
        blight_total(s.drop_last()) + s.last().tokens.spec_get(
            crate::piece::TokenKind::Blight,
        ) as int
    }
}

/// A quantity capped at the score range.
pub open spec fn capped(x: int) -> int {
    if x > 32767 {
        32767int
    } else {
        x
    }
}

proof fn lemma_pending_total_nonneg(s: Seq<Vec<crate::deck::invader::InvaderCard>>)
    ensures
        0 <= pending_total(s),
    decreases s.len(),
{
    if s.len() > 0 {
        lemma_pending_total_nonneg(s.drop_last());
    }
}

proof fn lemma_pending_total_step(s: Seq<Vec<crate::deck::invader::InvaderCard>>, i: int)
    requires
        0 <= i < s.len(),
    ensures
        pending_total(s.subrange(0, i + 1)) == pending_total(s.subrange(0, i)) + s[i].len(),
{
    assert(s.subrange(0, i + 1).drop_last() =~= s.subrange(0, i));
    assert(s.subrange(0, i + 1).last() == s[i]);
}

proof fn lemma_dahan_total_nonneg(s: Seq<LandState>)
    ensures
        0 <= dahan_total(s),
        0 <= blight_total(s),
    decreases s.len(),
{
    if s.len() > 0 {
        lemma_dahan_total_nonneg(s.drop_last());
    }
}

proof fn lemma_dahan_total_step(s: Seq<LandState>, i: int)
    requires
        0 <= i < s.len(),
    ensures
        dahan_total(s.subrange(0, i + 1)) == dahan_total(s.subrange(0, i)) + s[i].dahan.len(),
        blight_total(s.subrange(0, i + 1)) == blight_total(s.subrange(0, i)) + s[i].tokens.spec_get(
            crate::piece::TokenKind::Blight,
        ),
{
    assert(s.subrange(0, i + 1).drop_last() =~= s.subrange(0, i));
    assert(s.subrange(0, i + 1).last() == s[i]);
}

/// A count capped at the score range.
fn capped_usize(x: usize) -> (r: u16)
    ensures
        r as int == capped(x as int),
        r <= 32767,
{
    if x > 32767 {
        32767
    } else {
        x as u16
    }
}

impl GameState {
    /// The deterministic evaluation of a finished game.
    pub fn score_game(&self) -> (r: i16)
        ensures
            r as int == spec_score(*self),
    {
        let victory = match self.step {
            GameStep::Victory => true,
            _ => false,
        };
        let base: u16 = if victory {
            let d = capped_usize(self.invader.draw.len());
            let v: u32 = 10 + 2 * (d as u32);
            if v > 32767 {
                32767
            } else {
                v as u16
            }
        } else {
            let mut pend: u16 = 0;
            let mut i: usize = 0;
            proof {
                assert(self.invader.pending@.subrange(0, 0) =~= Seq::<
                    Vec<crate::deck::invader::InvaderCard>,
                >::empty());
            }
            while i < self.invader.pending.len()
                invariant
                    i <= self.invader.pending.len(),
                    pend as int == capped(pending_total(self.invader.pending@.subrange(0, i as int))),
                    pend <= 32767,
                decreases self.invader.pending.len() - i,
            {
                let slot_c = capped_usize(self.invader.pending[i].len());
                proof {
                    lemma_pending_total_step(self.invader.pending@, i as int);
                    lemma_pending_total_nonneg(self.invader.pending@.subrange(0, i as int));
                }
                pend = if (pend as u32) + (slot_c as u32) > 32767 {
                    32767
                } else {
                    pend + slot_c
                };
                i = i + 1;
            }
            proof {
                assert(self.invader.pending@.subrange(0, self.invader.pending.len() as int)
                    =~= self.invader.pending@);
            }
            let disc = capped_usize(self.invader.discard.len());
            let v: u32 = (pend as u32) + (disc as u32);
            if v > 32767 {
                32767
            } else {
                v as u16
            }
        };
        let mut dahan_c: u16 = 0;
        let mut blight_c: u16 = 0;
        let mut li: usize = 0;
        proof {
            assert(self.table.lands@.subrange(0, 0) =~= Seq::<LandState>::empty());
        }
        while li < self.table.lands.len()
            invariant
                li <= self.table.lands.len(),
                dahan_c as int == capped(dahan_total(self.table.lands@.subrange(0, li as int))),
                blight_c as int == capped(blight_total(self.table.lands@.subrange(0, li as int))),
                dahan_c <= 32767,
                blight_c <= 32767,
            decreases self.table.lands.len() - li,
        {
            let land_dahan = capped_usize(self.table.lands[li].dahan.len());
            let land_blight = self.table.lands[li].tokens.get(crate::piece::TokenKind::Blight);
            proof {
                lemma_dahan_total_step(self.table.lands@, li as int);
                lemma_dahan_total_nonneg(self.table.lands@.subrange(0, li as int));
            }
            dahan_c = if (dahan_c as u32) + (land_dahan as u32) > 32767 {
                32767
            } else {
                dahan_c + land_dahan
            };
            blight_c = if (blight_c as u32) + (land_blight as u32) > 32767 {
                32767
            } else {
                blight_c + (land_blight as u16)
            };
            li = li + 1;
        }
        proof {
            assert(self.table.lands@.subrange(0, self.table.lands.len() as int)
                =~= self.table.lands@);
        }
        let players = self.spirits.len();
        let dahan_part: u16 = if players > 0 {
            ((dahan_c as usize) / players) as u16
        } else {
            0
        };
        let blight_part: u16 = if players > 0 {
            ((blight_c as usize) / players) as u16
        } else {
            0
        };
        let total: i32 = (base as i32) + (dahan_part as i32) - (blight_part as i32);
        if total > 32767 {
            32767
        } else if total < -32768 {
            -32768
        } else {
            total as i16
        }
    }
}

/// The score of a finished game.  A victory is worth ten points plus two
/// per invader card still in the deck; a defeat scores one point per
/// invader card out of the deck.  Either way each living dahan per player
/// adds a point and each blight per player costs one.  Each count is
/// capped at the score range as it is read, and the sum is clamped into
/// it.  A game with no spirits scores the base alone.
pub open spec fn spec_score(g: GameState) -> int {
    let base = if g.step is Victory {
        capped(10 + 2 * capped(g.invader.draw.len() as int))
    } else {
        capped(capped(pending_total(g.invader.pending@)) + capped(g.invader.discard.len() as int))
    };
    let players = g.spirits.len() as int;
    let dahan_part = if players > 0 {
        capped(dahan_total(g.table.lands@)) / players
    } else {
        0
    };
    let blight_part = if players > 0 {
        capped(blight_total(g.table.lands@)) / players
    } else {
        0
    };
    let total = base + dahan_part - blight_part;
    if total > 32767 {
        32767int
    } else if total < -32768 {
        -32768int
    } else {
        total
    }
}

} // verus!
