//! Step-machine behaviour: pause and resume across nested decisions, the
//! choice-queue invariant, and decision well-formedness on real states.

use std::collections::VecDeque;
use spirit_island_solver::board::{BoardDescription, LandDescription, TableDescription};
use spirit_island_solver::concept::{AdversaryDescription, InvaderActionKind, LandKind};
use spirit_island_solver::content::make_fear_cards;
use spirit_island_solver::deck::fear::FearCard;
use spirit_island_solver::deck::invader::InvaderCard;
use spirit_island_solver::decision::{CascadeBlightDecision, DecisionChoice};
use spirit_island_solver::game::{GameDescription, GameState};
use spirit_island_solver::piece::{InvaderKind, InvaderMap, TokenKind, TokenMap};
use spirit_island_solver::rng::DeterministicChaCha;
use spirit_island_solver::solve::{SimpleDecisionMaker, SolveEngine, SolveStrategy};
use spirit_island_solver::step::{GameStep, InvaderStep, StepFailure, TurnStep};

fn battle_land(index: u8, kind: LandKind, adjacent: Vec<u8>, towns: u8, dahan: u8) -> LandDescription {
    LandDescription {
        index_on_board: index,
        adjacent,
        kind,
        is_coastal: false,
        edge_range: None,
        starting_tokens: TokenMap::new(0),
        starting_invaders: InvaderMap::new(0).map(InvaderKind::Town, towns),
        starting_dahan: dahan,
        index_on_table: index,
        parent_board_index: 0,
    }
}

/// A ravage about to happen in a land holding one town and two dahan.
fn ravage_state() -> GameState {
    let lands = vec![
        battle_land(0, LandKind::Wetlands, vec![1], 0, 0),
        battle_land(1, LandKind::Sands, vec![0], 1, 2),
    ];
    let board_lands = vec![
        battle_land(0, LandKind::Wetlands, vec![1], 0, 0),
        battle_land(1, LandKind::Sands, vec![0], 1, 2),
    ];
    let table = TableDescription {
        boards: vec![BoardDescription { name: "S", lands: board_lands }],
        lands,
        land_count: 2,
    };
    let adversary = AdversaryDescription {
        fear_cards: (0, 0, 0),
        invader_steps: vec![InvaderActionKind::Ravage],
        setup: Vec::new(),
    };
    let desc = GameDescription::new(Vec::new(), adversary, Vec::new(), table);
    let mut state = GameState::new(desc, DeterministicChaCha::from_seed([7; 32]));
    state.step = GameStep::Turn(0, TurnStep::Invader(InvaderStep::InvaderAction(0, 0)));
    state
        .invader
        .set_state(Vec::new(), Vec::new(), vec![InvaderActionKind::Ravage])
        .expect("one action fits");
    state.invader.pending[0].push(InvaderCard::Phase1(LandKind::Sands));
    let fear_cards = make_fear_cards();
    state.fear.draw.push(FearCard { desc: fear_cards[0].clone(), index: 0 });
    state.fear.draw.push(FearCard { desc: fear_cards[1].clone(), index: 1 });
    state.fear_pool = 4;
    state
}

#[test]
fn nested_decision_pauses_three_effects_deep() {
    let state = ravage_state();
    let mut working = state.clone();
    let res = working.step();
    assert!(matches!(res, Err(StepFailure::DecisionRequired)));
    // ravage, dahan counter-attack, damage allocation: three effects deep
    assert_eq!(working.effect_stack.len(), 3);
}

#[test]
fn resume_replays_the_prefix_without_duplicate_side_effects() {
    let state = ravage_state();
    // first attempt pauses at the nested damage decision
    let mut probe = state.clone();
    assert!(matches!(probe.step(), Err(StepFailure::DecisionRequired)));
    // resume from the committed state with the missing choice supplied
    let mut working = state.clone();
    working.choices = VecDeque::from(vec![DecisionChoice::Damage(vec![2])]);
    working.step().expect("the resumed step succeeds");
    working.advance().expect("commit");
    // the probe effects before the decision ran exactly once: one blight
    // entered the land, one blight left the card, one dahan died, the
    // town died, and its fear was generated once
    assert_eq!(working.table.lands[1].tokens.get(TokenKind::Blight), 1);
    assert_eq!(working.blight_remaining, 4);
    assert_eq!(working.table.lands[1].dahan.len(), 1);
    assert_eq!(working.table.lands[1].invaders.len(), 0);
    assert_eq!(working.fear_generated_total, 1);
}

#[test]
fn successful_step_drains_the_choice_queue() {
    let state = ravage_state();
    let mut working = state.clone();
    working.choices = VecDeque::from(vec![DecisionChoice::Damage(vec![2])]);
    working.step().expect("the resumed step succeeds");
    assert_eq!(working.choices.len(), 0);
}

#[test]
fn leftover_choices_are_an_internal_error() {
    let state = ravage_state();
    let mut working = state.clone();
    working.choices = VecDeque::from(vec![
        DecisionChoice::Damage(vec![2]),
        DecisionChoice::Choice(0),
    ]);
    let res = working.step();
    assert!(matches!(res, Err(StepFailure::InternalError(_))));
}

#[test]
fn wrong_choice_shape_is_a_decision_mismatch() {
    let state = ravage_state();
    let mut working = state.clone();
    working.choices = VecDeque::from(vec![DecisionChoice::Choice(0)]);
    let res = working.step();
    assert!(matches!(res, Err(StepFailure::DecisionMismatch)));
}

/// Decision well-formedness on a live state: every choice the cascade
/// decision enumerates is accepted when applied.
#[test]
fn cascade_valid_choices_are_never_rejected() {
    let mut state = ravage_state();
    // a second blight in land 0 must cascade to an adjacent land in play
    state.blight_remaining = 5;
    {
        let land = &mut state.table.lands[0];
        let b = land.tokens.get(TokenKind::Blight);
        land.tokens.set(TokenKind::Blight, b + 1);
    }
    let decision = CascadeBlightDecision { src_land_index: 0 };
    let choices = decision.valid_choices(&state);
    assert!(choices.len() > 0);
    for c in choices {
        let mut working = state.clone();
        working.choices = VecDeque::from(vec![c]);
        let res = decision.apply_effect(&mut working, 32);
        match res {
            Err(StepFailure::RulesViolation(_)) | Err(StepFailure::DecisionMismatch) => {
                panic!("a valid choice was rejected")
            },
            _ => {},
        }
    }
}

/// Solving the ravage scenario: the only decision is the damage
/// allocation, the dahan destroy the town, and the game then loses to an
/// empty invader deck.
#[test]
fn solving_the_ravage_scenario_ends_in_defeat() {
    let state = ravage_state();
    let strategy = SolveStrategy::Simple(SimpleDecisionMaker::new(0));
    let mut engine = SolveEngine::new(&state, strategy);
    engine.run(1).expect("the solve must finish");
    let stats = engine.root_stats();
    assert_eq!(stats.victories, 0);
    assert_eq!(stats.defeats, 1);
    assert_eq!(stats.errors, 0);
}
