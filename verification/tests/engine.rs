//! Solver-level behaviour: the synthetic two-choice scenario, determinism,
//! and thread-count invariance.

use std::collections::VecDeque;
use spirit_island_solver::board::{BoardDescription, LandDescription, TableDescription};
use spirit_island_solver::concept::{AdversaryDescription, ContentPack, InvaderActionKind, LandKind, search_for_spirit};
use spirit_island_solver::content::CoreContent;
use spirit_island_solver::decision::{ChooseEffectDecision, DecisionChoice};
use spirit_island_solver::default_adversary::DefaultAdversaryDescription;
use spirit_island_solver::effect::{Effect, SubEffect};
use spirit_island_solver::game::{GameDescription, GameState};
use spirit_island_solver::piece::{InvaderMap, TokenMap};
use spirit_island_solver::rng::DeterministicChaCha;
use spirit_island_solver::solve::{SimpleDecisionMaker, SolveEngine, SolveStrategy};
use spirit_island_solver::step::GameStep;

fn scenario_land(index: u8, kind: LandKind, adjacent: Vec<u8>) -> LandDescription {
    LandDescription {
        index_on_board: index,
        adjacent,
        kind,
        is_coastal: false,
        edge_range: None,
        starting_tokens: TokenMap::new(0),
        starting_invaders: InvaderMap::new(0),
        starting_dahan: 0,
        index_on_table: index,
        parent_board_index: 0,
    }
}

fn two_land_table() -> TableDescription {
    let lands = vec![
        scenario_land(0, LandKind::Wetlands, vec![1]),
        scenario_land(1, LandKind::Sands, vec![0]),
    ];
    let board_lands = vec![
        scenario_land(0, LandKind::Wetlands, vec![1]),
        scenario_land(1, LandKind::Sands, vec![0]),
    ];
    TableDescription {
        boards: vec![BoardDescription { name: "S", lands: board_lands }],
        lands,
        land_count: 2,
    }
}

/// A two-land board with exactly one decision point offering two choices:
/// one ends the game in immediate victory, the other in immediate defeat.
fn scenario_description() -> GameDescription {
    let adversary = AdversaryDescription {
        fear_cards: (0, 0, 0),
        invader_steps: vec![
            InvaderActionKind::Ravage,
            InvaderActionKind::Build,
            InvaderActionKind::Explore,
        ],
        setup: vec![Effect::ChooseEffectDecision(ChooseEffectDecision {
            choices: vec![
                SubEffect::Victory("the spirits prevail"),
                SubEffect::Defeat("the island is lost"),
            ],
        })],
    };
    GameDescription::new(Vec::new(), adversary, Vec::new(), two_land_table())
}

#[test]
fn scenario_one_decision_victory_or_defeat() {
    let desc = scenario_description();
    let state = GameState::new(desc, DeterministicChaCha::from_seed([3; 32]));
    let expected_victory_score: i16;
    {
        // the victory state keeps the full fifteen-card invader deck
        expected_victory_score = 10 + 2 * 15;
    }
    let strategy = SolveStrategy::Simple(SimpleDecisionMaker::new(0));
    let mut engine = SolveEngine::new(&state, strategy);
    engine.run(1).expect("the solve must finish");
    let stats = engine.root_stats();
    assert_eq!(stats.victories, 1);
    assert_eq!(stats.defeats, 1);
    assert_eq!(stats.errors, 0);
    assert_eq!(stats.max_score, expected_victory_score);
    assert_eq!(stats.min_score, 0);
    let winning: Vec<VecDeque<DecisionChoice>> =
        vec![VecDeque::from(vec![DecisionChoice::Choice(0)])];
    assert_eq!(stats.first_best_game, winning);
    let replay = engine
        .resimulate_game(stats.first_best_game.clone())
        .expect("the best game must replay cleanly");
    assert_eq!(replay.step, GameStep::Victory);
    assert_eq!(replay.game_over_reason, Some("the spirits prevail"));
}

fn full_game_state(seed: [u8; 32]) -> GameState {
    let content = vec![ContentPack::Core(CoreContent::new())];
    let spirit = search_for_spirit(&content, "river").expect("the river spirit exists");
    let table = spirit_island_solver::board::make_map(&content, vec!["A"]).expect("board A exists");
    let adversary = DefaultAdversaryDescription::new().description();
    let desc = GameDescription::new(content, adversary, vec![spirit], table);
    GameState::new(desc, DeterministicChaCha::from_seed(seed))
}

fn solve_stats(seed: [u8; 32], take: u8, threads: usize) -> (usize, usize, usize, i16, i16, Vec<VecDeque<DecisionChoice>>) {
    let state = full_game_state(seed);
    let strategy = SolveStrategy::Simple(SimpleDecisionMaker::new(take));
    let mut engine = SolveEngine::new(&state, strategy);
    engine.run(threads).expect("the solve must finish");
    let stats = engine.root_stats();
    (
        stats.victories,
        stats.defeats,
        stats.errors,
        stats.min_score,
        stats.max_score,
        stats.first_best_game.clone(),
    )
}

#[test]
fn determinism_identical_runs_are_bit_identical() {
    let a = solve_stats([11; 32], 1, 1);
    let b = solve_stats([11; 32], 1, 1);
    assert_eq!(a.0, b.0);
    assert_eq!(a.1, b.1);
    assert_eq!(a.2, b.2);
    assert_eq!(a.3, b.3);
    assert_eq!(a.4, b.4);
    assert_eq!(a.5, b.5);
}

#[test]
fn thread_count_invariance() {
    let base = solve_stats([11; 32], 1, 1);
    for threads in [2usize, 4, 8] {
        let other = solve_stats([11; 32], 1, threads);
        assert_eq!(base.0 + base.1 + base.2, other.0 + other.1 + other.2);
        assert_eq!(base.3, other.3);
        assert_eq!(base.4, other.4);
    }
}

#[test]
fn stochastic_strategy_is_deterministic_for_a_seed() {
    let state = full_game_state([23; 32]);
    let strategy = SolveStrategy::Stochastic(
        spirit_island_solver::solve::StochasticDecisionMaker::new(
            DeterministicChaCha::from_seed([23; 32]),
            1,
        ),
    );
    let mut engine = SolveEngine::new(&state, strategy);
    engine.run(1).expect("the solve must finish");
    let first = (
        engine.root_stats().victories,
        engine.root_stats().defeats,
        engine.root_stats().errors,
        engine.root_stats().min_score,
        engine.root_stats().max_score,
    );
    let state2 = full_game_state([23; 32]);
    let strategy2 = SolveStrategy::Stochastic(
        spirit_island_solver::solve::StochasticDecisionMaker::new(
            DeterministicChaCha::from_seed([23; 32]),
            1,
        ),
    );
    let mut engine2 = SolveEngine::new(&state2, strategy2);
    engine2.run(1).expect("the solve must finish");
    let second = (
        engine2.root_stats().victories,
        engine2.root_stats().defeats,
        engine2.root_stats().errors,
        engine2.root_stats().min_score,
        engine2.root_stats().max_score,
    );
    assert_eq!(first, second);
}
