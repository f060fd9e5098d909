//! Unit behaviour: pieces, decks, damage allocation, scoring, and the
//! random-source wrappers.

use std::collections::VecDeque;
use spirit_island_solver::board::{contains_u8, make_map};
use spirit_island_solver::content::make_board_a;
use spirit_island_solver::concept::{ContentPack, InvaderActionKind, LandKind, TerrorLevel, search_for_board, search_for_spirit};
use spirit_island_solver::content::{CoreContent, make_fear_cards, make_minor_power_cards};
use spirit_island_solver::deck::fear::FearDeck;
use spirit_island_solver::deck::invader::{generate_invader_deck, InvaderCard, InvaderDeck};
use spirit_island_solver::decision::{CardPlaysDecision, CascadeBlightDecision, DecisionChoice, PushDecision, allocate_efficent_damage, piece_kind_vec_to_string};
use spirit_island_solver::effect::GenerateFearEffect;
use spirit_island_solver::default_adversary::{DefaultAdversaryDescription, invader_deck_setup_standard};
use spirit_island_solver::game::{GameDescription, GameState};
use spirit_island_solver::piece::{Dahan, Invader, InvaderKind, PieceKind, TokenKind};
use spirit_island_solver::rng::{DeterministicChaCha, shuffle_vec};
use spirit_island_solver::step::{GameStep, StepFailure};

#[test]
fn invader_kinds_have_their_printed_values() {
    assert_eq!(InvaderKind::Explorer.attack(), 1);
    assert_eq!(InvaderKind::Town.attack(), 2);
    assert_eq!(InvaderKind::City.attack(), 3);
    assert_eq!(InvaderKind::Explorer.health(), 1);
    assert_eq!(InvaderKind::Town.health(), 2);
    assert_eq!(InvaderKind::City.health(), 3);
    assert!(!InvaderKind::Explorer.is_building());
    assert!(InvaderKind::Town.is_building());
    assert!(InvaderKind::City.is_building());
}

#[test]
fn pieces_heal_when_time_passes() {
    let mut invader = Invader::new(InvaderKind::City);
    invader.health_cur = 1;
    invader.time_passes();
    assert_eq!(invader.health_cur, 3);
    let mut dahan = Dahan::new();
    dahan.health_cur = 1;
    dahan.time_passes();
    assert_eq!(dahan.health_cur, 2);
}

#[test]
fn efficient_damage_spends_on_the_weakest_first() {
    let layout = allocate_efficent_damage(3, vec![2, 1, 2]);
    assert_eq!(layout, vec![2, 1, 0]);
    let layout = allocate_efficent_damage(10, vec![2, 1, 2]);
    assert_eq!(layout, vec![2, 1, 2]);
    let layout = allocate_efficent_damage(0, vec![2, 1, 2]);
    assert_eq!(layout, vec![0, 0, 0]);
    let layout = allocate_efficent_damage(4, vec![]);
    assert_eq!(layout, Vec::<u16>::new());
}

#[test]
fn the_invader_deck_has_its_fifteen_cards() {
    let deck = generate_invader_deck();
    assert_eq!(deck.len(), 15);
    assert!(matches!(deck[0], InvaderCard::Phase3(_, _)));
    assert!(matches!(deck[6], InvaderCard::Phase2(_)));
    assert!(matches!(deck[11], InvaderCard::Phase1(_)));
}

#[test]
fn invader_cards_target_by_land_kind() {
    let board = make_board_a();
    // land 4 is sands, land 2 is wetlands
    let sands = &board.lands[4];
    let wetlands = &board.lands[2];
    assert!(InvaderCard::Phase1(LandKind::Sands).can_target(sands));
    assert!(!InvaderCard::Phase1(LandKind::Sands).can_target(wetlands));
    // the coastal phase-two card targets coastal lands that are not ocean
    let ocean = &board.lands[0];
    let coastal = &board.lands[1];
    assert!(!InvaderCard::Phase2(LandKind::Ocean).can_target(ocean));
    assert!(InvaderCard::Phase2(LandKind::Ocean).can_target(coastal));
}

#[test]
fn the_standard_setup_removes_one_card_of_each_phase() {
    let content = vec![ContentPack::Core(CoreContent::new())];
    let spirit = search_for_spirit(&content, "river").expect("river exists");
    let table = make_map(&content, vec!["A"]).expect("board A exists");
    let adversary = DefaultAdversaryDescription::new().description();
    let desc = GameDescription::new(content, adversary, vec![spirit], table);
    let mut state = GameState::new(desc, DeterministicChaCha::from_seed([1; 32]));
    state
        .invader
        .set_state(generate_invader_deck(), Vec::new(), vec![InvaderActionKind::Ravage])
        .expect("one action fits");
    invader_deck_setup_standard(&mut state).expect("all phases are present");
    assert_eq!(state.invader.draw.len(), 12);
}

#[test]
fn board_a_layout() {
    let board = make_board_a();
    assert_eq!(board.lands.len(), 9);
    assert_eq!(board.name, "A");
    assert_eq!(board.lands[0].kind, LandKind::Ocean);
    // adjacency as printed on the board
    assert!(contains_u8(&board.lands[1].adjacent, 6));
    assert!(contains_u8(&board.lands[6].adjacent, 1));
    assert_eq!(board.lands[2].starting_dahan, 1);
}

#[test]
fn board_a_adjacency_is_symmetric() {
    let board = make_board_a();
    for i in 0..board.lands.len() {
        for &j in board.lands[i].adjacent.iter() {
            assert!(
                contains_u8(&board.lands[j as usize].adjacent, i as u8),
                "land {} names {} but not the other way around",
                i,
                j
            );
        }
    }
}

#[test]
fn drawing_into_pending_moves_the_top_card_to_the_back_slot() {
    let mut deck = InvaderDeck::new();
    deck.set_state(
        generate_invader_deck(),
        Vec::new(),
        vec![InvaderActionKind::Explore, InvaderActionKind::Ravage],
    )
    .expect("two actions fit");
    let top = deck.draw[deck.draw.len() - 1];
    deck.draw_into_pending().expect("the draw pile is full");
    assert_eq!(deck.draw.len(), 14);
    assert_eq!(deck.pending.len(), 2);
    assert_eq!(deck.pending[0].len(), 0);
    assert_eq!(deck.pending[1].len(), 1);
    assert_eq!(deck.pending[1][0], top);
}

#[test]
fn adjacent_lands_are_exactly_the_lands_that_list_the_index() {
    let content = vec![ContentPack::Core(CoreContent::new())];
    let table = make_map(&content, vec!["A"]).expect("board A exists");
    let neighbours = table.get_adjacent_lands(4);
    let got: Vec<u8> = neighbours.iter().map(|l| l.index_on_table).collect();
    assert_eq!(got, vec![1, 2, 3, 5]);
}

#[test]
fn cascade_choices_come_in_adjacency_order() {
    let content = vec![ContentPack::Core(CoreContent::new())];
    let spirit = search_for_spirit(&content, "river").expect("river exists");
    let table = make_map(&content, vec!["A"]).expect("board A exists");
    let adversary = DefaultAdversaryDescription::new().description();
    let desc = GameDescription::new(content, adversary, vec![spirit], table);
    let state = GameState::new(desc, DeterministicChaCha::from_seed([1; 32]));
    let decision = CascadeBlightDecision { src_land_index: 4 };
    let choices = decision.valid_choices(&state);
    let targets: Vec<u8> = choices
        .iter()
        .map(|c| match c {
            DecisionChoice::TargetLand { target_land, .. } => *target_land,
            other => panic!("unexpected choice {:?}", other),
        })
        .collect();
    assert_eq!(targets, vec![1, 2, 3, 5]);
}

#[test]
fn search_finds_content_by_name() {
    let content = vec![ContentPack::Core(CoreContent::new())];
    assert!(search_for_board(&content, "A").is_some());
    assert!(search_for_board(&content, "Z").is_none());
    assert!(search_for_spirit(&content, "River Surges in Sunlight").is_some());
    assert!(search_for_spirit(&content, "rss").is_some());
    assert!(search_for_spirit(&content, "nobody").is_none());
}

#[test]
fn fear_deck_deals_tiers_and_tracks_terror() {
    let cards = make_fear_cards();
    let mut deck = FearDeck::new();
    let mut rng = DeterministicChaCha::from_seed([5; 32]);
    deck.init(&cards, &mut rng, (3, 3, 3)).expect("enough cards");
    assert_eq!(deck.draw.len(), 9);
    assert_eq!(deck.terror_level(), TerrorLevel::I);
    for _ in 0..3 {
        deck.draw_into_pending().expect("cards remain");
    }
    assert_eq!(deck.terror_level(), TerrorLevel::II);
    for _ in 0..3 {
        deck.draw_into_pending().expect("cards remain");
    }
    assert_eq!(deck.terror_level(), TerrorLevel::III);
}

#[test]
fn fear_deck_init_rejects_a_short_catalog() {
    let cards = make_fear_cards();
    let mut deck = FearDeck::new();
    let mut rng = DeterministicChaCha::from_seed([5; 32]);
    let res = deck.init(&cards, &mut rng, (9, 9, 9));
    assert!(matches!(res, Err(StepFailure::InternalError(_))));
}

#[test]
fn shuffling_keeps_the_cards() {
    let mut v: Vec<u8> = (0..20).collect();
    let mut rng = DeterministicChaCha::from_seed([9; 32]);
    shuffle_vec(&mut v, &mut rng);
    assert_ne!(v, (0..20).collect::<Vec<u8>>());
    let mut sorted = v.clone();
    sorted.sort();
    assert_eq!(sorted, (0..20).collect::<Vec<u8>>());
}

#[test]
fn a_cloned_random_source_continues_the_same_stream() {
    let mut a = DeterministicChaCha::from_seed([13; 32]);
    let mut b = a.clone();
    for _ in 0..8 {
        assert_eq!(a.next_u64(), b.next_u64());
    }
    let mut c = DeterministicChaCha::from_seed([14; 32]);
    assert_ne!(a.next_u64(), c.next_u64());
}

#[test]
fn invader_deck_phase_shuffle_keeps_the_phases_apart() {
    let mut deck = InvaderDeck::new();
    deck.set_state(generate_invader_deck(), Vec::new(), vec![InvaderActionKind::Explore])
        .expect("one action fits");
    let mut rng = DeterministicChaCha::from_seed([2; 32]);
    deck.shuffle_draw(&mut rng).expect("the generated deck is partitioned");
    assert_eq!(deck.draw.len(), 15);
    for i in 0..6 {
        assert!(matches!(deck.draw[i], InvaderCard::Phase3(_, _)));
    }
    for i in 6..11 {
        assert!(matches!(deck.draw[i], InvaderCard::Phase2(_)));
    }
    for i in 11..15 {
        assert!(matches!(deck.draw[i], InvaderCard::Phase1(_)));
    }
}

#[test]
fn scoring_a_victory_counts_the_remaining_deck() {
    let content = vec![ContentPack::Core(CoreContent::new())];
    let spirit = search_for_spirit(&content, "river").expect("river exists");
    let table = make_map(&content, vec!["A"]).expect("board A exists");
    let adversary = DefaultAdversaryDescription::new().description();
    let desc = GameDescription::new(content, adversary, vec![spirit], table);
    let mut state = GameState::new(desc, DeterministicChaCha::from_seed([1; 32]));
    state
        .invader
        .set_state(generate_invader_deck(), Vec::new(), vec![InvaderActionKind::Ravage])
        .expect("one action fits");
    state.step = GameStep::Victory;
    // before any spirit state exists, only the base score counts:
    // ten points plus two per invader card still in the deck
    assert_eq!(state.score_game(), 10 + 2 * 15);
    // with one spirit in play, each living dahan per player adds a
    // point (board A starts with six) and each blight costs one
    state.spirits.push(spirit_island_solver::spirit::SpiritState::new());
    assert_eq!(state.score_game(), 10 + 2 * 15 + 6 - 1);
    state.step = GameStep::Defeat;
    // one point per invader card out of the deck (none yet)
    assert_eq!(state.score_game(), 0 + 6 - 1);
}

#[test]
fn a_must_push_with_an_empty_sequence_is_a_rules_violation() {
    let content = vec![ContentPack::Core(CoreContent::new())];
    let spirit = search_for_spirit(&content, "river").expect("river exists");
    let table = make_map(&content, vec!["A"]).expect("board A exists");
    let adversary = DefaultAdversaryDescription::new().description();
    let desc = GameDescription::new(content, adversary, vec![spirit], table);
    let mut state = GameState::new(desc, DeterministicChaCha::from_seed([1; 32]));
    // land 8 starts with a town
    let decision = PushDecision {
        land_index: 8,
        count: 1,
        kinds: vec![PieceKind::Invader(InvaderKind::Town)],
        may: false,
    };
    state.choices = VecDeque::from(vec![DecisionChoice::PieceSequence(Vec::new())]);
    let res = decision.apply_effect(&mut state, 16);
    assert!(matches!(res, Err(StepFailure::RulesViolation(_))));
}

#[test]
fn card_play_choices_enumerate_affordable_combinations() {
    let content = vec![ContentPack::Core(CoreContent::new())];
    let spirit = search_for_spirit(&content, "river").expect("river exists");
    let table = make_map(&content, vec!["A"]).expect("board A exists");
    let adversary = DefaultAdversaryDescription::new().description();
    let desc = GameDescription::new(content, adversary, vec![spirit], table);
    let mut state = GameState::new(desc, DeterministicChaCha::from_seed([1; 32]));
    state.spirits.push(spirit_island_solver::spirit::SpiritState::new());
    let cards = make_minor_power_cards();
    state.spirits[0].deck.init(&vec![cards[0], cards[1], cards[2]]);
    state.spirits[0].plays = 2;
    state.spirits[0].energy = 10;
    let decision = CardPlaysDecision { spirit_index: 0 };
    let choices = decision.valid_choices(&state);
    // the empty play, three singletons, and three pairs
    assert_eq!(choices.len(), 1 + 3 + 3);
}

#[test]
fn the_blight_token_count_is_kept_per_land() {
    let board = make_board_a();
    assert_eq!(board.lands[4].starting_tokens.get(TokenKind::Blight), 1);
    assert_eq!(board.lands[3].starting_tokens.get(TokenKind::Blight), 0);
}

#[test]
fn piece_kind_lists_print_with_commas() {
    let kinds = vec![
        PieceKind::Dahan,
        PieceKind::Invader(InvaderKind::Town),
        PieceKind::Token(TokenKind::Blight),
    ];
    assert_eq!(piece_kind_vec_to_string(&kinds), "Dahan,Town,Blight");
    assert_eq!(piece_kind_vec_to_string(&Vec::new()), "");
}

#[test]
fn exhausting_the_fear_deck_wins_the_game() {
    let content = vec![ContentPack::Core(CoreContent::new())];
    let spirit = search_for_spirit(&content, "river").expect("river exists");
    let table = make_map(&content, vec!["A"]).expect("board A exists");
    let adversary = DefaultAdversaryDescription::new().description();
    let desc = GameDescription::new(content, adversary, vec![spirit], table);
    let mut state = GameState::new(desc, DeterministicChaCha::from_seed([4; 32]));
    let cards = make_fear_cards();
    let mut deck = FearDeck::new();
    let mut rng = DeterministicChaCha::from_seed([4; 32]);
    deck.init(&cards, &mut rng, (1, 0, 0)).expect("enough cards");
    state.fear = deck;
    state.fear_pool = 1;
    let effect = GenerateFearEffect { fear: 1, land_index: None };
    let res = effect.apply_effect(&mut state, 8);
    assert!(matches!(res, Err(StepFailure::GameOverVictory)));
    assert_eq!(state.step, GameStep::Victory);
}

#[test]
fn an_out_of_range_land_is_an_internal_error() {
    let content = vec![ContentPack::Core(CoreContent::new())];
    let table = make_map(&content, vec!["A"]).expect("board A exists");
    let adversary = DefaultAdversaryDescription::new().description();
    let desc = GameDescription::new(content, adversary, Vec::new(), table);
    let state = GameState::new(desc, DeterministicChaCha::from_seed([4; 32]));
    assert!(matches!(state.get_land(99), Err(StepFailure::InternalError(_))));
}
