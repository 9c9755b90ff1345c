use deckgym::apply_trainer_action::{forecast_trainer_action, TrainerEffect};
use deckgym::card_ids::CardId;
use deckgym::models::{Card, EnergyType, PlayedCard, PokemonCard, StatusCondition, TrainerCard, TrainerType, TurnEffect};
use deckgym::state::{SimpleAction, State};
use deckgym::trainer_effects::apply_trainer_effect;
use rand::rngs::StdRng;
use rand::SeedableRng;

fn pokemon(id: CardId, name: &str, hp: u32, energy_type: EnergyType) -> PlayedCard {
    PlayedCard {
        card: Card::Pokemon(PokemonCard {
            id,
            name: name.to_string(),
            stage: 0,
            hp,
            energy_type,
            weakness: None,
            is_ex: false,
            is_mega: false,
            ability: None,
            attacks: vec![],
        }),
        remaining_hp: hp,
        total_hp: hp,
        attached_energy: vec![],
        attached_tool: None,
        poisoned: false,
        paralyzed: false,
        asleep: false,
        burned: false,
        confused: false,
        ability_used: false,
        prevent_first_attack_damage_used: false,
        moved_to_active_this_turn: false,
        effects: vec![],
    }
}

fn trainer(id: CardId, name: &str, kind: TrainerType) -> TrainerCard {
    TrainerCard { id, name: name.to_string(), trainer_card_type: kind }
}

fn played() -> TrainerCard {
    trainer(CardId::PA001Potion, "Potion", TrainerType::Item)
}

fn board() -> State {
    let mut state = State::new();
    state.in_play_pokemon[0][0] = Some(pokemon(CardId::A1001Bulbasaur, "Bulbasaur", 70, EnergyType::Grass));
    state.in_play_pokemon[0][2] = Some(pokemon(CardId::A1033Charmander, "Charmander", 60, EnergyType::Fire));
    state.in_play_pokemon[1][0] = Some(pokemon(CardId::A1053Squirtle, "Squirtle", 60, EnergyType::Water));
    state
}

#[test]
fn potion_offers_a_heal_for_each_own_pokemon() {
    let mut rng = StdRng::seed_from_u64(0);
    let mut state = board();
    let outcomes = forecast_trainer_action(0, &state, &trainer(CardId::PA001Potion, "Potion", TrainerType::Item));
    assert_eq!(outcomes.denominator, 1);
    assert_eq!(outcomes.branches.len(), 1);
    assert_eq!(outcomes.branches[0].mutation, TrainerEffect::Potion);

    assert!(apply_trainer_effect(&mut rng, &mut state, 0, &played(), TrainerEffect::Potion));
    let (player, choices) = state.move_generation_stack.last().unwrap();
    assert_eq!(*player, 0);
    assert_eq!(
        *choices,
        vec![
            SimpleAction::Heal { in_play_idx: 0, amount: 20, cure_status: false },
            SimpleAction::Heal { in_play_idx: 2, amount: 20, cure_status: false },
        ]
    );
}

#[test]
fn erika_heals_only_grass_pokemon() {
    let mut rng = StdRng::seed_from_u64(0);
    let mut state = board();
    assert!(apply_trainer_effect(&mut rng, &mut state, 0, &played(), TrainerEffect::Erika));
    let (_, choices) = state.move_generation_stack.last().unwrap();
    assert_eq!(*choices, vec![SimpleAction::Heal { in_play_idx: 0, amount: 50, cure_status: false }]);
}

#[test]
fn master_plan_tails_confuses_both_actives() {
    let mut rng = StdRng::seed_from_u64(0);
    let mut state = board();
    let outcomes = forecast_trainer_action(
        0,
        &state,
        &trainer(CardId::B4a070TeamRocketsMasterPlan, "Team Rocket's Master Plan", TrainerType::Item),
    );
    assert_eq!(outcomes.denominator, 2);
    assert_eq!(outcomes.branches[0].mutation, TrainerEffect::MasterPlanOpponentConfused);
    assert_eq!(outcomes.branches[1].mutation, TrainerEffect::MasterPlanBothConfused);

    assert!(apply_trainer_effect(&mut rng, &mut state, 0, &played(), TrainerEffect::MasterPlanBothConfused));
    assert!(state.get_active(0).is_confused());
    assert!(state.get_active(1).is_confused());
}

#[test]
fn cyrus_offers_only_damaged_opponent_bench() {
    let mut rng = StdRng::seed_from_u64(0);
    let mut state = board();
    let mut hurt = pokemon(CardId::A1053Squirtle, "Squirtle", 60, EnergyType::Water);
    hurt.remaining_hp = 30;
    state.in_play_pokemon[1][1] = Some(pokemon(CardId::A1053Squirtle, "Squirtle", 60, EnergyType::Water));
    state.in_play_pokemon[1][3] = Some(hurt);
    assert!(apply_trainer_effect(&mut rng, &mut state, 0, &played(), TrainerEffect::Cyrus));
    let (player, choices) = state.move_generation_stack.last().unwrap();
    assert_eq!(*player, 0);
    assert_eq!(*choices, vec![SimpleAction::Activate { player: 1, in_play_idx: 3 }]);
}

#[test]
fn sabrina_lets_the_opponent_choose() {
    let mut rng = StdRng::seed_from_u64(0);
    let mut state = board();
    state.in_play_pokemon[1][2] = Some(pokemon(CardId::A1053Squirtle, "Squirtle", 60, EnergyType::Water));
    assert!(apply_trainer_effect(&mut rng, &mut state, 0, &played(), TrainerEffect::Sabrina));
    let (player, choices) = state.move_generation_stack.last().unwrap();
    assert_eq!(*player, 1);
    assert_eq!(*choices, vec![SimpleAction::Activate { player: 1, in_play_idx: 2 }]);
}

#[test]
fn kiawe_attaches_fire_then_ends_the_turn() {
    let mut rng = StdRng::seed_from_u64(0);
    let mut state = board();
    state.in_play_pokemon[0][3] = Some(pokemon(CardId::A1033Charmander, "Turtonator", 110, EnergyType::Fire));
    assert!(apply_trainer_effect(&mut rng, &mut state, 0, &played(), TrainerEffect::Kiawe));
    let n = state.move_generation_stack.len();
    assert_eq!(n, 2);
    assert_eq!(state.move_generation_stack[0], (0, vec![SimpleAction::EndTurn]));
    assert_eq!(
        state.move_generation_stack[1],
        (0, vec![SimpleAction::Attach { attachments: vec![(2, EnergyType::Fire, 3)], is_turn_energy: false }])
    );
}

#[test]
fn kiawe_without_targets_does_nothing() {
    let mut rng = StdRng::seed_from_u64(0);
    let mut state = board();
    assert!(apply_trainer_effect(&mut rng, &mut state, 0, &played(), TrainerEffect::Kiawe));
    assert!(state.move_generation_stack.is_empty());
}

#[test]
fn effects_not_applied_leave_the_game_unchanged() {
    let mut rng = StdRng::seed_from_u64(0);
    let mut state = board();
    state.apply_status_condition(0, 0, StatusCondition::Poisoned);
    assert!(!apply_trainer_effect(&mut rng, &mut state, 0, &played(), TrainerEffect::Lusamine));
    assert!(state.move_generation_stack.is_empty());
    assert!(state.get_active(0).is_poisoned());
}

fn pokemon_card(id: CardId, name: &str, energy_type: EnergyType) -> Card {
    pokemon(id, name, 60, energy_type).card
}

#[test]
fn penny_splits_over_the_opponents_supporters() {
    let mut state = board();
    state.decks[1] = vec![
        Card::Trainer(trainer(CardId::A1219Erika, "Erika", TrainerType::Supporter)),
        pokemon_card(CardId::A1053Squirtle, "Squirtle", EnergyType::Water),
        Card::Trainer(trainer(CardId::A3b069Penny, "Penny", TrainerType::Supporter)),
        Card::Trainer(trainer(CardId::PA001Potion, "Potion", TrainerType::Item)),
        Card::Trainer(trainer(CardId::A1225Sabrina, "Sabrina", TrainerType::Supporter)),
    ];
    let outcomes = forecast_trainer_action(0, &state, &trainer(CardId::A3b069Penny, "Penny", TrainerType::Supporter));
    assert_eq!(outcomes.branches.len(), 2);
    assert_eq!(outcomes.branches[0].mutation, TrainerEffect::Erika);
    assert_eq!(outcomes.branches[1].mutation, TrainerEffect::Sabrina);
    for branch in &outcomes.branches {
        assert_eq!(branch.weight * 2, outcomes.denominator);
    }
}

#[test]
fn penny_scales_a_borrowed_coin_distribution() {
    let mut state = board();
    state.decks[1] = vec![
        Card::Trainer(trainer(CardId::A1219Erika, "Erika", TrainerType::Supporter)),
        Card::Trainer(trainer(CardId::A2b072TeamRocketGrunt, "Team Rocket Grunt", TrainerType::Supporter)),
    ];
    let grunt = forecast_trainer_action(
        0,
        &state,
        &trainer(CardId::A2b072TeamRocketGrunt, "Team Rocket Grunt", TrainerType::Supporter),
    );
    let outcomes = forecast_trainer_action(0, &state, &trainer(CardId::B2a092Penny, "Penny", TrainerType::Supporter));
    assert_eq!(outcomes.branches.len(), 1 + grunt.branches.len());
    assert_eq!(outcomes.branches[0].mutation, TrainerEffect::Erika);
    // Erika gets one half; each of the borrowed card's branches gets half its probability.
    assert_eq!(outcomes.branches[0].weight * 2, outcomes.denominator);
    for (i, b) in grunt.branches.iter().enumerate() {
        let scaled = &outcomes.branches[1 + i];
        assert_eq!(scaled.mutation, b.mutation);
        assert_eq!(scaled.weight as u128 * 2 * grunt.denominator as u128, b.weight as u128 * outcomes.denominator as u128);
    }
}

#[test]
fn penny_without_a_supporter_does_nothing() {
    let mut state = board();
    state.decks[1] = vec![Card::Trainer(trainer(CardId::A3b086Penny, "Penny", TrainerType::Supporter))];
    let outcomes = forecast_trainer_action(0, &state, &trainer(CardId::A3b069Penny, "Penny", TrainerType::Supporter));
    assert_eq!(outcomes.denominator, 1);
    assert_eq!(outcomes.branches.len(), 1);
    assert_eq!(outcomes.branches[0].mutation, TrainerEffect::Nothing);
}

#[test]
fn hitting_hammer_discards_one_energy_of_the_opponent_active() {
    let mut rng = StdRng::seed_from_u64(3);
    let mut state = board();
    state.in_play_pokemon[1][0].as_mut().unwrap().attached_energy = vec![EnergyType::Water, EnergyType::Water];
    let outcomes = forecast_trainer_action(0, &state, &trainer(CardId::B1215HittingHammer, "Hitting Hammer", TrainerType::Item));
    assert_eq!(outcomes.denominator, 4);
    assert_eq!(outcomes.branches[0].weight, 1);
    assert_eq!(outcomes.branches[0].mutation, TrainerEffect::HittingHammerDiscard);
    assert!(apply_trainer_effect(&mut rng, &mut state, 0, &played(), TrainerEffect::HittingHammerDiscard));
    assert_eq!(state.in_play_pokemon[1][0].as_ref().unwrap().attached_energy, vec![EnergyType::Water]);
    assert_eq!(state.discard_energies[1], vec![EnergyType::Water]);
}

#[test]
fn fisher_returns_as_many_water_pokemon_as_it_can() {
    let mut rng = StdRng::seed_from_u64(5);
    let mut state = board();
    let fire = pokemon_card(CardId::A1033Charmander, "Charmander", EnergyType::Fire);
    state.discard_piles[0] = vec![
        pokemon_card(CardId::A1053Squirtle, "Squirtle", EnergyType::Water),
        fire.clone(),
        pokemon_card(CardId::A1080Vaporeon, "Vaporeon", EnergyType::Water),
    ];
    assert!(apply_trainer_effect(&mut rng, &mut state, 0, &played(), TrainerEffect::FisherReturn { heads: 3 }));
    assert_eq!(state.discard_piles[0], vec![fire]);
    assert_eq!(state.hands[0].len(), 2);
    assert!(state.hands[0].iter().all(|c| matches!(c, Card::Pokemon(p) if p.energy_type == EnergyType::Water)));
}

#[test]
fn fisher_with_one_heads_returns_one() {
    let mut rng = StdRng::seed_from_u64(9);
    let mut state = board();
    state.discard_piles[0] = vec![
        pokemon_card(CardId::A1053Squirtle, "Squirtle", EnergyType::Water),
        pokemon_card(CardId::A1080Vaporeon, "Vaporeon", EnergyType::Water),
    ];
    assert!(apply_trainer_effect(&mut rng, &mut state, 0, &played(), TrainerEffect::FisherReturn { heads: 1 }));
    assert_eq!(state.discard_piles[0].len(), 1);
    assert_eq!(state.hands[0].len(), 1);
}

fn shuffle_back_ids(choice: &SimpleAction) -> Vec<CardId> {
    if let SimpleAction::ShufflePokemonIntoDeck { hand_pokemon } = choice {
        hand_pokemon.iter().map(|c| c.id()).collect()
    } else {
        panic!("Expected SimpleAction::ShufflePokemonIntoDeck");
    }
}

#[test]
fn may_draws_the_pair_and_offers_each_pair_to_shuffle_back() {
    let mut rng = StdRng::seed_from_u64(0);
    let mut state = board();
    state.hands[0] = vec![pokemon_card(CardId::A1033Charmander, "Charmander", EnergyType::Fire)];
    state.decks[0] = vec![
        Card::Trainer(trainer(CardId::PA001Potion, "Potion", TrainerType::Item)),
        pokemon_card(CardId::A1053Squirtle, "Squirtle", EnergyType::Water),
        pokemon_card(CardId::A1001Bulbasaur, "Bulbasaur", EnergyType::Grass),
        pokemon_card(CardId::A1080Vaporeon, "Vaporeon", EnergyType::Water),
    ];
    let outcomes = forecast_trainer_action(0, &state, &trainer(CardId::B1223May, "May", TrainerType::Supporter));
    assert_eq!(outcomes.denominator, 3);
    assert_eq!(
        outcomes.branches[0].mutation,
        TrainerEffect::MayDraw { first: CardId::A1053Squirtle, second: Some(CardId::A1001Bulbasaur) }
    );
    let effect = outcomes.branches[0].mutation;
    assert!(apply_trainer_effect(&mut rng, &mut state, 0, &played(), effect));
    let hand_ids: Vec<CardId> = state.hands[0].iter().map(|c| c.id()).collect();
    assert_eq!(hand_ids, vec![CardId::A1033Charmander, CardId::A1053Squirtle, CardId::A1001Bulbasaur]);
    let deck_ids: Vec<CardId> = state.decks[0].iter().map(|c| c.id()).collect();
    assert_eq!(deck_ids, vec![CardId::PA001Potion, CardId::A1080Vaporeon]);
    let (player, choices) = state.move_generation_stack.last().unwrap();
    assert_eq!(*player, 0);
    let offered: Vec<Vec<CardId>> = choices.iter().map(shuffle_back_ids).collect();
    assert_eq!(
        offered,
        vec![
            vec![CardId::A1033Charmander, CardId::A1053Squirtle],
            vec![CardId::A1033Charmander, CardId::A1001Bulbasaur],
            vec![CardId::A1053Squirtle, CardId::A1001Bulbasaur],
        ]
    );
}

#[test]
fn may_with_one_pokemon_draws_it_and_offers_it_back() {
    let mut rng = StdRng::seed_from_u64(0);
    let mut state = board();
    state.decks[0] = vec![
        Card::Trainer(trainer(CardId::PA001Potion, "Potion", TrainerType::Item)),
        pokemon_card(CardId::A1053Squirtle, "Squirtle", EnergyType::Water),
    ];
    let outcomes = forecast_trainer_action(0, &state, &trainer(CardId::B1268May, "May", TrainerType::Supporter));
    assert_eq!(outcomes.branches.len(), 1);
    let effect = outcomes.branches[0].mutation;
    assert_eq!(effect, TrainerEffect::MayDraw { first: CardId::A1053Squirtle, second: None });
    assert!(apply_trainer_effect(&mut rng, &mut state, 0, &played(), effect));
    assert_eq!(state.hands[0].len(), 1);
    assert_eq!(state.decks[0].len(), 1);
    let (_, choices) = state.move_generation_stack.last().unwrap();
    assert_eq!(choices.len(), 1);
    assert_eq!(shuffle_back_ids(&choices[0]), vec![CardId::A1053Squirtle]);
}

#[test]
fn may_without_pokemon_shuffles_the_same_cards() {
    let mut rng = StdRng::seed_from_u64(1);
    let mut state = board();
    let deck: Vec<Card> = vec![
        Card::Trainer(trainer(CardId::PA001Potion, "Potion", TrainerType::Item)),
        Card::Trainer(trainer(CardId::PA002XSpeed, "X Speed", TrainerType::Item)),
        Card::Trainer(trainer(CardId::PA006RedCard, "Red Card", TrainerType::Item)),
    ];
    state.decks[0] = deck.clone();
    let outcomes = forecast_trainer_action(0, &state, &trainer(CardId::B1223May, "May", TrainerType::Supporter));
    assert_eq!(outcomes.branches[0].mutation, TrainerEffect::MayShuffle);
    assert!(apply_trainer_effect(&mut rng, &mut state, 0, &played(), TrainerEffect::MayShuffle));
    let mut after: Vec<CardId> = state.decks[0].iter().map(|c| c.id()).collect();
    let mut before: Vec<CardId> = deck.iter().map(|c| c.id()).collect();
    after.sort_by_key(|id| format!("{:?}", id));
    before.sort_by_key(|id| format!("{:?}", id));
    assert_eq!(after, before);
}

#[test]
fn x_speed_reduces_the_retreat_cost_this_turn() {
    let mut rng = StdRng::seed_from_u64(0);
    let mut state = board();
    assert!(apply_trainer_effect(&mut rng, &mut state, 0, &played(), TrainerEffect::XSpeed));
    assert_eq!(state.turn_effects, vec![TurnEffect::ReducedRetreatCost { amount: 1 }]);
}

#[test]
fn professors_research_draws_two_cards() {
    let mut rng = StdRng::seed_from_u64(0);
    let mut state = board();
    state.decks[0] = vec![
        pokemon_card(CardId::A1053Squirtle, "Squirtle", EnergyType::Water),
        Card::Trainer(trainer(CardId::PA001Potion, "Potion", TrainerType::Item)),
        pokemon_card(CardId::A1001Bulbasaur, "Bulbasaur", EnergyType::Grass),
    ];
    assert!(apply_trainer_effect(&mut rng, &mut state, 0, &played(), TrainerEffect::ProfessorOak));
    let hand: Vec<CardId> = state.hands[0].iter().map(|c| c.id()).collect();
    assert_eq!(hand, vec![CardId::A1053Squirtle, CardId::PA001Potion]);
    assert_eq!(state.decks[0].len(), 1);

    // With one card left, only that card is drawn.
    assert!(apply_trainer_effect(&mut rng, &mut state, 0, &played(), TrainerEffect::ProfessorOak));
    assert_eq!(state.hands[0].len(), 3);
    assert!(state.decks[0].is_empty());
}

#[test]
fn mythical_slab_takes_a_psychic_pokemon_and_sends_anything_else_to_the_bottom() {
    let mut rng = StdRng::seed_from_u64(0);
    let mut state = board();
    state.decks[0] = vec![
        pokemon_card(CardId::A1053Squirtle, "Squirtle", EnergyType::Water),
        pokemon_card(CardId::A1a003CelebiEx, "Mewtwo", EnergyType::Psychic),
    ];
    assert!(apply_trainer_effect(&mut rng, &mut state, 0, &played(), TrainerEffect::MythicalSlab));
    let deck: Vec<CardId> = state.decks[0].iter().map(|c| c.id()).collect();
    assert_eq!(deck, vec![CardId::A1a003CelebiEx, CardId::A1053Squirtle]);
    assert!(state.hands[0].is_empty());
    assert!(apply_trainer_effect(&mut rng, &mut state, 0, &played(), TrainerEffect::MythicalSlab));
    let hand: Vec<CardId> = state.hands[0].iter().map(|c| c.id()).collect();
    assert_eq!(hand, vec![CardId::A1a003CelebiEx]);
    let deck: Vec<CardId> = state.decks[0].iter().map(|c| c.id()).collect();
    assert_eq!(deck, vec![CardId::A1053Squirtle]);
}

#[test]
fn red_card_reshuffles_the_opponent_hand_and_draws_three() {
    let mut rng = StdRng::seed_from_u64(2);
    let mut state = board();
    state.hands[1] = vec![
        Card::Trainer(trainer(CardId::PA001Potion, "Potion", TrainerType::Item)),
        Card::Trainer(trainer(CardId::PA002XSpeed, "X Speed", TrainerType::Item)),
        Card::Trainer(trainer(CardId::PA006RedCard, "Red Card", TrainerType::Item)),
        Card::Trainer(trainer(CardId::A1219Erika, "Erika", TrainerType::Supporter)),
        Card::Trainer(trainer(CardId::A1225Sabrina, "Sabrina", TrainerType::Supporter)),
    ];
    state.decks[1] = vec![pokemon_card(CardId::A1053Squirtle, "Squirtle", EnergyType::Water)];
    assert!(apply_trainer_effect(&mut rng, &mut state, 0, &played(), TrainerEffect::RedCard));
    assert_eq!(state.hands[1].len(), 3);
    assert_eq!(state.decks[1].len(), 3);
    assert!(state.hands[0].is_empty());
}

#[test]
fn taking_from_a_discard_pile_moves_the_first_matching_card() {
    let mut rng = StdRng::seed_from_u64(0);
    let mut state = board();
    state.discard_piles[1] = vec![
        Card::Trainer(trainer(CardId::PA001Potion, "Potion", TrainerType::Item)),
        Card::Trainer(trainer(CardId::PA002XSpeed, "X Speed", TrainerType::Item)),
    ];
    let effect = TrainerEffect::TakeFromDiscard { from_opponent: true, card: CardId::PA002XSpeed };
    assert!(apply_trainer_effect(&mut rng, &mut state, 0, &played(), effect));
    let hand: Vec<CardId> = state.hands[0].iter().map(|c| c.id()).collect();
    assert_eq!(hand, vec![CardId::PA002XSpeed]);
    assert_eq!(state.discard_piles[1].len(), 1);
    // Nothing of that card is left: nothing changes.
    assert!(apply_trainer_effect(&mut rng, &mut state, 0, &played(), effect));
    assert_eq!(state.hands[0].len(), 1);
}

#[test]
fn giovanni_and_blaine_boost_damage_this_turn() {
    let mut rng = StdRng::seed_from_u64(0);
    let mut state = board();
    assert!(apply_trainer_effect(&mut rng, &mut state, 0, &played(), TrainerEffect::Giovanni));
    assert!(apply_trainer_effect(&mut rng, &mut state, 0, &played(), TrainerEffect::Blaine));
    assert_eq!(
        state.turn_effects,
        vec![
            TurnEffect::IncreasedDamage { amount: 10 },
            TurnEffect::IncreasedDamageForSpecificPokemon {
                amount: 30,
                pokemon_names: vec!["Ninetales".to_string(), "Rapidash".to_string(), "Magmar".to_string()],
            },
        ]
    );
}

#[test]
fn drayden_adds_a_draco_meteor_hit() {
    let mut rng = StdRng::seed_from_u64(0);
    let mut state = board();
    assert!(apply_trainer_effect(&mut rng, &mut state, 0, &played(), TrainerEffect::Drayden));
    assert_eq!(
        state.turn_effects,
        vec![TurnEffect::ExtraRandomSpreadHits { amount: 1, attack_name: "Draco Meteor".to_string() }]
    );
}

#[test]
fn iono_reshuffles_both_hands_and_draws_as_many() {
    let mut rng = StdRng::seed_from_u64(4);
    let mut state = board();
    state.hands[0] = vec![
        Card::Trainer(trainer(CardId::PA001Potion, "Potion", TrainerType::Item)),
        Card::Trainer(trainer(CardId::PA002XSpeed, "X Speed", TrainerType::Item)),
    ];
    state.hands[1] = vec![Card::Trainer(trainer(CardId::A1219Erika, "Erika", TrainerType::Supporter))];
    state.decks[1] = vec![
        pokemon_card(CardId::A1053Squirtle, "Squirtle", EnergyType::Water),
        pokemon_card(CardId::A1001Bulbasaur, "Bulbasaur", EnergyType::Grass),
    ];
    assert!(apply_trainer_effect(&mut rng, &mut state, 0, &played(), TrainerEffect::Iono));
    assert_eq!(state.hands[0].len(), 2);
    assert!(state.decks[0].is_empty());
    assert_eq!(state.hands[1].len(), 1);
    assert_eq!(state.decks[1].len(), 2);
}

#[test]
fn mars_draws_one_card_per_point_the_opponent_still_needs() {
    let mut rng = StdRng::seed_from_u64(6);
    let mut state = board();
    state.points[1] = 1;
    state.hands[1] = vec![Card::Trainer(trainer(CardId::A1219Erika, "Erika", TrainerType::Supporter))];
    state.decks[1] = vec![
        pokemon_card(CardId::A1053Squirtle, "Squirtle", EnergyType::Water),
        pokemon_card(CardId::A1001Bulbasaur, "Bulbasaur", EnergyType::Grass),
        pokemon_card(CardId::A1080Vaporeon, "Vaporeon", EnergyType::Water),
    ];
    assert!(apply_trainer_effect(&mut rng, &mut state, 0, &played(), TrainerEffect::Mars));
    assert_eq!(state.hands[1].len(), 2);
    assert_eq!(state.decks[1].len(), 2);
}

#[test]
fn whitney_offers_to_heal_each_miltank() {
    let mut rng = StdRng::seed_from_u64(0);
    let mut state = board();
    state.in_play_pokemon[0][3] = Some(pokemon(CardId::A1001Bulbasaur, "Miltank", 100, EnergyType::Colorless));
    assert!(apply_trainer_effect(&mut rng, &mut state, 0, &played(), TrainerEffect::Whitney));
    let (player, choices) = state.move_generation_stack.last().unwrap();
    assert_eq!(*player, 0);
    assert_eq!(*choices, vec![SimpleAction::Heal { in_play_idx: 3, amount: 60, cure_status: true }]);

    let mut none = board();
    assert!(apply_trainer_effect(&mut rng, &mut none, 0, &played(), TrainerEffect::Whitney));
    assert!(none.move_generation_stack.is_empty());
}

fn coin_paths_of(paths: &deckgym::outcomes::CoinPaths) -> Option<Vec<Vec<bool>>> {
    match paths {
        deckgym::outcomes::CoinPaths::NotTracked => None,
        deckgym::outcomes::CoinPaths::Exact(v) => Some(v.iter().map(|s| s.0.clone()).collect()),
    }
}

#[test]
fn trainer_forecasts_record_their_coin_flips() {
    let state = board();
    let plan = forecast_trainer_action(
        0,
        &state,
        &trainer(CardId::B4a070TeamRocketsMasterPlan, "Team Rocket's Master Plan", TrainerType::Supporter),
    );
    assert_eq!(coin_paths_of(&plan.branches[0].coin_paths), Some(vec![vec![true]]));
    assert_eq!(coin_paths_of(&plan.branches[1].coin_paths), Some(vec![vec![false]]));

    let misty = forecast_trainer_action(0, &state, &trainer(CardId::A1220Misty, "Misty", TrainerType::Supporter));
    assert_eq!(coin_paths_of(&misty.branches[0].coin_paths), Some(vec![vec![false]]));
    assert_eq!(coin_paths_of(&misty.branches[2].coin_paths), Some(vec![vec![true, true, false]]));
    assert_eq!(coin_paths_of(&misty.branches[5].coin_paths), Some(vec![vec![true; 5]]));

    let hammer = forecast_trainer_action(0, &state, &trainer(CardId::B1215HittingHammer, "Hitting Hammer", TrainerType::Item));
    assert!(hammer.branches.iter().all(|b| coin_paths_of(&b.coin_paths).is_none()));
}

#[test]
fn squirt_bottle_discards_one_fire_energy_of_the_opponent_active() {
    let mut rng = StdRng::seed_from_u64(0);
    let mut state = board();
    state.in_play_pokemon[1][0].as_mut().unwrap().attached_energy =
        vec![EnergyType::Water, EnergyType::Fire, EnergyType::Fire];
    assert!(apply_trainer_effect(&mut rng, &mut state, 0, &played(), TrainerEffect::SquirtBottle));
    assert_eq!(
        state.in_play_pokemon[1][0].as_ref().unwrap().attached_energy,
        vec![EnergyType::Water, EnergyType::Fire]
    );
    assert_eq!(state.discard_energies[1], vec![EnergyType::Fire]);
}

#[test]
fn brock_offers_a_fighting_energy_for_golem_or_onix() {
    let mut rng = StdRng::seed_from_u64(0);
    let mut state = board();
    state.in_play_pokemon[0][1] = Some(pokemon(CardId::A1001Bulbasaur, "Onix", 90, EnergyType::Fighting));
    assert!(apply_trainer_effect(&mut rng, &mut state, 0, &played(), TrainerEffect::Brock));
    let (player, choices) = state.move_generation_stack.last().unwrap();
    assert_eq!(*player, 0);
    assert_eq!(
        *choices,
        vec![SimpleAction::Attach { attachments: vec![(1, EnergyType::Fighting, 1)], is_turn_energy: false }]
    );

    let mut none = board();
    assert!(apply_trainer_effect(&mut rng, &mut none, 0, &played(), TrainerEffect::Brock));
    assert!(none.move_generation_stack.is_empty());
}

#[test]
fn marlon_offers_to_heal_carracosta_or_jellicent() {
    let mut rng = StdRng::seed_from_u64(0);
    let mut state = board();
    state.in_play_pokemon[0][1] = Some(pokemon(CardId::A1053Squirtle, "Jellicent", 120, EnergyType::Water));
    assert!(apply_trainer_effect(&mut rng, &mut state, 0, &played(), TrainerEffect::Marlon));
    let (_, choices) = state.move_generation_stack.last().unwrap();
    assert_eq!(*choices, vec![SimpleAction::Heal { in_play_idx: 1, amount: 70, cure_status: false }]);
}

#[test]
fn juggler_moves_all_bench_energy_to_the_active() {
    let mut rng = StdRng::seed_from_u64(0);
    let mut state = board();
    state.in_play_pokemon[0][2].as_mut().unwrap().attached_energy = vec![EnergyType::Fire, EnergyType::Water];
    assert!(apply_trainer_effect(&mut rng, &mut state, 0, &played(), TrainerEffect::Juggler));
    assert!(state.in_play_pokemon[0][2].as_ref().unwrap().attached_energy.is_empty());
    assert_eq!(state.get_active(0).attached_energy, vec![EnergyType::Fire, EnergyType::Water]);
}

#[test]
fn budding_expeditioner_and_skyla_push_their_choices() {
    let mut rng = StdRng::seed_from_u64(0);
    let mut state = board();
    assert!(apply_trainer_effect(&mut rng, &mut state, 0, &played(), TrainerEffect::BuddingExpeditioner));
    assert_eq!(
        state.move_generation_stack.last().unwrap().1,
        vec![SimpleAction::ReturnPokemonToHand { in_play_idx: 0 }]
    );
    assert!(apply_trainer_effect(&mut rng, &mut state, 0, &played(), TrainerEffect::Skyla));
    assert_eq!(
        state.move_generation_stack.last().unwrap().1,
        vec![SimpleAction::Activate { player: 0, in_play_idx: 2 }]
    );
}

#[test]
fn copycat_draws_as_many_cards_as_the_opponent_holds() {
    let mut rng = StdRng::seed_from_u64(8);
    let mut state = board();
    state.hands[0] = vec![Card::Trainer(trainer(CardId::PA001Potion, "Potion", TrainerType::Item))];
    state.hands[1] = vec![
        Card::Trainer(trainer(CardId::A1219Erika, "Erika", TrainerType::Supporter)),
        Card::Trainer(trainer(CardId::A1225Sabrina, "Sabrina", TrainerType::Supporter)),
        Card::Trainer(trainer(CardId::PA002XSpeed, "X Speed", TrainerType::Item)),
    ];
    state.decks[0] = vec![
        pokemon_card(CardId::A1053Squirtle, "Squirtle", EnergyType::Water),
        pokemon_card(CardId::A1001Bulbasaur, "Bulbasaur", EnergyType::Grass),
    ];
    assert!(apply_trainer_effect(&mut rng, &mut state, 0, &played(), TrainerEffect::Copycat));
    assert_eq!(state.hands[0].len(), 3);
    assert!(state.decks[0].is_empty());
    assert_eq!(state.hands[1].len(), 3);
}

#[test]
fn prank_spinner_sends_one_card_of_each_hand_to_its_deck() {
    let mut rng = StdRng::seed_from_u64(11);
    let mut state = board();
    state.hands[0] = vec![
        Card::Trainer(trainer(CardId::PA001Potion, "Potion", TrainerType::Item)),
        Card::Trainer(trainer(CardId::PA002XSpeed, "X Speed", TrainerType::Item)),
    ];
    state.hands[1] = vec![Card::Trainer(trainer(CardId::A1219Erika, "Erika", TrainerType::Supporter))];
    assert!(apply_trainer_effect(&mut rng, &mut state, 0, &played(), TrainerEffect::PrankSpinner));
    assert_eq!(state.hands[0].len(), 1);
    assert_eq!(state.decks[0].len(), 1);
    assert!(state.hands[1].is_empty());
    assert_eq!(state.decks[1].len(), 1);
}

#[test]
fn calem_draws_one_card_per_mega_pokemon_in_play() {
    let mut rng = StdRng::seed_from_u64(0);
    let mut state = board();
    for (player, slot) in [(0usize, 0usize), (1, 0)] {
        if let Card::Pokemon(p) = &mut state.in_play_pokemon[player][slot].as_mut().unwrap().card {
            p.is_mega = true;
        }
    }
    state.decks[0] = vec![
        pokemon_card(CardId::A1053Squirtle, "Squirtle", EnergyType::Water),
        pokemon_card(CardId::A1001Bulbasaur, "Bulbasaur", EnergyType::Grass),
        pokemon_card(CardId::A1080Vaporeon, "Vaporeon", EnergyType::Water),
    ];
    assert!(apply_trainer_effect(&mut rng, &mut state, 0, &played(), TrainerEffect::Calem));
    assert_eq!(state.hands[0].len(), 2);
    assert_eq!(state.decks[0].len(), 1);
}

fn stage2(id: CardId, name: &str) -> PlayedCard {
    let mut played = pokemon(id, name, 150, EnergyType::Grass);
    if let Card::Pokemon(p) = &mut played.card {
        p.stage = 2;
    }
    played
}

#[test]
fn lillie_and_wally_target_stage_2_pokemon() {
    let mut rng = StdRng::seed_from_u64(0);
    let mut state = board();
    state.in_play_pokemon[0][3] = Some(stage2(CardId::A1003Venusaur, "Venusaur"));
    assert!(apply_trainer_effect(&mut rng, &mut state, 0, &played(), TrainerEffect::Lillie));
    assert_eq!(
        state.move_generation_stack.last().unwrap().1,
        vec![SimpleAction::Heal { in_play_idx: 3, amount: 60, cure_status: false }]
    );
    assert!(apply_trainer_effect(&mut rng, &mut state, 0, &played(), TrainerEffect::Wally));
    assert_eq!(
        state.move_generation_stack.last().unwrap().1,
        vec![SimpleAction::Attach { attachments: vec![(1, EnergyType::Colorless, 3)], is_turn_energy: false }]
    );

    let mut none = board();
    assert!(apply_trainer_effect(&mut rng, &mut none, 0, &played(), TrainerEffect::Lillie));
    assert!(apply_trainer_effect(&mut rng, &mut none, 0, &played(), TrainerEffect::Wally));
    assert!(none.move_generation_stack.is_empty());
}

#[test]
fn traveling_merchant_takes_the_tools_among_the_top_four() {
    let mut rng = StdRng::seed_from_u64(12);
    let mut state = board();
    let cape = Card::Trainer(trainer(CardId::PA002XSpeed, "Giant Cape", TrainerType::Tool));
    let vest = Card::Trainer(trainer(CardId::PA006RedCard, "Rocky Helmet", TrainerType::Tool));
    let deep = Card::Trainer(trainer(CardId::A1219Erika, "Leftovers", TrainerType::Tool));
    state.decks[0] = vec![
        Card::Trainer(trainer(CardId::PA001Potion, "Potion", TrainerType::Item)),
        cape.clone(),
        pokemon_card(CardId::A1053Squirtle, "Squirtle", EnergyType::Water),
        vest.clone(),
        deep.clone(),
    ];
    assert!(apply_trainer_effect(&mut rng, &mut state, 0, &played(), TrainerEffect::TravelingMerchant));
    assert_eq!(state.hands[0], vec![cape, vest]);
    assert_eq!(state.decks[0].len(), 3);
    assert!(state.decks[0].contains(&deep));
}

#[test]
fn a_pokemon_tool_offers_each_pokemon_without_a_tool() {
    let mut rng = StdRng::seed_from_u64(0);
    let mut state = board();
    let cape = trainer(CardId::PA002XSpeed, "Giant Cape", TrainerType::Tool);
    state.in_play_pokemon[0][2].as_mut().unwrap().attached_tool = Some(cape.clone());
    let outcomes = forecast_trainer_action(0, &state, &cape);
    assert_eq!(outcomes.branches.len(), 1);
    assert_eq!(outcomes.branches[0].mutation, TrainerEffect::AttachTool);
    assert!(apply_trainer_effect(&mut rng, &mut state, 0, &cape, TrainerEffect::AttachTool));
    let (player, choices) = state.move_generation_stack.last().unwrap();
    assert_eq!(*player, 0);
    assert_eq!(*choices, vec![SimpleAction::AttachTool { in_play_idx: 0, tool_card: cape.clone() }]);
}

#[test]
fn team_rocket_grunt_discards_one_energy_per_heads() {
    let mut rng = StdRng::seed_from_u64(0);
    let mut state = board();
    if let Some(active) = state.in_play_pokemon[1][0].as_mut() {
        active.attached_energy = vec![EnergyType::Fire, EnergyType::Water, EnergyType::Fire];
    }
    assert!(apply_trainer_effect(&mut rng, &mut state, 0, &played(), TrainerEffect::TeamRocketGruntDiscard { heads: 2 }));
    assert_eq!(state.get_active(1).attached_energy.len(), 1);
    assert_eq!(state.discard_energies[1].len(), 2);

    assert!(apply_trainer_effect(&mut rng, &mut state, 0, &played(), TrainerEffect::TeamRocketGruntDiscard { heads: 4 }));
    assert!(state.get_active(1).attached_energy.is_empty());
    assert_eq!(state.discard_energies[1].len(), 3);
}

#[test]
fn piers_discards_the_last_two_energy_of_the_opponent_active() {
    let mut rng = StdRng::seed_from_u64(0);
    let mut state = board();
    if let Some(active) = state.in_play_pokemon[1][0].as_mut() {
        active.attached_energy = vec![EnergyType::Fire, EnergyType::Water, EnergyType::Grass];
    }
    assert!(apply_trainer_effect(&mut rng, &mut state, 0, &played(), TrainerEffect::Piers));
    assert_eq!(state.get_active(1).attached_energy, vec![EnergyType::Fire]);
    assert_eq!(state.discard_energies[1].len(), 2);
}

#[test]
fn guzma_discards_every_tool_of_the_opponent() {
    let mut rng = StdRng::seed_from_u64(0);
    let mut state = board();
    let cape = trainer(CardId::PA002XSpeed, "Giant Cape", TrainerType::Tool);
    let helmet = trainer(CardId::PA006RedCard, "Rocky Helmet", TrainerType::Tool);
    state.in_play_pokemon[1][0].as_mut().unwrap().attached_tool = Some(cape.clone());
    let mut benched = pokemon(CardId::A1033Charmander, "Charmander", 60, EnergyType::Fire);
    benched.attached_tool = Some(helmet.clone());
    state.in_play_pokemon[1][2] = Some(benched);
    let own_cape = trainer(CardId::PA002XSpeed, "Giant Cape", TrainerType::Tool);
    state.in_play_pokemon[0][0].as_mut().unwrap().attached_tool = Some(own_cape.clone());
    assert!(apply_trainer_effect(&mut rng, &mut state, 0, &played(), TrainerEffect::Guzma));
    assert!(state.in_play_pokemon[1][0].as_ref().unwrap().attached_tool.is_none());
    assert!(state.in_play_pokemon[1][2].as_ref().unwrap().attached_tool.is_none());
    assert_eq!(state.discard_piles[1], vec![Card::Trainer(cape), Card::Trainer(helmet)]);
    assert_eq!(state.in_play_pokemon[0][0].as_ref().unwrap().attached_tool, Some(own_cape));
}

#[test]
fn elesa_returns_every_tool_to_its_owners_hand() {
    let mut rng = StdRng::seed_from_u64(0);
    let mut state = board();
    let cape = trainer(CardId::PA002XSpeed, "Giant Cape", TrainerType::Tool);
    let helmet = trainer(CardId::PA006RedCard, "Rocky Helmet", TrainerType::Tool);
    state.in_play_pokemon[0][2].as_mut().unwrap().attached_tool = Some(cape.clone());
    state.in_play_pokemon[1][0].as_mut().unwrap().attached_tool = Some(helmet.clone());
    assert!(apply_trainer_effect(&mut rng, &mut state, 0, &played(), TrainerEffect::Elesa));
    assert!(state.in_play_pokemon[0][2].as_ref().unwrap().attached_tool.is_none());
    assert!(state.in_play_pokemon[1][0].as_ref().unwrap().attached_tool.is_none());
    assert_eq!(state.hands[0], vec![Card::Trainer(cape)]);
    assert_eq!(state.hands[1], vec![Card::Trainer(helmet)]);
    assert!(state.discard_piles[0].is_empty() && state.discard_piles[1].is_empty());
}

#[test]
fn koga_returns_the_active_and_asks_for_a_promotion() {
    let mut rng = StdRng::seed_from_u64(0);
    let mut state = board();
    let muk = pokemon(CardId::A1001Bulbasaur, "Muk", 110, EnergyType::Darkness);
    let muk_card = muk.card.clone();
    state.in_play_pokemon[0][0] = Some(muk);
    assert!(apply_trainer_effect(&mut rng, &mut state, 0, &played(), TrainerEffect::Koga));
    assert!(state.in_play_pokemon[0][0].is_none());
    assert_eq!(state.hands[0], vec![muk_card]);
    assert_eq!(state.move_generation_stack.len(), 1);
    assert_eq!(state.move_generation_stack[0].0, 0);
    assert!(state.winner.is_none());
}

#[test]
fn koga_without_a_bench_loses_the_game() {
    let mut rng = StdRng::seed_from_u64(0);
    let mut state = board();
    state.in_play_pokemon[0][2] = None;
    assert!(apply_trainer_effect(&mut rng, &mut state, 0, &played(), TrainerEffect::Koga));
    assert!(state.in_play_pokemon[0][0].is_none());
    assert_eq!(state.winner, Some(deckgym::models::GameOutcome::Win(1)));
}

#[test]
fn big_malasada_heals_and_cures_one_condition() {
    let mut rng = StdRng::seed_from_u64(0);
    let mut state = board();
    {
        let active = state.in_play_pokemon[0][0].as_mut().unwrap();
        active.remaining_hp = 40;
        active.poisoned = true;
        active.asleep = true;
    }
    assert!(apply_trainer_effect(&mut rng, &mut state, 0, &played(), TrainerEffect::BigMalasada));
    let active = state.in_play_pokemon[0][0].as_ref().unwrap();
    assert_eq!(active.remaining_hp, 50);
    assert!(active.poisoned != active.asleep);

    let mut state = board();
    state.in_play_pokemon[0][0].as_mut().unwrap().remaining_hp = 65;
    assert!(apply_trainer_effect(&mut rng, &mut state, 0, &played(), TrainerEffect::BigMalasada));
    assert_eq!(state.in_play_pokemon[0][0].as_ref().unwrap().remaining_hp, 70);
}

#[test]
fn nemona_boosts_pawmot_against_ex_for_the_turn() {
    let mut rng = StdRng::seed_from_u64(0);
    let mut state = board();
    assert!(apply_trainer_effect(&mut rng, &mut state, 0, &played(), TrainerEffect::Nemona));
    assert_eq!(
        state.turn_effects,
        vec![TurnEffect::IncreasedDamageForSpecificPokemonAgainstEx { amount: 80, pokemon_names: vec!["Pawmot".to_string()] }]
    );
}

#[test]
fn clemonts_backpack_and_barry_add_turn_effects_for_named_pokemon() {
    let mut rng = StdRng::seed_from_u64(0);
    let mut state = board();
    assert!(apply_trainer_effect(&mut rng, &mut state, 0, &played(), TrainerEffect::ClemontsBackpack));
    assert!(apply_trainer_effect(&mut rng, &mut state, 0, &played(), TrainerEffect::Barry));
    assert_eq!(
        state.turn_effects,
        vec![
            TurnEffect::IncreasedDamageForSpecificPokemon {
                amount: 20,
                pokemon_names: vec!["Magneton".to_string(), "Heliolisk".to_string()],
            },
            TurnEffect::ReducedAttackCostForSpecificPokemon {
                amount: 2,
                pokemon_names: vec!["Snorlax".to_string(), "Heracross".to_string(), "Staraptor".to_string()],
            },
        ]
    );
}
