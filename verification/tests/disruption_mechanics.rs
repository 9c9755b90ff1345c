use deckgym::apply_attack_action::{apply_attack_effect, forecast_effect_attack_by_mechanic, AttackEffect};
use deckgym::attacks::Mechanic;
use deckgym::card_ids::CardId;
use deckgym::models::{Attack, Card, EnergyType, PlayedCard, PokemonCard, TrainerCard, TrainerType};
use deckgym::state::{SimpleAction, State};
use rand::rngs::StdRng;
use rand::SeedableRng;

fn pokemon_card(id: CardId, name: &str, hp: u32, energy_type: EnergyType) -> PokemonCard {
    PokemonCard {
        id,
        name: name.to_string(),
        stage: 0,
        hp,
        energy_type,
        weakness: None,
        is_ex: false,
        is_mega: false,
        ability: None,
        attacks: vec![],
    }
}

fn in_play(card: PokemonCard) -> PlayedCard {
    let hp = card.hp;
    PlayedCard {
        card: Card::Pokemon(card),
        remaining_hp: hp,
        total_hp: hp,
        attached_energy: vec![],
        attached_tool: None,
        poisoned: false,
        paralyzed: false,
        asleep: false,
        burned: false,
        confused: false,
        ability_used: false,
        prevent_first_attack_damage_used: false,
        moved_to_active_this_turn: false,
        effects: vec![],
    }
}

fn charmander() -> PokemonCard {
    pokemon_card(CardId::A1033Charmander, "Charmander", 60, EnergyType::Fire)
}

fn squirtle() -> PokemonCard {
    pokemon_card(CardId::A1053Squirtle, "Squirtle", 60, EnergyType::Water)
}

fn trainer(name: &str, kind: TrainerType) -> Card {
    Card::Trainer(TrainerCard { id: CardId::A1219Erika, name: name.to_string(), trainer_card_type: kind })
}

fn duel() -> State {
    let mut state = State::new();
    state.current_player = 0;
    state.in_play_pokemon[0][0] = Some(in_play(charmander()));
    state.in_play_pokemon[1][0] = Some(in_play(squirtle()));
    state
}

fn attack(fixed_damage: u32) -> Attack {
    Attack { energy_required: vec![], title: String::new(), fixed_damage, effect: None }
}

fn remaining_hp(state: &State, player: usize) -> u32 {
    state.in_play_pokemon[player][0].as_ref().unwrap().remaining_hp
}

#[test]
fn random_hand_trainer_discard_only_takes_that_kind() {
    let mut state = duel();
    state.hands[1] = vec![
        Card::Pokemon(squirtle()),
        trainer("Potion", TrainerType::Item),
        trainer("Erika", TrainerType::Supporter),
    ];
    let mut rng = StdRng::seed_from_u64(11);
    apply_attack_effect(
        &mut rng,
        &mut state,
        0,
        AttackEffect::DiscardRandomOpponentHandCard { trainer_type: Some(TrainerType::Supporter) },
    );
    assert_eq!(state.hands[1], vec![Card::Pokemon(squirtle()), trainer("Potion", TrainerType::Item)]);
    assert_eq!(state.discard_piles[1], vec![trainer("Erika", TrainerType::Supporter)]);
    apply_attack_effect(
        &mut rng,
        &mut state,
        0,
        AttackEffect::DiscardRandomOpponentHandCard { trainer_type: Some(TrainerType::Supporter) },
    );
    assert_eq!(state.hands[1].len(), 2);
}

#[test]
fn random_hand_discard_takes_any_card() {
    let mut state = duel();
    state.hands[1] = vec![Card::Pokemon(squirtle())];
    let mut rng = StdRng::seed_from_u64(12);
    apply_attack_effect(&mut rng, &mut state, 0, AttackEffect::DiscardRandomOpponentHandCard { trainer_type: None });
    assert!(state.hands[1].is_empty());
    assert_eq!(state.discard_piles[1], vec![Card::Pokemon(squirtle())]);
}

#[test]
fn stadium_goes_to_its_owners_discard_pile() {
    let mut state = duel();
    let stadium = TrainerCard { id: CardId::A1219Erika, name: "Training Area".to_string(), trainer_card_type: TrainerType::Stadium };
    state.active_stadium = Some(stadium.clone());
    state.active_stadium_owner = Some(1);
    let mut rng = StdRng::seed_from_u64(13);
    apply_attack_effect(&mut rng, &mut state, 0, AttackEffect::DiscardStadium);
    assert!(state.active_stadium.is_none());
    assert!(state.active_stadium_owner.is_none());
    assert_eq!(state.discard_piles[1], vec![Card::Trainer(stadium)]);
    assert!(state.discard_piles[0].is_empty());
}

#[test]
fn drag_then_damage_puts_the_switch_on_top() {
    let mut state = duel();
    state.in_play_pokemon[1][2] = Some(in_play(charmander()));
    let mechanic = Mechanic::DragOpponentBenchThenDamage { damage: 30 };
    let f = forecast_effect_attack_by_mechanic(&state, &attack(0), &mechanic).unwrap();
    let outcome = &f.branches[0].outcome;
    assert!(outcome.damage.is_empty());
    assert_eq!(outcome.post_damage_effects, vec![AttackEffect::DragOpponentThenHit { damage: 30 }]);
    let mut rng = StdRng::seed_from_u64(14);
    apply_attack_effect(&mut rng, &mut state, 0, AttackEffect::DragOpponentThenHit { damage: 30 });
    assert_eq!(state.move_generation_stack.len(), 2);
    assert_eq!(state.move_generation_stack[1], (0, vec![SimpleAction::Activate { player: 1, in_play_idx: 2 }]));
    match &state.move_generation_stack[0].1[0] {
        SimpleAction::ApplyDamage { targets, .. } => assert_eq!(targets, &vec![(30, 1, 0)]),
        _ => panic!("expected the damage step"),
    }
}

#[test]
fn drag_then_damage_without_bench_does_nothing() {
    let state = duel();
    let mechanic = Mechanic::DragOpponentBenchThenDamage { damage: 30 };
    let f = forecast_effect_attack_by_mechanic(&state, &attack(0), &mechanic).unwrap();
    assert_eq!(f.branches[0].outcome.damage, vec![(0, true, 0)]);
    assert!(f.branches[0].outcome.post_damage_effects.is_empty());
}

#[test]
fn deck_top_item_adds_damage() {
    let mut state = duel();
    state.decks[0] = vec![trainer("Potion", TrainerType::Item), Card::Pokemon(charmander())];
    let mut rng = StdRng::seed_from_u64(15);
    apply_attack_effect(
        &mut rng,
        &mut state,
        0,
        AttackEffect::DiscardDeckTopThenHit { base: 10, extra: 30, bonus_type: None },
    );
    assert_eq!(remaining_hp(&state, 1), 20);
    assert_eq!(state.decks[0], vec![Card::Pokemon(charmander())]);
    assert_eq!(state.discard_piles[0], vec![trainer("Potion", TrainerType::Item)]);
    apply_attack_effect(
        &mut rng,
        &mut state,
        0,
        AttackEffect::DiscardDeckTopThenHit { base: 10, extra: 30, bonus_type: Some(EnergyType::Water) },
    );
    assert_eq!(remaining_hp(&state, 1), 10);
    assert!(state.decks[0].is_empty());
    apply_attack_effect(
        &mut rng,
        &mut state,
        0,
        AttackEffect::DiscardDeckTopThenHit { base: 10, extra: 30, bonus_type: None },
    );
    assert_eq!(remaining_hp(&state, 1), 0);
}

#[test]
fn draw_per_named_pokemon_counts_active_and_bench() {
    let mut state = duel();
    state.in_play_pokemon[0][1] = Some(in_play(charmander()));
    state.in_play_pokemon[0][3] = Some(in_play(squirtle()));
    let mechanic = Mechanic::DrawPerPokemonWithName { name: "Charmander".to_string() };
    let f = forecast_effect_attack_by_mechanic(&state, &attack(20), &mechanic).unwrap();
    assert_eq!(f.branches[0].outcome.post_damage_effects, vec![AttackEffect::DrawCards { amount: 2 }]);
}

#[test]
fn damage_counted_from_trainers_and_names() {
    let mut state = duel();
    state.decks[1] = vec![trainer("Potion", TrainerType::Item), Card::Pokemon(squirtle()), trainer("Erika", TrainerType::Supporter)];
    let f = forecast_effect_attack_by_mechanic(
        &state,
        &attack(10),
        &Mechanic::ExtraDamagePerTrainerInOpponentDeck { damage_per_trainer: 20 },
    )
    .unwrap();
    assert_eq!(f.branches[0].outcome.damage, vec![(50, true, 0)]);
    state.discard_piles[0] = vec![trainer("Potion", TrainerType::Item), Card::Pokemon(squirtle())];
    let f = forecast_effect_attack_by_mechanic(
        &state,
        &attack(10),
        &Mechanic::ExtraDamagePerTrainerTypeInDiscard { trainer_type: TrainerType::Item, damage_per_card: 5 },
    )
    .unwrap();
    assert_eq!(f.branches[0].outcome.damage, vec![(15, true, 0)]);
    let f = forecast_effect_attack_by_mechanic(
        &state,
        &attack(10),
        &Mechanic::ExtraDamageIfCardInDiscard { card_name: "Squirtle".to_string(), extra_damage: 40 },
    )
    .unwrap();
    assert_eq!(f.branches[0].outcome.damage, vec![(50, true, 0)]);
    let f = forecast_effect_attack_by_mechanic(
        &state,
        &attack(10),
        &Mechanic::ExtraDamageIfCardInDiscard { card_name: "Volbeat".to_string(), extra_damage: 40 },
    )
    .unwrap();
    assert_eq!(f.branches[0].outcome.damage, vec![(10, true, 0)]);
}
