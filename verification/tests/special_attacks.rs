use deckgym::apply_attack_action::{
    mark_denial_on_flip,
    apply_attack_effect, apply_attack_outcome, forecast_effect_attack_by_mechanic, AttackEffect,
};
use deckgym::attacks::Mechanic;
use deckgym::card_ids::CardId;
use deckgym::models::{Attack, Card, CardEffect, EnergyType, PlayedCard, PokemonCard};
use deckgym::state::{SimpleAction, State};
use rand::rngs::StdRng;
use rand::SeedableRng;

fn pokemon_card(id: CardId, name: &str, stage: u8, hp: u32, energy_type: EnergyType) -> PokemonCard {
    PokemonCard {
        id,
        name: name.to_string(),
        stage,
        hp,
        energy_type,
        weakness: None,
        is_ex: false,
        is_mega: false,
        ability: None,
        attacks: vec![],
    }
}

fn in_play(card: PokemonCard, energy: Vec<EnergyType>) -> PlayedCard {
    let hp = card.hp;
    PlayedCard {
        card: Card::Pokemon(card),
        remaining_hp: hp,
        total_hp: hp,
        attached_energy: energy,
        attached_tool: None,
        poisoned: false,
        paralyzed: false,
        asleep: false,
        burned: false,
        confused: false,
        ability_used: false,
        prevent_first_attack_damage_used: false,
        moved_to_active_this_turn: false,
        effects: vec![],
    }
}

fn celebi() -> PokemonCard {
    pokemon_card(CardId::A1a003CelebiEx, "Celebi ex", 0, 130, EnergyType::Grass)
}

fn bulbasaur() -> PokemonCard {
    pokemon_card(CardId::A1001Bulbasaur, "Bulbasaur", 0, 70, EnergyType::Grass)
}

fn attack(fixed_damage: u32) -> Attack {
    Attack { energy_required: vec![], title: String::new(), fixed_damage, effect: None }
}

fn probabilities_of(state: &State, mechanic: &Mechanic, fixed: u32) -> Vec<f64> {
    let outcomes = forecast_effect_attack_by_mechanic(state, &attack(fixed), mechanic).unwrap();
    outcomes.into_branches().0.iter().map(|(w, d)| *w as f64 / *d as f64).collect()
}

#[test]
fn test_celebi_powerful_bloom_probabilities() {
    // Test with 2 energy attached (2 coins)
    let mut state = State::new();
    state.in_play_pokemon[0][0] = Some(in_play(celebi(), vec![EnergyType::Grass, EnergyType::Fire]));
    state.in_play_pokemon[1][0] = Some(in_play(bulbasaur(), vec![]));

    let probabilities = probabilities_of(&state, &Mechanic::CelebiExPowerfulBloom, 0);

    // Should have 3 outcomes (0, 1, 2 heads)
    assert_eq!(probabilities.len(), 3);

    // Check probabilities for 2 coins: 0.25, 0.5, 0.25
    assert!((probabilities[0] - 0.25).abs() < 0.001);
    assert!((probabilities[1] - 0.5).abs() < 0.001);
    assert!((probabilities[2] - 0.25).abs() < 0.001);

    // Test with no energy attached
    let mut state_no_energy = State::new();
    state_no_energy.in_play_pokemon[0][0] = Some(in_play(celebi(), vec![]));
    state_no_energy.in_play_pokemon[1][0] = Some(in_play(bulbasaur(), vec![]));
    let probabilities_no_energy = probabilities_of(&state_no_energy, &Mechanic::CelebiExPowerfulBloom, 0);

    // Should have 1 outcome (0 damage)
    assert_eq!(probabilities_no_energy.len(), 1);
    assert!((probabilities_no_energy[0] - 1.0).abs() < 0.001);
}

#[test]
fn test_vaporeon_hyper_whirlpool_discards_without_duplicate_energy_panic() {
    let mut rng = StdRng::seed_from_u64(0);
    let mut state = State::new();
    let vaporeon = pokemon_card(CardId::A1080Vaporeon, "Vaporeon", 1, 120, EnergyType::Water);
    state.in_play_pokemon[0][0] = Some(in_play(vaporeon, vec![]));
    state.in_play_pokemon[1][0] = Some(in_play(bulbasaur(), vec![EnergyType::Water, EnergyType::Lightning]));

    let outcomes = forecast_effect_attack_by_mechanic(&state, &attack(60), &Mechanic::VaporeonHyperWhirlpool).unwrap();
    let (_probs, mut mutations) = outcomes.into_branches();
    let chosen = mutations.remove(2);
    apply_attack_outcome(&mut rng, &mut state, 0, &chosen);

    assert_eq!(state.get_active(1).attached_energy.len(), 0);
}

#[test]
fn whirlpool_takes_energy_from_the_end() {
    let mut state = State::new();
    state.in_play_pokemon[0][0] = Some(in_play(celebi(), vec![]));
    state.in_play_pokemon[1][0] = Some(in_play(
        bulbasaur(),
        vec![EnergyType::Water, EnergyType::Fire, EnergyType::Water, EnergyType::Grass],
    ));
    let mut rng = StdRng::seed_from_u64(1);
    apply_attack_effect(&mut rng, &mut state, 0, AttackEffect::DiscardOpponentEnergyFromEnd { count: 2 });
    // The picks are Grass, then Water; each goes as the first Energy of its type.
    assert_eq!(state.get_active(1).attached_energy, vec![EnergyType::Fire, EnergyType::Water]);
    assert_eq!(state.discard_energies[1], vec![EnergyType::Grass, EnergyType::Water]);
}

#[test]
fn palkia_storm_spreads_and_pays_water() {
    let mut state = State::new();
    state.in_play_pokemon[0][0] = Some(in_play(celebi(), vec![EnergyType::Water, EnergyType::Grass]));
    state.in_play_pokemon[1][0] = Some(in_play(bulbasaur(), vec![]));
    state.in_play_pokemon[1][2] = Some(in_play(bulbasaur(), vec![]));
    let outcomes = forecast_effect_attack_by_mechanic(&state, &attack(0), &Mechanic::PalkiaExDimensionalStorm).unwrap();
    let outcome = &outcomes.branches[0].outcome;
    assert_eq!(outcome.damage, vec![(20, true, 2), (150, true, 0)]);
    let mut rng = StdRng::seed_from_u64(2);
    for e in outcome.post_damage_effects.clone() {
        apply_attack_effect(&mut rng, &mut state, 0, e);
    }
    assert_eq!(state.get_active(0).attached_energy, vec![EnergyType::Grass]);
}

#[test]
fn inferno_dance_spreads_heads_over_fire_bench() {
    let mut state = State::new();
    state.in_play_pokemon[0][0] = Some(in_play(celebi(), vec![]));
    state.in_play_pokemon[1][0] = Some(in_play(bulbasaur(), vec![]));
    state.in_play_pokemon[0][1] = Some(in_play(pokemon_card(CardId::A1033Charmander, "Charmander", 0, 60, EnergyType::Fire), vec![]));
    state.in_play_pokemon[0][3] = Some(in_play(bulbasaur(), vec![]));
    let outcomes = forecast_effect_attack_by_mechanic(&state, &attack(0), &Mechanic::MoltresExInfernoDance).unwrap();
    assert_eq!(outcomes.denominator, 8);
    let mut rng = StdRng::seed_from_u64(3);
    apply_attack_effect(&mut rng, &mut state, 0, AttackEffect::SpreadFireOnBench { heads: 2 });
    let (_, choices) = state.move_generation_stack.pop().unwrap();
    assert_eq!(
        choices,
        vec![SimpleAction::Attach { attachments: vec![(2, EnergyType::Fire, 1)], is_turn_energy: false }]
    );
}

#[test]
fn double_punch_queues_a_second_hit_beneath() {
    let mut state = State::new();
    state.in_play_pokemon[0][0] = Some(in_play(celebi(), vec![]));
    state.in_play_pokemon[1][0] = Some(in_play(bulbasaur(), vec![]));
    state.move_generation_stack.push((1, vec![SimpleAction::Noop]));
    let mut rng = StdRng::seed_from_u64(4);
    apply_attack_effect(&mut rng, &mut state, 0, AttackEffect::KnockoutsThenHit { damage: 40 });
    assert_eq!(state.move_generation_stack.len(), 2);
    assert_eq!(state.move_generation_stack[1], (1, vec![SimpleAction::Noop]));
    match &state.move_generation_stack[0].1[0] {
        SimpleAction::ApplyDamage { targets, .. } => assert_eq!(targets, &vec![(40, 1, 0)]),
        _ => panic!("expected the second hit"),
    }
}

#[test]
fn evolution_and_attack_name_counts() {
    let mut state = State::new();
    let mut named = pokemon_card(CardId::A1033Charmander, "Charmander", 1, 60, EnergyType::Fire);
    named.attacks = vec![Attack { energy_required: vec![], title: "Ember".to_string(), fixed_damage: 30, effect: None }];
    state.in_play_pokemon[0][0] = Some(in_play(named.clone(), vec![]));
    state.in_play_pokemon[0][1] = Some(in_play(named.clone(), vec![]));
    state.in_play_pokemon[0][2] = Some(in_play(bulbasaur(), vec![]));
    state.in_play_pokemon[1][0] = Some(in_play(bulbasaur(), vec![]));
    state.hands[0] = vec![Card::Pokemon(named)];
    let f = forecast_effect_attack_by_mechanic(
        &state,
        &attack(10),
        &Mechanic::EvolutionBenchCountDamage { include_fixed_damage: true, damage_per: 30 },
    )
    .unwrap();
    assert_eq!(f.branches[0].outcome.damage, vec![(40, true, 0)]);
    let f = forecast_effect_attack_by_mechanic(
        &state,
        &attack(10),
        &Mechanic::DamagePerOwnPokemonWithAttackName { attack_name: "Ember".to_string(), damage_per: 20 },
    )
    .unwrap();
    assert_eq!(f.branches[0].outcome.damage, vec![(60, true, 0)]);
}

#[test]
fn may_shuffle_self_offers_a_decline() {
    let mut state = State::new();
    state.in_play_pokemon[0][0] = Some(in_play(celebi(), vec![]));
    state.in_play_pokemon[1][0] = Some(in_play(bulbasaur(), vec![]));
    let mut rng = StdRng::seed_from_u64(5);
    apply_attack_effect(&mut rng, &mut state, 0, AttackEffect::OfferShuffleSelf);
    assert_eq!(
        state.move_generation_stack[0],
        (0, vec![SimpleAction::ShuffleInPlayPokemonIntoDeck { in_play_idx: 0 }, SimpleAction::Noop])
    );
}

#[test]
fn denial_marks_only_on_heads_and_knock_out() {
    let mut state = State::new();
    state.in_play_pokemon[0][0] = Some(in_play(celebi(), vec![]));
    let mut knocked = in_play(bulbasaur(), vec![]);
    knocked.remaining_hp = 0;
    state.in_play_pokemon[1][0] = Some(knocked);
    mark_denial_on_flip(&mut state, 0, 0, false);
    assert!(state.get_active(1).effects.is_empty());
    mark_denial_on_flip(&mut state, 0, 0, true);
    assert_eq!(state.get_active(1).effects, vec![CardEffect::DeniesPointsOnKnockout]);
    state.in_play_pokemon[1][1] = Some(in_play(bulbasaur(), vec![]));
    mark_denial_on_flip(&mut state, 0, 1, true);
    assert!(state.in_play_pokemon[1][1].as_ref().unwrap().effects.is_empty());
}

#[test]
fn stage2_bench_and_basic_attach_and_discard_active() {
    let mut state = State::new();
    state.in_play_pokemon[0][0] = Some(in_play(celebi(), vec![]));
    state.in_play_pokemon[1][0] = Some(in_play(bulbasaur(), vec![]));
    let f = forecast_effect_attack_by_mechanic(&state, &attack(30), &Mechanic::ExtraDamageIfStage2OnBench { extra_damage: 40 }).unwrap();
    assert_eq!(f.branches[0].outcome.damage, vec![(30, true, 0)]);
    state.in_play_pokemon[0][2] = Some(in_play(pokemon_card(CardId::A1003Venusaur, "Venusaur", 2, 160, EnergyType::Grass), vec![]));
    let f = forecast_effect_attack_by_mechanic(&state, &attack(30), &Mechanic::ExtraDamageIfStage2OnBench { extra_damage: 40 }).unwrap();
    assert_eq!(f.branches[0].outcome.damage, vec![(70, true, 0)]);
    state.in_play_pokemon[0][3] = Some(in_play(bulbasaur(), vec![]));
    let mut rng = StdRng::seed_from_u64(9);
    apply_attack_effect(&mut rng, &mut state, 0, AttackEffect::AttachToBenchedBasic { energy_type: EnergyType::Grass });
    let (_, choices) = state.move_generation_stack.pop().unwrap();
    assert_eq!(
        choices,
        vec![SimpleAction::Attach { attachments: vec![(1, EnergyType::Grass, 3)], is_turn_energy: false }]
    );
    let f = forecast_effect_attack_by_mechanic(&state, &attack(0), &Mechanic::CoinFlipDiscardOpponentActive).unwrap();
    assert_eq!(f.denominator, 2);
    assert_eq!(f.branches[0].outcome.post_damage_effects, vec![AttackEffect::KnockOutOpponentAndResolve]);
    assert!(f.branches[1].outcome.post_damage_effects.is_empty());
}
