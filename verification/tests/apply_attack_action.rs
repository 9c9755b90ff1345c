use deckgym::apply_attack_action::{
    apply_attack_outcome, forecast_effect_attack_by_mechanic, generate_energy_distributions, AttackEffect,
};
use deckgym::attack_outcome::{AttackOutcome, AttackOutcomes};
use deckgym::attacks::{BenchSide, Mechanic};
use deckgym::card_ids::CardId;
use deckgym::effect_mechanic_map::EffectMechanicMap;
use deckgym::models::{Attack, Card, CardEffect, EnergyType, PlayedCard, PokemonCard, StatusCondition};
use deckgym::state::{SimpleAction, State};
use rand::rngs::StdRng;
use rand::SeedableRng;

fn pokemon(id: CardId, name: &str, hp: u32, energy_type: EnergyType, weakness: Option<EnergyType>) -> PlayedCard {
    PlayedCard {
        card: Card::Pokemon(PokemonCard {
            id,
            name: name.to_string(),
            stage: 0,
            hp,
            energy_type,
            weakness,
            is_ex: false,
            is_mega: false,
            ability: None,
            attacks: vec![],
        }),
        remaining_hp: hp,
        total_hp: hp,
        attached_energy: vec![],
        attached_tool: None,
        poisoned: false,
        paralyzed: false,
        asleep: false,
        burned: false,
        confused: false,
        ability_used: false,
        prevent_first_attack_damage_used: false,
        moved_to_active_this_turn: false,
        effects: vec![],
    }
}

fn venusaur() -> PlayedCard {
    pokemon(CardId::A1003Venusaur, "Venusaur", 160, EnergyType::Grass, Some(EnergyType::Fire))
}

fn bulbasaur() -> PlayedCard {
    pokemon(CardId::A1001Bulbasaur, "Bulbasaur", 70, EnergyType::Grass, Some(EnergyType::Fire))
}

fn attack(fixed_damage: u32, effect: Option<&str>) -> Attack {
    Attack {
        energy_required: vec![],
        title: String::new(),
        fixed_damage,
        effect: effect.map(|e| e.to_string()),
    }
}

/// A state where player 0's `attacker` faces player 1's `receiver`.
fn duel(attacker: PlayedCard, receiver: PlayedCard) -> State {
    let mut state = State::new();
    state.current_player = 0;
    state.in_play_pokemon[0][0] = Some(attacker);
    state.in_play_pokemon[1][0] = Some(receiver);
    state
}

fn probabilities_of(outcomes: AttackOutcomes<AttackEffect>) -> Vec<f64> {
    outcomes.into_branches().0.iter().map(|(w, d)| *w as f64 / *d as f64).collect()
}

fn damage_outcome(amount: u32) -> AttackOutcome<AttackEffect> {
    AttackOutcome::damage(vec![(amount, true, 0)])
}

fn attachments_of(choice: &SimpleAction) -> Vec<(u32, EnergyType, usize)> {
    if let SimpleAction::Attach { attachments, .. } = choice {
        attachments.clone()
    } else {
        panic!("Expected SimpleAction::Attach");
    }
}

#[test]
fn test_generate_energy_distributions() {
    // 1 pokemon, 1 head
    let fire_pokemon = vec![1];
    let choices = generate_energy_distributions(&fire_pokemon, 1);
    assert_eq!(choices.len(), 1);
    assert_eq!(attachments_of(&choices[0]), vec![(1, EnergyType::Fire, 1)]);

    // 1 pokemon, 2 heads
    let choices = generate_energy_distributions(&fire_pokemon, 2);
    assert_eq!(choices.len(), 1);
    assert_eq!(attachments_of(&choices[0]), vec![(2, EnergyType::Fire, 1)]);

    // 2 pokemon, 2 heads
    let fire_pokemon = vec![1, 2];
    let choices = generate_energy_distributions(&fire_pokemon, 2);
    assert_eq!(choices.len(), 3);
    let expected_distributions = [
        vec![(2, EnergyType::Fire, 2)],
        vec![(1, EnergyType::Fire, 1), (1, EnergyType::Fire, 2)],
        vec![(2, EnergyType::Fire, 1)],
    ];
    for (i, choice) in choices.iter().enumerate() {
        assert_eq!(attachments_of(choice), expected_distributions[i]);
    }

    // 2 pokemon, 3 heads
    let choices = generate_energy_distributions(&fire_pokemon, 3);
    assert_eq!(choices.len(), 4);
    let expected_distributions = [
        vec![(3, EnergyType::Fire, 2)],
        vec![(1, EnergyType::Fire, 1), (2, EnergyType::Fire, 2)],
        vec![(2, EnergyType::Fire, 1), (1, EnergyType::Fire, 2)],
        vec![(3, EnergyType::Fire, 1)],
    ];
    for (i, choice) in choices.iter().enumerate() {
        assert_eq!(attachments_of(choice), expected_distributions[i]);
    }

    // 3 pokemon, 2 heads
    let fire_pokemon = vec![1, 2, 3];
    let choices = generate_energy_distributions(&fire_pokemon, 2);
    assert_eq!(choices.len(), 6);
    let expected_distributions = [
        vec![(2, EnergyType::Fire, 3)],
        vec![(1, EnergyType::Fire, 2), (1, EnergyType::Fire, 3)],
        vec![(2, EnergyType::Fire, 2)],
        vec![(1, EnergyType::Fire, 1), (1, EnergyType::Fire, 3)],
        vec![(1, EnergyType::Fire, 1), (1, EnergyType::Fire, 2)],
        vec![(2, EnergyType::Fire, 1)],
    ];
    for (i, choice) in choices.iter().enumerate() {
        assert_eq!(attachments_of(choice), expected_distributions[i]);
    }
}

#[test]
fn energy_distributions_with_no_heads_offer_one_empty_attach() {
    let choices = generate_energy_distributions(&vec![1, 2], 0);
    assert_eq!(choices.len(), 1);
    assert!(attachments_of(&choices[0]).is_empty());
}

#[test]
fn test_flip_until_tails_probabilities() {
    let state = duel(bulbasaur(), venusaur());
    let outcomes = forecast_effect_attack_by_mechanic(
        &state,
        &attack(0, None),
        &Mechanic::FlipUntilTailsDamage { damage_per_heads: 20 },
    )
    .unwrap();
    let probabilities = probabilities_of(outcomes);

    assert_eq!(probabilities.len(), 9);
    assert!((probabilities[0] - 0.5).abs() < 0.001);
    assert!((probabilities[1] - 0.25).abs() < 0.001);
    assert!((probabilities[2] - 0.125).abs() < 0.001);
    let sum: f64 = probabilities.iter().sum();
    assert!((sum - 1.0).abs() < 0.001);
}

#[test]
fn test_fixed_coin_probabilistic_attack() {
    let per_heads: Vec<AttackOutcome<AttackEffect>> =
        (0..=4).map(|heads| damage_outcome((heads as u32) * 40)).collect();
    let probabilities = probabilities_of(AttackOutcomes::binomial_by_heads(4, per_heads));

    assert_eq!(probabilities.len(), 5);
    assert!((probabilities[0] - 0.0625).abs() < 0.001);
    assert!((probabilities[1] - 0.25).abs() < 0.001);
    assert!((probabilities[2] - 0.375).abs() < 0.001);
    assert!((probabilities[3] - 0.25).abs() < 0.001);
    assert!((probabilities[4] - 0.0625).abs() < 0.001);
}

#[test]
fn test_single_coin_attacks() {
    for damage in [30, 60, 50] {
        let probabilities =
            probabilities_of(AttackOutcomes::binary_coin(damage_outcome(damage), damage_outcome(0)));
        assert_eq!(probabilities.len(), 2);
        assert!((probabilities[0] - 0.5).abs() < 0.001);
        assert!((probabilities[1] - 0.5).abs() < 0.001);
    }
}

#[test]
fn test_flip_until_tails_bonus_attack_adds_base_and_scales() {
    let iron_treads = pokemon(CardId::B3a051IronTreads, "Iron Treads", 130, EnergyType::Metal, None);
    for (heads, expected_damage) in [(0usize, 50u32), (1, 80), (2, 110)] {
        let mut rng = StdRng::seed_from_u64(0);
        let mut state = duel(iron_treads.clone(), venusaur());
        let outcomes = forecast_effect_attack_by_mechanic(
            &state,
            &attack(50, None),
            &Mechanic::FlipUntilTailsBonusDamage { damage_per_heads: 30 },
        )
        .unwrap();
        let (probabilities, branch_outcomes) = outcomes.into_branches();
        assert_eq!(probabilities.len(), 9);
        apply_attack_outcome(&mut rng, &mut state, 0, &branch_outcomes[heads]);
        assert_eq!(
            state.get_active(1).get_remaining_hp(),
            160 - expected_damage,
            "{heads} heads should deal 50 + {heads}*30"
        );
    }
}

/// Forecasts `attacker`'s flip-until-tails attack through the effect map, applies the outcome
/// with `heads` heads, and returns the damage dealt to a 160-HP receiver.
fn flip_until_tails_map_damage(attacker: PlayedCard, fixed_damage: u32, effect: &str, heads: usize) -> u32 {
    let map = EffectMechanicMap::new();
    let mut rng = StdRng::seed_from_u64(0);
    let mut state = duel(attacker, venusaur());
    let attack = attack(fixed_damage, Some(effect));
    let mechanic = map.get(effect).expect("flip-until-tails effect should be mapped").clone();
    let outcomes = forecast_effect_attack_by_mechanic(&state, &attack, &mechanic).unwrap();
    let (_probabilities, branch_outcomes) = outcomes.into_branches();
    apply_attack_outcome(&mut rng, &mut state, 0, &branch_outcomes[heads]);
    160 - state.get_active(1).get_remaining_hp()
}

#[test]
fn test_flip_until_tails_bonus_base_comes_from_card_fixed_damage() {
    let thirty_more = "Flip a coin until you get tails. This attack does 30 more damage for each heads.";
    let forty_more = "Flip a coin until you get tails. This attack does 40 more damage for each heads.";
    let forty_each = "Flip a coin until you get tails. This attack does 40 damage for each heads.";
    let seventy_each = "Flip a coin until you get tails. This attack does 70 damage for each heads.";
    let iron_treads = || pokemon(CardId::B3a051IronTreads, "Iron Treads", 130, EnergyType::Metal, None);
    let rayquaza = || pokemon(CardId::PA063Rayquaza, "Rayquaza", 110, EnergyType::Dragon, None);
    let lickilicky = || pokemon(CardId::A2125LickilickyEx, "Lickilicky ex", 170, EnergyType::Colorless, None);
    let wooloo = || pokemon(CardId::B1211Wooloo, "Wooloo", 60, EnergyType::Colorless, None);
    let dugtrio = || pokemon(CardId::A3118AlolanDugtrio, "Alolan Dugtrio", 100, EnergyType::Metal, None);

    assert_eq!(flip_until_tails_map_damage(iron_treads(), 50, thirty_more, 0), 50);
    assert_eq!(flip_until_tails_map_damage(iron_treads(), 50, thirty_more, 1), 80);
    assert_eq!(flip_until_tails_map_damage(rayquaza(), 70, thirty_more, 0), 70);
    assert_eq!(flip_until_tails_map_damage(rayquaza(), 70, thirty_more, 1), 100);
    assert_eq!(flip_until_tails_map_damage(lickilicky(), 100, forty_more, 0), 100);
    assert_eq!(flip_until_tails_map_damage(lickilicky(), 100, forty_more, 1), 140);
    assert_eq!(flip_until_tails_map_damage(wooloo(), 0, forty_each, 0), 0);
    assert_eq!(flip_until_tails_map_damage(wooloo(), 0, forty_each, 1), 40);
    assert_eq!(flip_until_tails_map_damage(dugtrio(), 0, seventy_each, 0), 0);
    assert_eq!(flip_until_tails_map_damage(dugtrio(), 0, seventy_each, 1), 70);
}

#[test]
fn test_arceus_does_90_damage() {
    let mut rng = StdRng::seed_from_u64(0);
    let arceus = pokemon(CardId::A2a071ArceusEx, "Arceus ex", 140, EnergyType::Colorless, Some(EnergyType::Fighting));
    let mut state = duel(arceus, venusaur());
    state.in_play_pokemon[0][1] = Some(bulbasaur());
    let outcomes = forecast_effect_attack_by_mechanic(
        &state,
        &attack(70, None),
        &Mechanic::BenchCountDamage {
            include_fixed_damage: true,
            damage_per: 20,
            energy_type: None,
            bench_side: BenchSide::YourBench,
        },
    )
    .unwrap();
    let (_, branch_outcomes) = outcomes.into_branches();
    apply_attack_outcome(&mut rng, &mut state, 0, &branch_outcomes[0]);
    assert_eq!(state.get_active(1).get_remaining_hp(), 70);
}

fn electabuzz_at_20() -> PlayedCard {
    let mut electabuzz = pokemon(CardId::A1101Electabuzz, "Electabuzz", 70, EnergyType::Lightning, Some(EnergyType::Fighting));
    electabuzz.attached_energy = vec![EnergyType::Lightning, EnergyType::Lightning];
    electabuzz.remaining_hp = 20;
    electabuzz
}

fn has_promotion(state: &State, player: usize) -> bool {
    state.move_generation_stack.iter().any(|(p, actions)| {
        *p == player && actions.iter().any(|a| matches!(a, SimpleAction::Activate { .. }))
    })
}

/// The tails outcome of a 40 (+40 on heads, 20 to itself on tails) attack, applied.
fn apply_tails_of_extra_or_self_damage(state: &mut State) {
    let mut rng = StdRng::seed_from_u64(0);
    let outcomes = forecast_effect_attack_by_mechanic(
        state,
        &attack(40, None),
        &Mechanic::CoinFlipExtraDamageOrSelfDamage { extra_damage: 40, self_damage: 20 },
    )
    .unwrap();
    let (_, branch_outcomes) = outcomes.into_branches();
    apply_attack_outcome(&mut rng, state, 0, &branch_outcomes[1]);
}

#[test]
fn test_extra_or_self_damage_attack_double_ko_promotes() {
    let mut bulbasaur_at_40 = bulbasaur();
    bulbasaur_at_40.remaining_hp = 40;
    let mut state = duel(electabuzz_at_20(), bulbasaur_at_40);
    state.turn_count = 3;
    state.in_play_pokemon[0][1] = Some(bulbasaur());
    state.in_play_pokemon[1][1] = Some(bulbasaur());

    apply_tails_of_extra_or_self_damage(&mut state);

    assert!(state.in_play_pokemon[0][0].is_none());
    assert!(state.in_play_pokemon[1][0].is_none());
    assert!(has_promotion(&state, 0), "Expected promotion for player 0");
    assert!(has_promotion(&state, 1), "Expected promotion for player 1");
}

#[test]
fn test_extra_or_self_damage_attack_self_ko_promotes_attacker() {
    let mut state = duel(electabuzz_at_20(), bulbasaur());
    state.turn_count = 3;
    state.in_play_pokemon[0][1] = Some(bulbasaur());

    apply_tails_of_extra_or_self_damage(&mut state);

    assert!(state.in_play_pokemon[0][0].is_none());
    assert!(state.in_play_pokemon[1][0].is_some());
    assert!(has_promotion(&state, 0), "Expected promotion for player 0");
    assert!(!has_promotion(&state, 1), "Did not expect promotion for player 1");
}

#[test]
fn random_spread_forecast_weights_by_targeting_sequences() {
    // Two opponent Pokémon, 3 hits of 50: distributions weighted 1, 3, 3, 1 out of 8.
    let mut state = duel(bulbasaur(), venusaur());
    state.in_play_pokemon[1][2] = Some(bulbasaur());
    let outcomes = forecast_effect_attack_by_mechanic(
        &state,
        &attack(0, None),
        &Mechanic::RandomSpreadDamage { times: 3, damage_per_hit: 50, include_own_bench: false },
    )
    .unwrap();
    let (probabilities, branch_outcomes) = outcomes.into_branches();
    assert_eq!(probabilities, vec![(1, 8), (3, 8), (3, 8), (1, 8)]);
    assert_eq!(branch_outcomes[0].damage, vec![(150, true, 0)]);
    assert_eq!(branch_outcomes[1].damage, vec![(100, true, 0), (50, true, 2)]);
    assert_eq!(branch_outcomes[2].damage, vec![(50, true, 0), (100, true, 2)]);
    assert_eq!(branch_outcomes[3].damage, vec![(150, true, 2)]);
}

#[test]
fn lightning_lancer_without_bench_hits_only_the_active() {
    let state = duel(bulbasaur(), venusaur());
    let outcomes = forecast_effect_attack_by_mechanic(
        &state,
        &attack(0, None),
        &Mechanic::MegaAmpharosExLightningLancer,
    )
    .unwrap();
    let (probabilities, branch_outcomes) = outcomes.into_branches();
    assert_eq!(probabilities, vec![(1, 1)]);
    assert_eq!(branch_outcomes[0].damage, vec![(100, true, 0)]);
}

#[test]
fn coins_per_pokemon_in_play_follow_the_binomial_weights() {
    let mut state = duel(bulbasaur(), venusaur());
    state.in_play_pokemon[0][3] = Some(bulbasaur());
    let outcomes = forecast_effect_attack_by_mechanic(
        &state,
        &attack(0, None),
        &Mechanic::CoinFlipPerPokemonInPlay { damage_per_head: 30 },
    )
    .unwrap();
    let (probabilities, branch_outcomes) = outcomes.into_branches();
    assert_eq!(probabilities, vec![(1, 4), (2, 4), (1, 4)]);
    assert_eq!(branch_outcomes[2].damage, vec![(60, true, 0)]);
}

#[test]
fn heal_one_of_yours_offers_only_damaged_pokemon() {
    let mut rng = StdRng::seed_from_u64(0);
    let mut hurt = bulbasaur();
    hurt.remaining_hp = 40;
    let mut state = duel(bulbasaur(), venusaur());
    state.in_play_pokemon[0][2] = Some(hurt);
    let outcomes = forecast_effect_attack_by_mechanic(
        &state,
        &attack(0, None),
        &Mechanic::HealOneYourPokemon { amount: 30 },
    )
    .unwrap();
    let (_, branch_outcomes) = outcomes.into_branches();
    apply_attack_outcome(&mut rng, &mut state, 0, &branch_outcomes[0]);
    let (player, choices) = state.move_generation_stack.last().unwrap();
    assert_eq!(*player, 0);
    assert_eq!(*choices, vec![SimpleAction::Heal { in_play_idx: 2, amount: 30, cure_status: false }]);
}

#[test]
fn self_damage_and_all_bench_damage_lists_every_target() {
    let mut state = duel(bulbasaur(), venusaur());
    state.in_play_pokemon[0][1] = Some(bulbasaur());
    state.in_play_pokemon[1][3] = Some(bulbasaur());
    let outcomes = forecast_effect_attack_by_mechanic(
        &state,
        &attack(80, None),
        &Mechanic::SelfDamageAndAllBenchDamage { self_damage: 30, bench_damage: 10 },
    )
    .unwrap();
    let (_, branch_outcomes) = outcomes.into_branches();
    assert_eq!(
        branch_outcomes[0].damage,
        vec![(80, true, 0), (30, false, 0), (10, true, 3), (10, false, 1)]
    );
}

#[test]
fn energy_of_a_type_on_all_own_pokemon_adds_damage() {
    let mut attacker = bulbasaur();
    attacker.attached_energy = vec![EnergyType::Grass, EnergyType::Water];
    let mut benched = bulbasaur();
    benched.attached_energy = vec![EnergyType::Grass, EnergyType::Grass];
    let mut state = duel(attacker, venusaur());
    state.in_play_pokemon[0][1] = Some(benched);
    let outcomes = forecast_effect_attack_by_mechanic(
        &state,
        &attack(20, None),
        &Mechanic::ExtraDamagePerSpecificEnergyAllYours { energy_type: EnergyType::Grass, damage_per_energy: 20 },
    )
    .unwrap();
    let (_, branch_outcomes) = outcomes.into_branches();
    assert_eq!(branch_outcomes[0].damage, vec![(80, true, 0)]);
}

#[test]
fn damage_or_heal_opponent_tails_heals_the_defender() {
    let mut rng = StdRng::seed_from_u64(0);
    let mut hurt = venusaur();
    hurt.remaining_hp = 100;
    let mut state = duel(bulbasaur(), hurt);
    let outcomes = forecast_effect_attack_by_mechanic(
        &state,
        &attack(0, None),
        &Mechanic::CoinFlipDamageOrHealOpponent { damage: 40, heal: 30 },
    )
    .unwrap();
    let (probabilities, branch_outcomes) = outcomes.into_branches();
    assert_eq!(probabilities, vec![(1, 2), (1, 2)]);
    apply_attack_outcome(&mut rng, &mut state, 0, &branch_outcomes[1]);
    assert_eq!(state.get_active(1).get_remaining_hp(), 130);
}

#[test]
fn both_actives_get_each_status() {
    let outcomes = forecast_effect_attack_by_mechanic(
        &duel(bulbasaur(), venusaur()),
        &attack(10, None),
        &Mechanic::InflictStatusConditionsOnBothActive {
            conditions: vec![deckgym::models::StatusCondition::Poisoned],
        },
    )
    .unwrap();
    let (_, branch_outcomes) = outcomes.into_branches();
    assert_eq!(
        branch_outcomes[0].post_damage_effects,
        vec![
            AttackEffect::InflictStatus { on_opponent: false, condition: deckgym::models::StatusCondition::Poisoned },
            AttackEffect::InflictStatus { on_opponent: true, condition: deckgym::models::StatusCondition::Poisoned },
        ]
    );
}

/// Applies the branch `branch` of `mechanic`'s forecast for player 0's attack.
fn apply_branch(state: &mut State, fixed_damage: u32, mechanic: Mechanic, branch: usize) {
    let mut rng = StdRng::seed_from_u64(7);
    let outcomes = forecast_effect_attack_by_mechanic(state, &attack(fixed_damage, None), &mechanic).unwrap();
    let (_, branch_outcomes) = outcomes.into_branches();
    apply_attack_outcome(&mut rng, state, 0, &branch_outcomes[branch]);
}

#[test]
fn crunch_heads_removes_one_opponent_energy() {
    let mut defender = venusaur();
    defender.attached_energy = vec![EnergyType::Grass, EnergyType::Water, EnergyType::Grass];
    let mut state = duel(bulbasaur(), defender);
    apply_branch(&mut state, 0, Mechanic::CoinFlipDiscardEnergyFromOpponentActive, 0);
    assert_eq!(state.get_active(1).attached_energy.len(), 2);
    assert_eq!(state.get_active(1).get_remaining_hp(), 140);
}

#[test]
fn set_opponent_hp_heads_brings_hp_down_or_up() {
    let mut state = duel(bulbasaur(), venusaur());
    apply_branch(&mut state, 0, Mechanic::CoinFlipSetOpponentHpTo { hp: 10 }, 0);
    assert_eq!(state.get_active(1).get_remaining_hp(), 10);

    let mut hurt = venusaur();
    hurt.remaining_hp = 50;
    let mut state = duel(bulbasaur(), hurt);
    apply_branch(&mut state, 0, Mechanic::CoinFlipSetOpponentHpTo { hp: 200 }, 0);
    assert_eq!(state.get_active(1).get_remaining_hp(), 160);
}

#[test]
fn discard_all_energy_then_knock_out_the_defender() {
    let mut attacker = bulbasaur();
    attacker.attached_energy = vec![EnergyType::Grass, EnergyType::Grass];
    let mut state = duel(attacker, venusaur());
    state.in_play_pokemon[1][1] = Some(bulbasaur());
    apply_branch(&mut state, 0, Mechanic::SelfDiscardAllEnergyAndKnockOutOpponentActive, 0);
    assert!(state.get_active(0).attached_energy.is_empty());
    assert!(state.in_play_pokemon[1][0].is_none());
    assert_eq!(state.points[0], 1);
}

#[test]
fn knock_back_lets_the_opponent_pick_a_new_active() {
    let mut state = duel(bulbasaur(), venusaur());
    state.in_play_pokemon[1][2] = Some(bulbasaur());
    apply_branch(&mut state, 10, Mechanic::KnockBackOpponentActive, 0);
    let (player, choices) = state.move_generation_stack.last().unwrap();
    assert_eq!(*player, 1);
    assert_eq!(*choices, vec![SimpleAction::Activate { player: 1, in_play_idx: 2 }]);
}

#[test]
fn random_bench_damage_hits_one_benched_pokemon() {
    let mut state = duel(bulbasaur(), venusaur());
    state.in_play_pokemon[1][1] = Some(bulbasaur());
    state.in_play_pokemon[1][3] = Some(bulbasaur());
    apply_branch(&mut state, 20, Mechanic::AlsoRandomBenchDamage { bench_damage: 30 }, 0);
    let hp1 = state.in_play_pokemon[1][1].as_ref().unwrap().get_remaining_hp();
    let hp3 = state.in_play_pokemon[1][3].as_ref().unwrap().get_remaining_hp();
    assert_eq!(hp1 + hp3, 110);
    assert_eq!(state.get_active(1).get_remaining_hp(), 140);
}

#[test]
fn heal_only_when_the_defender_is_poisoned() {
    let mut hurt = bulbasaur();
    hurt.remaining_hp = 30;
    let mut state = duel(hurt.clone(), venusaur());
    apply_branch(&mut state, 0, Mechanic::HealSelfIfDefenderPoisoned { amount: 20 }, 0);
    assert_eq!(state.get_active(0).get_remaining_hp(), 30);

    let mut poisoned = venusaur();
    poisoned.poisoned = true;
    let mut state = duel(hurt, poisoned);
    apply_branch(&mut state, 0, Mechanic::HealSelfIfDefenderPoisoned { amount: 20 }, 0);
    assert_eq!(state.get_active(0).get_remaining_hp(), 50);
}

#[test]
fn pokemon_in_the_discard_pile_add_damage() {
    let mut state = duel(bulbasaur(), venusaur());
    state.discard_piles[0] = vec![
        bulbasaur().card,
        Card::Trainer(deckgym::models::TrainerCard {
            id: CardId::PA001Potion,
            name: "Potion".to_string(),
            trainer_card_type: deckgym::models::TrainerType::Item,
        }),
        pokemon(CardId::A1033Charmander, "Charmander", 60, EnergyType::Fire, None).card,
    ];
    let all = forecast_effect_attack_by_mechanic(
        &state,
        &attack(10, None),
        &Mechanic::ExtraDamagePerPokemonInDiscard { damage_per_pokemon: 20 },
    )
    .unwrap();
    assert_eq!(all.into_branches().1[0].damage, vec![(50, true, 0)]);
    let fire = forecast_effect_attack_by_mechanic(
        &state,
        &attack(10, None),
        &Mechanic::ExtraDamagePerPokemonTypeInDiscard { energy_type: EnergyType::Fire, damage_per_pokemon: 20 },
    )
    .unwrap();
    assert_eq!(fire.into_branches().1[0].damage, vec![(30, true, 0)]);
}

#[test]
fn discard_both_decks_takes_from_the_top_of_each() {
    let mut state = duel(bulbasaur(), venusaur());
    state.decks[0] = vec![bulbasaur().card, venusaur().card];
    state.decks[1] = vec![venusaur().card];
    apply_branch(&mut state, 10, Mechanic::DamageAndDiscardBothDecks { discard_count: 1 }, 0);
    assert_eq!(state.decks[0], vec![venusaur().card]);
    assert_eq!(state.discard_piles[0], vec![bulbasaur().card]);
    assert!(state.decks[1].is_empty());
    assert_eq!(state.discard_piles[1], vec![venusaur().card]);
}

#[test]
fn flip_until_tails_deck_discard_discards_one_card_per_heads() {
    let mut state = duel(bulbasaur(), venusaur());
    state.decks[1] = vec![bulbasaur().card, bulbasaur().card, venusaur().card];
    let outcomes = forecast_effect_attack_by_mechanic(
        &state,
        &attack(20, None),
        &Mechanic::FlipUntilTailsDiscardOpponentDeck,
    )
    .unwrap();
    let (probabilities, branch_outcomes) = outcomes.into_branches();
    assert_eq!(probabilities.len(), 9);
    assert_eq!(probabilities[0], (128, 256));
    let mut rng = StdRng::seed_from_u64(0);
    apply_attack_outcome(&mut rng, &mut state, 0, &branch_outcomes[2]);
    assert_eq!(state.decks[1], vec![venusaur().card]);
    assert_eq!(state.discard_piles[1].len(), 2);
}

#[test]
fn recoil_only_after_knocking_out_the_defender() {
    let mut weak = bulbasaur();
    weak.remaining_hp = 30;
    let mut state = duel(bulbasaur(), weak);
    state.in_play_pokemon[1][1] = Some(bulbasaur());
    apply_branch(&mut state, 40, Mechanic::RecoilIfKo { self_damage: 50 }, 0);
    assert!(state.in_play_pokemon[1][0].is_none());
    assert_eq!(state.get_active(0).get_remaining_hp(), 20);

    let mut state = duel(bulbasaur(), venusaur());
    apply_branch(&mut state, 40, Mechanic::RecoilIfKo { self_damage: 50 }, 0);
    assert_eq!(state.get_active(0).get_remaining_hp(), 70);
}

#[test]
fn test_guzzlord_grindcore_does_not_respect_oricorio_safeguard() {
    let mut rng = StdRng::seed_from_u64(0);
    let mut oricorio = pokemon(CardId::A3066Oricorio, "Oricorio", 70, EnergyType::Psychic, None);
    if let Card::Pokemon(p) = &mut oricorio.card {
        p.ability = Some(deckgym::abilities::AbilityMechanic::PreventAllDamageFromEx);
    }
    let mut guzzlord = pokemon(CardId::A3a043GuzzlordEx, "Guzzlord ex", 170, EnergyType::Darkness, None);
    if let Card::Pokemon(p) = &mut guzzlord.card {
        p.is_ex = true;
    }
    let mut state = duel(guzzlord, oricorio);
    let effect = "Flip a coin until you get tails. This attack does 30 damage for each heads.";
    let grindcore = attack(0, Some(effect));
    let map = EffectMechanicMap::new();
    let mechanic = map.get(effect).expect("Guzzlord ex effect should be mapped").clone();
    let outcomes = forecast_effect_attack_by_mechanic(&state, &grindcore, &mechanic).unwrap();
    let (_probabilities, branch_outcomes) = outcomes.into_branches();
    apply_attack_outcome(&mut rng, &mut state, 0, &branch_outcomes[0]);
    assert_eq!(state.get_active(1).get_remaining_hp(), 70);
}

#[test]
fn test_extra_damage_if_type_energy_in_play_attack() {
    let mechanic = Mechanic::ExtraDamageIfTypeEnergyInPlay {
        energy_type: EnergyType::Lightning,
        minimum_count: 4,
        extra_damage: 70,
    };
    let bellibolt = || pokemon(CardId::B2a042BelliboltEx, "Bellibolt ex", 180, EnergyType::Lightning, None);
    let shinx = || pokemon(CardId::A2058Shinx, "Shinx", 60, EnergyType::Lightning, None);

    let mut attacker = bellibolt();
    attacker.attached_energy = vec![EnergyType::Lightning, EnergyType::Lightning];
    let mut bench = shinx();
    bench.attached_energy = vec![EnergyType::Lightning];
    let mut below_threshold = duel(attacker, venusaur());
    below_threshold.in_play_pokemon[0][1] = Some(bench);
    apply_branch(&mut below_threshold, 70, mechanic.clone(), 0);
    assert_eq!(below_threshold.get_active(1).get_remaining_hp(), 90);

    let mut attacker = bellibolt();
    attacker.attached_energy = vec![EnergyType::Lightning, EnergyType::Lightning];
    let mut bench = shinx();
    bench.attached_energy = vec![EnergyType::Lightning, EnergyType::Lightning];
    let mut at_threshold = duel(attacker, venusaur());
    at_threshold.in_play_pokemon[0][1] = Some(bench);
    apply_branch(&mut at_threshold, 70, mechanic, 0);
    assert_eq!(at_threshold.get_active(1).get_remaining_hp(), 20);
}

#[test]
fn extra_damage_per_energy_counts_the_targets_energy() {
    let mut attacker = bulbasaur();
    attacker.attached_energy = vec![EnergyType::Grass, EnergyType::Grass, EnergyType::Water];
    let state = duel(attacker, venusaur());
    let outcomes = forecast_effect_attack_by_mechanic(
        &state,
        &attack(30, None),
        &Mechanic::ExtraDamagePerEnergy { include_fixed_damage: true, opponent: false, damage_per_energy: 10 },
    )
    .unwrap();
    let (_, branch_outcomes) = outcomes.into_branches();
    assert_eq!(branch_outcomes[0].damage, vec![(60, true, 0)]);

    let outcomes = forecast_effect_attack_by_mechanic(
        &state,
        &attack(30, None),
        &Mechanic::ExtraDamagePerEnergyType { damage_per_type: 20 },
    )
    .unwrap();
    let (_, branch_outcomes) = outcomes.into_branches();
    assert_eq!(branch_outcomes[0].damage, vec![(70, true, 0)]);
}

#[test]
fn damage_per_energy_all_counts_every_pokemon_of_the_side() {
    let mut attacker = bulbasaur();
    attacker.attached_energy = vec![EnergyType::Grass];
    let mut benched = bulbasaur();
    benched.attached_energy = vec![EnergyType::Fire, EnergyType::Water];
    let mut state = duel(attacker, venusaur());
    state.in_play_pokemon[0][3] = Some(benched);
    let outcomes = forecast_effect_attack_by_mechanic(
        &state,
        &attack(50, None),
        &Mechanic::DamagePerEnergyAll { include_fixed_damage: false, opponent: false, damage_per_energy: 30 },
    )
    .unwrap();
    let (_, branch_outcomes) = outcomes.into_branches();
    assert_eq!(branch_outcomes[0].damage, vec![(90, true, 0)]);

    let outcomes = forecast_effect_attack_by_mechanic(
        &state,
        &attack(50, None),
        &Mechanic::ExtraDamageIfDifferentEnergyTypesInPlay { minimum_types: 3, extra_damage: 40 },
    )
    .unwrap();
    let (_, branch_outcomes) = outcomes.into_branches();
    assert_eq!(branch_outcomes[0].damage, vec![(90, true, 0)]);
}

#[test]
fn self_charge_attaches_each_energy_and_the_coin_version_splits() {
    let mut rng = StdRng::seed_from_u64(0);
    let mut state = duel(bulbasaur(), venusaur());
    let mechanic = Mechanic::SelfChargeActive { energies: vec![EnergyType::Grass, EnergyType::Grass] };
    let outcomes = forecast_effect_attack_by_mechanic(&state, &attack(10, None), &mechanic).unwrap();
    let (_, branch_outcomes) = outcomes.into_branches();
    apply_attack_outcome(&mut rng, &mut state, 0, &branch_outcomes[0]);
    assert_eq!(state.get_active(0).attached_energy, vec![EnergyType::Grass, EnergyType::Grass]);
    assert_eq!(state.get_active(1).get_remaining_hp(), 150);

    let coin = Mechanic::CoinFlipSelfChargeActive { energies: vec![EnergyType::Grass] };
    let outcomes = forecast_effect_attack_by_mechanic(&duel(bulbasaur(), venusaur()), &attack(10, None), &coin).unwrap();
    assert_eq!(probabilities_of(outcomes), vec![0.5, 0.5]);

    let coins = Mechanic::CoinFlipsAttachEnergyToSelf { num_coins: 2, energy_type: EnergyType::Grass };
    let outcomes = forecast_effect_attack_by_mechanic(&duel(bulbasaur(), venusaur()), &attack(0, None), &coins).unwrap();
    assert_eq!(probabilities_of(outcomes), vec![0.25, 0.5, 0.25]);
}

#[test]
fn self_cure_and_heal_by_damage_dealt() {
    let mut rng = StdRng::seed_from_u64(0);
    let mut attacker = bulbasaur();
    attacker.poisoned = true;
    attacker.confused = true;
    attacker.remaining_hp = 20;
    let mut state = duel(attacker, venusaur());
    let outcomes =
        forecast_effect_attack_by_mechanic(&state, &attack(30, None), &Mechanic::SelfCureStatusConditions).unwrap();
    let (_, branch_outcomes) = outcomes.into_branches();
    apply_attack_outcome(&mut rng, &mut state, 0, &branch_outcomes[0]);
    assert!(!state.get_active(0).poisoned);
    assert!(!state.get_active(0).confused);

    let outcomes =
        forecast_effect_attack_by_mechanic(&state, &attack(30, None), &Mechanic::HealEqualToDamageDealt).unwrap();
    let (_, branch_outcomes) = outcomes.into_branches();
    apply_attack_outcome(&mut rng, &mut state, 0, &branch_outcomes[0]);
    // Venusaur took 30 more (it is at 130 after 2 x 30); the attacker heals by 30.
    assert_eq!(state.get_active(1).get_remaining_hp(), 100);
    assert_eq!(state.get_active(0).get_remaining_hp(), 50);
}

#[test]
fn knocked_out_last_turn_adds_damage_and_status() {
    let mut state = duel(bulbasaur(), venusaur());
    state.knocked_out_by_opponent_attack_last_turn = true;
    state.knocked_out_types_last_turn = vec![Some(EnergyType::Grass)];
    let outcomes = forecast_effect_attack_by_mechanic(
        &state,
        &attack(20, None),
        &Mechanic::ExtraDamageIfKnockedOutLastTurn { energy_type: Some(EnergyType::Grass), extra_damage: 60 },
    )
    .unwrap();
    let (_, branch_outcomes) = outcomes.into_branches();
    assert_eq!(branch_outcomes[0].damage, vec![(80, true, 0)]);

    let outcomes = forecast_effect_attack_by_mechanic(
        &state,
        &attack(20, None),
        &Mechanic::ExtraDamageIfKnockedOutLastTurn { energy_type: Some(EnergyType::Fire), extra_damage: 60 },
    )
    .unwrap();
    let (_, branch_outcomes) = outcomes.into_branches();
    assert_eq!(branch_outcomes[0].damage, vec![(20, true, 0)]);
}

#[test]
fn discard_tools_and_shuffle_a_hand_card() {
    let mut rng = StdRng::seed_from_u64(0);
    let mut defender = venusaur();
    let cape = deckgym::models::TrainerCard {
        id: CardId::PA002XSpeed,
        name: "Giant Cape".to_string(),
        trainer_card_type: deckgym::models::TrainerType::Tool,
    };
    defender.attached_tool = Some(cape.clone());
    let mut state = duel(bulbasaur(), defender);
    state.hands[1] = vec![Card::Trainer(cape.clone())];
    let outcomes = forecast_effect_attack_by_mechanic(
        &state,
        &attack(20, None),
        &Mechanic::DiscardOpponentActiveToolsBeforeDamage,
    )
    .unwrap();
    let (_, branch_outcomes) = outcomes.into_branches();
    apply_attack_outcome(&mut rng, &mut state, 0, &branch_outcomes[0]);
    assert!(state.get_active(1).attached_tool.is_none());
    assert_eq!(state.discard_piles[1], vec![Card::Trainer(cape.clone())]);
    assert_eq!(state.get_active(1).get_remaining_hp(), 140);

    let outcomes = forecast_effect_attack_by_mechanic(
        &state,
        &attack(0, None),
        &Mechanic::ShuffleRandomOpponentHandCardIntoDeck,
    )
    .unwrap();
    let (_, branch_outcomes) = outcomes.into_branches();
    apply_attack_outcome(&mut rng, &mut state, 0, &branch_outcomes[0]);
    assert!(state.hands[1].is_empty());
    assert_eq!(state.decks[1], vec![Card::Trainer(cape)]);
}

fn sole_damage(state: &State, fixed: u32, mechanic: Mechanic) -> Vec<(u32, bool, usize)> {
    let outcomes = forecast_effect_attack_by_mechanic(state, &attack(fixed, None), &mechanic).unwrap();
    let (_, branch_outcomes) = outcomes.into_branches();
    branch_outcomes[0].damage.clone()
}

#[test]
fn comparisons_between_the_two_sides_add_damage() {
    let mut attacker = bulbasaur();
    attacker.attached_energy = vec![EnergyType::Grass, EnergyType::Water];
    let mut defender = venusaur();
    defender.attached_energy = vec![EnergyType::Water, EnergyType::Fire];
    let mut state = duel(attacker, defender);
    state.hands[0] = vec![];
    state.hands[1] = vec![];
    assert_eq!(sole_damage(&state, 10, Mechanic::ExtraDamageIfHandsAreEqual { extra_damage: 30 }), vec![(40, true, 0)]);
    assert_eq!(sole_damage(&state, 10, Mechanic::ExtraDamageIfEqualEnergyCount { extra_damage: 30 }), vec![(40, true, 0)]);
    assert_eq!(sole_damage(&state, 10, Mechanic::ExtraDamageIfSharedEnergyType { extra_damage: 30 }), vec![(40, true, 0)]);
    assert_eq!(
        sole_damage(&state, 10, Mechanic::ExtraDamageIfOpponentHandSizeIs { hand_sizes: vec![1, 2], extra_damage: 30 }),
        vec![(10, true, 0)]
    );
    assert_eq!(sole_damage(&state, 10, Mechanic::ExtraDamageIfDefenderIsEvolution { extra_damage: 30 }), vec![(10, true, 0)]);
}

#[test]
fn nothing_unless_moved_from_the_bench() {
    let state = duel(bulbasaur(), venusaur());
    assert!(sole_damage(&state, 60, Mechanic::NothingUnlessMovedFromBench).is_empty());
    let mut moved = bulbasaur();
    moved.moved_to_active_this_turn = true;
    let state = duel(moved, venusaur());
    assert_eq!(sole_damage(&state, 60, Mechanic::NothingUnlessMovedFromBench), vec![(60, true, 0)]);
}

#[test]
fn card_effects_land_on_the_chosen_active() {
    let mut rng = StdRng::seed_from_u64(0);
    let mut state = duel(bulbasaur(), venusaur());
    let outcomes = forecast_effect_attack_by_mechanic(
        &state,
        &attack(30, None),
        &Mechanic::DamageAndCardEffect {
            opponent: true,
            effect: CardEffect::NoRetreat,
            duration: 1,
            coin_flip: false,
        },
    )
    .unwrap();
    let (weights, branch_outcomes) = outcomes.into_branches();
    assert_eq!(weights, vec![(1, 1)]);
    apply_attack_outcome(&mut rng, &mut state, 0, &branch_outcomes[0]);
    assert_eq!(state.get_active(1).effects, vec![CardEffect::NoRetreat]);
    assert!(state.get_active(0).effects.is_empty());

    let outcomes = forecast_effect_attack_by_mechanic(
        &state,
        &attack(0, None),
        &Mechanic::SelfReducedDamageFromEx { amount: 20, duration: 1 },
    )
    .unwrap();
    let (_, branch_outcomes) = outcomes.into_branches();
    apply_attack_outcome(&mut rng, &mut state, 0, &branch_outcomes[0]);
    assert_eq!(state.get_active(0).effects, vec![CardEffect::ReducedDamageFromEx { amount: 20 }]);
}

#[test]
fn coin_card_effects_split_on_the_coin() {
    let state = duel(bulbasaur(), venusaur());
    let heads = forecast_effect_attack_by_mechanic(
        &state,
        &attack(40, None),
        &Mechanic::CoinFlipNoDamageOrDamageAndCardEffect {
            opponent: true,
            effect: CardEffect::CannotAttack,
            duration: 1,
        },
    )
    .unwrap();
    let (weights, branch_outcomes) = heads.into_branches();
    assert_eq!(weights, vec![(1, 2), (1, 2)]);
    assert_eq!(branch_outcomes[0].damage, vec![(40, true, 0)]);
    assert_eq!(branch_outcomes[1].damage, vec![(0, true, 0)]);
    assert_eq!(branch_outcomes[1].post_damage_effects.len(), 0);

    let tails = forecast_effect_attack_by_mechanic(
        &state,
        &attack(40, None),
        &Mechanic::DamageAndCardEffectOnTails { opponent: false, effect: CardEffect::NoWeakness, duration: 1 },
    )
    .unwrap();
    let (_, branch_outcomes) = tails.into_branches();
    assert_eq!(branch_outcomes[0].post_damage_effects.len(), 0);
    assert_eq!(branch_outcomes[1].post_damage_effects.len(), 1);
}

#[test]
fn an_effect_naming_an_attack_is_not_forecast() {
    let state = duel(bulbasaur(), venusaur());
    let r = forecast_effect_attack_by_mechanic(
        &state,
        &attack(40, None),
        &Mechanic::DamageAndCardEffect {
            opponent: false,
            effect: CardEffect::CannotUseAttack("Big Beat".to_string()),
            duration: 2,
            coin_flip: false,
        },
    );
    assert!(r.is_none());
}

#[test]
fn raised_costs_and_several_effects_stack_in_order() {
    let mut rng = StdRng::seed_from_u64(0);
    let mut state = duel(bulbasaur(), venusaur());
    let outcomes = forecast_effect_attack_by_mechanic(
        &state,
        &attack(10, None),
        &Mechanic::RaiseDefenderAttackAndRetreatCost { amount: 1, duration: 1 },
    )
    .unwrap();
    let (_, branch_outcomes) = outcomes.into_branches();
    apply_attack_outcome(&mut rng, &mut state, 0, &branch_outcomes[0]);
    assert_eq!(
        state.get_active(1).effects,
        vec![CardEffect::IncreasedAttackCost { amount: 1 }, CardEffect::IncreasedRetreatCost { amount: 1 }]
    );

    let outcomes = forecast_effect_attack_by_mechanic(
        &state,
        &attack(10, None),
        &Mechanic::DamageAndMultipleCardEffects {
            opponent: false,
            effects: vec![CardEffect::NoRetreat, CardEffect::ReducedDamage { amount: 30 }],
            duration: 1,
        },
    )
    .unwrap();
    let (_, branch_outcomes) = outcomes.into_branches();
    apply_attack_outcome(&mut rng, &mut state, 0, &branch_outcomes[0]);
    assert_eq!(state.get_active(0).effects, vec![CardEffect::NoRetreat, CardEffect::ReducedDamage { amount: 30 }]);
}

#[test]
fn self_heal_then_effect_and_status_then_effect() {
    let mut rng = StdRng::seed_from_u64(0);
    let mut attacker = bulbasaur();
    attacker.remaining_hp = 30;
    let mut state = duel(attacker, venusaur());
    let outcomes = forecast_effect_attack_by_mechanic(
        &state,
        &attack(20, None),
        &Mechanic::SelfHealAndCardEffect {
            heal_amount: 20,
            opponent: true,
            effect: CardEffect::CoinFlipToBlockAttack,
            duration: 1,
        },
    )
    .unwrap();
    let (_, branch_outcomes) = outcomes.into_branches();
    apply_attack_outcome(&mut rng, &mut state, 0, &branch_outcomes[0]);
    assert_eq!(state.get_active(0).get_remaining_hp(), 50);
    assert_eq!(state.get_active(1).effects, vec![CardEffect::CoinFlipToBlockAttack]);

    let outcomes = forecast_effect_attack_by_mechanic(
        &state,
        &attack(20, None),
        &Mechanic::InflictStatusAndCardEffect {
            conditions: vec![StatusCondition::Poisoned],
            effect: CardEffect::NoRetreat,
            effect_duration: 1,
        },
    )
    .unwrap();
    let (_, branch_outcomes) = outcomes.into_branches();
    apply_attack_outcome(&mut rng, &mut state, 0, &branch_outcomes[0]);
    assert!(state.get_active(1).poisoned);
    assert_eq!(state.get_active(1).effects, vec![CardEffect::CoinFlipToBlockAttack, CardEffect::NoRetreat]);
}

#[test]
fn shuffle_a_hand_card_and_offer_the_attacker_back() {
    let mut rng = StdRng::seed_from_u64(0);
    let mut state = duel(bulbasaur(), venusaur());
    state.hands[1] = vec![venusaur().card.clone()];
    let outcomes = forecast_effect_attack_by_mechanic(
        &state,
        &attack(20, None),
        &Mechanic::ShuffleOpponentHandCardAndSelfIntoDeck,
    )
    .unwrap();
    let (_, branch_outcomes) = outcomes.into_branches();
    apply_attack_outcome(&mut rng, &mut state, 0, &branch_outcomes[0]);
    assert!(state.hands[1].is_empty());
    assert_eq!(state.decks[1].len(), 1);
    let top = state.move_generation_stack.last().unwrap();
    assert_eq!(top.0, 0);
    assert_eq!(top.1, vec![SimpleAction::ShuffleInPlayPokemonIntoDeck { in_play_idx: 0 }]);
}

#[test]
fn poison_with_a_damage_amount_marks_the_poison() {
    let mut rng = StdRng::seed_from_u64(0);
    let mut state = duel(bulbasaur(), venusaur());
    let outcomes = forecast_effect_attack_by_mechanic(
        &state,
        &attack(10, None),
        &Mechanic::PoisonWithDamageAmount { amount: 20 },
    )
    .unwrap();
    let (_, branch_outcomes) = outcomes.into_branches();
    apply_attack_outcome(&mut rng, &mut state, 0, &branch_outcomes[0]);
    assert!(state.get_active(1).poisoned);
    assert_eq!(state.get_active(1).effects, vec![CardEffect::PoisonDamageAmount { amount: 20 }]);
    assert_eq!(state.get_active(1).get_remaining_hp(), 150);
}

#[test]
fn each_heads_shuffles_one_hand_card_back() {
    let mut rng = StdRng::seed_from_u64(0);
    let mut state = duel(bulbasaur(), venusaur());
    state.hands[1] = vec![venusaur().card.clone(), bulbasaur().card.clone(), venusaur().card.clone()];
    let outcomes = forecast_effect_attack_by_mechanic(
        &state,
        &attack(10, None),
        &Mechanic::CoinFlipsShuffleOpponentHandCards { num_coins: 2 },
    )
    .unwrap();
    let (weights, branch_outcomes) = outcomes.into_branches();
    assert_eq!(weights, vec![(1, 4), (2, 4), (1, 4)]);
    apply_attack_outcome(&mut rng, &mut state, 0, &branch_outcomes[2]);
    assert_eq!(state.hands[1].len(), 1);
    assert_eq!(state.decks[1].len(), 2);
}

#[test]
fn benched_pokemon_by_name_or_its_ex_add_damage() {
    let mut state = duel(bulbasaur(), venusaur());
    state.in_play_pokemon[0][1] = Some(pokemon(CardId::A1001Bulbasaur, "Nidoqueen", 90, EnergyType::Darkness, None));
    state.in_play_pokemon[0][2] = Some(pokemon(CardId::A1001Bulbasaur, "Nidoqueen ex", 150, EnergyType::Darkness, None));
    state.in_play_pokemon[0][3] = Some(pokemon(CardId::A1001Bulbasaur, "Nidoking", 130, EnergyType::Darkness, None));
    let outcomes = forecast_effect_attack_by_mechanic(
        &state,
        &attack(20, None),
        &Mechanic::ExtraDamagePerPokemonWithNameOrExOnBench { pokemon_name: "Nidoqueen".to_string(), damage_per: 50 },
    )
    .unwrap();
    let (_, branch_outcomes) = outcomes.into_branches();
    assert_eq!(branch_outcomes[0].damage, vec![(120, true, 0)]);
}

#[test]
fn a_defender_whose_name_holds_the_part_takes_more() {
    let state = duel(bulbasaur(), pokemon(CardId::A1003Venusaur, "Alolan Raichu", 100, EnergyType::Lightning, None));
    let outcomes = forecast_effect_attack_by_mechanic(
        &state,
        &attack(30, None),
        &Mechanic::ExtraDamageIfDefenderNameContains { name_part: "Alolan".to_string(), extra_damage: 40 },
    )
    .unwrap();
    let (_, branch_outcomes) = outcomes.into_branches();
    assert_eq!(branch_outcomes[0].damage, vec![(70, true, 0)]);

    let outcomes = forecast_effect_attack_by_mechanic(
        &state,
        &attack(30, None),
        &Mechanic::ExtraDamageIfDefenderNameContains { name_part: "Galarian".to_string(), extra_damage: 40 },
    )
    .unwrap();
    let (_, branch_outcomes) = outcomes.into_branches();
    assert_eq!(branch_outcomes[0].damage, vec![(30, true, 0)]);
}

#[test]
fn self_effects_with_a_random_discard_or_a_direct_hit() {
    let mut rng = StdRng::seed_from_u64(0);
    let mut attacker = bulbasaur();
    attacker.attached_energy = vec![EnergyType::Grass, EnergyType::Grass];
    let mut state = duel(attacker, venusaur());
    let outcomes = forecast_effect_attack_by_mechanic(
        &state,
        &attack(60, None),
        &Mechanic::SelfDiscardRandomEnergyAndCardEffect { count: 1, effect: CardEffect::ReducedDamage { amount: 20 }, duration: 1 },
    )
    .unwrap();
    let (_, branch_outcomes) = outcomes.into_branches();
    apply_attack_outcome(&mut rng, &mut state, 0, &branch_outcomes[0]);
    assert_eq!(state.get_active(0).attached_energy, vec![EnergyType::Grass]);
    assert_eq!(state.get_active(0).effects, vec![CardEffect::ReducedDamage { amount: 20 }]);
    assert_eq!(state.get_active(1).get_remaining_hp(), 100);

    let outcomes = forecast_effect_attack_by_mechanic(
        &state,
        &attack(0, None),
        &Mechanic::DirectDamageAndSelfCardEffect { damage: 30, bench_only: false, effect: CardEffect::NoRetreat, duration: 1 },
    )
    .unwrap();
    let (_, branch_outcomes) = outcomes.into_branches();
    assert_eq!(branch_outcomes[0].damage, vec![(0, true, 0)]);
    apply_attack_outcome(&mut rng, &mut state, 0, &branch_outcomes[0]);
    assert_eq!(state.get_active(0).effects, vec![CardEffect::ReducedDamage { amount: 20 }, CardEffect::NoRetreat]);
    let top = state.move_generation_stack.last().unwrap();
    assert_eq!(top.1.len(), 1);
}

#[test]
fn only_a_basic_defender_is_blocked() {
    let mut rng = StdRng::seed_from_u64(0);
    let mut state = duel(venusaur(), bulbasaur());
    let outcomes = forecast_effect_attack_by_mechanic(&state, &attack(10, None), &Mechanic::BlockBasicAttack).unwrap();
    let (_, branch_outcomes) = outcomes.into_branches();
    apply_attack_outcome(&mut rng, &mut state, 0, &branch_outcomes[0]);
    assert_eq!(state.get_active(1).effects, vec![CardEffect::CannotAttack]);

    let mut evolved = venusaur();
    if let Card::Pokemon(p) = &mut evolved.card {
        p.stage = 2;
    }
    let mut state = duel(bulbasaur(), evolved);
    let outcomes = forecast_effect_attack_by_mechanic(&state, &attack(10, None), &Mechanic::BlockBasicAttack).unwrap();
    let (_, branch_outcomes) = outcomes.into_branches();
    apply_attack_outcome(&mut rng, &mut state, 0, &branch_outcomes[0]);
    assert!(state.get_active(1).effects.is_empty());
}
