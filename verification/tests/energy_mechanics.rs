use deckgym::apply_attack_action::{apply_attack_effect, forecast_effect_attack_by_mechanic, AttackEffect};
use deckgym::attacks::Mechanic;
use deckgym::card_ids::CardId;
use deckgym::models::{Attack, Card, EnergyType, PlayedCard, PokemonCard, StatusCondition};
use deckgym::state::{SimpleAction, State};
use rand::rngs::StdRng;
use rand::SeedableRng;

fn pokemon(id: CardId, name: &str, hp: u32, energy_type: EnergyType, energy: Vec<EnergyType>) -> PlayedCard {
    PlayedCard {
        card: Card::Pokemon(PokemonCard {
            id,
            name: name.to_string(),
            stage: 0,
            hp,
            energy_type,
            weakness: None,
            is_ex: false,
            is_mega: false,
            ability: None,
            attacks: vec![],
        }),
        remaining_hp: hp,
        total_hp: hp,
        attached_energy: energy,
        attached_tool: None,
        poisoned: false,
        paralyzed: false,
        asleep: false,
        burned: false,
        confused: false,
        ability_used: false,
        prevent_first_attack_damage_used: false,
        moved_to_active_this_turn: false,
        effects: vec![],
    }
}

fn charmander(energy: Vec<EnergyType>) -> PlayedCard {
    pokemon(CardId::A1033Charmander, "Charmander", 60, EnergyType::Fire, energy)
}

fn squirtle(energy: Vec<EnergyType>) -> PlayedCard {
    pokemon(CardId::A1053Squirtle, "Squirtle", 60, EnergyType::Water, energy)
}

fn duel(attacker: PlayedCard, receiver: PlayedCard) -> State {
    let mut state = State::new();
    state.current_player = 0;
    state.in_play_pokemon[0][0] = Some(attacker);
    state.in_play_pokemon[1][0] = Some(receiver);
    state
}

fn attack(fixed_damage: u32) -> Attack {
    Attack { energy_required: vec![], title: String::new(), fixed_damage, effect: None }
}

fn energy_of(state: &State, player: usize, slot: usize) -> Vec<EnergyType> {
    state.in_play_pokemon[player][slot].as_ref().unwrap().attached_energy.clone()
}

#[test]
fn self_discard_energy_removes_first_of_each_requested_type() {
    let mut state = duel(
        charmander(vec![EnergyType::Water, EnergyType::Fire, EnergyType::Fire]),
        squirtle(vec![]),
    );
    let mechanic = Mechanic::SelfDiscardEnergy { energies: vec![EnergyType::Fire, EnergyType::Grass] };
    let forecast = forecast_effect_attack_by_mechanic(&state, &attack(50), &mechanic).unwrap();
    assert_eq!(forecast.denominator, 1);
    let outcome = &forecast.branches[0].outcome;
    assert_eq!(outcome.damage, vec![(50, true, 0)]);
    let mut rng = StdRng::seed_from_u64(1);
    for effect in outcome.post_damage_effects.clone() {
        apply_attack_effect(&mut rng, &mut state, 0, effect);
    }
    assert_eq!(energy_of(&state, 0, 0), vec![EnergyType::Water, EnergyType::Fire]);
    assert_eq!(state.discard_energies[0], vec![EnergyType::Fire]);
}

#[test]
fn discard_all_of_a_type_keeps_the_rest_in_order() {
    let mut state = duel(
        charmander(vec![EnergyType::Fire, EnergyType::Water, EnergyType::Fire, EnergyType::Grass]),
        squirtle(vec![]),
    );
    let mut rng = StdRng::seed_from_u64(2);
    apply_attack_effect(
        &mut rng,
        &mut state,
        0,
        AttackEffect::DiscardOwnActiveEnergyMatching { energy_type: Some(EnergyType::Fire) },
    );
    assert_eq!(energy_of(&state, 0, 0), vec![EnergyType::Water, EnergyType::Grass]);
    assert_eq!(state.discard_energies[0], vec![EnergyType::Fire, EnergyType::Fire]);
    apply_attack_effect(&mut rng, &mut state, 0, AttackEffect::DiscardOwnActiveEnergyMatching { energy_type: None });
    assert!(energy_of(&state, 0, 0).is_empty());
    assert_eq!(
        state.discard_energies[0],
        vec![EnergyType::Fire, EnergyType::Fire, EnergyType::Water, EnergyType::Grass]
    );
}

#[test]
fn discard_energy_and_inflict_status_orders_discards_before_statuses() {
    let state = duel(charmander(vec![EnergyType::Fire]), squirtle(vec![]));
    let mechanic = Mechanic::SelfDiscardAllEnergyAndInflictStatus { conditions: vec![StatusCondition::Burned] };
    let forecast = forecast_effect_attack_by_mechanic(&state, &attack(30), &mechanic).unwrap();
    assert_eq!(
        forecast.branches[0].outcome.post_damage_effects,
        vec![
            AttackEffect::DiscardOwnActiveEnergyMatching { energy_type: None },
            AttackEffect::InflictStatus { on_opponent: true, condition: StatusCondition::Burned },
        ]
    );
}

#[test]
fn random_discards_stop_when_no_energy_is_left() {
    let mut state = duel(charmander(vec![]), squirtle(vec![EnergyType::Water, EnergyType::Water]));
    let mut rng = StdRng::seed_from_u64(3);
    apply_attack_effect(&mut rng, &mut state, 0, AttackEffect::DiscardRandomActiveEnergy { own: false, count: 5 });
    assert!(energy_of(&state, 1, 0).is_empty());
    assert_eq!(state.discard_energies[1], vec![EnergyType::Water, EnergyType::Water]);
    assert!(state.discard_energies[0].is_empty());
}

#[test]
fn random_discard_takes_one_energy() {
    let mut state = duel(charmander(vec![]), squirtle(vec![EnergyType::Water, EnergyType::Fire, EnergyType::Water]));
    let mut rng = StdRng::seed_from_u64(4);
    apply_attack_effect(&mut rng, &mut state, 0, AttackEffect::DiscardRandomActiveEnergy { own: false, count: 1 });
    let left = energy_of(&state, 1, 0);
    assert_eq!(left.len(), 2);
    assert_eq!(state.discard_energies[1].len(), 1);
    let gone = state.discard_energies[1][0];
    if gone == EnergyType::Water {
        assert_eq!(left, vec![EnergyType::Fire, EnergyType::Water]);
    } else {
        assert_eq!(left, vec![EnergyType::Water, EnergyType::Water]);
    }
}

#[test]
fn coin_flips_discard_energy_or_nothing_has_no_damage_on_all_tails() {
    let state = duel(charmander(vec![]), squirtle(vec![EnergyType::Water]));
    let mechanic = Mechanic::CoinFlipsDiscardEnergyFromOpponentActiveOrNothing { num_coins: 2 };
    let forecast = forecast_effect_attack_by_mechanic(&state, &attack(40), &mechanic).unwrap();
    assert_eq!(forecast.denominator, 4);
    let weights: Vec<u64> = forecast.branches.iter().map(|b| b.weight).collect();
    assert_eq!(weights, vec![1, 2, 1]);
    assert!(forecast.branches[0].outcome.damage.is_empty());
    assert!(forecast.branches[0].outcome.post_damage_effects.is_empty());
    assert_eq!(forecast.branches[2].outcome.damage, vec![(40, true, 0)]);
    assert_eq!(
        forecast.branches[2].outcome.post_damage_effects,
        vec![AttackEffect::DiscardRandomActiveEnergy { own: false, count: 2 }]
    );
}

#[test]
fn extra_damage_if_type_energy_in_play_counts_every_pokemon() {
    let mut state = duel(charmander(vec![EnergyType::Fire]), squirtle(vec![]));
    let mechanic = Mechanic::ExtraDamageIfTypeEnergyInPlay {
        energy_type: EnergyType::Fire,
        minimum_count: 2,
        extra_damage: 60,
    };
    let f = forecast_effect_attack_by_mechanic(&state, &attack(30), &mechanic).unwrap();
    assert_eq!(f.branches[0].outcome.damage, vec![(30, true, 0)]);
    state.in_play_pokemon[0][2] = Some(charmander(vec![EnergyType::Fire]));
    let f = forecast_effect_attack_by_mechanic(&state, &attack(30), &mechanic).unwrap();
    assert_eq!(f.branches[0].outcome.damage, vec![(90, true, 0)]);
}

#[test]
fn direct_damage_if_damaged_offers_only_damaged_pokemon() {
    let mut hurt = squirtle(vec![]);
    hurt.remaining_hp = 20;
    let mut state = duel(charmander(vec![]), squirtle(vec![]));
    state.in_play_pokemon[1][2] = Some(hurt);
    let mut rng = StdRng::seed_from_u64(5);
    apply_attack_effect(&mut rng, &mut state, 0, AttackEffect::ChooseDamagedTarget { damage: 50 });
    let (player, choices) = state.move_generation_stack.last().unwrap().clone();
    assert_eq!(player, 0);
    assert_eq!(choices.len(), 1);
    match &choices[0] {
        SimpleAction::ApplyDamage { targets, .. } => assert_eq!(targets, &vec![(50, 1, 2)]),
        _ => panic!("expected a damage choice"),
    }
}

#[test]
fn direct_damage_if_damaged_offers_nothing_without_damage() {
    let mut state = duel(charmander(vec![]), squirtle(vec![]));
    let mut rng = StdRng::seed_from_u64(6);
    apply_attack_effect(&mut rng, &mut state, 0, AttackEffect::ChooseDamagedTarget { damage: 50 });
    assert!(state.move_generation_stack.is_empty());
}

#[test]
fn switching_out_offers_bench_and_optional_stay() {
    let mut state = duel(charmander(vec![]), squirtle(vec![]));
    state.in_play_pokemon[0][1] = Some(squirtle(vec![]));
    state.in_play_pokemon[0][3] = Some(charmander(vec![]));
    let mut rng = StdRng::seed_from_u64(7);
    apply_attack_effect(&mut rng, &mut state, 0, AttackEffect::SwitchOut { energy_type: None, optional: true });
    let (_, choices) = state.move_generation_stack.pop().unwrap();
    assert_eq!(
        choices,
        vec![
            SimpleAction::Activate { player: 0, in_play_idx: 1 },
            SimpleAction::Activate { player: 0, in_play_idx: 3 },
            SimpleAction::Noop,
        ]
    );
    apply_attack_effect(
        &mut rng,
        &mut state,
        0,
        AttackEffect::SwitchOut { energy_type: Some(EnergyType::Fire), optional: false },
    );
    let (_, choices) = state.move_generation_stack.pop().unwrap();
    assert_eq!(choices, vec![SimpleAction::Activate { player: 0, in_play_idx: 3 }]);
}

#[test]
fn knocked_out_attacker_does_not_switch() {
    let mut attacker = charmander(vec![]);
    attacker.remaining_hp = 0;
    let mut state = duel(attacker, squirtle(vec![]));
    state.in_play_pokemon[0][1] = Some(squirtle(vec![]));
    let mut rng = StdRng::seed_from_u64(8);
    apply_attack_effect(&mut rng, &mut state, 0, AttackEffect::SwitchOut { energy_type: None, optional: false });
    assert!(state.move_generation_stack.is_empty());
}
