use deckgym::apply_attack_action::{apply_attack_effect, forecast_effect_attack_by_mechanic, AttackEffect};
use deckgym::attacks::Mechanic;
use deckgym::card_ids::CardId;
use deckgym::models::{Attack, Card, EnergyType, PlayedCard, PokemonCard};
use deckgym::state::{SimpleAction, State};
use rand::rngs::StdRng;
use rand::SeedableRng;

fn pokemon(id: CardId, name: &str, energy_type: EnergyType, energy: Vec<EnergyType>) -> PlayedCard {
    PlayedCard {
        card: Card::Pokemon(PokemonCard {
            id,
            name: name.to_string(),
            stage: 0,
            hp: 80,
            energy_type,
            weakness: None,
            is_ex: false,
            is_mega: false,
            ability: None,
            attacks: vec![],
        }),
        remaining_hp: 80,
        total_hp: 80,
        attached_energy: energy,
        attached_tool: None,
        poisoned: false,
        paralyzed: false,
        asleep: false,
        burned: false,
        confused: false,
        ability_used: false,
        prevent_first_attack_damage_used: false,
        moved_to_active_this_turn: false,
        effects: vec![],
    }
}

fn charmander(energy: Vec<EnergyType>) -> PlayedCard {
    pokemon(CardId::A1033Charmander, "Charmander", EnergyType::Fire, energy)
}

fn squirtle(energy: Vec<EnergyType>) -> PlayedCard {
    pokemon(CardId::A1053Squirtle, "Squirtle", EnergyType::Water, energy)
}

fn duel(attacker: PlayedCard, receiver: PlayedCard) -> State {
    let mut state = State::new();
    state.current_player = 0;
    state.in_play_pokemon[0][0] = Some(attacker);
    state.in_play_pokemon[1][0] = Some(receiver);
    state
}

fn attack(fixed_damage: u32) -> Attack {
    Attack { energy_required: vec![], title: String::new(), fixed_damage, effect: None }
}

fn total_energy(state: &State) -> usize {
    state.in_play_pokemon.iter().flatten().flatten().map(|p| p.attached_energy.len()).sum()
}

#[test]
fn paying_energy_per_heads_is_capped_by_what_is_attached() {
    let state = duel(charmander(vec![EnergyType::Fire, EnergyType::Water]), squirtle(vec![]));
    let mechanic = Mechanic::DiscardSelfEnergyPerHeadsExtraDamage {
        num_coins: 2,
        energy_type: EnergyType::Fire,
        damage_per_discarded_energy: 50,
    };
    let f = forecast_effect_attack_by_mechanic(&state, &attack(10), &mechanic).unwrap();
    assert_eq!(f.denominator, 4);
    let damages: Vec<Vec<(u32, bool, usize)>> = f.branches.iter().map(|b| b.outcome.damage.clone()).collect();
    assert_eq!(damages, vec![vec![(10, true, 0)], vec![(60, true, 0)], vec![(60, true, 0)]]);
    let discard = AttackEffect::DiscardActiveEnergyOfType { own: true, energy_type: EnergyType::Fire };
    assert_eq!(f.branches[2].outcome.pre_damage_effects, vec![discard]);
    assert!(f.branches[0].outcome.pre_damage_effects.is_empty());
}

#[test]
fn global_energy_removal_does_not_fill_the_discard() {
    let mut state = duel(charmander(vec![EnergyType::Fire]), squirtle(vec![EnergyType::Water, EnergyType::Water]));
    let mut rng = StdRng::seed_from_u64(21);
    apply_attack_effect(
        &mut rng,
        &mut state,
        0,
        AttackEffect::TakeRandomEnergy { everywhere: true, to_discard: false, count: 2 },
    );
    assert_eq!(total_energy(&state), 1);
    assert!(state.discard_energies[0].is_empty() && state.discard_energies[1].is_empty());
    apply_attack_effect(
        &mut rng,
        &mut state,
        0,
        AttackEffect::TakeRandomEnergy { everywhere: true, to_discard: false, count: 9 },
    );
    assert_eq!(total_energy(&state), 0);
}

#[test]
fn own_energy_discard_keeps_the_opponent_intact() {
    let mut state = duel(charmander(vec![EnergyType::Fire]), squirtle(vec![EnergyType::Water]));
    state.in_play_pokemon[0][2] = Some(charmander(vec![EnergyType::Grass]));
    let mut rng = StdRng::seed_from_u64(22);
    apply_attack_effect(
        &mut rng,
        &mut state,
        0,
        AttackEffect::TakeRandomEnergy { everywhere: false, to_discard: true, count: 5 },
    );
    assert!(state.in_play_pokemon[0][0].as_ref().unwrap().attached_energy.is_empty());
    assert!(state.in_play_pokemon[0][2].as_ref().unwrap().attached_energy.is_empty());
    assert_eq!(state.in_play_pokemon[1][0].as_ref().unwrap().attached_energy, vec![EnergyType::Water]);
    let mut gone = state.discard_energies[0].clone();
    gone.sort_by_key(|e| format!("{:?}", e));
    assert_eq!(gone, vec![EnergyType::Fire, EnergyType::Grass]);
}

#[test]
fn damage_by_target_energy_is_offered_for_each_pokemon() {
    let mut state = duel(charmander(vec![]), squirtle(vec![EnergyType::Water, EnergyType::Water]));
    state.in_play_pokemon[1][1] = Some(squirtle(vec![]));
    let mut rng = StdRng::seed_from_u64(23);
    apply_attack_effect(&mut rng, &mut state, 0, AttackEffect::ChooseTargetByEnergy { damage_per_energy: 30 });
    let (_, choices) = state.move_generation_stack.pop().unwrap();
    let targets: Vec<Vec<(u32, usize, usize)>> = choices
        .iter()
        .map(|c| match c {
            SimpleAction::ApplyDamage { targets, .. } => targets.clone(),
            _ => panic!("expected a damage choice"),
        })
        .collect();
    assert_eq!(targets, vec![vec![(60, 1, 0)], vec![(0, 1, 1)]]);
}

#[test]
fn bench_choice_only_for_damaged_pokemon() {
    let mut state = duel(charmander(vec![]), squirtle(vec![]));
    let mut hurt = squirtle(vec![]);
    hurt.remaining_hp = 30;
    state.in_play_pokemon[1][1] = Some(squirtle(vec![]));
    state.in_play_pokemon[1][3] = Some(hurt);
    let mechanic = Mechanic::AlsoChoiceBenchDamageIfDamaged { opponent: true, damage: 20 };
    let f = forecast_effect_attack_by_mechanic(&state, &attack(40), &mechanic).unwrap();
    let effects = f.branches[0].outcome.post_damage_effects.clone();
    assert!(f.branches[0].outcome.damage.is_empty());
    let mut rng = StdRng::seed_from_u64(24);
    for e in effects {
        apply_attack_effect(&mut rng, &mut state, 0, e);
    }
    let (_, choices) = state.move_generation_stack.pop().unwrap();
    assert_eq!(choices.len(), 1);
    match &choices[0] {
        SimpleAction::ApplyDamage { targets, .. } => assert_eq!(targets, &vec![(40, 1, 0), (20, 1, 3)]),
        _ => panic!("expected a damage choice"),
    }
}

#[test]
fn discard_then_choice_bench_damage_without_bench_hits_the_active() {
    let state = duel(charmander(vec![EnergyType::Fire]), squirtle(vec![]));
    let mechanic = Mechanic::SelfDiscardEnergyAndChoiceBenchDamage { energies: vec![EnergyType::Fire], bench_damage: 30 };
    let f = forecast_effect_attack_by_mechanic(&state, &attack(70), &mechanic).unwrap();
    assert_eq!(f.branches[0].outcome.damage, vec![(70, true, 0)]);
    assert_eq!(
        f.branches[0].outcome.post_damage_effects,
        vec![AttackEffect::DiscardActiveEnergyOfType { own: true, energy_type: EnergyType::Fire }]
    );
}
