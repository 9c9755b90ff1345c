use deckgym::abilities::AbilityMechanic;
use deckgym::apply_action_helpers::{apply_pokemon_checkup, collect_checkup_targets, get_poison_damage, handle_damage};
use deckgym::card_ids::CardId;
use deckgym::models::{Card, EnergyType, PlayedCard, PokemonCard, StatusCondition};
use deckgym::state::State;

fn pokemon(id: CardId, name: &str, hp: u32, ex: bool, ability: Option<AbilityMechanic>) -> PlayedCard {
    let card = Card::Pokemon(PokemonCard {
        id,
        name: name.to_string(),
        stage: 0,
        hp,
        energy_type: EnergyType::Grass,
        weakness: None,
        is_ex: ex,
        is_mega: false,
        ability,
        attacks: vec![],
    });
    PlayedCard {
        card,
        remaining_hp: hp,
        total_hp: hp,
        attached_energy: vec![],
        attached_tool: None,
        poisoned: false,
        paralyzed: false,
        asleep: false,
        burned: false,
        confused: false,
        ability_used: false,
        prevent_first_attack_damage_used: false,
        moved_to_active_this_turn: false,
        effects: vec![],
    }
}

fn nihilego() -> PlayedCard {
    pokemon(
        CardId::A3a042Nihilego,
        "Nihilego",
        110,
        false,
        Some(AbilityMechanic::IncreasePoisonDamage { amount: 10 }),
    )
}

#[test]
fn test_poison_damage_no_nihilego() {
    let state = State::new();
    assert_eq!(get_poison_damage(&state, 0, 0), 10);
}

#[test]
fn test_poison_damage_with_nihilego() {
    let mut state = State::new();
    state.in_play_pokemon[1][0] = Some(nihilego());
    state.in_play_pokemon[1][1] = Some(nihilego());
    assert_eq!(get_poison_damage(&state, 0, 0), 30);
}

#[test]
fn test_mimikyu_ex_disguise_prevents_first_attack_only() {
    let mut state = State::new();
    state.in_play_pokemon[0][0] =
        Some(pokemon(CardId::A1001Bulbasaur, "Bulbasaur", 70, false, None));
    state.in_play_pokemon[1][0] = Some(pokemon(
        CardId::B2073MimikyuEx,
        "Mimikyu ex",
        160,
        true,
        Some(AbilityMechanic::PreventFirstAttack),
    ));
    let starting_hp = state.in_play_pokemon[1][0].as_ref().unwrap().get_remaining_hp();

    handle_damage(&mut state, (0, 0), &vec![(30, 1, 0)], true);
    assert_eq!(state.in_play_pokemon[1][0].as_ref().unwrap().get_remaining_hp(), starting_hp);

    handle_damage(&mut state, (0, 0), &vec![(30, 1, 0)], true);
    assert_eq!(
        state.in_play_pokemon[1][0].as_ref().unwrap().get_remaining_hp(),
        starting_hp - 30
    );
}

#[test]
fn poison_damage_on_bench_is_base_amount() {
    let mut state = State::new();
    state.in_play_pokemon[1][0] = Some(nihilego());
    assert_eq!(get_poison_damage(&state, 0, 1), 10);
}

#[test]
fn checkup_poisons_burns_and_wakes_with_heads() {
    let mut state = State::new();
    state.in_play_pokemon[0][0] = Some(pokemon(CardId::A1001Bulbasaur, "Bulbasaur", 70, false, None));
    state.in_play_pokemon[1][0] = Some(pokemon(CardId::A1003Venusaur, "Venusaur", 160, false, None));
    state.apply_status_condition(0, 0, StatusCondition::Poisoned);
    state.apply_status_condition(1, 0, StatusCondition::Asleep);
    state.apply_status_condition(1, 0, StatusCondition::Burned);
    let targets = collect_checkup_targets(&state);
    assert_eq!(targets.poisoned, vec![(0, 0)]);
    assert_eq!(targets.sleeps, vec![(1, 0)]);
    assert_eq!(targets.burned, vec![(1, 0)]);
    // Heads for the sleep coin, tails for the burn coin.
    apply_pokemon_checkup(&mut state, &targets, &vec![true, false]);
    assert_eq!(state.get_active(0).get_remaining_hp(), 60);
    assert_eq!(state.get_active(1).get_remaining_hp(), 140);
    assert!(!state.get_active(1).is_asleep());
    assert!(state.get_active(1).is_burned());
}
