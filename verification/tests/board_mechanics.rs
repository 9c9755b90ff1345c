use deckgym::board_mechanics::available_requested_energy_to_discard;
use deckgym::card_ids::CardId;
use deckgym::models::{Card, EnergyType, PlayedCard, PokemonCard};

fn charmander_with(energy: Vec<EnergyType>) -> PlayedCard {
    PlayedCard {
        card: Card::Pokemon(PokemonCard {
            id: CardId::A1033Charmander,
            name: "Charmander".to_string(),
            stage: 0,
            hp: 150,
            energy_type: EnergyType::Fire,
            weakness: Some(EnergyType::Water),
            is_ex: false,
            is_mega: false,
            ability: None,
            attacks: vec![],
        }),
        remaining_hp: 150,
        total_hp: 150,
        attached_energy: energy,
        attached_tool: None,
        poisoned: false,
        paralyzed: false,
        asleep: false,
        burned: false,
        confused: false,
        ability_used: false,
        prevent_first_attack_damage_used: false,
        moved_to_active_this_turn: false,
        effects: vec![],
    }
}

#[test]
fn requested_energy_is_capped_by_what_is_attached() {
    let active = charmander_with(vec![EnergyType::Fire, EnergyType::Fire, EnergyType::Water]);
    let requested = vec![EnergyType::Fire, EnergyType::Fire, EnergyType::Fire, EnergyType::Water];
    let got = available_requested_energy_to_discard(&active, &requested);
    assert_eq!(got, vec![EnergyType::Fire, EnergyType::Fire, EnergyType::Water]);
}

#[test]
fn requested_energy_of_a_missing_type_is_skipped() {
    let active = charmander_with(vec![EnergyType::Fire]);
    let requested = vec![EnergyType::Grass, EnergyType::Fire];
    let got = available_requested_energy_to_discard(&active, &requested);
    assert_eq!(got, vec![EnergyType::Fire]);
}

#[test]
fn nothing_attached_nothing_discarded() {
    let active = charmander_with(vec![]);
    let got = available_requested_energy_to_discard(&active, &vec![EnergyType::Fire]);
    assert!(got.is_empty());
}
