use deckgym::apply_attack_action::AttackEffect;
use deckgym::attack_outcome::{AttackOutcome, AttackOutcomes};
use deckgym::card_ids::CardId;
use deckgym::models::{Card, EnergyType, PlayedCard, PokemonCard};
use deckgym::state::State;

fn pokemon(id: CardId, name: &str, hp: u32, energy_type: EnergyType, weakness: Option<EnergyType>) -> PlayedCard {
    PlayedCard {
        card: Card::Pokemon(PokemonCard {
            id,
            name: name.to_string(),
            stage: 0,
            hp,
            energy_type,
            weakness,
            is_ex: false,
            is_mega: false,
            ability: None,
            attacks: vec![],
        }),
        remaining_hp: hp,
        total_hp: hp,
        attached_energy: vec![],
        attached_tool: None,
        poisoned: false,
        paralyzed: false,
        asleep: false,
        burned: false,
        confused: false,
        ability_used: false,
        prevent_first_attack_damage_used: false,
        moved_to_active_this_turn: false,
        effects: vec![],
    }
}

fn state_with_grimer_vs_meowth() -> State {
    let mut state = State::new();
    state.current_player = 0;
    // Grimer (Darkness) attacking Meowth (weakness Fighting): no weakness bonus.
    state.in_play_pokemon[0][0] = Some(pokemon(
        CardId::A1174Grimer,
        "Grimer",
        70,
        EnergyType::Darkness,
        Some(EnergyType::Psychic),
    ));
    state.in_play_pokemon[1][0] = Some(pokemon(
        CardId::B2124Meowth,
        "Meowth",
        60,
        EnergyType::Colorless,
        Some(EnergyType::Fighting),
    ));
    state
}

fn ratio(r: (u128, u64)) -> f64 {
    r.0 as f64 / r.1 as f64
}

#[test]
fn expected_damage_reads_branch_data_without_running_closures() {
    let state = state_with_grimer_vs_meowth();
    let outcomes = AttackOutcomes::single(AttackOutcome::<AttackEffect>::damage(vec![(20, true, 0)]));
    let expected = ratio(outcomes.expected_damage_to_opponent_active(&state, 0));
    assert!((expected - 20.0).abs() < 1e-9, "expected 20, got {expected}");
}

#[test]
fn expected_damage_halves_under_active_damage_prevention() {
    let state = state_with_grimer_vs_meowth();
    let outcomes = AttackOutcomes::single(AttackOutcome::<AttackEffect>::damage(vec![(20, true, 0)]))
        .split_with_damage_prevention(&vec![(0, u32::MAX)]);
    let expected = ratio(outcomes.expected_damage_to_opponent_active(&state, 0));
    assert!((expected - 10.0).abs() < 1e-9, "expected 10, got {expected}");
}

#[test]
fn binomial_distribution_sums_to_one() {
    let per_heads: Vec<AttackOutcome<AttackEffect>> = (0..=3)
        .map(|heads| AttackOutcome::damage(vec![(heads as u32 * 10, true, 0)]))
        .collect();
    let outcomes = AttackOutcomes::binomial_by_heads(3, per_heads);
    let (probabilities, _) = outcomes.into_branches();
    let total: f64 = probabilities.iter().map(|(w, d)| *w as f64 / *d as f64).sum();
    assert!((total - 1.0).abs() < 1e-9);
}

#[test]
fn expected_damage_counts_weakness_and_weights() {
    // Meowth attacking Grimer... Grimer is weak to Psychic; a Psychic attacker adds 20.
    let mut state = state_with_grimer_vs_meowth();
    state.in_play_pokemon[1][0] = Some(pokemon(
        CardId::B2124Meowth,
        "Meowth",
        60,
        EnergyType::Psychic,
        Some(EnergyType::Fighting),
    ));
    // Player 1's Psychic Meowth attacks player 0's Grimer: heads 30, tails 0.
    let outcomes = AttackOutcomes::binary_coin(
        AttackOutcome::<AttackEffect>::damage(vec![(30, true, 0)]),
        AttackOutcome::<AttackEffect>::damage(vec![(0, true, 0)]),
    );
    let (num, den) = outcomes.expected_damage_to_opponent_active(&state, 1);
    assert_eq!((num, den), (50, 2));
}

#[test]
fn geometric_until_tails_weights() {
    let per_heads: Vec<AttackOutcome<AttackEffect>> = (0..=2)
        .map(|heads| AttackOutcome::damage(vec![(heads as u32 * 10, true, 0)]))
        .collect();
    let (probabilities, outcomes) = AttackOutcomes::geometric_until_tails(2, per_heads).into_branches();
    assert_eq!(probabilities, vec![(2, 4), (1, 4), (1, 4)]);
    assert_eq!(outcomes[2].damage, vec![(20, true, 0)]);
}
