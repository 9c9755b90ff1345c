use rand::rngs::StdRng;
use rand::SeedableRng;
use deckgym::apply_stadium_action::{apply_stadium_effect, forecast_use_stadium, StadiumEffect};
use deckgym::card_ids::CardId;
use deckgym::models::{Card, TrainerCard, TrainerType};
use deckgym::state::State;

fn stadium(name: &str) -> TrainerCard {
    TrainerCard { id: CardId::PA001Potion, name: name.to_string(), trainer_card_type: TrainerType::Stadium }
}

fn card(name: &str) -> Card {
    Card::Trainer(TrainerCard { id: CardId::PA001Potion, name: name.to_string(), trainer_card_type: TrainerType::Item })
}

#[test]
fn arcade_flips_three_coins() {
    let mut state = State::new();
    state.active_stadium = Some(stadium("Arcade"));
    let outcomes = forecast_use_stadium(&state, 0);
    assert_eq!(outcomes.denominator, 8);
    let weights: Vec<u64> = outcomes.branches.iter().map(|b| b.weight).collect();
    assert_eq!(weights, vec![1, 3, 3, 1]);
    assert_eq!(outcomes.branches[3].mutation, StadiumEffect::ArcadeCoins { heads: 3 });
}

#[test]
fn arcade_three_heads_draws_up_to_seven() {
    let mut rng = StdRng::seed_from_u64(0);
    let mut state = State::new();
    state.hands[0] = (0..5).map(|i| card(&format!("hand {i}"))).collect();
    state.decks[0] = vec![card("top"), card("second"), card("third")];
    assert!(apply_stadium_effect(&mut rng, &mut state, 0, StadiumEffect::ArcadeCoins { heads: 3 }));
    assert!(state.has_used_stadium[0]);
    assert_eq!(state.hands[0].len(), 7);
    assert_eq!(state.hands[0][5], card("top"));
    assert_eq!(state.hands[0][6], card("second"));
    assert_eq!(state.decks[0], vec![card("third")]);
}

#[test]
fn mesagoza_tails_only_marks_the_stadium_used() {
    let mut rng = StdRng::seed_from_u64(0);
    let mut state = State::new();
    state.active_stadium = Some(stadium("Mesagoza"));
    let outcomes = forecast_use_stadium(&state, 1);
    assert_eq!(outcomes.denominator, 2);
    assert_eq!(outcomes.branches[1].mutation, StadiumEffect::MesagozaTails);
    assert!(apply_stadium_effect(&mut rng, &mut state, 1, StadiumEffect::MesagozaTails));
    assert!(state.has_used_stadium[1]);
    assert!(!state.has_used_stadium[0]);
}

fn basic(id: CardId, name: &str) -> Card {
    Card::Pokemon(deckgym::models::PokemonCard {
        id,
        name: name.to_string(),
        stage: 0,
        hp: 60,
        energy_type: deckgym::models::EnergyType::Water,
        weakness: None,
        is_ex: false,
        is_mega: false,
        ability: None,
        attacks: vec![],
    })
}

#[test]
fn kids_room_offers_each_hand_card_for_a_tool() {
    let mut rng = StdRng::seed_from_u64(0);
    let mut state = State::new();
    state.hands[0] = vec![card("first"), basic(CardId::A1053Squirtle, "Squirtle")];
    assert!(apply_stadium_effect(&mut rng, &mut state, 0, StadiumEffect::KidsRoomChoose));
    assert!(state.has_used_stadium[0]);
    let (player, choices) = state.move_generation_stack.last().unwrap();
    assert_eq!(*player, 0);
    assert_eq!(
        *choices,
        vec![
            deckgym::state::SimpleAction::SwitchHandCardForRandomTool { hand_card: card("first") },
            deckgym::state::SimpleAction::SwitchHandCardForRandomTool {
                hand_card: basic(CardId::A1053Squirtle, "Squirtle"),
            },
        ]
    );
}

#[test]
fn area_zero_offers_each_basic_pokemon_and_marks_the_stadium() {
    let mut rng = StdRng::seed_from_u64(0);
    let mut state = State::new();
    state.hands[0] = vec![basic(CardId::A1053Squirtle, "Squirtle"), card("item"), basic(CardId::A1001Bulbasaur, "Bulbasaur")];
    assert!(apply_stadium_effect(&mut rng, &mut state, 0, StadiumEffect::AreaZeroChoose));
    assert!(state.has_used_stadium[0]);
    let (_, choices) = state.move_generation_stack.last().unwrap();
    assert_eq!(
        *choices,
        vec![
            deckgym::state::SimpleAction::ShuffleOwnCardsIntoDeck { cards: vec![basic(CardId::A1053Squirtle, "Squirtle")] },
            deckgym::state::SimpleAction::ShuffleOwnCardsIntoDeck { cards: vec![basic(CardId::A1001Bulbasaur, "Bulbasaur")] },
        ]
    );

    let mut empty = State::new();
    empty.hands[1] = vec![card("item")];
    assert!(apply_stadium_effect(&mut rng, &mut empty, 1, StadiumEffect::AreaZeroChoose));
    assert!(empty.has_used_stadium[1]);
    assert!(empty.move_generation_stack.is_empty());
}

#[test]
fn kids_room_switch_puts_the_card_back_and_takes_the_tool() {
    let mut rng = StdRng::seed_from_u64(3);
    let mut state = State::new();
    let tool = Card::Trainer(TrainerCard {
        id: CardId::PA002XSpeed,
        name: "Giant Cape".to_string(),
        trainer_card_type: TrainerType::Tool,
    });
    state.hands[0] = vec![card("keep"), basic(CardId::A1053Squirtle, "Squirtle")];
    state.decks[0] = vec![card("top"), tool.clone(), card("bottom")];
    let effect = StadiumEffect::SwitchForTool { hand_card: CardId::A1053Squirtle, tool: CardId::PA002XSpeed };
    assert!(apply_stadium_effect(&mut rng, &mut state, 0, effect));
    assert_eq!(state.hands[0], vec![card("keep"), tool]);
    assert_eq!(state.decks[0].len(), 3);
    assert!(state.decks[0].contains(&basic(CardId::A1053Squirtle, "Squirtle")));
    assert!(state.decks[0].contains(&card("top")));
    assert!(state.decks[0].contains(&card("bottom")));
}
