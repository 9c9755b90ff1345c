# deckgym

A rules engine for the Pokémon Trading Card Game Pocket, written in Verus. For each move a
player can make (an attack, a Trainer card, a Stadium, the checkup between turns), the library
computes the probability distribution of what can happen, as integer weights over a common
denominator, and applies the outcome a random draw picks to the game state. Every executable
function carries a contract over a mathematical view of the game (`StateView`), and Verus
proves the code against it.

## Layout

- `models.rs`, `state.rs`, `card_ids.rs`, `attacks.rs`, `abilities.rs`: cards, Pokémon in
  play, the game state and its view, the attack and ability mechanics as data.
- `outcomes.rs`, `attack_outcome.rs`: distributions of outcomes, with the laws that make them
  distributions (binomial rows, geometric tails, coin paths).
- `apply_action_helpers.rs`: damage, weakness, Knock Outs, promotion, the checkup between
  turns, and the moves every action shares.
- `apply_attack_action.rs` and the mechanic modules (`board_mechanics.rs`,
  `energy_mechanics.rs`, `disruption_mechanics.rs`, `energy_removal.rs`,
  `special_attacks.rs`, `more_mechanics.rs`, `card_effect_mechanics.rs`,
  `random_damage.rs`): the forecast of each attack mechanic and the effects it applies.
- `apply_trainer_action.rs`, `trainer_effects.rs`: Trainer cards, their forecasts and their
  effects.
- `apply_stadium_action.rs`: Stadium cards.
- `effect_mechanic_map.rs`: the mechanic of each attack, looked up by its text.
- `random.rs`: the random-number generator and the shuffle, from the `rand` crate.

The tests under `tests/` run the library on concrete games.
