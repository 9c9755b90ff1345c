//! Game-rule logic of a Pokémon TCG Pocket engine: the mechanics of abilities and attacks,
//! damage and Knock Out resolution, Pokémon Checkup, and the effects of Trainer and Stadium
//! cards, each verified against its contract.

pub mod abilities;
pub mod attacks;
pub mod card_ids;
pub mod models;
pub mod state;
pub mod apply_action_helpers;
pub mod outcomes;
pub mod attack_outcome;
pub mod effect_mechanic_map;
pub mod apply_trainer_action;
pub mod apply_attack_action;
pub mod random;
pub mod apply_stadium_action;
pub mod random_damage;
pub mod board_mechanics;
pub mod trainer_effects;
pub mod energy_mechanics;
pub mod disruption_mechanics;
pub mod energy_removal;
pub mod special_attacks;
pub mod more_mechanics;
pub mod card_effect_mechanics;
