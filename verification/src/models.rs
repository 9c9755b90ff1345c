use vstd::prelude::*;

use crate::abilities::AbilityMechanic;
use crate::card_ids::CardId;

verus! {

/// The energy (and Pokémon) types of the game.
#[derive(Clone, Copy, Debug, PartialEq, Eq, Structural, Hash)]
pub enum EnergyType {
    Grass,
    Fire,
    Water,
    Lightning,
    Psychic,
    Fighting,
    Darkness,
    Metal,
    Dragon,
    Colorless,
}

/// The Special Conditions a Pokémon in play can be affected by.
#[derive(Clone, Copy, Debug, PartialEq, Eq, Structural, Hash)]
pub enum StatusCondition {
    Asleep,
    Burned,
    Confused,
    Paralyzed,
    Poisoned,
}

/// The kinds of Trainer cards.
#[derive(Clone, Copy, Debug, PartialEq, Eq, Structural, Hash)]
pub enum TrainerType {
    Item,
    Supporter,
    Tool,
    Stadium,
    Fossil,
}

/// Lasting effects attached to a single Pokémon in play.
#[derive(Clone, Debug, PartialEq)]
pub enum CardEffect {
    CannotAttack,
    CannotUseAttack(String),
    CoinFlipToBlockAttack,
    CoinFlipToPreventIncomingDamage,
    CoinFlipToReduceIncomingDamage { amount: u32 },
    Counterattack { amount: u32 },
    DelayedDamage { amount: u32 },
    DeniesPointsOnKnockout,
    IncreasedAttackCost { amount: u32 },
    IncreasedDamageForAttack { attack_name: String, amount: u32 },
    IncreasedRetreatCost { amount: u32 },
    IncreasedVulnerability { amount: u32 },
    NoRetreat,
    NoWeakness,
    PoisonDamageAmount { amount: u32 },
    PreventAllDamageAndEffects,
    PreventDamageFromBasic,
    PreventDamageIfLessOrEqual { threshold: u32 },
    ReducedDamage { amount: u32 },
    ReducedDamageFromEx { amount: u32 },
    SurviveKnockOutAt10,
}

/// Effects that last for (part of) a turn and apply to a whole side of the board.
#[derive(Clone, Debug, PartialEq)]
pub enum TurnEffect {
    BonusPointForHaxorusActiveKO,
    ExtraRandomSpreadHits { amount: u32, attack_name: String },
    IncreasedDamage { amount: u32 },
    IncreasedDamageAgainstEx { amount: u32 },
    IncreasedDamageForSpecificPokemon { amount: u32, pokemon_names: Vec<String> },
    IncreasedDamageForSpecificPokemonAgainstEx { amount: u32, pokemon_names: Vec<String> },
    IncreasedDamageForTypeAgainstEx { amount: u32, energy_type: EnergyType },
    NoEnergyFromZoneToActive,
    NoItemCards,
    NoSupportCards,
    NoTrainerCards,
    ReducedAttackCostForSpecificPokemon { amount: u32, pokemon_names: Vec<String> },
    ReducedDamageForAllYours { amount: u32, player: usize },
    ReducedDamageForSpecificPokemon {
        amount: u32,
        pokemon_names: Vec<String>,
        player: usize,
        attacker_must_be_ex: bool,
    },
    ReducedDamageForType { amount: u32, energy_type: EnergyType, player: usize },
    ReducedRetreatCost { amount: u32 },
}

/// How a finished game ended.
#[derive(Clone, Copy, Debug, PartialEq, Eq, Structural)]
pub enum GameOutcome {
    Win(usize),
    Tie,
}

/// An attack printed on a Pokémon card.
#[derive(Clone, Debug, PartialEq)]
pub struct Attack {
    pub energy_required: Vec<EnergyType>,
    pub title: String,
    pub fixed_damage: u32,
    pub effect: Option<String>,
}

/// The printed data of a Pokémon card. `ability` is the mechanic its ability text maps to.
#[derive(Clone, Debug, PartialEq)]
pub struct PokemonCard {
    pub id: CardId,
    pub name: String,
    pub stage: u8,
    pub hp: u32,
    pub energy_type: EnergyType,
    pub weakness: Option<EnergyType>,
    pub is_ex: bool,
    pub is_mega: bool,
    pub ability: Option<AbilityMechanic>,
    pub attacks: Vec<Attack>,
}

/// The printed data of a Trainer card.
#[derive(Clone, Debug, PartialEq)]
pub struct TrainerCard {
    pub id: CardId,
    pub name: String,
    pub trainer_card_type: TrainerType,
}

/// A card of either kind.
#[derive(Clone, Debug, PartialEq)]
pub enum Card {
    Pokemon(PokemonCard),
    Trainer(TrainerCard),
}

impl Card {
    pub open spec fn id_spec(&self) -> CardId {
        match self {
            Card::Pokemon(p) => p.id,
            Card::Trainer(t) => t.id,
        }
    }

    pub open spec fn is_basic_spec(&self) -> bool {
        match self {
            Card::Pokemon(p) => p.stage == 0,
            Card::Trainer(_) => false,
        }
    }

    pub open spec fn is_ex_spec(&self) -> bool {
        match self {
            Card::Pokemon(p) => p.is_ex,
            Card::Trainer(_) => false,
        }
    }

    pub open spec fn energy_type_spec(&self) -> Option<EnergyType> {
        match self {
            Card::Pokemon(p) => Some(p.energy_type),
            Card::Trainer(_) => None,
        }
    }

    /// Points the opponent gets when this card is Knocked Out: 3 for a Mega Evolution
    /// Pokémon ex, 2 for any other Pokémon ex, 1 otherwise.
    pub open spec fn knockout_points_spec(&self) -> u32 {
        match self {
            Card::Pokemon(p) => if p.is_mega {
                3
            } else if p.is_ex {
                2
            } else {
                1
            },
            Card::Trainer(_) => 1,
        }
    }

    pub open spec fn ability_spec(&self) -> Option<AbilityMechanic> {
        match self {
            Card::Pokemon(p) => p.ability,
            Card::Trainer(_) => None,
        }
    }

    /// The card's identifier.
    pub fn id(&self) -> (r: CardId)
        ensures
            r == self.id_spec(),
    {
        match self {
            Card::Pokemon(p) => p.id,
            Card::Trainer(t) => t.id,
        }
    }

    /// True for Basic Pokémon.
    pub fn is_basic(&self) -> (r: bool)
        ensures
            r == self.is_basic_spec(),
    {
        match self {
            Card::Pokemon(p) => p.stage == 0,
            Card::Trainer(_) => false,
        }
    }

    /// True for Pokémon ex.
    pub fn is_ex(&self) -> (r: bool)
        ensures
            r == self.is_ex_spec(),
    {
        match self {
            Card::Pokemon(p) => p.is_ex,
            Card::Trainer(_) => false,
        }
    }

    /// The type of a Pokémon card; `None` for Trainer cards.
    pub fn energy_type(&self) -> (r: Option<EnergyType>)
        ensures
            r == self.energy_type_spec(),
    {
        match self {
            Card::Pokemon(p) => Some(p.energy_type),
            Card::Trainer(_) => None,
        }
    }

    /// Points awarded to the opponent when this card is Knocked Out.
    pub fn get_knockout_points(&self) -> (r: u32)
        ensures
            r == self.knockout_points_spec(),
            1 <= r <= 3,
    {
        match self {
            Card::Pokemon(p) => if p.is_mega {
                3
            } else if p.is_ex {
                2
            } else {
                1
            },
            Card::Trainer(_) => 1,
        }
    }

    /// The mechanic of the card's ability, if it has one.
    pub fn get_ability(&self) -> (r: &Option<AbilityMechanic>)
        ensures
            *r == self.ability_spec(),
    {
        match self {
            Card::Pokemon(p) => &p.ability,
            Card::Trainer(_) => &None,
        }
    }
}

/// A Pokémon in play: the card plus everything that changed about it since it was played.
#[derive(Clone, Debug, PartialEq)]
pub struct PlayedCard {
    pub card: Card,
    pub remaining_hp: u32,
    pub total_hp: u32,
    pub attached_energy: Vec<EnergyType>,
    pub attached_tool: Option<TrainerCard>,
    pub poisoned: bool,
    pub paralyzed: bool,
    pub asleep: bool,
    pub burned: bool,
    pub confused: bool,
    pub ability_used: bool,
    pub prevent_first_attack_damage_used: bool,
    pub moved_to_active_this_turn: bool,
    pub effects: Vec<CardEffect>,
}

/// `a - b`, or 0 when `b > a`.
pub open spec fn sat_sub(a: u32, b: u32) -> u32 {
    if a >= b {
        (a - b) as u32
    } else {
        0
    }
}

/// `a + b` capped at `cap`.
pub open spec fn capped_add(a: u32, b: u32, cap: u32) -> u32 {
    if a + b >= cap {
        cap
    } else {
        (a + b) as u32
    }
}

impl PlayedCard {
    pub open spec fn is_knocked_out_spec(&self) -> bool {
        self.remaining_hp == 0
    }

    /// The same Pokémon without the given status condition.
    pub open spec fn cleared_spec(self, condition: StatusCondition) -> PlayedCard {
        match condition {
            StatusCondition::Asleep => PlayedCard { asleep: false, ..self },
            StatusCondition::Burned => PlayedCard { burned: false, ..self },
            StatusCondition::Confused => PlayedCard { confused: false, ..self },
            StatusCondition::Paralyzed => PlayedCard { paralyzed: false, ..self },
            StatusCondition::Poisoned => PlayedCard { poisoned: false, ..self },
        }
    }

    /// The same Pokémon after taking `damage` (HP never drops below 0).
    pub open spec fn damaged_spec(self, damage: u32) -> PlayedCard {
        PlayedCard { remaining_hp: sat_sub(self.remaining_hp, damage), ..self }
    }

    /// The same Pokémon after healing `amount` (HP never rises above its total).
    pub open spec fn healed_spec(self, amount: u32) -> PlayedCard {
        PlayedCard { remaining_hp: capped_add(self.remaining_hp, amount, self.total_hp), ..self }
    }

    /// The Pokémon's type.
    pub fn get_energy_type(&self) -> (r: Option<EnergyType>)
        ensures
            r == self.card.energy_type_spec(),
    {
        self.card.energy_type()
    }

    /// True when its remaining HP is 0.
    pub fn is_knocked_out(&self) -> (r: bool)
        ensures
            r == self.is_knocked_out_spec(),
    {
        self.remaining_hp == 0
    }

    /// Remaining HP.
    pub fn get_remaining_hp(&self) -> (r: u32)
        ensures
            r == self.remaining_hp,
    {
        self.remaining_hp
    }

    pub fn is_asleep(&self) -> (r: bool)
        ensures
            r == self.asleep,
    {
        self.asleep
    }

    pub fn is_paralyzed(&self) -> (r: bool)
        ensures
            r == self.paralyzed,
    {
        self.paralyzed
    }

    pub fn is_poisoned(&self) -> (r: bool)
        ensures
            r == self.poisoned,
    {
        self.poisoned
    }

    pub fn is_burned(&self) -> (r: bool)
        ensures
            r == self.burned,
    {
        self.burned
    }

    pub fn is_confused(&self) -> (r: bool)
        ensures
            r == self.confused,
    {
        self.confused
    }

    /// Takes `damage`; HP stops at 0.
    pub fn apply_damage(&mut self, damage: u32)
        ensures
            *final(self) == old(self).damaged_spec(damage),
    {
        if self.remaining_hp >= damage {
            self.remaining_hp = self.remaining_hp - damage;
        } else {
            self.remaining_hp = 0;
        }
    }

    /// Heals `amount` damage; HP stops at the Pokémon's total HP.
    pub fn heal(&mut self, amount: u32)
        ensures
            *final(self) == old(self).healed_spec(amount),
    {
        if self.remaining_hp as u64 + amount as u64 >= self.total_hp as u64 {
            self.remaining_hp = self.total_hp;
        } else {
            self.remaining_hp = self.remaining_hp + amount;
        }
    }

    /// Removes one status condition.
    pub fn clear_status_condition(&mut self, condition: StatusCondition)
        ensures
            *final(self) == old(self).cleared_spec(condition),
    {
        match condition {
            StatusCondition::Asleep => self.asleep = false,
            StatusCondition::Burned => self.burned = false,
            StatusCondition::Confused => self.confused = false,
            StatusCondition::Paralyzed => self.paralyzed = false,
            StatusCondition::Poisoned => self.poisoned = false,
        }
    }

    /// Removes every status condition and every effect (as when moving to the Bench).
    pub fn clear_status_and_effects(&mut self)
        ensures
            final(self).card == old(self).card,
            final(self).remaining_hp == old(self).remaining_hp,
            final(self).total_hp == old(self).total_hp,
            final(self).attached_energy == old(self).attached_energy,
            !final(self).poisoned && !final(self).paralyzed && !final(self).asleep
                && !final(self).burned && !final(self).confused,
            final(self).effects@.len() == 0,
            final(self).moved_to_active_this_turn == old(self).moved_to_active_this_turn,
    {
        self.poisoned = false;
        self.paralyzed = false;
        self.asleep = false;
        self.burned = false;
        self.confused = false;
        self.effects = Vec::new();
    }
}

} // verus!
