use rand::rngs::StdRng;
use vstd::prelude::*;

use crate::apply_attack_action::{
    active_of, bonus_hit, by_heads, by_heads_outcomes, can_pay, can_pay_exec, coin, coin_outcomes,
    condition_count, condition_count_exec, count_exec, count_of, damage_on, hit, hit_outcome,
    hit_then, hit_then_one, hit_then_outcome, is_damaged, lemma_occupied_len, mechanic_forecast,
    per_heads_hit, per_heads_hits, sat_add, sat_add_exec, sat_mul, sat_mul_exec, status_effects,
    status_effects_exec, sure, sure_outcomes, attack_view, coins_in_range, effect_only_outcome,
    effects_only, until_tails, until_tails_outcomes, AttackEffect,
};
use crate::apply_action_helpers::{lemma_two_pow_monotone, map_slot, two_pow};
use crate::attack_outcome::{outcome_view, AttackOutcome, AttackOutcomes, DamageTarget, OutcomeView};
use crate::apply_trainer_action::{only_side_changed, set_slot_energy, slot_with_energy};
use crate::attacks::Mechanic;
use crate::random::random_below;
use crate::models::{sat_sub, Attack, Card, EnergyType, PlayedCard, StatusCondition};
use crate::state::{occupied_from, SimpleAction, State, StateView};

verus! {

/// Whether one of the Benched Pokémon of a side has damage on it.
pub open spec fn bench_has_damaged(side: Seq<Option<PlayedCard>>) -> bool {
    exists|i: int| 1 <= i < side.len() && #[trigger] side[i] is Some && is_damaged(side[i]->0)
}

/// How many of the first `i` slots of a side hold a Pokémon with a Tool attached.
pub open spec fn tools_upto(side: Seq<Option<PlayedCard>>, i: int) -> nat
    decreases i,
{
    if i <= 0 {
        0
    } else {
        tools_upto(side, i - 1) + if side[i - 1] is Some && side[i - 1]->0.attached_tool is Some {
            1nat
        } else {
            0nat
        }
    }
}

/// A card's name.
pub open spec fn card_name(c: Card) -> Seq<char> {
    match c {
        Card::Pokemon(p) => p.name@,
        Card::Trainer(t) => t.name@,
    }
}

/// How many of the Bench slots 1 to `i - 1` of a side hold a Pokémon named `name`.
pub open spec fn named_bench_upto(side: Seq<Option<PlayedCard>>, name: Seq<char>, i: int) -> nat
    decreases i,
{
    if i <= 1 {
        0
    } else {
        named_bench_upto(side, name, i - 1) + if side[i - 1] is Some && card_name(side[i - 1]->0.card)
            == name {
            1nat
        } else {
            0nat
        }
    }
}

/// For each status, in order: on the attacker, then on the opponent's Active Pokémon.
pub open spec fn both_status_effects(conditions: Seq<StatusCondition>) -> Seq<AttackEffect>
    decreases conditions.len(),
{
    if conditions.len() == 0 {
        Seq::empty()
    } else {
        both_status_effects(conditions.drop_last()) + seq![
            AttackEffect::InflictStatus { on_opponent: false, condition: conditions.last() },
            AttackEffect::InflictStatus { on_opponent: true, condition: conditions.last() },
        ]
    }
}

/// The mechanics whose forecast is damage to the opponent's Active Pokémon computed from the
/// board, the hand or the turn.
pub open spec fn forecast_group_e(m: Mechanic) -> bool {
    matches!(m, Mechanic::ExtraDamageIfOpponentHasSpecialCondition { .. } | Mechanic::ExtraDamageIfSupportPlayedThisTurn { .. } | Mechanic::ExtraDamageIfAnyBenchedDamaged { .. } | Mechanic::ExtraDamagePerSpecificEnergy { .. } | Mechanic::ExtraDamageIfToolAttached { .. } | Mechanic::DamagePerOwnToolAttached { .. } | Mechanic::ExtraDamageIfSelfHasTypeEnergy { .. } | Mechanic::ExtraDamageIfCombinedActiveEnergyAtLeast { .. } | Mechanic::ExtraDamageIfDefenderAnyType { .. } | Mechanic::DamagePerOwnHandCard { .. } | Mechanic::ExtraDamageIfMovedFromBench { .. } | Mechanic::DamageReducedBySelfDamage | Mechanic::ExtraDamageIfExtraEnergy { .. } | Mechanic::ExtraDamageIfHandSizeIs { .. } | Mechanic::ExtraDamageIfPokemonOnBench { .. } | Mechanic::ExtraDamagePerPokemonWithNameOnBench { .. } | Mechanic::ExtraDamageIfOpponentActiveHasAbility { .. })
}

/// Whether the mechanic is in `forecast_group_e`.
pub fn in_forecast_group_e(m: &Mechanic) -> (r: bool)
    ensures
        r == forecast_group_e(*m),
{
    matches!(m, Mechanic::ExtraDamageIfOpponentHasSpecialCondition { .. } | Mechanic::ExtraDamageIfSupportPlayedThisTurn { .. } | Mechanic::ExtraDamageIfAnyBenchedDamaged { .. } | Mechanic::ExtraDamagePerSpecificEnergy { .. } | Mechanic::ExtraDamageIfToolAttached { .. } | Mechanic::DamagePerOwnToolAttached { .. } | Mechanic::ExtraDamageIfSelfHasTypeEnergy { .. } | Mechanic::ExtraDamageIfCombinedActiveEnergyAtLeast { .. } | Mechanic::ExtraDamageIfDefenderAnyType { .. } | Mechanic::DamagePerOwnHandCard { .. } | Mechanic::ExtraDamageIfMovedFromBench { .. } | Mechanic::DamageReducedBySelfDamage | Mechanic::ExtraDamageIfExtraEnergy { .. } | Mechanic::ExtraDamageIfHandSizeIs { .. } | Mechanic::ExtraDamageIfPokemonOnBench { .. } | Mechanic::ExtraDamagePerPokemonWithNameOnBench { .. } | Mechanic::ExtraDamageIfOpponentActiveHasAbility { .. })
}

/// The mechanics whose forecast is damage with status conditions or healing, or damage by coins
/// per Pokémon in play.
pub open spec fn forecast_group_f(m: Mechanic) -> bool {
    matches!(m, Mechanic::ChanceMultipleStatusAttack { .. } | Mechanic::CoinFlipStatusSelfOrOpponent { .. } | Mechanic::InflictStatusConditionsOnBothActive { .. } | Mechanic::SelfHealIfStadiumInPlay { .. } | Mechanic::InflictStatusIfStadiumInPlay { .. } | Mechanic::SelfAsleepAndHeal { .. } | Mechanic::CoinFlipStatusOutcome { .. } | Mechanic::CoinFlipPerPokemonInPlay { .. })
}

/// Whether the mechanic is in `forecast_group_f`.
pub fn in_forecast_group_f(m: &Mechanic) -> (r: bool)
    ensures
        r == forecast_group_f(*m),
{
    matches!(m, Mechanic::ChanceMultipleStatusAttack { .. } | Mechanic::CoinFlipStatusSelfOrOpponent { .. } | Mechanic::InflictStatusConditionsOnBothActive { .. } | Mechanic::SelfHealIfStadiumInPlay { .. } | Mechanic::InflictStatusIfStadiumInPlay { .. } | Mechanic::SelfAsleepAndHeal { .. } | Mechanic::CoinFlipStatusOutcome { .. } | Mechanic::CoinFlipPerPokemonInPlay { .. })
}

/// Whether a Benched Pokémon of the side has damage on it.
fn bench_has_damaged_exec(side: &Vec<Option<PlayedCard>>) -> (r: bool)
    ensures
        r == bench_has_damaged(side@),
{
    let mut i: usize = 1;
    while i < side.len()
        invariant
            1 <= i <= side@.len() || side@.len() == 0,
            forall|k: int| 1 <= k < i ==> !(#[trigger] side@[k] is Some && is_damaged(side@[k]->0)),
        decreases side@.len() - i,
    {
        match &side[i] {
            Some(c) => {
                if c.remaining_hp < c.total_hp {
                    return true;
                }
            },
            None => {},
        }
        i = i + 1;
    }
    false
}

/// How many Pokémon of the side have a Tool attached.
fn tools_exec(side: &Vec<Option<PlayedCard>>) -> (r: u32)
    requires
        side@.len() == 4,
    ensures
        r == tools_upto(side@, 4),
{
    let mut n: u32 = 0;
    let mut i: usize = 0;
    while i < 4
        invariant
            i <= 4,
            side@.len() == 4,
            n == tools_upto(side@, i as int),
            n <= i,
        decreases 4 - i,
    {
        match &side[i] {
            Some(c) => {
                if c.attached_tool.is_some() {
                    n = n + 1;
                }
            },
            None => {},
        }
        i = i + 1;
    }
    n
}

/// Whether a Pokémon carries the name.
pub(crate) fn has_name(c: &PlayedCard, name: &String) -> (r: bool)
    ensures
        r == (card_name(c.card) == name@),
{
    match &c.card {
        Card::Pokemon(p) => p.name == *name,
        Card::Trainer(t) => t.name == *name,
    }
}

/// How many Benched Pokémon of the side carry the name.
fn named_bench_exec(side: &Vec<Option<PlayedCard>>, name: &String) -> (r: u32)
    requires
        side@.len() == 4,
    ensures
        r == named_bench_upto(side@, name@, 4),
        r <= 3,
{
    let mut n: u32 = 0;
    let mut i: usize = 1;
    while i < 4
        invariant
            1 <= i <= 4,
            side@.len() == 4,
            n == named_bench_upto(side@, name@, i as int),
            n < i,
        decreases 4 - i,
    {
        match &side[i] {
            Some(c) => {
                if has_name(c, name) {
                    n = n + 1;
                }
            },
            None => {},
        }
        i = i + 1;
    }
    n
}

/// For each status: on the attacker, then on the opponent's Active Pokémon.
pub(crate) fn both_status_effects_exec(conditions: &Vec<StatusCondition>) -> (r: Vec<AttackEffect>)
    ensures
        r@ == both_status_effects(conditions@),
{
    let mut r: Vec<AttackEffect> = Vec::new();
    let mut i: usize = 0;
    while i < conditions.len()
        invariant
            i <= conditions@.len(),
            r@ == both_status_effects(conditions@.subrange(0, i as int)),
        decreases conditions@.len() - i,
    {
        r.push(AttackEffect::InflictStatus { on_opponent: false, condition: conditions[i] });
        r.push(AttackEffect::InflictStatus { on_opponent: true, condition: conditions[i] });
        i = i + 1;
        proof {
            let sub = conditions@.subrange(0, i as int);
            assert(sub.drop_last() =~= conditions@.subrange(0, i - 1));
            assert(r@ =~= both_status_effects(sub));
        }
    }
    proof {
        assert(conditions@.subrange(0, conditions@.len() as int) =~= conditions@);
    }
    r
}

/// `fixed`, plus `extra` when `bonus` holds, to the opponent's Active Pokémon.
fn bonus_outcomes(fixed: u32, bonus: bool, extra: u32) -> (r: AttackOutcomes<AttackEffect>)
    ensures
        r.is_distribution(),
        attack_view(r) == sure(bonus_hit(fixed, bonus, extra)),
{
    sure_outcomes(
        hit_outcome(
            if bonus {
                sat_add_exec(fixed, extra)
            } else {
                fixed
            },
        ),
    )
}

/// The forecast of a mechanic of `forecast_group_e`.
pub fn forecast_mechanic_e(state: &State, attack: &Attack, mechanic: &Mechanic) -> (o: AttackOutcomes<
    AttackEffect,
>)
    requires
        state.wf(),
        state@.slot(state.current_player as int, 0) is Some,
        state@.slot(1 - state.current_player, 0) is Some,
        forecast_group_e(*mechanic),
    ensures
        o.is_distribution(),
        mechanic_forecast(state@, *attack, *mechanic) == Some(attack_view(o)),
{
    let fixed = attack.fixed_damage;
    let cp = state.current_player;
    let opp = 1 - cp;
    let attacker = state.get_active(cp);
    let defender = state.get_active(opp);
    proof {
        assert(state@.board[cp as int] == state.in_play_pokemon@[cp as int]@);
        assert(state@.hands[cp as int] == state.hands@[cp as int]@);
    }
    match mechanic {
        Mechanic::ExtraDamageIfOpponentHasSpecialCondition { extra_damage } => {
            bonus_outcomes(fixed, condition_count_exec(defender) > 0, *extra_damage)
        },
        Mechanic::ExtraDamageIfSupportPlayedThisTurn { extra_damage } => {
            bonus_outcomes(fixed, state.has_played_support, *extra_damage)
        },
        Mechanic::ExtraDamageIfAnyBenchedDamaged { extra_damage } => {
            bonus_outcomes(fixed, bench_has_damaged_exec(&state.in_play_pokemon[cp]), *extra_damage)
        },
        Mechanic::ExtraDamagePerSpecificEnergy { energy_type, damage_per_energy } => {
            let n = count_exec(&attacker.attached_energy, *energy_type);
            let per = sat_mul_exec(#[verifier::truncate] (n as u32), *damage_per_energy);
            sure_outcomes(hit_outcome(sat_add_exec(fixed, per)))
        },
        Mechanic::ExtraDamageIfToolAttached { extra_damage } => {
            bonus_outcomes(fixed, attacker.attached_tool.is_some(), *extra_damage)
        },
        Mechanic::DamagePerOwnToolAttached { damage_per } => {
            let n = tools_exec(&state.in_play_pokemon[cp]);
            sure_outcomes(hit_outcome(sat_mul_exec(*damage_per, n)))
        },
        Mechanic::ExtraDamageIfSelfHasTypeEnergy { energy_type, extra_damage } => {
            bonus_outcomes(fixed, count_exec(&attacker.attached_energy, *energy_type) > 0, *extra_damage)
        },
        Mechanic::ExtraDamageIfCombinedActiveEnergyAtLeast { threshold, extra_damage } => {
            let combined: u128 = attacker.attached_energy.len() as u128 + defender.attached_energy.len() as u128;
            bonus_outcomes(fixed, combined >= *threshold as u128, *extra_damage)
        },
        Mechanic::ExtraDamageIfDefenderAnyType { energy_types, extra_damage } => {
            let bonus = match defender.get_energy_type() {
                Some(t) => {
                    let mut found = false;
                    let mut i: usize = 0;
                    while i < energy_types.len()
                        invariant
                            i <= energy_types@.len(),
                            found == exists|k: int| 0 <= k < i && energy_types@[k] == t,
                        decreases energy_types@.len() - i,
                    {
                        if energy_types[i] == t {
                            found = true;
                        }
                        i = i + 1;
                    }
                    proof {
                        if found {
                            let k = choose|k: int| 0 <= k < energy_types@.len() && energy_types@[k] == t;
                            assert(energy_types@.contains(t));
                        }
                    }
                    found
                },
                None => false,
            };
            bonus_outcomes(fixed, bonus, *extra_damage)
        },
        Mechanic::DamagePerOwnHandCard { damage_per_card } => {
            let n = #[verifier::truncate] (state.hands[cp].len() as u32);
            sure_outcomes(hit_outcome(sat_mul_exec(*damage_per_card, n)))
        },
        Mechanic::ExtraDamageIfMovedFromBench { extra_damage } => {
            bonus_outcomes(fixed, attacker.moved_to_active_this_turn, *extra_damage)
        },
        Mechanic::DamageReducedBySelfDamage => {
            let on = attacker.total_hp.saturating_sub(attacker.remaining_hp);
            sure_outcomes(hit_outcome(fixed.saturating_sub(on)))
        },
        Mechanic::ExtraDamageIfExtraEnergy { required_extra_energy, extra_damage } => {
            let mut cost: Vec<EnergyType> = Vec::new();
            let mut i: usize = 0;
            while i < attack.energy_required.len()
                invariant
                    i <= attack.energy_required@.len(),
                    cost@ == attack.energy_required@.subrange(0, i as int),
                decreases attack.energy_required@.len() - i,
            {
                cost.push(attack.energy_required[i]);
                i = i + 1;
                proof {
                    assert(cost@ =~= attack.energy_required@.subrange(0, i as int));
                }
            }
            let ghost base = cost@;
            let mut j: usize = 0;
            while j < required_extra_energy.len()
                invariant
                    j <= required_extra_energy@.len(),
                    cost@ == base + required_extra_energy@.subrange(0, j as int),
                decreases required_extra_energy@.len() - j,
            {
                cost.push(required_extra_energy[j]);
                j = j + 1;
                proof {
                    assert(cost@ =~= base + required_extra_energy@.subrange(0, j as int));
                }
            }
            proof {
                assert(attack.energy_required@.subrange(0, attack.energy_required@.len() as int)
                    =~= attack.energy_required@);
                assert(required_extra_energy@.subrange(0, required_extra_energy@.len() as int)
                    =~= required_extra_energy@);
            }
            bonus_outcomes(fixed, can_pay_exec(&attacker.attached_energy, &cost), *extra_damage)
        },
        Mechanic::ExtraDamageIfHandSizeIs { hand_sizes, extra_damage } => {
            let size = state.hands[cp].len();
            let mut found = false;
            let mut i: usize = 0;
            while i < hand_sizes.len()
                invariant
                    i <= hand_sizes@.len(),
                    found == exists|k: int| 0 <= k < i && hand_sizes@[k] == size,
                decreases hand_sizes@.len() - i,
            {
                if hand_sizes[i] == size {
                    found = true;
                }
                i = i + 1;
            }
            proof {
                if found {
                    let k = choose|k: int| 0 <= k < hand_sizes@.len() && hand_sizes@[k] == size;
                    assert(hand_sizes@.contains(size));
                }
            }
            bonus_outcomes(fixed, found, *extra_damage)
        },
        Mechanic::ExtraDamageIfPokemonOnBench { pokemon_name, extra_damage } => {
            bonus_outcomes(fixed, named_bench_exec(&state.in_play_pokemon[cp], pokemon_name) > 0, *extra_damage)
        },
        Mechanic::ExtraDamagePerPokemonWithNameOnBench { pokemon_name, damage_per } => {
            let n = named_bench_exec(&state.in_play_pokemon[cp], pokemon_name);
            sure_outcomes(hit_outcome(sat_add_exec(fixed, sat_mul_exec(n, *damage_per))))
        },
        Mechanic::ExtraDamageIfOpponentActiveHasAbility { extra_damage } => {
            bonus_outcomes(fixed, defender.card.get_ability().is_some(), *extra_damage)
        },
        _ => {
            proof {
                assert(false);
            }
            sure_outcomes(hit_outcome(fixed))
        },
    }
}

/// The forecast of a mechanic of `forecast_group_f`.
pub fn forecast_mechanic_f(state: &State, attack: &Attack, mechanic: &Mechanic) -> (o: AttackOutcomes<
    AttackEffect,
>)
    requires
        state.wf(),
        state@.slot(state.current_player as int, 0) is Some,
        state@.slot(1 - state.current_player, 0) is Some,
        forecast_group_f(*mechanic),
    ensures
        o.is_distribution(),
        mechanic_forecast(state@, *attack, *mechanic) == Some(attack_view(o)),
{
    let fixed = attack.fixed_damage;
    let cp = state.current_player;
    match mechanic {
        Mechanic::ChanceMultipleStatusAttack { conditions } => {
            let effects = status_effects_exec(conditions, true);
            coin_outcomes(hit_then_outcome(fixed, effects), hit_outcome(fixed))
        },
        Mechanic::CoinFlipStatusSelfOrOpponent { status } => coin_outcomes(
            hit_then_one(fixed, AttackEffect::InflictStatus { on_opponent: true, condition: *status }),
            hit_then_one(fixed, AttackEffect::InflictStatus { on_opponent: false, condition: *status }),
        ),
        Mechanic::InflictStatusConditionsOnBothActive { conditions } => {
            let effects = both_status_effects_exec(conditions);
            sure_outcomes(hit_then_outcome(fixed, effects))
        },
        Mechanic::SelfHealIfStadiumInPlay { amount } => {
            if state.active_stadium.is_some() {
                sure_outcomes(hit_then_one(fixed, AttackEffect::HealSelf { amount: *amount }))
            } else {
                sure_outcomes(hit_outcome(fixed))
            }
        },
        Mechanic::InflictStatusIfStadiumInPlay { status } => {
            if state.active_stadium.is_some() {
                sure_outcomes(
                    hit_then_one(fixed, AttackEffect::InflictStatus { on_opponent: true, condition: *status }),
                )
            } else {
                sure_outcomes(hit_outcome(fixed))
            }
        },
        Mechanic::SelfAsleepAndHeal { amount } => {
            let mut effects: Vec<AttackEffect> = Vec::new();
            effects.push(AttackEffect::InflictStatus { on_opponent: false, condition: StatusCondition::Asleep });
            effects.push(AttackEffect::HealSelf { amount: *amount });
            proof {
                assert(effects@ =~= seq![
                    AttackEffect::InflictStatus { on_opponent: false, condition: StatusCondition::Asleep },
                    AttackEffect::HealSelf { amount: *amount },
                ]);
            }
            sure_outcomes(hit_then_outcome(fixed, effects))
        },
        Mechanic::CoinFlipStatusOutcome { heads_status, tails_status } => coin_outcomes(
            hit_then_one(fixed, AttackEffect::InflictStatus { on_opponent: true, condition: *heads_status }),
            hit_then_one(fixed, AttackEffect::InflictStatus { on_opponent: true, condition: *tails_status }),
        ),
        Mechanic::CoinFlipPerPokemonInPlay { damage_per_head } => {
            let n = state.enumerate_in_play_pokemon(cp).len();
            proof {
                assert(state@.board[cp as int] == state.in_play_pokemon@[cp as int]@);
                lemma_occupied_len(state@.board[cp as int], 0);
            }
            let per_heads = per_heads_hits(n, 0, *damage_per_head);
            by_heads_outcomes(n, per_heads, Ghost(per_heads_hit(0, *damage_per_head)))
        },
        _ => {
            proof {
                assert(false);
            }
            sure_outcomes(hit_outcome(fixed))
        },
    }
}

/// `damage` (flagged `flag`) to each Benched Pokémon among slots 1 to `i - 1` of a side that
/// has damage on it, in slot order.
pub open spec fn damaged_bench_upto(side: Seq<Option<PlayedCard>>, damage: u32, flag: bool, i: int) -> Seq<
    DamageTarget,
>
    decreases i,
{
    if i <= 1 {
        Seq::empty()
    } else {
        let prev = damaged_bench_upto(side, damage, flag, i - 1);
        if side[i - 1] is Some && is_damaged(side[i - 1]->0) {
            prev.push((damage, flag, (i - 1) as usize))
        } else {
            prev
        }
    }
}

/// `damage` (flagged `flag`) to each damaged Benched Pokémon of a side, in slot order.
pub open spec fn damaged_bench_targets(side: Seq<Option<PlayedCard>>, damage: u32, flag: bool) -> Seq<
    DamageTarget,
> {
    damaged_bench_upto(side, damage, flag, 4)
}

/// `base + per * heads` damage to the opponent's Active Pokémon, then, from `min_heads` heads
/// on, `status` on the opponent's Active Pokémon (`on_opponent`) or on the attacker.
pub open spec fn per_heads_status_hit(
    base: u32,
    per: u32,
    on_opponent: bool,
    status: StatusCondition,
    min_heads: nat,
) -> spec_fn(nat) -> OutcomeView<AttackEffect> {
    |h: nat|
        if h >= min_heads {
            hit_then(
                sat_add(base, sat_mul(per, h as u32)),
                seq![AttackEffect::InflictStatus { on_opponent, condition: status }],
            )
        } else {
            hit(sat_add(base, sat_mul(per, h as u32)))
        }
}

/// `fixed` damage to the opponent's Active Pokémon and `per * heads` to each of `bench` (none
/// when that is 0).
pub open spec fn per_heads_bench_hit(fixed: u32, per: u32, bench: Seq<usize>) -> spec_fn(nat) -> OutcomeView<
    AttackEffect,
> {
    |h: nat|
        (
            seq![(fixed, true, 0usize)] + if sat_mul(per, h as u32) > 0 {
                bench.map_values(|i: usize| (sat_mul(per, h as u32), true, i))
            } else {
                Seq::empty()
            },
            Seq::empty(),
            Seq::empty(),
            Seq::empty(),
        )
}

/// The mechanics whose forecast is damage by coins with status conditions or Bench damage,
/// Bench damage that depends on the board, or a coin between damage and an effect.
pub open spec fn forecast_group_g(m: Mechanic) -> bool {
    matches!(m, Mechanic::ExtraDamageForEachHeadsSelfStatus { .. } | Mechanic::ExtraDamageForEachHeadsWithStatus { .. } | Mechanic::ExtraDamageForEachHeadsWithStatusAtLeast { .. } | Mechanic::FlipCoinsBenchDamagePerHead { .. } | Mechanic::AlsoBenchDamageIfDamaged { .. } | Mechanic::AlsoBenchDamageIfPokemonOnBench { .. } | Mechanic::CoinFlipAlsoChoiceBenchDamage { .. } | Mechanic::CoinFlipDamageOrHealOpponent { .. })
}

/// Whether the mechanic is in `forecast_group_g`.
pub fn in_forecast_group_g(m: &Mechanic) -> (r: bool)
    ensures
        r == forecast_group_g(*m),
{
    matches!(m, Mechanic::ExtraDamageForEachHeadsSelfStatus { .. } | Mechanic::ExtraDamageForEachHeadsWithStatus { .. } | Mechanic::ExtraDamageForEachHeadsWithStatusAtLeast { .. } | Mechanic::FlipCoinsBenchDamagePerHead { .. } | Mechanic::AlsoBenchDamageIfDamaged { .. } | Mechanic::AlsoBenchDamageIfPokemonOnBench { .. } | Mechanic::CoinFlipAlsoChoiceBenchDamage { .. } | Mechanic::CoinFlipDamageOrHealOpponent { .. })
}

/// The outcome for each number of heads from 0 to `n` of `per_heads_status_hit`.
fn per_heads_status_hits(
    n: usize,
    base: u32,
    per: u32,
    on_opponent: bool,
    status: StatusCondition,
    min_heads: usize,
) -> (r: Vec<AttackOutcome<AttackEffect>>)
    requires
        n < 32,
    ensures
        r@.len() == n + 1,
        forall|h: int|
            0 <= h <= n ==> outcome_view(#[trigger] r@[h]) == (per_heads_status_hit(
                base,
                per,
                on_opponent,
                status,
                min_heads as nat,
            ))(h as nat),
{
    let mut r: Vec<AttackOutcome<AttackEffect>> = Vec::new();
    let mut h: usize = 0;
    while h <= n
        invariant
            h <= n + 1,
            n < 32,
            r@.len() == h,
            forall|k: int|
                0 <= k < h ==> outcome_view(#[trigger] r@[k]) == (per_heads_status_hit(
                    base,
                    per,
                    on_opponent,
                    status,
                    min_heads as nat,
                ))(k as nat),
        decreases n + 1 - h,
    {
        let d = sat_add_exec(base, sat_mul_exec(per, h as u32));
        let o = if h >= min_heads {
            hit_then_one(d, AttackEffect::InflictStatus { on_opponent, condition: status })
        } else {
            hit_outcome(d)
        };
        r.push(o);
        h = h + 1;
    }
    r
}

/// The outcome for each number of heads from 0 to `n` of `per_heads_bench_hit`.
fn per_heads_bench_hits(n: usize, fixed: u32, per: u32, bench: &Vec<usize>) -> (r: Vec<
    AttackOutcome<AttackEffect>,
>)
    requires
        n < 32,
    ensures
        r@.len() == n + 1,
        forall|h: int|
            0 <= h <= n ==> outcome_view(#[trigger] r@[h]) == (per_heads_bench_hit(fixed, per, bench@))(
                h as nat,
            ),
{
    let mut r: Vec<AttackOutcome<AttackEffect>> = Vec::new();
    let mut h: usize = 0;
    while h <= n
        invariant
            h <= n + 1,
            n < 32,
            r@.len() == h,
            forall|k: int|
                0 <= k < h ==> outcome_view(#[trigger] r@[k]) == (per_heads_bench_hit(fixed, per, bench@))(
                    k as nat,
                ),
        decreases n + 1 - h,
    {
        let bd = sat_mul_exec(per, h as u32);
        let mut targets: Vec<DamageTarget> = Vec::new();
        targets.push((fixed, true, 0));
        if bd > 0 {
            let mut j: usize = 0;
            while j < bench.len()
                invariant
                    j <= bench@.len(),
                    targets@ == seq![(fixed, true, 0usize)] + bench@.subrange(0, j as int).map_values(
                        |i: usize| (bd, true, i),
                    ),
                decreases bench@.len() - j,
            {
                targets.push((bd, true, bench[j]));
                j = j + 1;
                proof {
                    assert(targets@ =~= seq![(fixed, true, 0usize)] + bench@.subrange(0, j as int).map_values(
                        |i: usize| (bd, true, i),
                    ));
                }
            }
            proof {
                assert(bench@.subrange(0, bench@.len() as int) =~= bench@);
            }
        } else {
            proof {
                assert(targets@ =~= seq![(fixed, true, 0usize)] + Seq::<DamageTarget>::empty());
            }
        }
        let o = damage_list_outcome(targets);
        r.push(o);
        h = h + 1;
    }
    r
}

/// Damage only, as a plain outcome.
fn damage_list_outcome(targets: Vec<DamageTarget>) -> (r: AttackOutcome<AttackEffect>)
    ensures
        outcome_view(r) == (targets@, Seq::<AttackEffect>::empty(), Seq::<AttackEffect>::empty(), Seq::<usize>::empty()),
{
    let r = AttackOutcome::damage(targets);
    proof {
        assert(outcome_view(r).1 =~= Seq::<AttackEffect>::empty());
        assert(outcome_view(r).2 =~= Seq::<AttackEffect>::empty());
        assert(outcome_view(r).3 =~= Seq::<usize>::empty());
    }
    r
}

/// `damage` (flagged `flag`) to each damaged Benched Pokémon of a side.
fn damaged_bench_exec(side: &Vec<Option<PlayedCard>>, damage: u32, flag: bool) -> (r: Vec<DamageTarget>)
    requires
        side@.len() == 4,
    ensures
        r@ == damaged_bench_targets(side@, damage, flag),
{
    let mut r: Vec<DamageTarget> = Vec::new();
    let mut i: usize = 1;
    while i < 4
        invariant
            1 <= i <= 4,
            side@.len() == 4,
            r@ == damaged_bench_upto(side@, damage, flag, i as int),
        decreases 4 - i,
    {
        match &side[i] {
            Some(c) => {
                if c.remaining_hp < c.total_hp {
                    r.push((damage, flag, i));
                }
            },
            None => {},
        }
        i = i + 1;
    }
    r
}

/// The forecast of a mechanic of `forecast_group_g`.
pub fn forecast_mechanic_g(state: &State, attack: &Attack, mechanic: &Mechanic) -> (o: AttackOutcomes<
    AttackEffect,
>)
    requires
        state.wf(),
        state@.slot(state.current_player as int, 0) is Some,
        state@.slot(1 - state.current_player, 0) is Some,
        coins_in_range(*mechanic),
        forecast_group_g(*mechanic),
    ensures
        o.is_distribution(),
        mechanic_forecast(state@, *attack, *mechanic) == Some(attack_view(o)),
{
    let fixed = attack.fixed_damage;
    let cp = state.current_player;
    let opp = 1 - cp;
    proof {
        assert(state@.board[cp as int] == state.in_play_pokemon@[cp as int]@);
        assert(state@.board[opp as int] == state.in_play_pokemon@[opp as int]@);
    }
    match mechanic {
        Mechanic::ExtraDamageForEachHeadsSelfStatus { num_coins, damage_per_head, status } => {
            let per = per_heads_status_hits(*num_coins, 0, *damage_per_head, false, *status, 0);
            by_heads_outcomes(*num_coins, per, Ghost(per_heads_status_hit(0, *damage_per_head, false, *status, 0)))
        },
        Mechanic::ExtraDamageForEachHeadsWithStatus { include_fixed_damage, damage_per_head, num_coins, status } => {
            let base = if *include_fixed_damage {
                fixed
            } else {
                0
            };
            let per = per_heads_status_hits(*num_coins, base, *damage_per_head, true, *status, 0);
            by_heads_outcomes(*num_coins, per, Ghost(per_heads_status_hit(base, *damage_per_head, true, *status, 0)))
        },
        Mechanic::ExtraDamageForEachHeadsWithStatusAtLeast { num_coins, damage_per_head, status, min_heads } => {
            let per = per_heads_status_hits(*num_coins, 0, *damage_per_head, true, *status, *min_heads);
            by_heads_outcomes(
                *num_coins,
                per,
                Ghost(per_heads_status_hit(0, *damage_per_head, true, *status, *min_heads as nat)),
            )
        },
        Mechanic::FlipCoinsBenchDamagePerHead { num_coins, bench_damage_per_head } => {
            let bench = state.enumerate_bench_pokemon(opp);
            let per = per_heads_bench_hits(*num_coins, fixed, *bench_damage_per_head, &bench);
            by_heads_outcomes(*num_coins, per, Ghost(per_heads_bench_hit(fixed, *bench_damage_per_head, bench@)))
        },
        Mechanic::AlsoBenchDamageIfDamaged { opponent, damage } => {
            let side = if *opponent {
                opp
            } else {
                cp
            };
            let mut targets = damaged_bench_exec(&state.in_play_pokemon[side], *damage, *opponent);
            targets.push((fixed, true, 0));
            sure_outcomes(damage_list_outcome(targets))
        },
        Mechanic::AlsoBenchDamageIfPokemonOnBench { pokemon_name, bench_damage } => {
            let mut targets: Vec<DamageTarget> = Vec::new();
            if named_bench_exec(&state.in_play_pokemon[cp], pokemon_name) > 0 {
                let bench = state.enumerate_bench_pokemon(opp);
                let mut j: usize = 0;
                while j < bench.len()
                    invariant
                        j <= bench@.len(),
                        targets@ == bench@.subrange(0, j as int).map_values(|i: usize| (*bench_damage, true, i)),
                    decreases bench@.len() - j,
                {
                    targets.push((*bench_damage, true, bench[j]));
                    j = j + 1;
                    proof {
                        assert(targets@ =~= bench@.subrange(0, j as int).map_values(
                            |i: usize| (*bench_damage, true, i),
                        ));
                    }
                }
                proof {
                    assert(bench@.subrange(0, bench@.len() as int) =~= bench@);
                }
            }
            targets.push((fixed, true, 0));
            sure_outcomes(damage_list_outcome(targets))
        },
        Mechanic::CoinFlipAlsoChoiceBenchDamage { opponent, damage } => {
            let side = if *opponent {
                opp
            } else {
                cp
            };
            let bench = state.enumerate_bench_pokemon(side);
            if bench.len() == 0 {
                sure_outcomes(hit_outcome(fixed))
            } else {
                coin_outcomes(
                    effect_only_outcome(
                        AttackEffect::ChooseBenchDamage {
                            active_damage: fixed,
                            bench_damage: *damage,
                            opponent_bench: *opponent,
                            num_targets: 1,
                        },
                    ),
                    hit_outcome(fixed),
                )
            }
        },
        Mechanic::CoinFlipDamageOrHealOpponent { damage, heal } => coin_outcomes(
            hit_outcome(*damage),
            effect_only_outcome(AttackEffect::HealOpponentActive { amount: *heal }),
        ),
        _ => {
            proof {
                assert(false);
            }
            sure_outcomes(hit_outcome(fixed))
        },
    }
}

/// `player`'s Benched Pokémon in slots 1 to `n - 1` healed by `amount`, only the Basic ones when
/// `only_basic`.
pub open spec fn heal_bench_upto(s: StateView, player: int, amount: u32, only_basic: bool, n: int) -> StateView
    decreases n,
{
    if n <= 1 {
        s
    } else {
        let prev = heal_bench_upto(s, player, amount, only_basic, n - 1);
        match prev.slot(player, n - 1) {
            Some(c) => if !only_basic || c.card.is_basic_spec() {
                map_slot(prev, player, n - 1, |c: PlayedCard| c.healed_spec(amount))
            } else {
                prev
            },
            None => prev,
        }
    }
}

/// A Heal choice of `amount` for each damaged Pokémon of a side among slots `from` to `i - 1`.
pub open spec fn heal_choices_upto(side: Seq<Option<PlayedCard>>, from: int, amount: u32, i: int) -> Seq<SimpleAction>
    decreases i - from,
{
    if i <= from {
        Seq::empty()
    } else {
        let prev = heal_choices_upto(side, from, amount, i - 1);
        if side[i - 1] is Some && is_damaged(side[i - 1]->0) {
            prev.push(SimpleAction::Heal { in_play_idx: (i - 1) as usize, amount, cure_status: false })
        } else {
            prev
        }
    }
}

/// Heals `player`'s Benched Pokémon (only the Basic ones when `only_basic`) by `amount`.
pub fn heal_own_bench(state: &mut State, player: usize, amount: u32, only_basic: bool)
    requires
        old(state).wf(),
        player < 2,
    ensures
        final(state).wf(),
        final(state)@ == heal_bench_upto(old(state)@, player as int, amount, only_basic, 4),
{
    let ghost s0 = state@;
    let mut i: usize = 1;
    while i < 4
        invariant
            1 <= i <= 4,
            player < 2,
            state.wf(),
            state@ == heal_bench_upto(s0, player as int, amount, only_basic, i as int),
        decreases 4 - i,
    {
        let heal = match &state.in_play_pokemon[player][i] {
            Some(c) => !only_basic || c.card.is_basic(),
            None => false,
        };
        proof {
            assert(state@.board[player as int] == state.in_play_pokemon@[player as int]@);
        }
        if heal {
            crate::apply_action_helpers::heal_slot(state, player, i, amount);
        }
        i = i + 1;
    }
}

/// The Heal choices of `amount` for `player`'s damaged Pokémon (Benched ones only when
/// `bench_only`), in slot order.
pub fn heal_choices_exec(state: &State, player: usize, amount: u32, bench_only: bool) -> (r: Vec<SimpleAction>)
    requires
        state.wf(),
        player < 2,
    ensures
        r@ == heal_choices_upto(state@.board[player as int], if bench_only { 1 } else { 0 }, amount, 4),
{
    let side = &state.in_play_pokemon[player];
    proof {
        assert(state@.board[player as int] == side@);
    }
    let from: usize = if bench_only {
        1
    } else {
        0
    };
    let mut r: Vec<SimpleAction> = Vec::new();
    let mut i: usize = from;
    while i < 4
        invariant
            from <= i <= 4,
            side@.len() == 4,
            r@ == heal_choices_upto(side@, from as int, amount, i as int),
        decreases 4 - i,
    {
        match &side[i] {
            Some(c) => {
                if c.remaining_hp < c.total_hp {
                    r.push(SimpleAction::Heal { in_play_idx: i, amount, cure_status: false });
                }
            },
            None => {},
        }
        i = i + 1;
    }
    r
}

/// Whether a Pokémon of the side has type `t`.
pub open spec fn side_has_type(side: Seq<Option<PlayedCard>>, t: EnergyType) -> bool {
    exists|i: int| 0 <= i < side.len() && #[trigger] side[i] is Some && side[i]->0.card.energy_type_spec() == Some(t)
}

/// How many of the first `i` slots of a side hold a Pokémon with an ability.
pub open spec fn abilities_upto(side: Seq<Option<PlayedCard>>, i: int) -> nat
    decreases i,
{
    if i <= 0 {
        0
    } else {
        abilities_upto(side, i - 1) + if side[i - 1] is Some && side[i - 1]->0.card.ability_spec() is Some {
            1nat
        } else {
            0nat
        }
    }
}

/// How many Energy of type `t` the Pokémon in the first `i` slots of a side have attached.
pub open spec fn energy_count_upto(side: Seq<Option<PlayedCard>>, t: EnergyType, i: int) -> nat
    decreases i,
{
    if i <= 0 {
        0
    } else {
        energy_count_upto(side, t, i - 1) + if side[i - 1] is Some {
            count_of(side[i - 1]->0.attached_energy@, t)
        } else {
            0nat
        }
    }
}

/// The mechanics of healing choices and heals, and of damage that depends on the other side.
pub open spec fn forecast_group_h(m: Mechanic) -> bool {
    matches!(m, Mechanic::HealAllYourPokemon { .. } | Mechanic::HealAllBenchedPokemon { .. } | Mechanic::HealOneYourPokemon { .. } | Mechanic::HealOneYourBenchedPokemon { .. } | Mechanic::ExtraDamageIfFewerPokemonInPlay { .. } | Mechanic::ExtraDamageIfOpponentHasTypeInPlay { .. } | Mechanic::ExtraDamagePerOpponentPokemonWithAbility { .. } | Mechanic::ExtraDamagePerSpecificEnergyAllYours { .. } | Mechanic::SelfDamageAndAllBenchDamage { .. })
}

/// Whether the mechanic is in `forecast_group_h`.
pub fn in_forecast_group_h(m: &Mechanic) -> (r: bool)
    ensures
        r == forecast_group_h(*m),
{
    matches!(m, Mechanic::HealAllYourPokemon { .. } | Mechanic::HealAllBenchedPokemon { .. } | Mechanic::HealOneYourPokemon { .. } | Mechanic::HealOneYourBenchedPokemon { .. } | Mechanic::ExtraDamageIfFewerPokemonInPlay { .. } | Mechanic::ExtraDamageIfOpponentHasTypeInPlay { .. } | Mechanic::ExtraDamagePerOpponentPokemonWithAbility { .. } | Mechanic::ExtraDamagePerSpecificEnergyAllYours { .. } | Mechanic::SelfDamageAndAllBenchDamage { .. })
}

/// Appends `(damage, flag, i)` for each index `i`.
fn push_targets(targets: &mut Vec<DamageTarget>, idxs: &Vec<usize>, damage: u32, flag: bool)
    ensures
        final(targets)@ == old(targets)@ + idxs@.map_values(|i: usize| (damage, flag, i)),
{
    let ghost start = targets@;
    let mut j: usize = 0;
    while j < idxs.len()
        invariant
            j <= idxs@.len(),
            targets@ == start + idxs@.subrange(0, j as int).map_values(|i: usize| (damage, flag, i)),
        decreases idxs@.len() - j,
    {
        targets.push((damage, flag, idxs[j]));
        j = j + 1;
        proof {
            assert(targets@ =~= start + idxs@.subrange(0, j as int).map_values(|i: usize| (damage, flag, i)));
        }
    }
    proof {
        assert(idxs@.subrange(0, idxs@.len() as int) =~= idxs@);
    }
}

/// The forecast of a mechanic of `forecast_group_h`.
pub fn forecast_mechanic_h(state: &State, attack: &Attack, mechanic: &Mechanic) -> (o: AttackOutcomes<
    AttackEffect,
>)
    requires
        state.wf(),
        state@.slot(state.current_player as int, 0) is Some,
        state@.slot(1 - state.current_player, 0) is Some,
        forecast_group_h(*mechanic),
    ensures
        o.is_distribution(),
        mechanic_forecast(state@, *attack, *mechanic) == Some(attack_view(o)),
{
    let fixed = attack.fixed_damage;
    let cp = state.current_player;
    let opp = 1 - cp;
    proof {
        assert(state@.board[cp as int] == state.in_play_pokemon@[cp as int]@);
        assert(state@.board[opp as int] == state.in_play_pokemon@[opp as int]@);
    }
    match mechanic {
        Mechanic::HealAllYourPokemon { amount } => {
            sure_outcomes(hit_then_one(fixed, AttackEffect::HealAllOwn { amount: *amount }))
        },
        Mechanic::HealAllBenchedPokemon { amount, only_basic } => sure_outcomes(
            hit_then_one(fixed, AttackEffect::HealOwnBench { amount: *amount, only_basic: *only_basic }),
        ),
        Mechanic::HealOneYourPokemon { amount } => {
            sure_outcomes(effect_only_outcome(AttackEffect::ChooseHeal { amount: *amount, bench_only: false }))
        },
        Mechanic::HealOneYourBenchedPokemon { amount } => {
            sure_outcomes(effect_only_outcome(AttackEffect::ChooseHeal { amount: *amount, bench_only: true }))
        },
        Mechanic::ExtraDamageIfFewerPokemonInPlay { extra_damage } => {
            let own = state.enumerate_in_play_pokemon(cp).len();
            let theirs = state.enumerate_in_play_pokemon(opp).len();
            bonus_outcomes(fixed, own < theirs, *extra_damage)
        },
        Mechanic::ExtraDamageIfOpponentHasTypeInPlay { energy_type, extra_damage } => {
            let side = &state.in_play_pokemon[opp];
            let mut found = false;
            let mut i: usize = 0;
            while i < 4
                invariant
                    i <= 4,
                    side@.len() == 4,
                    found == exists|k: int|
                        0 <= k < i && #[trigger] side@[k] is Some && side@[k]->0.card.energy_type_spec() == Some(
                            *energy_type,
                        ),
                decreases 4 - i,
            {
                match &side[i] {
                    Some(c) => {
                        match c.get_energy_type() {
                            Some(t) => {
                                if t == *energy_type {
                                    found = true;
                                }
                            },
                            None => {},
                        }
                    },
                    None => {},
                }
                i = i + 1;
            }
            bonus_outcomes(fixed, found, *extra_damage)
        },
        Mechanic::ExtraDamagePerOpponentPokemonWithAbility { damage_per } => {
            let side = &state.in_play_pokemon[opp];
            let mut n: u32 = 0;
            let mut i: usize = 0;
            while i < 4
                invariant
                    i <= 4,
                    side@.len() == 4,
                    n == abilities_upto(side@, i as int),
                    n <= i,
                decreases 4 - i,
            {
                match &side[i] {
                    Some(c) => {
                        if c.card.get_ability().is_some() {
                            n = n + 1;
                        }
                    },
                    None => {},
                }
                i = i + 1;
            }
            sure_outcomes(hit_outcome(sat_add_exec(fixed, sat_mul_exec(*damage_per, n))))
        },
        Mechanic::ExtraDamagePerSpecificEnergyAllYours { energy_type, damage_per_energy } => {
            let side = &state.in_play_pokemon[cp];
            let mut total: u128 = 0;
            let mut i: usize = 0;
            while i < 4
                invariant
                    i <= 4,
                    side@.len() == 4,
                    total == energy_count_upto(side@, *energy_type, i as int),
                    total <= i * 0xffff_ffff_ffff_ffff,
                decreases 4 - i,
            {
                match &side[i] {
                    Some(c) => {
                        let k = count_exec(&c.attached_energy, *energy_type);
                        total = total + k as u128;
                    },
                    None => {},
                }
                i = i + 1;
            }
            let n = #[verifier::truncate] (total as u32);
            sure_outcomes(hit_outcome(sat_add_exec(fixed, sat_mul_exec(n, *damage_per_energy))))
        },
        Mechanic::SelfDamageAndAllBenchDamage { self_damage, bench_damage } => {
            let mut targets: Vec<DamageTarget> = Vec::new();
            targets.push((fixed, true, 0));
            targets.push((*self_damage, false, 0));
            let their_bench = state.enumerate_bench_pokemon(opp);
            push_targets(&mut targets, &their_bench, *bench_damage, true);
            let own_bench = state.enumerate_bench_pokemon(cp);
            push_targets(&mut targets, &own_bench, *bench_damage, false);
            proof {
                assert(targets@ =~= seq![(fixed, true, 0usize), (*self_damage, false, 0usize)]
                    + state@.bench_indices(opp as int).map_values(|i: usize| (*bench_damage, true, i))
                    + state@.bench_indices(cp as int).map_values(|i: usize| (*bench_damage, false, i)));
            }
            sure_outcomes(damage_list_outcome(targets))
        },
        _ => {
            proof {
                assert(false);
            }
            sure_outcomes(hit_outcome(fixed))
        },
    }
}

/// Only the Energy of `player`'s Pokémon in slot `idx` changed, and it is now `es`.
pub open spec fn energy_set(before: StateView, after: StateView, player: int, idx: int, es: Seq<EnergyType>) -> bool {
    &&& only_side_changed(before, after, player)
    &&& slot_with_energy(before.slot(player, idx), after.slot(player, idx), es)
    &&& forall|k: int| 0 <= k < 4 && k != idx ==> #[trigger] after.slot(player, k) == before.slot(player, k)
}

/// Removes one Energy, picked at random, from `player`'s Active Pokémon (nothing when it has
/// none).
pub fn remove_random_active_energy(rng: &mut StdRng, state: &mut State, player: usize)
    requires
        old(state).wf(),
        player < 2,
    ensures
        final(state).wf(),
        match old(state)@.slot(player as int, 0) {
            Some(c) => if c.attached_energy@.len() == 0 {
                final(state)@ == old(state)@
            } else {
                exists|k: int|
                    0 <= k < c.attached_energy@.len() && #[trigger] energy_set(
                        old(state)@,
                        final(state)@,
                        player as int,
                        0,
                        c.attached_energy@.remove(k),
                    )
            },
            None => final(state)@ == old(state)@,
        },
{
    let energies = match &state.in_play_pokemon[player][0] {
        Some(c) => {
            let mut copy: Vec<EnergyType> = Vec::new();
            let mut i: usize = 0;
            while i < c.attached_energy.len()
                invariant
                    i <= c.attached_energy@.len(),
                    copy@ == c.attached_energy@.subrange(0, i as int),
                decreases c.attached_energy@.len() - i,
            {
                copy.push(c.attached_energy[i]);
                i = i + 1;
                proof {
                    assert(copy@ =~= c.attached_energy@.subrange(0, i as int));
                }
            }
            proof {
                assert(c.attached_energy@.subrange(0, c.attached_energy@.len() as int) =~= c.attached_energy@);
            }
            copy
        },
        None => {
            return;
        },
    };
    proof {
        assert(state@.board[player as int] == state.in_play_pokemon@[player as int]@);
    }
    if energies.len() == 0 {
        return;
    }
    let k = random_below(rng, energies.len());
    let mut rest = energies;
    let ghost all = rest@;
    rest.remove(k);
    set_slot_energy(state, player, 0, rest);
    proof {
        assert(rest@ == all.remove(k as int));
        assert(energy_set(old(state)@, state@, player as int, 0, all.remove(k as int)));
    }
}

/// Sets `player`'s Active Pokémon's remaining HP to `hp` (at most its total HP): damage down to
/// it, or healing up to it.
pub fn set_active_hp(state: &mut State, player: usize, hp: u32)
    requires
        old(state).wf(),
        player < 2,
    ensures
        final(state).wf(),
        final(state)@ == map_slot(
            old(state)@,
            player as int,
            0,
            |c: PlayedCard|
                if c.remaining_hp > hp {
                    c.damaged_spec((c.remaining_hp - hp) as u32)
                } else {
                    c.healed_spec((hp - c.remaining_hp) as u32)
                },
        ),
{
    let current = match &state.in_play_pokemon[player][0] {
        Some(c) => c.remaining_hp,
        None => {
            proof {
                assert(state@.board[player as int] == state.in_play_pokemon@[player as int]@);
                assert(state@.board[player as int][0] is None);
                assert(map_slot(
                    state@,
                    player as int,
                    0,
                    |c: PlayedCard|
                        if c.remaining_hp > hp {
                            c.damaged_spec((c.remaining_hp - hp) as u32)
                        } else {
                            c.healed_spec((hp - c.remaining_hp) as u32)
                        },
                ).board =~~= state@.board);
            }
            return;
        },
    };
    proof {
        assert(state@.board[player as int] == state.in_play_pokemon@[player as int]@);
    }
    if current > hp {
        crate::apply_action_helpers::damage_slot(state, player, 0, current - hp);
    } else {
        crate::apply_action_helpers::heal_slot(state, player, 0, hp - current);
    }
}

/// The mechanics of Energy loss and of setting the opponent's remaining HP.
pub open spec fn forecast_group_i(m: Mechanic) -> bool {
    matches!(m, Mechanic::SelfDiscardAllEnergy | Mechanic::CoinFlipDiscardEnergyFromOpponentActive | Mechanic::CoinFlipSetOpponentHpTo { .. })
}

/// Whether the mechanic is in `forecast_group_i`.
pub fn in_forecast_group_i(m: &Mechanic) -> (r: bool)
    ensures
        r == forecast_group_i(*m),
{
    matches!(m, Mechanic::SelfDiscardAllEnergy | Mechanic::CoinFlipDiscardEnergyFromOpponentActive | Mechanic::CoinFlipSetOpponentHpTo { .. })
}

/// The forecast of a mechanic of `forecast_group_i`.
pub fn forecast_mechanic_i(state: &State, attack: &Attack, mechanic: &Mechanic) -> (o: AttackOutcomes<
    AttackEffect,
>)
    requires
        state.wf(),
        forecast_group_i(*mechanic),
    ensures
        o.is_distribution(),
        mechanic_forecast(state@, *attack, *mechanic) == Some(attack_view(o)),
{
    let fixed = attack.fixed_damage;
    match mechanic {
        Mechanic::SelfDiscardAllEnergy => sure_outcomes(hit_then_one(fixed, AttackEffect::DiscardAllOwnActiveEnergy)),
        Mechanic::CoinFlipDiscardEnergyFromOpponentActive => coin_outcomes(
            hit_then_one(20, AttackEffect::RemoveRandomOpponentActiveEnergy),
            hit_outcome(20),
        ),
        Mechanic::CoinFlipSetOpponentHpTo { hp } => coin_outcomes(
            hit_then_one(0, AttackEffect::SetOpponentActiveHp { hp: *hp }),
            hit_outcome(0),
        ),
        _ => {
            proof {
                assert(false);
            }
            sure_outcomes(hit_outcome(fixed))
        },
    }
}

/// How many of the first `k` cards of a pile are Pokémon (of type `t` when one is given).
pub open spec fn pokemon_in_pile_upto(pile: Seq<Card>, t: Option<EnergyType>, k: int) -> nat
    decreases k,
{
    if k <= 0 {
        0
    } else {
        pokemon_in_pile_upto(pile, t, k - 1) + match pile[k - 1] {
            Card::Pokemon(p) => if t is None || t == Some(p.energy_type) {
                1nat
            } else {
                0nat
            },
            Card::Trainer(_) => 0nat,
        }
    }
}

/// How many cards of the pile are Pokémon (of type `t` when one is given).
fn pokemon_in_pile_exec(pile: &Vec<Card>, t: Option<EnergyType>) -> (r: usize)
    ensures
        r == pokemon_in_pile_upto(pile@, t, pile@.len() as int),
{
    let mut n: usize = 0;
    let mut k: usize = 0;
    while k < pile.len()
        invariant
            k <= pile@.len(),
            n == pokemon_in_pile_upto(pile@, t, k as int),
            n <= k,
        decreases pile@.len() - k,
    {
        match &pile[k] {
            Card::Pokemon(p) => {
                let counts = match t {
                    None => true,
                    Some(wanted) => p.energy_type == wanted,
                };
                if counts {
                    n = n + 1;
                }
            },
            Card::Trainer(_) => {},
        }
        k = k + 1;
    }
    n
}

/// Drops the remaining HP of `player`'s Active Pokémon to 0.
pub fn knock_out_active(state: &mut State, player: usize)
    requires
        old(state).wf(),
        player < 2,
    ensures
        final(state).wf(),
        final(state)@ == map_slot(old(state)@, player as int, 0, |c: PlayedCard| c.damaged_spec(c.remaining_hp)),
{
    let hp = match &state.in_play_pokemon[player][0] {
        Some(c) => c.remaining_hp,
        None => {
            proof {
                assert(state@.board[player as int] == state.in_play_pokemon@[player as int]@);
                assert(map_slot(state@, player as int, 0, |c: PlayedCard| c.damaged_spec(c.remaining_hp)).board
                    =~~= state@.board);
            }
            return;
        },
    };
    proof {
        assert(state@.board[player as int] == state.in_play_pokemon@[player as int]@);
    }
    crate::apply_action_helpers::damage_slot(state, player, 0, hp);
}

/// The mechanics of healing on a condition, of damage by the Pokémon in the discard pile, of
/// knocking back, of random Bench damage, and of knocking out the opponent's Active Pokémon.
pub open spec fn forecast_group_j(m: Mechanic) -> bool {
    matches!(m, Mechanic::HealSelfIfDefenderPoisoned { .. } | Mechanic::ExtraDamagePerPokemonInDiscard { .. } | Mechanic::ExtraDamagePerPokemonTypeInDiscard { .. } | Mechanic::KnockBackOpponentActive | Mechanic::AlsoRandomBenchDamage { .. } | Mechanic::SelfDiscardAllEnergyAndKnockOutOpponentActive)
}

/// Whether the mechanic is in `forecast_group_j`.
pub fn in_forecast_group_j(m: &Mechanic) -> (r: bool)
    ensures
        r == forecast_group_j(*m),
{
    matches!(m, Mechanic::HealSelfIfDefenderPoisoned { .. } | Mechanic::ExtraDamagePerPokemonInDiscard { .. } | Mechanic::ExtraDamagePerPokemonTypeInDiscard { .. } | Mechanic::KnockBackOpponentActive | Mechanic::AlsoRandomBenchDamage { .. } | Mechanic::SelfDiscardAllEnergyAndKnockOutOpponentActive)
}

/// The forecast of a mechanic of `forecast_group_j`.
pub fn forecast_mechanic_j(state: &State, attack: &Attack, mechanic: &Mechanic) -> (o: AttackOutcomes<
    AttackEffect,
>)
    requires
        state.wf(),
        forecast_group_j(*mechanic),
    ensures
        o.is_distribution(),
        mechanic_forecast(state@, *attack, *mechanic) == Some(attack_view(o)),
{
    let fixed = attack.fixed_damage;
    let cp = state.current_player;
    proof {
        assert(state@.discard_piles[cp as int] == state.discard_piles@[cp as int]@);
    }
    match mechanic {
        Mechanic::HealSelfIfDefenderPoisoned { amount } => {
            sure_outcomes(hit_then_one(fixed, AttackEffect::HealSelfIfOpponentPoisoned { amount: *amount }))
        },
        Mechanic::ExtraDamagePerPokemonInDiscard { damage_per_pokemon } => {
            let n = pokemon_in_pile_exec(&state.discard_piles[cp], None);
            let count = #[verifier::truncate] (n as u32);
            sure_outcomes(hit_outcome(sat_add_exec(fixed, sat_mul_exec(count, *damage_per_pokemon))))
        },
        Mechanic::ExtraDamagePerPokemonTypeInDiscard { energy_type, damage_per_pokemon } => {
            let n = pokemon_in_pile_exec(&state.discard_piles[cp], Some(*energy_type));
            let count = #[verifier::truncate] (n as u32);
            sure_outcomes(hit_outcome(sat_add_exec(fixed, sat_mul_exec(count, *damage_per_pokemon))))
        },
        Mechanic::KnockBackOpponentActive => sure_outcomes(hit_then_one(fixed, AttackEffect::KnockBackOpponent)),
        Mechanic::AlsoRandomBenchDamage { bench_damage } => sure_outcomes(
            hit_then_one(fixed, AttackEffect::RandomOpponentBenchDamage { damage: *bench_damage }),
        ),
        Mechanic::SelfDiscardAllEnergyAndKnockOutOpponentActive => {
            let mut effects: Vec<AttackEffect> = Vec::new();
            effects.push(AttackEffect::DiscardAllOwnActiveEnergy);
            effects.push(AttackEffect::KnockOutOpponentActive);
            proof {
                assert(effects@ =~= seq![AttackEffect::DiscardAllOwnActiveEnergy, AttackEffect::KnockOutOpponentActive]);
            }
            sure_outcomes(hit_then_outcome(0, effects))
        },
        _ => {
            proof {
                assert(false);
            }
            sure_outcomes(hit_outcome(fixed))
        },
    }
}

/// The game after up to `count` cards from the top of `player`'s deck went to their discard
/// pile, in order.
pub open spec fn deck_top_discarded(s: StateView, player: int, count: usize) -> StateView {
    let deck = s.decks[player];
    let k = if count < deck.len() {
        count as int
    } else {
        deck.len() as int
    };
    StateView {
        decks: s.decks.update(player, deck.skip(k)),
        discard_piles: s.discard_piles.update(player, s.discard_piles[player] + deck.take(k)),
        ..s
    }
}

/// `fixed` damage, then as many cards from the top of the opponent's deck discarded as heads.
pub open spec fn per_heads_deck_discard(fixed: u32) -> spec_fn(nat) -> OutcomeView<AttackEffect> {
    |h: nat| hit_then(fixed, seq![AttackEffect::DiscardTopDeck { own: false, count: h as usize }])
}

/// The mechanics that discard from the top of decks, and recoil after a Knock Out.
pub open spec fn forecast_group_k(m: Mechanic) -> bool {
    matches!(m, Mechanic::DamageAndDiscardOpponentDeck { .. } | Mechanic::FlipUntilTailsDiscardOpponentDeck | Mechanic::DiscardTopSelfDeck { .. } | Mechanic::DamageAndDiscardBothDecks { .. } | Mechanic::RecoilIfKo { .. })
}

/// Whether the mechanic is in `forecast_group_k`.
pub fn in_forecast_group_k(m: &Mechanic) -> (r: bool)
    ensures
        r == forecast_group_k(*m),
{
    matches!(m, Mechanic::DamageAndDiscardOpponentDeck { .. } | Mechanic::FlipUntilTailsDiscardOpponentDeck | Mechanic::DiscardTopSelfDeck { .. } | Mechanic::DamageAndDiscardBothDecks { .. } | Mechanic::RecoilIfKo { .. })
}

/// The forecast of a mechanic of `forecast_group_k`.
pub fn forecast_mechanic_k(state: &State, attack: &Attack, mechanic: &Mechanic) -> (o: AttackOutcomes<
    AttackEffect,
>)
    requires
        state.wf(),
        forecast_group_k(*mechanic),
    ensures
        o.is_distribution(),
        mechanic_forecast(state@, *attack, *mechanic) == Some(attack_view(o)),
{
    let fixed = attack.fixed_damage;
    match mechanic {
        Mechanic::DamageAndDiscardOpponentDeck { discard_count } => sure_outcomes(
            hit_then_one(fixed, AttackEffect::DiscardTopDeck { own: false, count: *discard_count }),
        ),
        Mechanic::FlipUntilTailsDiscardOpponentDeck => {
            let mut per: Vec<AttackOutcome<AttackEffect>> = Vec::new();
            let mut h: usize = 0;
            while h <= 8
                invariant
                    h <= 9,
                    per@.len() == h,
                    forall|k: int| 0 <= k < h ==> outcome_view(#[trigger] per@[k]) == (per_heads_deck_discard(fixed))(
                        k as nat,
                    ),
                decreases 9 - h,
            {
                per.push(hit_then_one(fixed, AttackEffect::DiscardTopDeck { own: false, count: h }));
                h = h + 1;
            }
            until_tails_outcomes(8, per, Ghost(per_heads_deck_discard(fixed)))
        },
        Mechanic::DiscardTopSelfDeck { count } => sure_outcomes(
            hit_then_one(fixed, AttackEffect::DiscardTopDeck { own: true, count: *count }),
        ),
        Mechanic::RecoilIfKo { self_damage } => sure_outcomes(
            hit_then_one(fixed, AttackEffect::RecoilIfOpponentKnockedOut { amount: *self_damage }),
        ),
        Mechanic::DamageAndDiscardBothDecks { discard_count } => {
            let mut effects: Vec<AttackEffect> = Vec::new();
            effects.push(AttackEffect::DiscardTopDeck { own: true, count: *discard_count });
            effects.push(AttackEffect::DiscardTopDeck { own: false, count: *discard_count });
            proof {
                assert(effects@ =~= seq![
                    AttackEffect::DiscardTopDeck { own: true, count: *discard_count },
                    AttackEffect::DiscardTopDeck { own: false, count: *discard_count },
                ]);
            }
            sure_outcomes(hit_then_outcome(fixed, effects))
        },
        _ => {
            proof {
                assert(false);
            }
            sure_outcomes(hit_outcome(fixed))
        },
    }
}

/// Whether the `i`-th requested Energy can still be matched: fewer of its type were requested
/// before it than the Pokémon has attached.
pub open spec fn request_matched(attached: Seq<EnergyType>, requested: Seq<EnergyType>, i: int) -> bool {
    count_of(requested.take(i), requested[i]) < count_of(attached, requested[i])
}

/// The requested Energy that the attached Energy covers, in request order: each requested
/// Energy is kept while the Pokémon has one of its type left that was not matched before.
pub open spec fn requested_available_upto(attached: Seq<EnergyType>, requested: Seq<EnergyType>, n: int) -> Seq<
    EnergyType,
>
    decreases n,
{
    if n <= 0 {
        Seq::empty()
    } else {
        let prev = requested_available_upto(attached, requested, n - 1);
        if request_matched(attached, requested, n - 1) {
            prev.push(requested[n - 1])
        } else {
            prev
        }
    }
}

/// The Energy of `requested` that `active` has attached, as many of each type as it has, in
/// request order.
pub fn available_requested_energy_to_discard(active: &PlayedCard, requested: &Vec<EnergyType>) -> (r: Vec<
    EnergyType,
>)
    ensures
        r@ == requested_available_upto(active.attached_energy@, requested@, requested@.len() as int),
{
    let mut r: Vec<EnergyType> = Vec::new();
    let mut i: usize = 0;
    while i < requested.len()
        invariant
            i <= requested@.len(),
            r@ == requested_available_upto(active.attached_energy@, requested@, i as int),
        decreases requested@.len() - i,
    {
        let e = requested[i];
        let mut before: Vec<EnergyType> = Vec::new();
        let mut j: usize = 0;
        while j < i
            invariant
                j <= i,
                i < requested@.len(),
                before@ == requested@.subrange(0, j as int),
            decreases i - j,
        {
            before.push(requested[j]);
            j = j + 1;
            proof {
                assert(before@ =~= requested@.subrange(0, j as int));
            }
        }
        proof {
            assert(before@ =~= requested@.take(i as int));
        }
        if count_exec(&before, e) < count_exec(&active.attached_energy, e) {
            r.push(e);
        }
        i = i + 1;
    }
    r
}

} // verus!
