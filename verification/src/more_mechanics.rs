//! Attack mechanics that count Energy or types, remember the last turn, charge or cure the
//! attacker, or heal it by the damage it dealt; and the attack effects they need.

use vstd::prelude::*;

use crate::apply_action_helpers::{clear_status_slot, copy_trainer_card, heal_slot, map_slot, push_discard};
use crate::apply_attack_action::{
    active_of, per_heads_hit, per_heads_hits, bonus_hit, by_heads, by_heads_outcomes, coin, coins_in_range, coin_outcomes, copy_energies, count_exec, count_of, hit, hit_outcome,
    hit_then, hit_then_outcome, sat_add, sat_add_exec, sat_mul, sat_mul_exec, sure, sure_outcomes,
    attack_view, effects_only, pushed, top_choices, AttackEffect, AttackView,
};
use crate::apply_trainer_action::set_slot_energy;
use crate::attack_outcome::{outcome_view, AttackOutcome, AttackOutcomes, DamageTarget};
use crate::attacks::Mechanic;
use crate::card_effect_mechanics::card_effect_forecast;
use crate::board_mechanics::{both_status_effects, both_status_effects_exec, energy_set};
use crate::energy_removal::{repeated, repeated_exec};
use crate::trainer_effects::{hand_card_shuffled_in, push_for};
use crate::models::{sat_sub, Attack, Card, EnergyType, PlayedCard, StatusCondition};
use crate::state::{SimpleAction, State, StateView};

verus! {

/// Every Energy type, in a fixed order.
pub open spec fn all_energy_types() -> Seq<EnergyType> {
    seq![
        EnergyType::Grass,
        EnergyType::Fire,
        EnergyType::Water,
        EnergyType::Lightning,
        EnergyType::Psychic,
        EnergyType::Fighting,
        EnergyType::Darkness,
        EnergyType::Metal,
        EnergyType::Dragon,
        EnergyType::Colorless,
    ]
}

/// How many of the first `n` Energy types of `all_energy_types` occur in `es`.
pub open spec fn types_present_upto(es: Seq<EnergyType>, n: int) -> nat
    decreases n,
{
    if n <= 0 {
        0
    } else {
        types_present_upto(es, n - 1) + if count_of(es, all_energy_types()[n - 1]) > 0 {
            1nat
        } else {
            0nat
        }
    }
}

/// How many different Energy types occur in `es`.
pub open spec fn distinct_types(es: Seq<EnergyType>) -> nat {
    types_present_upto(es, 10)
}

/// The Energy attached to the Pokémon in slots 0 to `i - 1` of a side, slot by slot.
pub open spec fn side_energy(side: Seq<Option<PlayedCard>>, i: int) -> Seq<EnergyType>
    decreases i,
{
    if i <= 0 {
        Seq::empty()
    } else {
        side_energy(side, i - 1) + match side[i - 1] {
            Some(c) => c.attached_energy@,
            None => Seq::empty(),
        }
    }
}

/// Whether one of the attacker's player's Pokémon (of type `t`, when given) was Knocked Out by
/// an opponent's attack during the opponent's last turn.
pub open spec fn knocked_out_last_turn(s: StateView, t: Option<EnergyType>) -> bool {
    &&& s.knocked_out_by_opponent_attack_last_turn
    &&& match t {
        None => true,
        Some(w) => s.knocked_out_types_last_turn.contains(Some(w)),
    }
}

/// One attach effect per Energy, in order.
pub open spec fn attach_effects(es: Seq<EnergyType>) -> Seq<AttackEffect> {
    es.map_values(|e: EnergyType| AttackEffect::AttachEnergyToSelf { energy_type: e })
}

/// The mechanics of this module.
pub open spec fn forecast_group_p(m: Mechanic) -> bool {
    matches!(m, Mechanic::ExtraDamagePerEnergy { .. } | Mechanic::ExtraDamagePerEnergyType { .. } | Mechanic::DamagePerEnergyAll { .. } | Mechanic::ExtraDamageIfDifferentEnergyTypesAttached { .. } | Mechanic::ExtraDamageIfDifferentEnergyTypesInPlay { .. } | Mechanic::ExtraDamageIfKnockedOutLastTurn { .. } | Mechanic::SelfChargeActive { .. } | Mechanic::CoinFlipSelfChargeActive { .. } | Mechanic::SelfCureStatusConditions | Mechanic::HealEqualToDamageDealt | Mechanic::CoinFlipsAttachEnergyToSelf { .. } | Mechanic::ShuffleRandomOpponentHandCardIntoDeck | Mechanic::CoinFlipShuffleRandomOpponentHandCardIntoDeck | Mechanic::ExtraDamageIfKnockedOutLastTurnAndInflictStatus { .. } | Mechanic::SelfDiscardAllTypesEnergyDamagePerDiscarded { .. } | Mechanic::DiscardToolsFromOpponentActive | Mechanic::DiscardOpponentActiveToolsBeforeDamage | Mechanic::InflictStatusAndShuffleSelfIntoDeck { .. } | Mechanic::ExtraDamageIfOpponentHandSizeIs { .. } | Mechanic::ExtraDamageIfHandsAreEqual { .. } | Mechanic::ExtraDamageIfEqualEnergyCount { .. } | Mechanic::ExtraDamageIfSharedEnergyType { .. } | Mechanic::ExtraDamageIfDefenderIsEvolution { .. } | Mechanic::InflictStatusOnBothActive { .. } | Mechanic::NothingUnlessMovedFromBench | Mechanic::RevealOnly | Mechanic::ExtraDamageForEachHeadsWithToolBoost { .. })
}

/// Whether the mechanic is in `forecast_group_p`.
pub fn in_forecast_group_p(m: &Mechanic) -> (r: bool)
    ensures
        r == forecast_group_p(*m),
{
    matches!(m, Mechanic::ExtraDamagePerEnergy { .. } | Mechanic::ExtraDamagePerEnergyType { .. } | Mechanic::DamagePerEnergyAll { .. } | Mechanic::ExtraDamageIfDifferentEnergyTypesAttached { .. } | Mechanic::ExtraDamageIfDifferentEnergyTypesInPlay { .. } | Mechanic::ExtraDamageIfKnockedOutLastTurn { .. } | Mechanic::SelfChargeActive { .. } | Mechanic::CoinFlipSelfChargeActive { .. } | Mechanic::SelfCureStatusConditions | Mechanic::HealEqualToDamageDealt | Mechanic::CoinFlipsAttachEnergyToSelf { .. } | Mechanic::ShuffleRandomOpponentHandCardIntoDeck | Mechanic::CoinFlipShuffleRandomOpponentHandCardIntoDeck | Mechanic::ExtraDamageIfKnockedOutLastTurnAndInflictStatus { .. } | Mechanic::SelfDiscardAllTypesEnergyDamagePerDiscarded { .. } | Mechanic::DiscardToolsFromOpponentActive | Mechanic::DiscardOpponentActiveToolsBeforeDamage | Mechanic::InflictStatusAndShuffleSelfIntoDeck { .. } | Mechanic::ExtraDamageIfOpponentHandSizeIs { .. } | Mechanic::ExtraDamageIfHandsAreEqual { .. } | Mechanic::ExtraDamageIfEqualEnergyCount { .. } | Mechanic::ExtraDamageIfSharedEnergyType { .. } | Mechanic::ExtraDamageIfDefenderIsEvolution { .. } | Mechanic::InflictStatusOnBothActive { .. } | Mechanic::NothingUnlessMovedFromBench | Mechanic::RevealOnly | Mechanic::ExtraDamageForEachHeadsWithToolBoost { .. })
}

/// The forecast of the mechanics of this module (`None` for the others).
pub open spec fn more_mechanic_forecast(s: StateView, attack: Attack, m: Mechanic) -> Option<AttackView> {
    let fixed = attack.fixed_damage;
    let cp = s.current_player as int;
    let opp = 1 - cp;
    let attacker = active_of(s, cp);
    let defender = active_of(s, opp);
    match m {
        Mechanic::ExtraDamagePerEnergy { include_fixed_damage, opponent, damage_per_energy } => {
            let target = if opponent {
                defender
            } else {
                attacker
            };
            let base = if include_fixed_damage {
                fixed
            } else {
                0
            };
            Some(sure(hit(sat_add(base, sat_mul(target.attached_energy@.len() as u32, damage_per_energy)))))
        },
        Mechanic::ExtraDamagePerEnergyType { damage_per_type } => Some(
            sure(hit(sat_add(fixed, sat_mul(distinct_types(attacker.attached_energy@) as u32, damage_per_type)))),
        ),
        Mechanic::DamagePerEnergyAll { include_fixed_damage, opponent, damage_per_energy } => {
            let side = if opponent {
                s.board[opp]
            } else {
                s.board[cp]
            };
            let base = if include_fixed_damage {
                fixed
            } else {
                0
            };
            Some(sure(hit(sat_add(base, sat_mul(side_energy(side, 4).len() as u32, damage_per_energy)))))
        },
        Mechanic::ExtraDamageIfDifferentEnergyTypesAttached { minimum_types, extra_damage } => Some(
            sure(bonus_hit(fixed, distinct_types(attacker.attached_energy@) >= minimum_types, extra_damage)),
        ),
        Mechanic::ExtraDamageIfDifferentEnergyTypesInPlay { minimum_types, extra_damage } => Some(
            sure(bonus_hit(fixed, distinct_types(side_energy(s.board[cp], 4)) >= minimum_types, extra_damage)),
        ),
        Mechanic::ExtraDamageIfKnockedOutLastTurn { energy_type, extra_damage } => Some(
            sure(bonus_hit(fixed, knocked_out_last_turn(s, energy_type), extra_damage)),
        ),
        Mechanic::SelfChargeActive { energies } => Some(sure(hit_then(fixed, attach_effects(energies@)))),
        Mechanic::CoinFlipSelfChargeActive { energies } => Some(
            coin(hit_then(fixed, attach_effects(energies@)), hit(fixed)),
        ),
        Mechanic::SelfCureStatusConditions => Some(sure(hit_then(fixed, seq![AttackEffect::CureSelfStatus]))),
        Mechanic::HealEqualToDamageDealt => Some(
            sure(
                hit_then(
                    fixed,
                    seq![AttackEffect::HealSelfByDamageDealt { hp_before: defender.remaining_hp }],
                ),
            ),
        ),
        Mechanic::CoinFlipsAttachEnergyToSelf { num_coins, energy_type } => Some(
            by_heads(
                num_coins as nat,
                |h: nat| hit_then(0, repeated(AttackEffect::AttachEnergyToSelf { energy_type }, h)),
            ),
        ),
        Mechanic::ShuffleRandomOpponentHandCardIntoDeck => Some(
            sure(hit_then(fixed, seq![AttackEffect::ShuffleRandomOpponentHandCard])),
        ),
        Mechanic::CoinFlipShuffleRandomOpponentHandCardIntoDeck => Some(
            coin(hit_then(0, seq![AttackEffect::ShuffleRandomOpponentHandCard]), hit(0)),
        ),
        Mechanic::ExtraDamageIfKnockedOutLastTurnAndInflictStatus { extra_damage, conditions } => Some(
            if knocked_out_last_turn(s, None) {
                sure(hit_then(sat_add(fixed, extra_damage), opponent_statuses(conditions@)))
            } else {
                sure(hit(fixed))
            },
        ),
        Mechanic::SelfDiscardAllTypesEnergyDamagePerDiscarded { energy_types, damage_per_energy } => Some(
            sure(
                hit_then(
                    sat_mul(matching_count(attacker.attached_energy@, energy_types@) as u32, damage_per_energy),
                    own_type_discards(energy_types@),
                ),
            ),
        ),
        Mechanic::DiscardToolsFromOpponentActive => Some(
            sure(hit_then(fixed, seq![AttackEffect::DiscardOpponentActiveTool])),
        ),
        Mechanic::DiscardOpponentActiveToolsBeforeDamage => Some(
            sure((seq![(fixed, true, 0usize)], seq![AttackEffect::DiscardOpponentActiveTool], Seq::empty(), Seq::empty())),
        ),
        Mechanic::InflictStatusAndShuffleSelfIntoDeck { conditions } => Some(
            sure(hit_then(fixed, opponent_statuses(conditions@).push(AttackEffect::OfferShuffleActiveIntoDeck))),
        ),
        Mechanic::ExtraDamageIfOpponentHandSizeIs { hand_sizes, extra_damage } => Some(
            sure(bonus_hit(fixed, hand_sizes@.contains(s.hands[opp].len() as usize), extra_damage)),
        ),
        Mechanic::ExtraDamageIfHandsAreEqual { extra_damage } => Some(
            sure(bonus_hit(fixed, s.hands[cp].len() == s.hands[opp].len(), extra_damage)),
        ),
        Mechanic::ExtraDamageIfEqualEnergyCount { extra_damage } => Some(
            sure(bonus_hit(fixed, attacker.attached_energy@.len() == defender.attached_energy@.len(), extra_damage)),
        ),
        Mechanic::ExtraDamageIfSharedEnergyType { extra_damage } => Some(
            sure(bonus_hit(fixed, shared_types_upto(attacker.attached_energy@, defender.attached_energy@, 10) > 0, extra_damage)),
        ),
        Mechanic::ExtraDamageIfDefenderIsEvolution { extra_damage } => Some(
            sure(bonus_hit(fixed, defender.card matches Card::Pokemon(p) && p.stage > 0, extra_damage)),
        ),
        Mechanic::InflictStatusOnBothActive { conditions } => Some(
            sure(hit_then(fixed, both_status_effects(conditions@))),
        ),
        Mechanic::NothingUnlessMovedFromBench => Some(
            if attacker.moved_to_active_this_turn {
                sure(hit(fixed))
            } else {
                sure(effects_only(Seq::empty()))
            },
        ),
        Mechanic::RevealOnly => Some(sure(hit(fixed))),
        Mechanic::ExtraDamageForEachHeadsWithToolBoost { num_coins, damage_per_head, boosted_num_coins, tool } => {
            let n = if attacker.attached_tool matches Some(t) && t.id == tool {
                boosted_num_coins
            } else {
                num_coins
            };
            Some(by_heads(n as nat, per_heads_hit(0, damage_per_head)))
        },
        _ => card_effect_forecast(s, attack, m),
    }
}

/// How many of the first `n` Energy types of `all_energy_types` occur in both `a` and `b`.
pub open spec fn shared_types_upto(a: Seq<EnergyType>, b: Seq<EnergyType>, n: int) -> nat
    decreases n,
{
    if n <= 0 {
        0
    } else {
        shared_types_upto(a, b, n - 1) + if count_of(a, all_energy_types()[n - 1]) > 0 && count_of(
            b,
            all_energy_types()[n - 1],
        ) > 0 {
            1nat
        } else {
            0nat
        }
    }
}

/// How many Energy types occur in both `a` and `b`.
fn shared_types_exec(a: &Vec<EnergyType>, b: &Vec<EnergyType>) -> (r: u32)
    ensures
        r == shared_types_upto(a@, b@, 10),
{
    let types: [EnergyType; 10] = [
        EnergyType::Grass,
        EnergyType::Fire,
        EnergyType::Water,
        EnergyType::Lightning,
        EnergyType::Psychic,
        EnergyType::Fighting,
        EnergyType::Darkness,
        EnergyType::Metal,
        EnergyType::Dragon,
        EnergyType::Colorless,
    ];
    assert(types@ =~= all_energy_types());
    let mut n: u32 = 0;
    let mut i: usize = 0;
    while i < 10
        invariant
            i <= 10,
            types@ == all_energy_types(),
            n == shared_types_upto(a@, b@, i as int),
            n <= i,
        decreases 10 - i,
    {
        if count_exec(a, types[i]) > 0 && count_exec(b, types[i]) > 0 {
            n = n + 1;
        }
        i = i + 1;
    }
    n
}

/// A Special Condition on the opponent's Active Pokémon for each of `cs`, in order.
pub open spec fn opponent_statuses(cs: Seq<StatusCondition>) -> Seq<AttackEffect> {
    cs.map_values(|c: StatusCondition| AttackEffect::InflictStatus { on_opponent: true, condition: c })
}

/// The attacker loses all its Energy of each type of `ts`, type by type.
pub open spec fn own_type_discards(ts: Seq<EnergyType>) -> Seq<AttackEffect> {
    ts.map_values(|t: EnergyType| AttackEffect::DiscardOwnActiveEnergyMatching { energy_type: Some(t) })
}

/// How many Energy of `es` are of one of the types of `ts`.
pub open spec fn matching_count(es: Seq<EnergyType>, ts: Seq<EnergyType>) -> nat
    decreases es.len(),
{
    if es.len() == 0 {
        0
    } else {
        matching_count(es.drop_last(), ts) + if ts.contains(es.last()) {
            1nat
        } else {
            0nat
        }
    }
}

/// How many Energy of `es` are of one of the types of `ts`.
fn matching_count_exec(es: &Vec<EnergyType>, ts: &Vec<EnergyType>) -> (r: usize)
    ensures
        r == matching_count(es@, ts@),
        r <= es@.len(),
{
    let mut r: usize = 0;
    let mut i: usize = 0;
    while i < es.len()
        invariant
            i <= es@.len(),
            r == matching_count(es@.subrange(0, i as int), ts@),
            r <= i,
        decreases es@.len() - i,
    {
        let mut hit = false;
        let mut j: usize = 0;
        while j < ts.len()
            invariant
                i < es@.len(),
                j <= ts@.len(),
                hit == exists|k: int| 0 <= k < j && ts@[k] == es@[i as int],
            decreases ts@.len() - j,
        {
            if ts[j] == es[i] {
                hit = true;
            }
            j = j + 1;
        }
        proof {
            let sub = es@.subrange(0, i as int + 1);
            assert(sub.drop_last() =~= es@.subrange(0, i as int));
            assert(sub.last() == es@[i as int]);
            if hit {
                let k = choose|k: int| 0 <= k < ts@.len() && ts@[k] == es@[i as int];
                assert(ts@.contains(es@[i as int]));
            }
            if ts@.contains(es@[i as int]) {
                let k = choose|k: int| 0 <= k < ts@.len() && ts@[k] == es@[i as int];
                assert(ts@[k] == es@[i as int]);
            }
        }
        if hit {
            r = r + 1;
        }
        i = i + 1;
    }
    proof {
        assert(es@.subrange(0, es@.len() as int) =~= es@);
    }
    r
}

/// A Special Condition on the opponent's Active Pokémon for each of `cs`, in order.
pub(crate) fn opponent_statuses_exec(cs: &Vec<StatusCondition>) -> (r: Vec<AttackEffect>)
    ensures
        r@ == opponent_statuses(cs@),
{
    let mut r: Vec<AttackEffect> = Vec::new();
    let mut i: usize = 0;
    while i < cs.len()
        invariant
            i <= cs@.len(),
            r@ == opponent_statuses(cs@.subrange(0, i as int)),
        decreases cs@.len() - i,
    {
        r.push(AttackEffect::InflictStatus { on_opponent: true, condition: cs[i] });
        i = i + 1;
        proof {
            assert(r@ =~= opponent_statuses(cs@.subrange(0, i as int)));
        }
    }
    proof {
        assert(cs@.subrange(0, cs@.len() as int) =~= cs@);
    }
    r
}

/// The attacker loses all its Energy of each type of `ts`, type by type.
fn own_type_discards_exec(ts: &Vec<EnergyType>) -> (r: Vec<AttackEffect>)
    ensures
        r@ == own_type_discards(ts@),
{
    let mut r: Vec<AttackEffect> = Vec::new();
    let mut i: usize = 0;
    while i < ts.len()
        invariant
            i <= ts@.len(),
            r@ == own_type_discards(ts@.subrange(0, i as int)),
        decreases ts@.len() - i,
    {
        r.push(AttackEffect::DiscardOwnActiveEnergyMatching { energy_type: Some(ts[i]) });
        i = i + 1;
        proof {
            assert(r@ =~= own_type_discards(ts@.subrange(0, i as int)));
        }
    }
    proof {
        assert(ts@.subrange(0, ts@.len() as int) =~= ts@);
    }
    r
}

/// How many different Energy types occur in `es`.
fn distinct_types_exec(es: &Vec<EnergyType>) -> (r: u32)
    ensures
        r == distinct_types(es@),
        r <= 10,
{
    let types: [EnergyType; 10] = [
        EnergyType::Grass,
        EnergyType::Fire,
        EnergyType::Water,
        EnergyType::Lightning,
        EnergyType::Psychic,
        EnergyType::Fighting,
        EnergyType::Darkness,
        EnergyType::Metal,
        EnergyType::Dragon,
        EnergyType::Colorless,
    ];
    assert(types@ =~= all_energy_types());
    let mut n: u32 = 0;
    let mut i: usize = 0;
    while i < 10
        invariant
            i <= 10,
            types@ == all_energy_types(),
            n == types_present_upto(es@, i as int),
            n <= i,
        decreases 10 - i,
    {
        if count_exec(es, types[i]) > 0 {
            n = n + 1;
        }
        i = i + 1;
    }
    n
}

/// The Energy attached to the Pokémon of a side, slot by slot.
fn side_energy_exec(side: &Vec<Option<PlayedCard>>) -> (r: Vec<EnergyType>)
    requires
        side@.len() == 4,
    ensures
        r@ == side_energy(side@, 4),
{
    let mut r: Vec<EnergyType> = Vec::new();
    let mut i: usize = 0;
    while i < 4
        invariant
            i <= 4,
            side@.len() == 4,
            r@ == side_energy(side@, i as int),
        decreases 4 - i,
    {
        match &side[i] {
            Some(c) => {
                let mut more = copy_energies(&c.attached_energy);
                r.append(&mut more);
            },
            None => {
                proof {
                    assert(r@ =~= r@ + Seq::<EnergyType>::empty());
                }
            },
        }
        i = i + 1;
    }
    r
}

/// A count as damage units: the count itself, or `u32::MAX` when it does not fit.
fn count_u32(n: usize) -> (r: u32)
    ensures
        r == n as u32 || n > u32::MAX,
        n <= u32::MAX ==> r == n,
{
    if n > u32::MAX as usize {
        u32::MAX
    } else {
        n as u32
    }
}

/// One attach effect per Energy, in order.
fn attach_effects_exec(es: &Vec<EnergyType>) -> (r: Vec<AttackEffect>)
    ensures
        r@ == attach_effects(es@),
{
    let mut r: Vec<AttackEffect> = Vec::new();
    let mut i: usize = 0;
    while i < es.len()
        invariant
            i <= es@.len(),
            r@ == attach_effects(es@.subrange(0, i as int)),
        decreases es@.len() - i,
    {
        r.push(AttackEffect::AttachEnergyToSelf { energy_type: es[i] });
        i = i + 1;
        proof {
            assert(r@ =~= attach_effects(es@.subrange(0, i as int)));
        }
    }
    proof {
        assert(es@.subrange(0, es@.len() as int) =~= es@);
    }
    r
}

/// `fixed`, plus `extra` when `bonus` holds, to the opponent's Active Pokémon.
fn bonus_outcomes_p(fixed: u32, bonus: bool, extra: u32) -> (r: AttackOutcomes<AttackEffect>)
    ensures
        r.is_distribution(),
        attack_view(r) == sure(bonus_hit(fixed, bonus, extra)),
{
    sure_outcomes(
        hit_outcome(
            if bonus {
                sat_add_exec(fixed, extra)
            } else {
                fixed
            },
        ),
    )
}

/// The forecast of a mechanic of `forecast_group_p`.
pub fn forecast_mechanic_p(state: &State, attack: &Attack, mechanic: &Mechanic) -> (o: AttackOutcomes<
    AttackEffect,
>)
    requires
        state.wf(),
        state@.slot(state.current_player as int, 0) is Some,
        state@.slot(1 - state.current_player, 0) is Some,
        forecast_group_p(*mechanic),
        coins_in_range(*mechanic),
    ensures
        o.is_distribution(),
        more_mechanic_forecast(state@, *attack, *mechanic) == Some(attack_view(o)),
{
    let fixed = attack.fixed_damage;
    let cp = state.current_player;
    let opp = 1 - cp;
    let attacker = state.get_active(cp);
    let defender = state.get_active(opp);
    proof {
        assert(state@.board[cp as int] == state.in_play_pokemon@[cp as int]@);
        assert(state@.board[opp as int] == state.in_play_pokemon@[opp as int]@);
    }
    match mechanic {
        Mechanic::ExtraDamagePerEnergy { include_fixed_damage, opponent, damage_per_energy } => {
            let target = if *opponent {
                defender
            } else {
                attacker
            };
            let base = if *include_fixed_damage {
                fixed
            } else {
                0
            };
            let n = #[verifier::truncate] (target.attached_energy.len() as u32);
            sure_outcomes(hit_outcome(sat_add_exec(base, sat_mul_exec(n, *damage_per_energy))))
        },
        Mechanic::ExtraDamagePerEnergyType { damage_per_type } => {
            let n = distinct_types_exec(&attacker.attached_energy);
            sure_outcomes(hit_outcome(sat_add_exec(fixed, sat_mul_exec(n, *damage_per_type))))
        },
        Mechanic::DamagePerEnergyAll { include_fixed_damage, opponent, damage_per_energy } => {
            let side = if *opponent {
                opp
            } else {
                cp
            };
            let all = side_energy_exec(&state.in_play_pokemon[side]);
            let base = if *include_fixed_damage {
                fixed
            } else {
                0
            };
            let n = #[verifier::truncate] (all.len() as u32);
            sure_outcomes(hit_outcome(sat_add_exec(base, sat_mul_exec(n, *damage_per_energy))))
        },
        Mechanic::ExtraDamageIfDifferentEnergyTypesAttached { minimum_types, extra_damage } => {
            let n = distinct_types_exec(&attacker.attached_energy);
            bonus_outcomes_p(fixed, n as usize >= *minimum_types, *extra_damage)
        },
        Mechanic::ExtraDamageIfDifferentEnergyTypesInPlay { minimum_types, extra_damage } => {
            let all = side_energy_exec(&state.in_play_pokemon[cp]);
            let n = distinct_types_exec(&all);
            bonus_outcomes_p(fixed, n as usize >= *minimum_types, *extra_damage)
        },
        Mechanic::ExtraDamageIfKnockedOutLastTurn { energy_type, extra_damage } => {
            let mut found = match energy_type {
                None => true,
                Some(_) => false,
            };
            let types = &state.knocked_out_types_last_turn;
            let mut i: usize = 0;
            while i < types.len()
                invariant
                    i <= types@.len(),
                    match *energy_type {
                        None => found,
                        Some(w) => found == exists|k: int| 0 <= k < i && types@[k] == Some(w),
                    },
                decreases types@.len() - i,
            {
                match energy_type {
                    Some(w) => {
                        if types[i] == Some(*w) {
                            found = true;
                        }
                    },
                    None => {},
                }
                i = i + 1;
            }
            proof {
                match *energy_type {
                    Some(w) => {
                        if found {
                            let k = choose|k: int| 0 <= k < types@.len() && types@[k] == Some(w);
                            assert(state@.knocked_out_types_last_turn.contains(Some(w)));
                        }
                        if state@.knocked_out_types_last_turn.contains(Some(w)) {
                            let k = choose|k: int|
                                0 <= k < types@.len() && state@.knocked_out_types_last_turn[k] == Some(w);
                            assert(types@[k] == Some(w));
                        }
                    },
                    None => {},
                }
            }
            bonus_outcomes_p(fixed, state.knocked_out_by_opponent_attack_last_turn && found, *extra_damage)
        },
        Mechanic::SelfChargeActive { energies } => {
            sure_outcomes(hit_then_outcome(fixed, attach_effects_exec(energies)))
        },
        Mechanic::CoinFlipSelfChargeActive { energies } => {
            coin_outcomes(hit_then_outcome(fixed, attach_effects_exec(energies)), hit_outcome(fixed))
        },
        Mechanic::SelfCureStatusConditions => {
            let mut es: Vec<AttackEffect> = Vec::new();
            es.push(AttackEffect::CureSelfStatus);
            proof {
                assert(es@ =~= seq![AttackEffect::CureSelfStatus]);
            }
            sure_outcomes(hit_then_outcome(fixed, es))
        },
        Mechanic::CoinFlipsAttachEnergyToSelf { num_coins, energy_type } => {
            let n = *num_coins;
            let t = *energy_type;
            let ghost f = |h: nat| hit_then(0, repeated(AttackEffect::AttachEnergyToSelf { energy_type: t }, h));
            let mut per: Vec<AttackOutcome<AttackEffect>> = Vec::new();
            let mut h: usize = 0;
            while h <= n
                invariant
                    n < 32,
                    h <= n + 1,
                    per@.len() == h,
                    f == (|h: nat| hit_then(0, repeated(AttackEffect::AttachEnergyToSelf { energy_type: t }, h))),
                    forall|k: int| 0 <= k < h ==> outcome_view(#[trigger] per@[k]) == f(k as nat),
                decreases n + 1 - h,
            {
                per.push(hit_then_outcome(0, repeated_exec(AttackEffect::AttachEnergyToSelf { energy_type: t }, h)));
                h = h + 1;
            }
            by_heads_outcomes(n, per, Ghost(f))
        },
        Mechanic::ShuffleRandomOpponentHandCardIntoDeck => {
            let mut es: Vec<AttackEffect> = Vec::new();
            es.push(AttackEffect::ShuffleRandomOpponentHandCard);
            proof {
                assert(es@ =~= seq![AttackEffect::ShuffleRandomOpponentHandCard]);
            }
            sure_outcomes(hit_then_outcome(fixed, es))
        },
        Mechanic::CoinFlipShuffleRandomOpponentHandCardIntoDeck => {
            let mut es: Vec<AttackEffect> = Vec::new();
            es.push(AttackEffect::ShuffleRandomOpponentHandCard);
            proof {
                assert(es@ =~= seq![AttackEffect::ShuffleRandomOpponentHandCard]);
            }
            coin_outcomes(hit_then_outcome(0, es), hit_outcome(0))
        },
        Mechanic::ExtraDamageIfKnockedOutLastTurnAndInflictStatus { extra_damage, conditions } => {
            if state.knocked_out_by_opponent_attack_last_turn {
                sure_outcomes(hit_then_outcome(sat_add_exec(fixed, *extra_damage), opponent_statuses_exec(conditions)))
            } else {
                sure_outcomes(hit_outcome(fixed))
            }
        },
        Mechanic::SelfDiscardAllTypesEnergyDamagePerDiscarded { energy_types, damage_per_energy } => {
            let n = matching_count_exec(&attacker.attached_energy, energy_types);
            let d = sat_mul_exec(#[verifier::truncate] (n as u32), *damage_per_energy);
            sure_outcomes(hit_then_outcome(d, own_type_discards_exec(energy_types)))
        },
        Mechanic::DiscardToolsFromOpponentActive => {
            let mut es: Vec<AttackEffect> = Vec::new();
            es.push(AttackEffect::DiscardOpponentActiveTool);
            proof {
                assert(es@ =~= seq![AttackEffect::DiscardOpponentActiveTool]);
            }
            sure_outcomes(hit_then_outcome(fixed, es))
        },
        Mechanic::DiscardOpponentActiveToolsBeforeDamage => {
            let mut targets: Vec<DamageTarget> = Vec::new();
            targets.push((fixed, true, 0));
            let mut pre: Vec<AttackEffect> = Vec::new();
            pre.push(AttackEffect::DiscardOpponentActiveTool);
            let o = AttackOutcome {
                damage: targets,
                pre_damage_effects: pre,
                post_damage_effects: Vec::new(),
                survivors_at_10: Vec::new(),
            };
            proof {
                assert(outcome_view(o).0 =~= seq![(fixed, true, 0usize)]);
                assert(outcome_view(o).1 =~= seq![AttackEffect::DiscardOpponentActiveTool]);
                assert(outcome_view(o).2 =~= Seq::<AttackEffect>::empty());
                assert(outcome_view(o).3 =~= Seq::<usize>::empty());
            }
            sure_outcomes(o)
        },
        Mechanic::InflictStatusAndShuffleSelfIntoDeck { conditions } => {
            let mut es = opponent_statuses_exec(conditions);
            es.push(AttackEffect::OfferShuffleActiveIntoDeck);
            sure_outcomes(hit_then_outcome(fixed, es))
        },
        Mechanic::ExtraDamageIfOpponentHandSizeIs { hand_sizes, extra_damage } => {
            proof {
                assert(state@.hands[opp as int] == state.hands@[opp as int]@);
            }
            let size = state.hands[opp].len();
            let mut found = false;
            let mut i: usize = 0;
            while i < hand_sizes.len()
                invariant
                    i <= hand_sizes@.len(),
                    found == exists|k: int| 0 <= k < i && hand_sizes@[k] == size,
                decreases hand_sizes@.len() - i,
            {
                if hand_sizes[i] == size {
                    found = true;
                }
                i = i + 1;
            }
            proof {
                if found {
                    let k = choose|k: int| 0 <= k < hand_sizes@.len() && hand_sizes@[k] == size;
                    assert(hand_sizes@.contains(size));
                }
            }
            bonus_outcomes_p(fixed, found, *extra_damage)
        },
        Mechanic::ExtraDamageIfHandsAreEqual { extra_damage } => {
            proof {
                assert(state@.hands[opp as int] == state.hands@[opp as int]@);
                assert(state@.hands[cp as int] == state.hands@[cp as int]@);
            }
            bonus_outcomes_p(fixed, state.hands[cp].len() == state.hands[opp].len(), *extra_damage)
        },
        Mechanic::ExtraDamageIfEqualEnergyCount { extra_damage } => {
            bonus_outcomes_p(fixed, attacker.attached_energy.len() == defender.attached_energy.len(), *extra_damage)
        },
        Mechanic::ExtraDamageIfSharedEnergyType { extra_damage } => {
            let n = shared_types_exec(&attacker.attached_energy, &defender.attached_energy);
            bonus_outcomes_p(fixed, n > 0, *extra_damage)
        },
        Mechanic::ExtraDamageIfDefenderIsEvolution { extra_damage } => {
            let evolved = match &defender.card {
                Card::Pokemon(p) => p.stage > 0,
                Card::Trainer(_) => false,
            };
            bonus_outcomes_p(fixed, evolved, *extra_damage)
        },
        Mechanic::InflictStatusOnBothActive { conditions } => {
            sure_outcomes(hit_then_outcome(fixed, both_status_effects_exec(conditions)))
        },
        Mechanic::NothingUnlessMovedFromBench => {
            if attacker.moved_to_active_this_turn {
                sure_outcomes(hit_outcome(fixed))
            } else {
                let o = AttackOutcome::noop();
                proof {
                    assert(outcome_view(o).0 =~= Seq::<DamageTarget>::empty());
                    assert(outcome_view(o).1 =~= Seq::<AttackEffect>::empty());
                    assert(outcome_view(o).2 =~= Seq::<AttackEffect>::empty());
                    assert(outcome_view(o).3 =~= Seq::<usize>::empty());
                }
                sure_outcomes(o)
            }
        },
        Mechanic::RevealOnly => sure_outcomes(hit_outcome(fixed)),
        Mechanic::ExtraDamageForEachHeadsWithToolBoost { num_coins, damage_per_head, boosted_num_coins, tool } => {
            let boosted = match &attacker.attached_tool {
                Some(t) => t.id == *tool,
                None => false,
            };
            let n = if boosted {
                *boosted_num_coins
            } else {
                *num_coins
            };
            let per_heads = per_heads_hits(n, 0, *damage_per_head);
            by_heads_outcomes(n, per_heads, Ghost(per_heads_hit(0, *damage_per_head)))
        },
        _ => {
            let mut es: Vec<AttackEffect> = Vec::new();
            es.push(AttackEffect::HealSelfByDamageDealt { hp_before: defender.remaining_hp });
            proof {
                assert(es@ =~= seq![AttackEffect::HealSelfByDamageDealt { hp_before: defender.remaining_hp }]);
            }
            sure_outcomes(hit_then_outcome(fixed, es))
        },
    }
}

/// The attacker after every Special Condition was removed.
pub open spec fn all_cured(s: StateView, player: int) -> StateView {
    map_slot(
        map_slot(
            map_slot(
                map_slot(
                    map_slot(s, player, 0, |c: PlayedCard| c.cleared_spec(StatusCondition::Asleep)),
                    player,
                    0,
                    |c: PlayedCard| c.cleared_spec(StatusCondition::Burned),
                ),
                player,
                0,
                |c: PlayedCard| c.cleared_spec(StatusCondition::Confused),
            ),
            player,
            0,
            |c: PlayedCard| c.cleared_spec(StatusCondition::Paralyzed),
        ),
        player,
        0,
        |c: PlayedCard| c.cleared_spec(StatusCondition::Poisoned),
    )
}

/// The damage the opponent's Active Pokémon took since it had `hp_before` HP left (nothing when
/// it is gone).
pub open spec fn damage_dealt_since(s: StateView, opp: int, hp_before: u32) -> u32 {
    match s.slot(opp, 0) {
        Some(d) => sat_sub(hp_before, d.remaining_hp),
        None => 0,
    }
}

/// What the effects of this module do.
pub open spec fn more_effect_done(before: StateView, after: StateView, actor: usize, e: AttackEffect) -> bool {
    let opp = 1 - actor;
    match e {
        AttackEffect::AttachEnergyToSelf { energy_type } => match before.slot(actor as int, 0) {
            Some(c) => energy_set(before, after, actor as int, 0, c.attached_energy@.push(energy_type)),
            None => after == before,
        },
        AttackEffect::CureSelfStatus => after == all_cured(before, actor as int),
        AttackEffect::ShuffleRandomOpponentHandCard => hand_card_shuffled_in(before, after, opp),
        AttackEffect::DiscardOpponentActiveTool => after == tool_discarded(before, opp),
        AttackEffect::OfferShuffleActiveIntoDeck => if before.slot(actor as int, 0) matches Some(c) && c.remaining_hp > 0 {
            pushed(before, after, actor) && top_choices(after) == seq![
                SimpleAction::ShuffleInPlayPokemonIntoDeck { in_play_idx: 0 },
            ]
        } else {
            after == before
        },
        AttackEffect::HealSelfByDamageDealt { hp_before } => after == map_slot(
            before,
            actor as int,
            0,
            |c: PlayedCard| c.healed_spec(damage_dealt_since(before, opp, hp_before)),
        ),
        _ => after == before,
    }
}

/// `player`'s Active Pokémon without its Pokémon Tool, which goes to their discard pile
/// (nothing changes when it has none).
pub open spec fn tool_discarded(s: StateView, player: int) -> StateView {
    match s.slot(player, 0) {
        Some(c) => match c.attached_tool {
            Some(t) => StateView {
                discard_piles: s.discard_piles.update(player, s.discard_piles[player].push(Card::Trainer(t))),
                ..s.with_slot(player, 0, Some(PlayedCard { attached_tool: None, ..c }))
            },
            None => s,
        },
        None => s,
    }
}

/// The Active Pokémon of `player` without a Pokémon Tool.
fn clear_active_tool(state: &mut State, player: usize)
    requires
        old(state).wf(),
        player < 2,
        old(state)@.slot(player as int, 0) is Some,
    ensures
        final(state).wf(),
        final(state)@ == old(state)@.with_slot(
            player as int,
            0,
            Some(PlayedCard { attached_tool: None, ..old(state)@.slot(player as int, 0)->0 }),
        ),
{
    let slot = &mut state.in_play_pokemon[player][0];
    match slot {
        Some(pokemon) => {
            pokemon.attached_tool = None;
        },
        None => {},
    }
    proof {
        let c = old(state)@.slot(player as int, 0)->0;
        assert(state@.board =~~= old(state)@.with_slot(
            player as int,
            0,
            Some(PlayedCard { attached_tool: None, ..c }),
        ).board);
    }
}

/// Discards the Pokémon Tool of `player`'s Active Pokémon (see `tool_discarded`).
pub(crate) fn discard_active_tool(state: &mut State, player: usize)
    requires
        old(state).wf(),
        player < 2,
    ensures
        final(state).wf(),
        final(state)@ == tool_discarded(old(state)@, player as int),
{
    proof {
        assert(state@.board[player as int] == state.in_play_pokemon@[player as int]@);
    }
    let tool = match &state.in_play_pokemon[player][0] {
        Some(c) => match &c.attached_tool {
            Some(t) => Some(copy_trainer_card(t)),
            None => None,
        },
        None => None,
    };
    match tool {
        Some(t) => {
            clear_active_tool(state, player);
            push_discard(state, player, Card::Trainer(t));
        },
        None => {},
    }
}

/// Offers `actor` to shuffle their Active Pokémon into their deck, when it has HP left.
pub(crate) fn offer_shuffle_active(state: &mut State, actor: usize)
    requires
        old(state).wf(),
        actor < 2,
    ensures
        final(state).wf(),
        more_effect_done(old(state)@, final(state)@, actor, AttackEffect::OfferShuffleActiveIntoDeck),
{
    proof {
        assert(state@.board[actor as int] == state.in_play_pokemon@[actor as int]@);
    }
    let alive = match &state.in_play_pokemon[actor][0] {
        Some(c) => c.remaining_hp > 0,
        None => false,
    };
    if alive {
        let mut choices: Vec<SimpleAction> = Vec::new();
        choices.push(SimpleAction::ShuffleInPlayPokemonIntoDeck { in_play_idx: 0 });
        proof {
            assert(choices@ =~= seq![SimpleAction::ShuffleInPlayPokemonIntoDeck { in_play_idx: 0 }]);
        }
        push_for(state, actor, choices);
    }
}

/// Attaches one Energy of type `t` to `actor`'s Active Pokémon (nothing when there is none).
pub(crate) fn attach_to_self(state: &mut State, actor: usize, t: EnergyType)
    requires
        old(state).wf(),
        actor < 2,
    ensures
        final(state).wf(),
        more_effect_done(old(state)@, final(state)@, actor, AttackEffect::AttachEnergyToSelf { energy_type: t }),
{
    proof {
        assert(state@.board[actor as int] == state.in_play_pokemon@[actor as int]@);
    }
    let es = match &state.in_play_pokemon[actor][0] {
        Some(c) => {
            let mut es = copy_energies(&c.attached_energy);
            es.push(t);
            Some(es)
        },
        None => None,
    };
    match es {
        Some(es) => set_slot_energy(state, actor, 0, es),
        None => {},
    }
}

/// Removes every Special Condition from `actor`'s Active Pokémon.
pub(crate) fn cure_self(state: &mut State, actor: usize)
    requires
        old(state).wf(),
        actor < 2,
    ensures
        final(state).wf(),
        final(state)@ == all_cured(old(state)@, actor as int),
{
    clear_status_slot(state, actor, 0, StatusCondition::Asleep);
    clear_status_slot(state, actor, 0, StatusCondition::Burned);
    clear_status_slot(state, actor, 0, StatusCondition::Confused);
    clear_status_slot(state, actor, 0, StatusCondition::Paralyzed);
    clear_status_slot(state, actor, 0, StatusCondition::Poisoned);
}

/// Heals `actor`'s Active Pokémon by the damage the opponent's Active Pokémon took since it had
/// `hp_before` HP left.
pub(crate) fn heal_by_damage_dealt(state: &mut State, actor: usize, hp_before: u32)
    requires
        old(state).wf(),
        actor < 2,
    ensures
        final(state).wf(),
        final(state)@ == map_slot(
            old(state)@,
            actor as int,
            0,
            |c: PlayedCard| c.healed_spec(damage_dealt_since(old(state)@, 1 - actor, hp_before)),
        ),
{
    let opp = 1 - actor;
    proof {
        assert(state@.board[opp as int] == state.in_play_pokemon@[opp as int]@);
    }
    let dealt = match &state.in_play_pokemon[opp][0] {
        Some(d) => if hp_before >= d.remaining_hp {
            hp_before - d.remaining_hp
        } else {
            0
        },
        None => 0,
    };
    heal_slot(state, actor, 0, dealt);
}

} // verus!
