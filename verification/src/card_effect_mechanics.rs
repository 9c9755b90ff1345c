//! Attack mechanics that leave a lasting effect on an Active Pokémon (and the attack effect
//! they need), send cards of the opponent's hand back to their deck, or look at the names of
//! the Pokémon in play.

use vstd::prelude::*;
use vstd::string::{StrSliceExecFns, StringExecFns};

use crate::apply_attack_action::{
    attack_view, by_heads, by_heads_outcomes, coin, coin_outcomes, coins_in_range, hit, hit_outcome,
    hit_then, hit_then_outcome, sat_add, sat_add_exec, sat_mul, sat_mul_exec, sure, sure_outcomes,
    AttackEffect, AttackView,
};
use crate::board_mechanics::{card_name, has_name};
use crate::energy_removal::{repeated, repeated_exec};
use crate::attack_outcome::AttackOutcomes;
use crate::attacks::Mechanic;
use crate::models::{Attack, Card, CardEffect, PlayedCard, StatusCondition};
use crate::more_mechanics::{opponent_statuses, opponent_statuses_exec};
use crate::state::{State, StateView};

verus! {

/// A lasting effect that names no attack: every `CardEffect` but `CannotUseAttack` and
/// `IncreasedDamageForAttack`, as a plain value.
#[derive(Clone, Copy, Debug, PartialEq, Eq, Structural)]
pub enum LastingEffect {
    CannotAttack,
    CoinFlipToBlockAttack,
    CoinFlipToPreventIncomingDamage,
    CoinFlipToReduceIncomingDamage { amount: u32 },
    Counterattack { amount: u32 },
    DelayedDamage { amount: u32 },
    DeniesPointsOnKnockout,
    IncreasedAttackCost { amount: u32 },
    IncreasedRetreatCost { amount: u32 },
    IncreasedVulnerability { amount: u32 },
    NoRetreat,
    NoWeakness,
    PoisonDamageAmount { amount: u32 },
    PreventAllDamageAndEffects,
    PreventDamageFromBasic,
    PreventDamageIfLessOrEqual { threshold: u32 },
    ReducedDamage { amount: u32 },
    ReducedDamageFromEx { amount: u32 },
    SurviveKnockOutAt10,
}

impl LastingEffect {
    /// The `CardEffect` this value stands for.
    pub open spec fn card_effect(self) -> CardEffect {
        match self {
            LastingEffect::CannotAttack => CardEffect::CannotAttack,
            LastingEffect::CoinFlipToBlockAttack => CardEffect::CoinFlipToBlockAttack,
            LastingEffect::CoinFlipToPreventIncomingDamage => CardEffect::CoinFlipToPreventIncomingDamage,
            LastingEffect::CoinFlipToReduceIncomingDamage { amount } => CardEffect::CoinFlipToReduceIncomingDamage { amount },
            LastingEffect::Counterattack { amount } => CardEffect::Counterattack { amount },
            LastingEffect::DelayedDamage { amount } => CardEffect::DelayedDamage { amount },
            LastingEffect::DeniesPointsOnKnockout => CardEffect::DeniesPointsOnKnockout,
            LastingEffect::IncreasedAttackCost { amount } => CardEffect::IncreasedAttackCost { amount },
            LastingEffect::IncreasedRetreatCost { amount } => CardEffect::IncreasedRetreatCost { amount },
            LastingEffect::IncreasedVulnerability { amount } => CardEffect::IncreasedVulnerability { amount },
            LastingEffect::NoRetreat => CardEffect::NoRetreat,
            LastingEffect::NoWeakness => CardEffect::NoWeakness,
            LastingEffect::PoisonDamageAmount { amount } => CardEffect::PoisonDamageAmount { amount },
            LastingEffect::PreventAllDamageAndEffects => CardEffect::PreventAllDamageAndEffects,
            LastingEffect::PreventDamageFromBasic => CardEffect::PreventDamageFromBasic,
            LastingEffect::PreventDamageIfLessOrEqual { threshold } => CardEffect::PreventDamageIfLessOrEqual { threshold },
            LastingEffect::ReducedDamage { amount } => CardEffect::ReducedDamage { amount },
            LastingEffect::ReducedDamageFromEx { amount } => CardEffect::ReducedDamageFromEx { amount },
            LastingEffect::SurviveKnockOutAt10 => CardEffect::SurviveKnockOutAt10,
        }
    }
}

/// The plain value of a `CardEffect` that names no attack (`None` for one that does).
pub open spec fn lasting(e: CardEffect) -> Option<LastingEffect> {
    match e {
        CardEffect::CannotAttack => Some(LastingEffect::CannotAttack),
        CardEffect::CannotUseAttack(_) => None,
        CardEffect::CoinFlipToBlockAttack => Some(LastingEffect::CoinFlipToBlockAttack),
        CardEffect::CoinFlipToPreventIncomingDamage => Some(LastingEffect::CoinFlipToPreventIncomingDamage),
        CardEffect::CoinFlipToReduceIncomingDamage { amount } => Some(LastingEffect::CoinFlipToReduceIncomingDamage { amount }),
        CardEffect::Counterattack { amount } => Some(LastingEffect::Counterattack { amount }),
        CardEffect::DelayedDamage { amount } => Some(LastingEffect::DelayedDamage { amount }),
        CardEffect::DeniesPointsOnKnockout => Some(LastingEffect::DeniesPointsOnKnockout),
        CardEffect::IncreasedAttackCost { amount } => Some(LastingEffect::IncreasedAttackCost { amount }),
        CardEffect::IncreasedDamageForAttack { .. } => None,
        CardEffect::IncreasedRetreatCost { amount } => Some(LastingEffect::IncreasedRetreatCost { amount }),
        CardEffect::IncreasedVulnerability { amount } => Some(LastingEffect::IncreasedVulnerability { amount }),
        CardEffect::NoRetreat => Some(LastingEffect::NoRetreat),
        CardEffect::NoWeakness => Some(LastingEffect::NoWeakness),
        CardEffect::PoisonDamageAmount { amount } => Some(LastingEffect::PoisonDamageAmount { amount }),
        CardEffect::PreventAllDamageAndEffects => Some(LastingEffect::PreventAllDamageAndEffects),
        CardEffect::PreventDamageFromBasic => Some(LastingEffect::PreventDamageFromBasic),
        CardEffect::PreventDamageIfLessOrEqual { threshold } => Some(LastingEffect::PreventDamageIfLessOrEqual { threshold }),
        CardEffect::ReducedDamage { amount } => Some(LastingEffect::ReducedDamage { amount }),
        CardEffect::ReducedDamageFromEx { amount } => Some(LastingEffect::ReducedDamageFromEx { amount }),
        CardEffect::SurviveKnockOutAt10 => Some(LastingEffect::SurviveKnockOutAt10),
    }
}

/// Whether each of `es` names no attack.
pub open spec fn all_lasting(es: Seq<CardEffect>) -> bool {
    forall|i: int| 0 <= i < es.len() ==> (#[trigger] lasting(es[i])) is Some
}

/// Computes `lasting(*e)`.
fn lasting_exec(e: &CardEffect) -> (r: Option<LastingEffect>)
    ensures
        r == lasting(*e),
{
    match e {
        CardEffect::CannotAttack => Some(LastingEffect::CannotAttack),
        CardEffect::CannotUseAttack(_) => None,
        CardEffect::CoinFlipToBlockAttack => Some(LastingEffect::CoinFlipToBlockAttack),
        CardEffect::CoinFlipToPreventIncomingDamage => Some(LastingEffect::CoinFlipToPreventIncomingDamage),
        CardEffect::CoinFlipToReduceIncomingDamage { amount } => Some(LastingEffect::CoinFlipToReduceIncomingDamage { amount: *amount }),
        CardEffect::Counterattack { amount } => Some(LastingEffect::Counterattack { amount: *amount }),
        CardEffect::DelayedDamage { amount } => Some(LastingEffect::DelayedDamage { amount: *amount }),
        CardEffect::DeniesPointsOnKnockout => Some(LastingEffect::DeniesPointsOnKnockout),
        CardEffect::IncreasedAttackCost { amount } => Some(LastingEffect::IncreasedAttackCost { amount: *amount }),
        CardEffect::IncreasedDamageForAttack { .. } => None,
        CardEffect::IncreasedRetreatCost { amount } => Some(LastingEffect::IncreasedRetreatCost { amount: *amount }),
        CardEffect::IncreasedVulnerability { amount } => Some(LastingEffect::IncreasedVulnerability { amount: *amount }),
        CardEffect::NoRetreat => Some(LastingEffect::NoRetreat),
        CardEffect::NoWeakness => Some(LastingEffect::NoWeakness),
        CardEffect::PoisonDamageAmount { amount } => Some(LastingEffect::PoisonDamageAmount { amount: *amount }),
        CardEffect::PreventAllDamageAndEffects => Some(LastingEffect::PreventAllDamageAndEffects),
        CardEffect::PreventDamageFromBasic => Some(LastingEffect::PreventDamageFromBasic),
        CardEffect::PreventDamageIfLessOrEqual { threshold } => Some(LastingEffect::PreventDamageIfLessOrEqual { threshold: *threshold }),
        CardEffect::ReducedDamage { amount } => Some(LastingEffect::ReducedDamage { amount: *amount }),
        CardEffect::ReducedDamageFromEx { amount } => Some(LastingEffect::ReducedDamageFromEx { amount: *amount }),
        CardEffect::SurviveKnockOutAt10 => Some(LastingEffect::SurviveKnockOutAt10),
    }
}

/// Computes `l.card_effect()`.
fn card_effect_exec(l: LastingEffect) -> (r: CardEffect)
    ensures
        r == l.card_effect(),
{
    match l {
        LastingEffect::CannotAttack => CardEffect::CannotAttack,
        LastingEffect::CoinFlipToBlockAttack => CardEffect::CoinFlipToBlockAttack,
        LastingEffect::CoinFlipToPreventIncomingDamage => CardEffect::CoinFlipToPreventIncomingDamage,
        LastingEffect::CoinFlipToReduceIncomingDamage { amount } => CardEffect::CoinFlipToReduceIncomingDamage { amount },
        LastingEffect::Counterattack { amount } => CardEffect::Counterattack { amount },
        LastingEffect::DelayedDamage { amount } => CardEffect::DelayedDamage { amount },
        LastingEffect::DeniesPointsOnKnockout => CardEffect::DeniesPointsOnKnockout,
        LastingEffect::IncreasedAttackCost { amount } => CardEffect::IncreasedAttackCost { amount },
        LastingEffect::IncreasedRetreatCost { amount } => CardEffect::IncreasedRetreatCost { amount },
        LastingEffect::IncreasedVulnerability { amount } => CardEffect::IncreasedVulnerability { amount },
        LastingEffect::NoRetreat => CardEffect::NoRetreat,
        LastingEffect::NoWeakness => CardEffect::NoWeakness,
        LastingEffect::PoisonDamageAmount { amount } => CardEffect::PoisonDamageAmount { amount },
        LastingEffect::PreventAllDamageAndEffects => CardEffect::PreventAllDamageAndEffects,
        LastingEffect::PreventDamageFromBasic => CardEffect::PreventDamageFromBasic,
        LastingEffect::PreventDamageIfLessOrEqual { threshold } => CardEffect::PreventDamageIfLessOrEqual { threshold },
        LastingEffect::ReducedDamage { amount } => CardEffect::ReducedDamage { amount },
        LastingEffect::ReducedDamageFromEx { amount } => CardEffect::ReducedDamageFromEx { amount },
        LastingEffect::SurviveKnockOutAt10 => CardEffect::SurviveKnockOutAt10,
    }
}

/// The mechanics of this module. Those that leave a given `CardEffect` belong here when that
/// effect names no attack.
pub open spec fn forecast_group_q(m: Mechanic) -> bool {
    match m {
        Mechanic::DamageAndCardEffect { effect, .. } => lasting(effect) is Some,
        Mechanic::DamageAndCardEffectOnTails { effect, .. } => lasting(effect) is Some,
        Mechanic::CoinFlipNoDamageOrDamageAndCardEffect { effect, .. } => lasting(effect) is Some,
        Mechanic::InflictStatusAndCardEffect { effect, .. } => lasting(effect) is Some,
        Mechanic::SelfHealAndCardEffect { effect, .. } => lasting(effect) is Some,
        Mechanic::SelfDiscardRandomEnergyAndCardEffect { effect, .. } => lasting(effect) is Some,
        Mechanic::DirectDamageAndSelfCardEffect { effect, .. } => lasting(effect) is Some,
        Mechanic::DamageAndMultipleCardEffects { effects, .. } => all_lasting(effects@),
        Mechanic::DamageAndCardEffects { effects, .. } => all_lasting(effects@),
        Mechanic::SelfReducedDamageFromEx { .. } | Mechanic::CoinFlipToBlockAttackNextTurn
        | Mechanic::RaiseDefenderAttackAndRetreatCost { .. } | Mechanic::ShuffleOpponentHandCardAndSelfIntoDeck
        | Mechanic::PoisonWithDamageAmount { .. } | Mechanic::CoinFlipsShuffleOpponentHandCards { .. }
        | Mechanic::ExtraDamagePerPokemonWithNameOrExOnBench { .. }
        | Mechanic::ExtraDamageIfDefenderNameContains { .. } | Mechanic::BlockBasicAttack => true,
        _ => false,
    }
}

/// Whether each of `es` names no attack.
fn all_lasting_exec(es: &Vec<CardEffect>) -> (r: bool)
    ensures
        r == all_lasting(es@),
{
    let mut i: usize = 0;
    while i < es.len()
        invariant
            i <= es.len(),
            all_lasting(es@.take(i as int)),
        decreases es.len() - i,
    {
        if matches!(lasting_exec(&es[i]), None) {
            return false;
        }
        proof {
            assert forall|k: int| 0 <= k < i + 1 implies (#[trigger] lasting(es@.take(i + 1)[k])) is Some by {
                if k < i {
                    assert(es@.take(i + 1)[k] == es@.take(i as int)[k]);
                }
            }
        }
        i = i + 1;
    }
    proof {
        assert(es@.take(i as int) =~= es@);
    }
    true
}

/// Whether the mechanic is in `forecast_group_q`.
pub fn in_forecast_group_q(m: &Mechanic) -> (r: bool)
    ensures
        r == forecast_group_q(*m),
{
    match m {
        Mechanic::DamageAndCardEffect { effect, .. } => matches!(lasting_exec(effect), Some(_)),
        Mechanic::DamageAndCardEffectOnTails { effect, .. } => matches!(lasting_exec(effect), Some(_)),
        Mechanic::CoinFlipNoDamageOrDamageAndCardEffect { effect, .. } => matches!(lasting_exec(effect), Some(_)),
        Mechanic::InflictStatusAndCardEffect { effect, .. } => matches!(lasting_exec(effect), Some(_)),
        Mechanic::SelfHealAndCardEffect { effect, .. } => matches!(lasting_exec(effect), Some(_)),
        Mechanic::SelfDiscardRandomEnergyAndCardEffect { effect, .. } => matches!(lasting_exec(effect), Some(_)),
        Mechanic::DirectDamageAndSelfCardEffect { effect, .. } => matches!(lasting_exec(effect), Some(_)),
        Mechanic::DamageAndMultipleCardEffects { effects, .. } => all_lasting_exec(effects),
        Mechanic::DamageAndCardEffects { effects, .. } => all_lasting_exec(effects),
        Mechanic::SelfReducedDamageFromEx { .. } | Mechanic::CoinFlipToBlockAttackNextTurn
        | Mechanic::RaiseDefenderAttackAndRetreatCost { .. } | Mechanic::ShuffleOpponentHandCardAndSelfIntoDeck
        | Mechanic::PoisonWithDamageAmount { .. } | Mechanic::CoinFlipsShuffleOpponentHandCards { .. }
        | Mechanic::ExtraDamagePerPokemonWithNameOrExOnBench { .. }
        | Mechanic::ExtraDamageIfDefenderNameContains { .. } | Mechanic::BlockBasicAttack => true,
        _ => false,
    }
}

/// Leaving `e` on an Active Pokémon: the opponent's when `on_opponent`, else the attacker's.
pub open spec fn leave(on_opponent: bool, e: CardEffect) -> AttackEffect {
    AttackEffect::LeaveEffect { on_opponent, effect: lasting(e)->0 }
}

/// Leaving each of `es`, in order.
pub open spec fn leave_all(on_opponent: bool, es: Seq<CardEffect>) -> Seq<AttackEffect> {
    es.map_values(|e: CardEffect| leave(on_opponent, e))
}

/// The forecast of the mechanics of this module (`None` for the others).
pub open spec fn card_effect_forecast(s: StateView, attack: Attack, m: Mechanic) -> Option<AttackView> {
    let fixed = attack.fixed_damage;
    if !forecast_group_q(m) {
        None
    } else {
        match m {
            Mechanic::DamageAndCardEffect { opponent, effect, coin_flip, .. } => Some(
                if coin_flip {
                    coin(hit_then(fixed, seq![leave(opponent, effect)]), hit(fixed))
                } else {
                    sure(hit_then(fixed, seq![leave(opponent, effect)]))
                },
            ),
            Mechanic::DamageAndCardEffectOnTails { opponent, effect, .. } => Some(
                coin(hit(fixed), hit_then(fixed, seq![leave(opponent, effect)])),
            ),
            Mechanic::CoinFlipNoDamageOrDamageAndCardEffect { opponent, effect, .. } => Some(
                coin(hit_then(fixed, seq![leave(opponent, effect)]), hit(0)),
            ),
            Mechanic::InflictStatusAndCardEffect { conditions, effect, .. } => Some(
                sure(hit_then(fixed, opponent_statuses(conditions@).push(leave(true, effect)))),
            ),
            Mechanic::SelfHealAndCardEffect { heal_amount, opponent, effect, .. } => Some(
                sure(hit_then(fixed, seq![AttackEffect::HealSelf { amount: heal_amount }, leave(opponent, effect)])),
            ),
            Mechanic::SelfDiscardRandomEnergyAndCardEffect { count, effect, .. } => Some(
                sure(
                    hit_then(
                        fixed,
                        seq![AttackEffect::DiscardRandomActiveEnergy { own: true, count }, leave(false, effect)],
                    ),
                ),
            ),
            Mechanic::DirectDamageAndSelfCardEffect { damage, bench_only, effect, .. } => Some(
                sure(hit_then(0, seq![leave(false, effect), AttackEffect::ChooseDamageTarget { damage, bench_only }])),
            ),
            Mechanic::DamageAndMultipleCardEffects { opponent, effects, .. } => Some(
                sure(hit_then(fixed, leave_all(opponent, effects@))),
            ),
            Mechanic::DamageAndCardEffects { opponent, effects, .. } => Some(
                sure(hit_then(fixed, leave_all(opponent, effects@))),
            ),
            Mechanic::SelfReducedDamageFromEx { amount, .. } => Some(
                sure(hit_then(fixed, seq![leave(false, CardEffect::ReducedDamageFromEx { amount })])),
            ),
            Mechanic::BlockBasicAttack => Some(sure(hit_then(fixed, seq![AttackEffect::BlockIfBasic]))),
            Mechanic::CoinFlipToBlockAttackNextTurn => Some(
                sure(hit_then(fixed, seq![leave(true, CardEffect::CoinFlipToBlockAttack)])),
            ),
            Mechanic::RaiseDefenderAttackAndRetreatCost { amount, .. } => Some(
                sure(
                    hit_then(
                        fixed,
                        seq![
                            leave(true, CardEffect::IncreasedAttackCost { amount: amount as u32 }),
                            leave(true, CardEffect::IncreasedRetreatCost { amount: amount as u32 }),
                        ],
                    ),
                ),
            ),
            Mechanic::ShuffleOpponentHandCardAndSelfIntoDeck => Some(
                sure(
                    hit_then(
                        fixed,
                        seq![AttackEffect::ShuffleRandomOpponentHandCard, AttackEffect::OfferShuffleActiveIntoDeck],
                    ),
                ),
            ),
            Mechanic::PoisonWithDamageAmount { amount } => Some(
                sure(
                    hit_then(
                        fixed,
                        seq![
                            AttackEffect::InflictStatus { on_opponent: true, condition: StatusCondition::Poisoned },
                            leave(true, CardEffect::PoisonDamageAmount { amount }),
                        ],
                    ),
                ),
            ),
            Mechanic::CoinFlipsShuffleOpponentHandCards { num_coins } => Some(
                by_heads(num_coins as nat, |h: nat| hit_then(fixed, repeated(AttackEffect::ShuffleRandomOpponentHandCard, h))),
            ),
            Mechanic::ExtraDamagePerPokemonWithNameOrExOnBench { pokemon_name, damage_per } => {
                let n = name_or_ex_bench_upto(s.board[s.current_player as int], pokemon_name@, 4);
                Some(sure(hit(sat_add(fixed, sat_mul(n as u32, damage_per)))))
            },
            Mechanic::ExtraDamageIfDefenderNameContains { name_part, extra_damage } => {
                let named = s.slot(1 - s.current_player, 0) matches Some(d) && has_part(card_name(d.card), name_part@);
                Some(sure(hit(if named { sat_add(fixed, extra_damage) } else { fixed })))
            },
            _ => None,
        }
    }
}

/// One `leave` effect, given the plain value of a `CardEffect` that names no attack.
fn leave_exec(on_opponent: bool, e: &CardEffect) -> (r: AttackEffect)
    requires
        lasting(*e) is Some,
    ensures
        r == leave(on_opponent, *e),
{
    match lasting_exec(e) {
        Some(l) => AttackEffect::LeaveEffect { on_opponent, effect: l },
        None => AttackEffect::LeaveEffect { on_opponent, effect: LastingEffect::CannotAttack },
    }
}

/// Computes `leave_all(on_opponent, es@)`.
fn leave_all_exec(on_opponent: bool, es: &Vec<CardEffect>) -> (r: Vec<AttackEffect>)
    requires
        all_lasting(es@),
    ensures
        r@ == leave_all(on_opponent, es@),
{
    let mut r: Vec<AttackEffect> = Vec::new();
    let mut i: usize = 0;
    while i < es.len()
        invariant
            i <= es.len(),
            all_lasting(es@),
            r@ == leave_all(on_opponent, es@.take(i as int)),
        decreases es.len() - i,
    {
        assert(lasting(es@[i as int]) is Some);
        r.push(leave_exec(on_opponent, &es[i]));
        proof {
            assert(es@.take(i + 1) =~= es@.take(i as int).push(es@[i as int]));
            assert(leave_all(on_opponent, es@.take(i + 1)) =~= leave_all(on_opponent, es@.take(i as int)).push(
                leave(on_opponent, es@[i as int]),
            ));
        }
        i = i + 1;
    }
    proof {
        assert(es@.take(i as int) =~= es@);
    }
    r
}

/// `d` damage to the opponent's Active Pokémon, then one `leave` effect.
fn hit_then_leave(d: u32, on_opponent: bool, e: &CardEffect) -> (r: crate::attack_outcome::AttackOutcome<AttackEffect>)
    requires
        lasting(*e) is Some,
    ensures
        crate::attack_outcome::outcome_view(r) == hit_then(d, seq![leave(on_opponent, *e)]),
{
    let mut es: Vec<AttackEffect> = Vec::new();
    es.push(leave_exec(on_opponent, e));
    proof {
        assert(es@ =~= seq![leave(on_opponent, *e)]);
    }
    hit_then_outcome(d, es)
}

/// The forecast of a mechanic of `forecast_group_q`.
pub fn forecast_mechanic_q(state: &State, attack: &Attack, mechanic: &Mechanic) -> (o: AttackOutcomes<
    AttackEffect,
>)
    requires
        state.wf(),
        forecast_group_q(*mechanic),
        coins_in_range(*mechanic),
    ensures
        o.is_distribution(),
        card_effect_forecast(state@, *attack, *mechanic) == Some(attack_view(o)),
{
    let fixed = attack.fixed_damage;
    match mechanic {
        Mechanic::DamageAndCardEffect { opponent, effect, coin_flip, .. } => {
            if *coin_flip {
                coin_outcomes(hit_then_leave(fixed, *opponent, effect), hit_outcome(fixed))
            } else {
                sure_outcomes(hit_then_leave(fixed, *opponent, effect))
            }
        },
        Mechanic::DamageAndCardEffectOnTails { opponent, effect, .. } => {
            coin_outcomes(hit_outcome(fixed), hit_then_leave(fixed, *opponent, effect))
        },
        Mechanic::CoinFlipNoDamageOrDamageAndCardEffect { opponent, effect, .. } => {
            coin_outcomes(hit_then_leave(fixed, *opponent, effect), hit_outcome(0))
        },
        Mechanic::InflictStatusAndCardEffect { conditions, effect, .. } => {
            let mut es = opponent_statuses_exec(conditions);
            es.push(leave_exec(true, effect));
            sure_outcomes(hit_then_outcome(fixed, es))
        },
        Mechanic::SelfHealAndCardEffect { heal_amount, opponent, effect, .. } => {
            let mut es: Vec<AttackEffect> = Vec::new();
            es.push(AttackEffect::HealSelf { amount: *heal_amount });
            es.push(leave_exec(*opponent, effect));
            proof {
                assert(es@ =~= seq![AttackEffect::HealSelf { amount: *heal_amount }, leave(*opponent, *effect)]);
            }
            sure_outcomes(hit_then_outcome(fixed, es))
        },
        Mechanic::SelfDiscardRandomEnergyAndCardEffect { count, effect, .. } => {
            let mut es: Vec<AttackEffect> = Vec::new();
            es.push(AttackEffect::DiscardRandomActiveEnergy { own: true, count: *count });
            es.push(leave_exec(false, effect));
            proof {
                assert(es@ =~= seq![
                    AttackEffect::DiscardRandomActiveEnergy { own: true, count: *count },
                    leave(false, *effect),
                ]);
            }
            sure_outcomes(hit_then_outcome(fixed, es))
        },
        Mechanic::DirectDamageAndSelfCardEffect { damage, bench_only, effect, .. } => {
            let mut es: Vec<AttackEffect> = Vec::new();
            es.push(leave_exec(false, effect));
            es.push(AttackEffect::ChooseDamageTarget { damage: *damage, bench_only: *bench_only });
            proof {
                assert(es@ =~= seq![
                    leave(false, *effect),
                    AttackEffect::ChooseDamageTarget { damage: *damage, bench_only: *bench_only },
                ]);
            }
            sure_outcomes(hit_then_outcome(0, es))
        },
        Mechanic::DamageAndMultipleCardEffects { opponent, effects, .. } => {
            sure_outcomes(hit_then_outcome(fixed, leave_all_exec(*opponent, effects)))
        },
        Mechanic::DamageAndCardEffects { opponent, effects, .. } => {
            sure_outcomes(hit_then_outcome(fixed, leave_all_exec(*opponent, effects)))
        },
        Mechanic::SelfReducedDamageFromEx { amount, .. } => {
            sure_outcomes(hit_then_leave(fixed, false, &CardEffect::ReducedDamageFromEx { amount: *amount }))
        },
        Mechanic::BlockBasicAttack => {
            let mut es: Vec<AttackEffect> = Vec::new();
            es.push(AttackEffect::BlockIfBasic);
            proof {
                assert(es@ =~= seq![AttackEffect::BlockIfBasic]);
            }
            sure_outcomes(hit_then_outcome(fixed, es))
        },
        Mechanic::CoinFlipToBlockAttackNextTurn => {
            sure_outcomes(hit_then_leave(fixed, true, &CardEffect::CoinFlipToBlockAttack))
        },
        Mechanic::RaiseDefenderAttackAndRetreatCost { amount, .. } => {
            let a = *amount as u32;
            let mut es: Vec<AttackEffect> = Vec::new();
            es.push(leave_exec(true, &CardEffect::IncreasedAttackCost { amount: a }));
            es.push(leave_exec(true, &CardEffect::IncreasedRetreatCost { amount: a }));
            proof {
                assert(es@ =~= seq![
                    leave(true, CardEffect::IncreasedAttackCost { amount: a }),
                    leave(true, CardEffect::IncreasedRetreatCost { amount: a }),
                ]);
            }
            sure_outcomes(hit_then_outcome(fixed, es))
        },
        Mechanic::PoisonWithDamageAmount { amount } => {
            let mut es: Vec<AttackEffect> = Vec::new();
            es.push(AttackEffect::InflictStatus { on_opponent: true, condition: StatusCondition::Poisoned });
            es.push(leave_exec(true, &CardEffect::PoisonDamageAmount { amount: *amount }));
            proof {
                assert(es@ =~= seq![
                    AttackEffect::InflictStatus { on_opponent: true, condition: StatusCondition::Poisoned },
                    leave(true, CardEffect::PoisonDamageAmount { amount: *amount }),
                ]);
            }
            sure_outcomes(hit_then_outcome(fixed, es))
        },
        Mechanic::CoinFlipsShuffleOpponentHandCards { num_coins } => {
            let n = *num_coins;
            let ghost f = |h: nat| hit_then(fixed, repeated(AttackEffect::ShuffleRandomOpponentHandCard, h));
            let mut per: Vec<crate::attack_outcome::AttackOutcome<AttackEffect>> = Vec::new();
            let mut h: usize = 0;
            while h <= n
                invariant
                    n < 32,
                    h <= n + 1,
                    per@.len() == h,
                    f == (|h: nat| hit_then(fixed, repeated(AttackEffect::ShuffleRandomOpponentHandCard, h))),
                    forall|k: int| 0 <= k < h ==> crate::attack_outcome::outcome_view(#[trigger] per@[k]) == f(k as nat),
                decreases n + 1 - h,
            {
                per.push(hit_then_outcome(fixed, repeated_exec(AttackEffect::ShuffleRandomOpponentHandCard, h)));
                h = h + 1;
            }
            by_heads_outcomes(n, per, Ghost(f))
        },
        Mechanic::ExtraDamagePerPokemonWithNameOrExOnBench { pokemon_name, damage_per } => {
            let cp = state.current_player;
            proof {
                assert(state@.board[cp as int] == state.in_play_pokemon@[cp as int]@);
            }
            let n = name_or_ex_bench_exec(&state.in_play_pokemon[cp], pokemon_name);
            sure_outcomes(hit_outcome(sat_add_exec(fixed, sat_mul_exec(n, *damage_per))))
        },
        Mechanic::ExtraDamageIfDefenderNameContains { name_part, extra_damage } => {
            let opp = 1 - state.current_player;
            proof {
                assert(state@.board[opp as int] == state.in_play_pokemon@[opp as int]@);
            }
            let named = match &state.in_play_pokemon[opp][0] {
                Some(d) => match &d.card {
                    Card::Pokemon(p) => contains_exec(p.name.as_str(), name_part.as_str()),
                    Card::Trainer(t) => contains_exec(t.name.as_str(), name_part.as_str()),
                },
                None => false,
            };
            sure_outcomes(hit_outcome(if named { sat_add_exec(fixed, *extra_damage) } else { fixed }))
        },
        _ => {
            let mut es: Vec<AttackEffect> = Vec::new();
            es.push(AttackEffect::ShuffleRandomOpponentHandCard);
            es.push(AttackEffect::OfferShuffleActiveIntoDeck);
            proof {
                assert(es@ =~= seq![AttackEffect::ShuffleRandomOpponentHandCard, AttackEffect::OfferShuffleActiveIntoDeck]);
            }
            sure_outcomes(hit_then_outcome(fixed, es))
        },
    }
}

/// Whether `part` occurs in `text`, as a run of consecutive characters.
pub open spec fn has_part(text: Seq<char>, part: Seq<char>) -> bool {
    exists|i: int| 0 <= i && i + part.len() <= text.len() && #[trigger] text.subrange(i, i + part.len()) == part
}

/// Whether `part` occurs in `text` from position `i` on.
fn occurs_at(text: &str, part: &str, i: usize, tl: usize, pl: usize) -> (r: bool)
    requires
        tl == text@.len(),
        pl == part@.len(),
        i + pl <= tl,
    ensures
        r == (text@.subrange(i as int, i + pl) == part@),
{
    let mut j: usize = 0;
    while j < pl
        invariant
            j <= pl,
            tl == text@.len(),
            pl == part@.len(),
            i + pl <= tl,
            forall|k: int| 0 <= k < j ==> text@[i + k] == part@[k],
        decreases pl - j,
    {
        if text.get_char(i + j) != part.get_char(j) {
            proof {
                assert(text@.subrange(i as int, i + pl)[j as int] != part@[j as int]);
            }
            return false;
        }
        j = j + 1;
    }
    proof {
        assert(text@.subrange(i as int, i + pl) =~= part@);
    }
    true
}

/// Computes `has_part(text@, part@)`.
fn contains_exec(text: &str, part: &str) -> (r: bool)
    ensures
        r == has_part(text@, part@),
{
    let tl = text.unicode_len();
    let pl = part.unicode_len();
    if pl > tl {
        return false;
    }
    let last = tl - pl;
    let mut i: usize = 0;
    loop
        invariant
            tl == text@.len(),
            pl == part@.len(),
            last == tl - pl,
            i <= last,
            forall|k: int| 0 <= k < i ==> #[trigger] text@.subrange(k, k + pl) != part@,
        decreases last - i,
    {
        if occurs_at(text, part, i, tl, pl) {
            return true;
        }
        if i == last {
            return false;
        }
        i = i + 1;
    }
}

/// Whether the Pokémon is named `name`, or `name` followed by " ex".
pub open spec fn named_or_ex(c: PlayedCard, name: Seq<char>) -> bool {
    card_name(c.card) == name || card_name(c.card) == name + " ex"@
}

/// How many of the Bench slots 1 to `i - 1` of a side hold a Pokémon named `name` or `name`
/// followed by " ex".
pub open spec fn name_or_ex_bench_upto(side: Seq<Option<PlayedCard>>, name: Seq<char>, i: int) -> nat
    decreases i,
{
    if i <= 1 {
        0
    } else {
        name_or_ex_bench_upto(side, name, i - 1) + if side[i - 1] is Some && named_or_ex(side[i - 1]->0, name) {
            1nat
        } else {
            0nat
        }
    }
}

/// Computes `name_or_ex_bench_upto(side@, name@, 4)`.
fn name_or_ex_bench_exec(side: &Vec<Option<PlayedCard>>, name: &String) -> (r: u32)
    requires
        side@.len() == 4,
    ensures
        r == name_or_ex_bench_upto(side@, name@, 4),
        r <= 3,
{
    let ex_name = name.clone().concat(" ex");
    let mut n: u32 = 0;
    let mut i: usize = 1;
    while i < 4
        invariant
            1 <= i <= 4,
            side@.len() == 4,
            ex_name@ == name@ + " ex"@,
            n == name_or_ex_bench_upto(side@, name@, i as int),
            n < i,
        decreases 4 - i,
    {
        match &side[i] {
            Some(c) => {
                if has_name(c, name) || has_name(c, &ex_name) {
                    n = n + 1;
                }
            },
            None => {},
        }
        i = i + 1;
    }
    n
}

/// The Pokémon `c2` is `c` with `e` added to its lasting effects.
pub open spec fn effect_added(c: PlayedCard, c2: PlayedCard, e: CardEffect) -> bool {
    &&& c2 == PlayedCard { effects: c2.effects, ..c }
    &&& c2.effects@ == c.effects@.push(e)
}

/// `e` is added to the lasting effects of `player`'s Active Pokémon (nothing changes when
/// there is none).
pub open spec fn effect_left(before: StateView, after: StateView, player: int, e: CardEffect) -> bool {
    match before.slot(player, 0) {
        Some(c) => exists|c2: PlayedCard|
            #[trigger] effect_added(c, c2, e) && after == before.with_slot(player, 0, Some(c2)),
        None => after == before,
    }
}

/// Adds `l`'s `CardEffect` to the lasting effects of the Active Pokémon of `actor`'s opponent
/// (`on_opponent`) or of `actor` (see `effect_left`).
pub(crate) fn leave_effect(state: &mut State, actor: usize, on_opponent: bool, l: LastingEffect)
    requires
        old(state).wf(),
        actor < 2,
    ensures
        final(state).wf(),
        effect_left(
            old(state)@,
            final(state)@,
            if on_opponent { 1 - actor } else { actor as int },
            l.card_effect(),
        ),
{
    let player = if on_opponent {
        1 - actor
    } else {
        actor
    };
    proof {
        assert(state@.board[player as int] == state.in_play_pokemon@[player as int]@);
    }
    let ghost before = state@;
    let present = state.in_play_pokemon[player][0].is_some();
    if !present {
        return;
    }
    let ghost c = before.slot(player as int, 0)->0;
    let e = card_effect_exec(l);
    let slot_ref = &mut state.in_play_pokemon[player][0];
    match slot_ref {
        Some(pokemon) => {
            pokemon.effects.push(e);
        },
        None => {},
    }
    proof {
        let c2 = state@.slot(player as int, 0)->0;
        assert(c2.effects@ =~= c.effects@.push(l.card_effect()));
        assert(effect_added(c, c2, l.card_effect()));
        assert(state@.board =~~= before.with_slot(player as int, 0, Some(c2)).board);
        assert(state@ == before.with_slot(player as int, 0, Some(c2)));
    }
}

/// When the opponent's Active Pokémon is a Basic Pokémon, it can't attack (a lasting effect is
/// added to it); otherwise nothing changes.
pub open spec fn blocked_if_basic(before: StateView, after: StateView, actor: usize) -> bool {
    let opp = 1 - actor;
    if before.slot(opp, 0) matches Some(c) && c.card.is_basic_spec() {
        effect_left(before, after, opp, CardEffect::CannotAttack)
    } else {
        after == before
    }
}

/// Applies `blocked_if_basic`.
pub(crate) fn block_if_basic(state: &mut State, actor: usize)
    requires
        old(state).wf(),
        actor < 2,
    ensures
        final(state).wf(),
        blocked_if_basic(old(state)@, final(state)@, actor),
{
    let opp = 1 - actor;
    proof {
        assert(state@.board[opp as int] == state.in_play_pokemon@[opp as int]@);
    }
    let basic = match &state.in_play_pokemon[opp][0] {
        Some(c) => c.card.is_basic(),
        None => false,
    };
    if basic {
        leave_effect(state, actor, true, LastingEffect::CannotAttack);
    }
}

} // verus!
