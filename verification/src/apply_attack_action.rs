use rand::rngs::StdRng;
use vstd::prelude::*;

use crate::apply_action_helpers::{
    heal_all_pokemon, heal_side_upto, active_ko_players, damage_only_spec, damage_slot, handle_damage_only, handle_knockouts,
    heal_slot, iris_bonus_active_spec, lemma_occupied_from, lemma_two_pow_monotone, knocked_out_list, ko_fold, map_slot, only_bouncy_pushes,
    promotions_queued, same_but_stack, targets_fit, targets_in_range, two_pow,
    winner_after_knockouts,
};
use crate::attack_outcome::{
    branch_views, guts_split_w, lemma_guts_weighted, lemma_prevention_weighted, prevention_split_w,
    weighted_views,
    outcome_view, resolve_target, AttackBranch, AttackOutcome, AttackOutcomes, DamageTarget,
    OutcomeView,
};
use crate::attacks::{BenchSide, Mechanic};
use crate::abilities::AbilityMechanic;
use crate::effect_mechanic_map::EffectMechanicMap;
use crate::models::{sat_sub, Attack, CardEffect, EnergyType, PlayedCard, StatusCondition, TrainerType};
use crate::outcomes::{binomial, geometric_weight, Outcomes};
use crate::random::random_below;
use crate::state::{occupied_from, status_added, SimpleAction, State, StateView};
use crate::board_mechanics::{
    bench_has_damaged, both_status_effects, damaged_bench_targets, forecast_mechanic_e,
    forecast_mechanic_f, forecast_mechanic_g, in_forecast_group_e, in_forecast_group_f,
    in_forecast_group_g, named_bench_upto, per_heads_bench_hit, per_heads_status_hit, tools_upto,
    abilities_upto, energy_count_upto, forecast_mechanic_h, heal_bench_upto, heal_choices_exec,
    heal_choices_upto, heal_own_bench, in_forecast_group_h, side_has_type, energy_set,
    forecast_mechanic_i, in_forecast_group_i, remove_random_active_energy, set_active_hp,
    forecast_mechanic_j, in_forecast_group_j, knock_out_active, pokemon_in_pile_upto,
    deck_top_discarded, forecast_mechanic_k, in_forecast_group_k, per_heads_deck_discard,
};
use crate::trainer_effects::{activations_exec, activations_upto, offered, shuffle_random_hand_card_in};
use crate::apply_trainer_action::set_slot_energy;
use crate::disruption_mechanics::{
    deck_top_bonus, deck_top_then_hit, discard_deck_top_then_hit, discard_random_hand_card,
    discard_stadium, drag_then_hit, dragged_then_hit, offer_drag, opponent_dragged,
    random_hand_card_discarded, stadium_discarded, forecast_mechanic_m, in_forecast_group_m,
};
use crate::energy_removal::{
    damaged_bench_lists, energy_target_lists, forecast_mechanic_n, in_forecast_group_n,
    offer_damaged_bench_damage, offer_energy_targets, random_takes_done, take_random_energies,
};
use crate::special_attacks::{
    discard_energy_from_end, energy_from_end_discarded, fire_spread, forecast_mechanic_o,
    in_forecast_group_o, knockouts_then_hit, offer_fire_spread, offer_shuffle_self,
    resolve_then_queue_hit, shuffle_self_offered, basic_attach_offered, knocked_out_and_resolved,
    offer_basic_attach, knock_out_and_resolve,
};
use crate::energy_mechanics::{
    active_energy_discarded, damaged_target_offered, discard_active_energy_matching,
    discard_active_energy_of_type, discard_random_active_energies, energy_split, type_discarded,
    energy_mechanic_forecast, forecast_mechanic_l, in_forecast_group_l, offer_damaged_targets,
    offer_switch_out, random_discards_done, switched_out,
};
use crate::card_effect_mechanics::{
    block_if_basic, blocked_if_basic, effect_left, forecast_mechanic_q, in_forecast_group_q, leave_effect,
    LastingEffect,
};
use crate::more_mechanics::{
    attach_to_self, cure_self, discard_active_tool, forecast_mechanic_p, heal_by_damage_dealt, in_forecast_group_p,
    more_effect_done, offer_shuffle_active,
};
use crate::random_damage::{
    bench_targets_of, extra_spread_hits, extra_spread_hits_exec, lemma_nat_pow_monotone,
    lemma_three_hits_fit, nat_pow, random_hits_fit, random_hits_fit_exec, random_hits_outcomes,
    random_hits_view, spread_targets, spread_targets_exec,
};

verus! {

/// What an attack does besides its damage, as plain data.
#[derive(Clone, Copy, Debug, PartialEq, Eq, Structural)]
pub enum AttackEffect {
    /// A status condition on the opponent's Active Pokémon (or on the attacker).
    InflictStatus { on_opponent: bool, condition: StatusCondition },
    /// The attacker takes this much damage itself (no weakness, no effects).
    DamageSelf { amount: u32 },
    /// The attacker heals this much.
    HealSelf { amount: u32 },
    /// The opponent's Active Pokémon heals this much.
    HealOpponentActive { amount: u32 },
    /// Each of the attacker's player's Pokémon heals this much.
    HealAllOwn { amount: u32 },
    /// Each of the attacker's player's Benched Pokémon (each Basic one, when `only_basic`) heals
    /// this much.
    HealOwnBench { amount: u32, only_basic: bool },
    /// The attacker's player chooses one of their damaged Pokémon (a Benched one, when
    /// `bench_only`) to heal this much; nothing when there is none.
    ChooseHeal { amount: u32, bench_only: bool },
    /// The attacker's Active Pokémon loses all its Energy.
    DiscardAllOwnActiveEnergy,
    /// The opponent's Active Pokémon loses one of its Energy, picked at random (nothing when it
    /// has none).
    RemoveRandomOpponentActiveEnergy,
    /// The opponent's Active Pokémon's remaining HP becomes `hp` (at most its total HP).
    SetOpponentActiveHp { hp: u32 },
    /// The attacker heals this much when the opponent's Active Pokémon is Poisoned.
    HealSelfIfOpponentPoisoned { amount: u32 },
    /// The opponent chooses one of their Benched Pokémon to switch with their Active Pokémon
    /// (nothing when they have none).
    KnockBackOpponent,
    /// One of the opponent's Benched Pokémon, picked at random, takes `damage` (no weakness, no
    /// effects; nothing when they have none).
    RandomOpponentBenchDamage { damage: u32 },
    /// The opponent's Active Pokémon's remaining HP drops to 0.
    KnockOutOpponentActive,
    /// Up to `count` cards from the top of a deck (the attacker's player's own, or the
    /// opponent's) go to that player's discard pile, in order.
    DiscardTopDeck { own: bool, count: usize },
    /// The attacker takes this much damage itself when the opponent's Active Pokémon has no HP
    /// left.
    RecoilIfOpponentKnockedOut { amount: u32 },
    /// The attacker's player draws cards.
    DrawCards { amount: u8 },
    /// The attacker's player chooses one of the opponent's Pokémon (a Benched one only, when
    /// `bench_only`) to take `damage`.
    ChooseDamageTarget { damage: u32, bench_only: bool },
    /// The attacker's player chooses a Benched Pokémon to move all the Active Pokémon's Energy of
    /// this type to.
    MoveAllOfTypeToBench { energy_type: EnergyType },
    /// The attacker's player chooses a Benched Pokémon to move `amount` of the Active Pokémon's
    /// Energy of this type to (nothing when it has fewer).
    MoveFixedOfTypeToBench { energy_type: EnergyType, amount: u32 },
    /// The attacker's player chooses a Benched Pokémon to move Energy from the Active Pokémon to:
    /// all of it, or `count` picked at random.
    MoveFromActiveToBench { all: bool, count: usize },
    /// The attacker's player chooses `num_targets` Benched Pokémon (of the opponent, or their
    /// own): the choice deals `active_damage` to the opponent's Active Pokémon and `bench_damage`
    /// to each chosen one.
    ChooseBenchDamage { active_damage: u32, bench_damage: u32, opponent_bench: bool, num_targets: usize },
    /// The opponent's Pokémon in `slot`, if Knocked Out, flips a coin: on heads the attacker's
    /// player gets no points for it.
    DenyPointsOnKnockout { slot: usize },
    /// The first Energy of this type of an Active Pokémon (the attacker's, or the opponent's)
    /// goes to its player's discarded Energy (nothing when it has none).
    DiscardActiveEnergyOfType { own: bool, energy_type: EnergyType },
    /// All the attacker's Energy of this type (all of it, when `None`) goes to the attacker's
    /// player's discarded Energy.
    DiscardOwnActiveEnergyMatching { energy_type: Option<EnergyType> },
    /// Up to `count` Energy of an Active Pokémon (the attacker's, or the opponent's), one at a
    /// time and each picked at random, go to its player's discarded Energy.
    DiscardRandomActiveEnergy { own: bool, count: usize },
    /// The attacker's player chooses one of the opponent's Pokémon with damage on it to take
    /// `damage` (nothing when there is none).
    ChooseDamagedTarget { damage: u32 },
    /// The attacker's player switches the attacker with a Benched Pokémon of this type (any,
    /// when `None`), or may stay when `optional`, as long as the attacker has HP left.
    SwitchOut { energy_type: Option<EnergyType>, optional: bool },
    /// One card of the opponent's hand (a Trainer card of this type, when given), picked at
    /// random, goes to their discard pile.
    DiscardRandomOpponentHandCard { trainer_type: Option<TrainerType> },
    /// The Stadium in play goes to the discard pile of the player who put it in play.
    DiscardStadium,
    /// The attacker's player chooses one of the opponent's Benched Pokémon to switch with the
    /// opponent's Active Pokémon.
    DragOpponent,
    /// As `DragOpponent`, and then `damage` lands on the opponent's new Active Pokémon.
    DragOpponentThenHit { damage: u32 },
    /// The top card of the attacker's deck goes to the discard pile, then the opponent's Active
    /// Pokémon takes `base` damage, plus `extra` when that card is an Item card (`None`) or a
    /// Pokémon of the given type.
    DiscardDeckTopThenHit { base: u32, extra: u32, bonus_type: Option<EnergyType> },
    /// The attacker's player chooses one of the damaged Benched Pokémon of the opponent (or
    /// their own): the choice deals `active_damage` to the opponent's Active Pokémon and
    /// `bench_damage` to the chosen one (nothing when there is none).
    ChooseDamagedBenchDamage { active_damage: u32, bench_damage: u32, opponent_bench: bool },
    /// The attacker's player chooses one of the opponent's Pokémon to take `damage_per_energy`
    /// for each Energy attached to it.
    ChooseTargetByEnergy { damage_per_energy: u32 },
    /// Up to `count` Energy, one at a time, each taken at random off a Pokémon in play (the
    /// attacker's player's only, unless `everywhere`), to the discarded Energy when
    /// `to_discard`.
    TakeRandomEnergy { everywhere: bool, to_discard: bool, count: usize },
    /// The opponent's Active Pokémon's last `count` Energy, taken from the end, go to the
    /// discarded Energy.
    DiscardOpponentEnergyFromEnd { count: usize },
    /// The attacker's player chooses how to spread `heads` Fire Energy over their Benched Fire
    /// Pokémon.
    SpreadFireOnBench { heads: u8 },
    /// Knock Outs are handled, then one more hit of `damage` on the opponent's Active Pokémon
    /// is queued beneath every pending choice.
    KnockoutsThenHit { damage: u32 },
    /// The attacker's player may shuffle the attacker into their deck.
    OfferShuffleSelf,
    /// The attacker's player chooses one of their Benched Pokémon that count as Basic to
    /// attach one Energy of this type to.
    AttachToBenchedBasic { energy_type: EnergyType },
    /// The opponent's Active Pokémon is Knocked Out, and Knock Outs are handled at once.
    KnockOutOpponentAndResolve,
    /// One Energy of this type is attached to the attacker.
    AttachEnergyToSelf { energy_type: EnergyType },
    /// Every Special Condition is removed from the attacker.
    CureSelfStatus,
    /// The attacker heals as much damage as the opponent's Active Pokémon took since it had
    /// `hp_before` HP left.
    HealSelfByDamageDealt { hp_before: u32 },
    /// One card of the opponent's hand, picked at random, goes into their deck, which is then
    /// shuffled (nothing when the hand is empty).
    ShuffleRandomOpponentHandCard,
    /// The Pokémon Tool of the opponent's Active Pokémon goes to their discard pile.
    DiscardOpponentActiveTool,
    /// The attacker's player is offered to shuffle the attacker into their deck, when it has HP
    /// left.
    OfferShuffleActiveIntoDeck,
    /// A lasting effect is added to an Active Pokémon: the opponent's when `on_opponent`, else
    /// the attacker's.
    LeaveEffect { on_opponent: bool, effect: LastingEffect },
    /// The opponent's Active Pokémon, when it is a Basic Pokémon, can't attack (a lasting
    /// effect is added to it).
    BlockIfBasic,
}

/// A distribution of attack outcomes as plain values: the denominator, and each branch's
/// weight and outcome.
pub type AttackView = (int, Seq<(int, OutcomeView<AttackEffect>)>);

/// A distribution of attack outcomes as plain values.
pub open spec fn attack_view(o: AttackOutcomes<AttackEffect>) -> AttackView {
    (
        o.denominator as int,
        o.branches@.map_values(
            |b: AttackBranch<AttackEffect>| (b.weight as int, outcome_view(b.outcome)),
        ),
    )
}

/// `d` damage to the opponent's Active Pokémon and nothing else.
pub open spec fn hit(d: u32) -> OutcomeView<AttackEffect> {
    (seq![(d, true, 0usize)], Seq::empty(), Seq::empty(), Seq::empty())
}

/// `d` damage to the opponent's Active Pokémon, then `effects`.
pub open spec fn hit_then(d: u32, effects: Seq<AttackEffect>) -> OutcomeView<AttackEffect> {
    (seq![(d, true, 0usize)], Seq::empty(), effects, Seq::empty())
}

/// No damage of its own, only `effects`.
pub open spec fn effects_only(effects: Seq<AttackEffect>) -> OutcomeView<AttackEffect> {
    (Seq::empty(), Seq::empty(), effects, Seq::empty())
}

/// One outcome for sure.
pub open spec fn sure(o: OutcomeView<AttackEffect>) -> AttackView {
    (1, seq![(1int, o)])
}

/// One coin: heads, tails.
pub open spec fn coin(heads: OutcomeView<AttackEffect>, tails: OutcomeView<AttackEffect>) -> AttackView {
    (2, seq![(1int, heads), (1int, tails)])
}

/// `n` coins; the outcome depends on the number of heads.
pub open spec fn by_heads(n: nat, f: spec_fn(nat) -> OutcomeView<AttackEffect>) -> AttackView {
    (two_pow(n) as int, Seq::new(n + 1, |h: int| (binomial(n, h as nat) as int, f(h as nat))))
}

/// Flip until tails, at most `max` heads; the outcome depends on the number of heads.
pub open spec fn until_tails(max: nat, f: spec_fn(nat) -> OutcomeView<AttackEffect>) -> AttackView {
    (
        two_pow(max) as int,
        Seq::new(max + 1, |h: int| (geometric_weight(max, h as nat) as int, f(h as nat))),
    )
}

/// `a + b`, or `u32::MAX` when that does not fit.
pub open spec fn sat_add(a: u32, b: u32) -> u32 {
    if a + b > u32::MAX {
        u32::MAX
    } else {
        (a + b) as u32
    }
}

/// `a * b`, or `u32::MAX` when that does not fit.
pub open spec fn sat_mul(a: u32, b: u32) -> u32 {
    if a * b > u32::MAX {
        u32::MAX
    } else {
        (a * b) as u32
    }
}

/// `d` damage to the opponent's Active Pokémon.
pub(crate) fn hit_outcome(d: u32) -> (r: AttackOutcome<AttackEffect>)
    ensures
        outcome_view(r) == hit(d),
{
    let mut targets: Vec<DamageTarget> = Vec::new();
    targets.push((d, true, 0));
    let r = AttackOutcome::damage(targets);
    proof {
        assert(outcome_view(r).0 =~= seq![(d, true, 0usize)]);
        assert(outcome_view(r).1 =~= Seq::<AttackEffect>::empty());
        assert(outcome_view(r).2 =~= Seq::<AttackEffect>::empty());
        assert(outcome_view(r).3 =~= Seq::<usize>::empty());
    }
    r
}

/// `d` damage to the opponent's Active Pokémon, then `effects`.
pub(crate) fn hit_then_outcome(d: u32, effects: Vec<AttackEffect>) -> (r: AttackOutcome<AttackEffect>)
    ensures
        outcome_view(r) == hit_then(d, effects@),
{
    let mut targets: Vec<DamageTarget> = Vec::new();
    targets.push((d, true, 0));
    let r = AttackOutcome {
        damage: targets,
        pre_damage_effects: Vec::new(),
        post_damage_effects: effects,
        survivors_at_10: Vec::new(),
    };
    proof {
        assert(outcome_view(r).0 =~= seq![(d, true, 0usize)]);
        assert(outcome_view(r).1 =~= Seq::<AttackEffect>::empty());
        assert(outcome_view(r).3 =~= Seq::<usize>::empty());
    }
    r
}

/// `d` damage to the opponent's Active Pokémon, then one effect.
pub(crate) fn hit_then_one(d: u32, e: AttackEffect) -> (r: AttackOutcome<AttackEffect>)
    ensures
        outcome_view(r) == hit_then(d, seq![e]),
{
    let mut effects: Vec<AttackEffect> = Vec::new();
    effects.push(e);
    proof {
        assert(effects@ =~= seq![e]);
    }
    hit_then_outcome(d, effects)
}

/// One outcome for sure.
pub(crate) fn sure_outcomes(o: AttackOutcome<AttackEffect>) -> (r: AttackOutcomes<AttackEffect>)
    ensures
        r.is_distribution(),
        attack_view(r) == sure(outcome_view(o)),
{
    let ghost v = outcome_view(o);
    let r = AttackOutcomes::single(o);
    proof {
        assert(attack_view(r).1 =~= seq![(1int, v)]);
    }
    r
}

/// One coin.
pub(crate) fn coin_outcomes(heads: AttackOutcome<AttackEffect>, tails: AttackOutcome<AttackEffect>) -> (r:
    AttackOutcomes<AttackEffect>)
    ensures
        r.is_distribution(),
        attack_view(r) == coin(outcome_view(heads), outcome_view(tails)),
{
    let ghost h = outcome_view(heads);
    let ghost t = outcome_view(tails);
    let r = AttackOutcomes::binary_coin(heads, tails);
    proof {
        assert(attack_view(r).1 =~= seq![(1int, h), (1int, t)]);
    }
    r
}

/// `n` coins, with the outcome for each number of heads.
pub(crate) fn by_heads_outcomes(
    n: usize,
    per_heads: Vec<AttackOutcome<AttackEffect>>,
    f: Ghost<spec_fn(nat) -> OutcomeView<AttackEffect>>,
) -> (r: AttackOutcomes<AttackEffect>)
    requires
        n < 32,
        per_heads@.len() == n + 1,
        forall|h: int| 0 <= h <= n ==> outcome_view(#[trigger] per_heads@[h]) == (f@)(h as nat),
    ensures
        r.is_distribution(),
        attack_view(r) == by_heads(n as nat, f@),
{
    let ghost ps = per_heads@;
    let o = Outcomes::binomial_by_heads(n, per_heads);
    let r = AttackOutcomes::from_outcomes(o);
    proof {
        assert forall|h: int| 0 <= h < attack_view(r).1.len() implies attack_view(r).1[h]
            == by_heads(n as nat, f@).1[h] by {
            assert(r.branches@[h].outcome == ps[h]);
        }
        assert(attack_view(r).1 =~= by_heads(n as nat, f@).1);
    }
    r
}

/// Flip until tails (at most `max` heads), with the outcome for each number of heads.
pub(crate) fn until_tails_outcomes(
    max: usize,
    per_heads: Vec<AttackOutcome<AttackEffect>>,
    f: Ghost<spec_fn(nat) -> OutcomeView<AttackEffect>>,
) -> (r: AttackOutcomes<AttackEffect>)
    requires
        max < 63,
        per_heads@.len() == max + 1,
        forall|h: int| 0 <= h <= max ==> outcome_view(#[trigger] per_heads@[h]) == (f@)(h as nat),
    ensures
        r.is_distribution(),
        attack_view(r) == until_tails(max as nat, f@),
{
    let ghost ps = per_heads@;
    let o = Outcomes::geometric_until_tails(max, per_heads);
    let r = AttackOutcomes::from_outcomes(o);
    proof {
        assert forall|h: int| 0 <= h < attack_view(r).1.len() implies attack_view(r).1[h]
            == until_tails(max as nat, f@).1[h] by {
            assert(r.branches@[h].outcome == ps[h]);
        }
        assert(attack_view(r).1 =~= until_tails(max as nat, f@).1);
    }
    r
}

/// The Pokémon in `player`'s Active Spot (meaningful when there is one).
pub open spec fn active_of(s: StateView, player: int) -> PlayedCard {
    match s.board[player][0] {
        Some(c) => c,
        None => arbitrary(),
    }
}

/// Whether the Pokémon has damage on it.
pub open spec fn is_damaged(c: PlayedCard) -> bool {
    c.remaining_hp < c.total_hp
}

/// The damage on the Pokémon.
pub open spec fn damage_on(c: PlayedCard) -> u32 {
    sat_sub(c.total_hp, c.remaining_hp)
}

/// How many special conditions the Pokémon has.
pub open spec fn condition_count(c: PlayedCard) -> u32 {
    ((if c.poisoned { 1u32 } else { 0u32 }) + (if c.burned { 1u32 } else { 0u32 }) + (if c.asleep {
        1u32
    } else {
        0u32
    }) + (if c.paralyzed { 1u32 } else { 0u32 }) + (if c.confused { 1u32 } else { 0u32 })) as u32
}

/// Benched Pokémon among slots 1 to `i - 1` of a side, of type `t` when one is given.
pub open spec fn bench_count_upto(side: Seq<Option<PlayedCard>>, t: Option<EnergyType>, i: int) -> nat
    decreases i,
{
    if i <= 1 {
        0
    } else {
        bench_count_upto(side, t, i - 1) + match side[i - 1] {
            Some(c) => if t is None || c.card.energy_type_spec() == t {
                1nat
            } else {
                0nat
            },
            None => 0nat,
        }
    }
}

/// Benched Pokémon of a side, of type `t` when one is given.
pub open spec fn bench_count(side: Seq<Option<PlayedCard>>, t: Option<EnergyType>) -> nat {
    bench_count_upto(side, t, 4)
}

/// Status conditions as effects on one side.
pub open spec fn status_effects(conditions: Seq<StatusCondition>, on_opponent: bool) -> Seq<
    AttackEffect,
> {
    conditions.map_values(
        |c: StatusCondition| AttackEffect::InflictStatus { on_opponent, condition: c },
    )
}

/// Damage `damage` on every one of the opponent's Pokémon in play.
pub open spec fn spread(s: StateView, opponent: int, damage: u32) -> Seq<DamageTarget> {
    s.in_play_indices(opponent).map_values(|i: usize| (damage, true, i))
}

/// `a + b`, or `u32::MAX` when that does not fit.
pub(crate) fn sat_add_exec(a: u32, b: u32) -> (r: u32)
    ensures
        r == sat_add(a, b),
{
    let x: u64 = a as u64 + b as u64;
    if x > u32::MAX as u64 {
        u32::MAX
    } else {
        x as u32
    }
}

/// `a * b`, or `u32::MAX` when that does not fit.
pub(crate) fn sat_mul_exec(a: u32, b: u32) -> (r: u32)
    ensures
        r == sat_mul(a, b),
{
    proof {
        assert(a * b <= 0xffff_ffff * 0xffff_ffff) by (nonlinear_arith)
            requires
                a <= 0xffff_ffff,
                b <= 0xffff_ffff,
        ;
    }
    let x: u64 = a as u64 * b as u64;
    if x > u32::MAX as u64 {
        u32::MAX
    } else {
        x as u32
    }
}

/// `fixed` damage, plus `extra` when `bonus` holds.
pub open spec fn bonus_hit(fixed: u32, bonus: bool, extra: u32) -> OutcomeView<AttackEffect> {
    hit(
        if bonus {
            sat_add(fixed, extra)
        } else {
            fixed
        },
    )
}

/// `base + per_heads * heads` damage.
pub open spec fn per_heads_hit(base: u32, per_heads: u32) -> spec_fn(nat) -> OutcomeView<AttackEffect> {
    |h: nat| hit(sat_add(base, sat_mul(per_heads, h as u32)))
}

/// No damage on no heads, `damage` otherwise.
pub open spec fn unless_no_heads_hit(damage: u32) -> spec_fn(nat) -> OutcomeView<AttackEffect> {
    |h: nat|
        hit(
            if h == 0 {
                0
            } else {
                damage
            },
        )
}

/// `fixed` damage plus the extra listed for the number of heads (0 past the list).
pub open spec fn tiered_hit(fixed: u32, extra_by_heads: Seq<u32>) -> spec_fn(nat) -> OutcomeView<AttackEffect> {
    |h: nat|
        hit(
            sat_add(
                fixed,
                if h < extra_by_heads.len() {
                    extra_by_heads[h as int]
                } else {
                    0
                },
            ),
        )
}

/// The Benched Pokémon that Bench-count damage counts.
pub open spec fn counted_bench(s: StateView, side: BenchSide, t: Option<EnergyType>) -> nat {
    let cp = s.current_player as int;
    match side {
        BenchSide::YourBench => bench_count(s.board[cp], t),
        BenchSide::OpponentBench => bench_count(s.board[1 - cp], t),
        BenchSide::BothBenches => bench_count(s.board[cp], t) + bench_count(s.board[1 - cp], t),
    }
}


/// How many entries of `es` are `t`.
pub open spec fn count_of(es: Seq<EnergyType>, t: EnergyType) -> nat
    decreases es.len(),
{
    if es.len() == 0 {
        0
    } else {
        count_of(es.drop_last(), t) + if es.last() == t {
            1nat
        } else {
            0nat
        }
    }
}

/// Whether attached Energy pays a cost: each typed Energy of the cost by an Energy of its type,
/// each [C] by any Energy.
pub open spec fn can_pay(attached: Seq<EnergyType>, cost: Seq<EnergyType>) -> bool {
    &&& cost.len() <= attached.len()
    &&& forall|t: EnergyType|
        t != EnergyType::Colorless ==> #[trigger] count_of(cost, t) <= count_of(attached, t)
}

/// Damage `damage` (with `flag` as its side marker) on the Benched Pokémon of a side among
/// slots 1 to `i - 1`, in slot order; only those with Energy attached when `must_have_energy`.
pub open spec fn bench_targets_upto(
    side: Seq<Option<PlayedCard>>,
    must_have_energy: bool,
    damage: u32,
    flag: bool,
    i: int,
) -> Seq<DamageTarget>
    decreases i,
{
    if i <= 1 {
        Seq::empty()
    } else {
        let prev = bench_targets_upto(side, must_have_energy, damage, flag, i - 1);
        match side[i - 1] {
            Some(c) => if !must_have_energy || c.attached_energy@.len() > 0 {
                prev.push((damage, flag, (i - 1) as usize))
            } else {
                prev
            },
            None => prev,
        }
    }
}

/// Whether the coin counts of a mechanic are ones this library handles.
pub open spec fn coins_in_range(m: Mechanic) -> bool {
    match m {
        Mechanic::ExtraDamageForEachHeads { num_coins, .. } => num_coins < 32,
        Mechanic::TieredCoinFlipDamage { num_coins, .. } => num_coins < 32,
        Mechanic::ExtraDamageForEachHeadsSelfStatus { num_coins, .. } => num_coins < 32,
        Mechanic::ExtraDamageForEachHeadsWithStatus { num_coins, .. } => num_coins < 32,
        Mechanic::ExtraDamageForEachHeadsWithStatusAtLeast { num_coins, .. } => num_coins < 32,
        Mechanic::FlipCoinsBenchDamagePerHead { num_coins, .. } => num_coins < 32,
        Mechanic::CoinFlipsDiscardEnergyFromOpponentActiveOrNothing { num_coins } => num_coins < 32,
        Mechanic::CoinFlipsDiscardEnergyFromOpponentActive { num_coins } => num_coins < 32,
        Mechanic::DiscardSelfEnergyPerHeadsExtraDamage { num_coins, .. } => num_coins < 32,
        Mechanic::CoinFlipsAttachEnergyToSelf { num_coins, .. } => num_coins < 32,
        Mechanic::CoinFlipsShuffleOpponentHandCards { num_coins } => num_coins < 32,
        Mechanic::ExtraDamageForEachHeadsWithToolBoost { num_coins, boosted_num_coins, .. } => num_coins < 32
            && boosted_num_coins < 32,
        _ => true,
    }
}

/// What an attack with mechanic `m` and printed damage `fixed` can lead to, for the mechanics
/// whose forecast this library holds (`None` for the others). Sums and products of damage
/// saturate at `u32::MAX`.
pub open spec fn mechanic_forecast(s: StateView, attack: Attack, m: Mechanic) -> Option<AttackView> {
    let fixed = attack.fixed_damage;
    let cp = s.current_player as int;
    let opp = 1 - cp;
    let attacker = active_of(s, cp);
    let defender = active_of(s, opp);
    match m {
        Mechanic::ExtraDamageIfEx { extra_damage } => Some(
            sure(bonus_hit(fixed, defender.card.is_ex_spec(), extra_damage)),
        ),
        Mechanic::ExtraDamageIfDefenderType { energy_type, extra_damage } => Some(
            sure(
                bonus_hit(fixed, defender.card.energy_type_spec() == Some(energy_type), extra_damage),
            ),
        ),
        Mechanic::ExtraDamageIfHurt { extra_damage, opponent } => Some(
            sure(
                bonus_hit(
                    fixed,
                    is_damaged(
                        if opponent {
                            defender
                        } else {
                            attacker
                        },
                    ),
                    extra_damage,
                ),
            ),
        ),
        Mechanic::ExtraDamageIfUndamaged { extra_damage } => Some(
            sure(bonus_hit(fixed, !is_damaged(attacker), extra_damage)),
        ),
        Mechanic::ExtraDamageIfDefenderIsBasic { extra_damage } => Some(
            sure(bonus_hit(fixed, defender.card.is_basic_spec(), extra_damage)),
        ),
        Mechanic::ExtraDamageIfMoreEnergyThanDefender { extra_damage } => Some(
            sure(
                bonus_hit(
                    fixed,
                    attacker.attached_energy@.len() > defender.attached_energy@.len(),
                    extra_damage,
                ),
            ),
        ),
        Mechanic::ExtraDamageIfSelfHpAtMost { threshold, extra_damage } => Some(
            sure(bonus_hit(fixed, attacker.remaining_hp <= threshold, extra_damage)),
        ),
        Mechanic::ExtraDamageIfOpponentHpMoreThanSelf { extra_damage } => Some(
            sure(bonus_hit(fixed, defender.remaining_hp > attacker.remaining_hp, extra_damage)),
        ),
        Mechanic::ExtraDamageIfDefenderHasLessHp { extra_damage } => Some(
            sure(bonus_hit(fixed, defender.remaining_hp < attacker.remaining_hp, extra_damage)),
        ),
        Mechanic::ExtraDamageIfDefenderPoisoned { extra_damage } => Some(
            sure(bonus_hit(fixed, defender.poisoned, extra_damage)),
        ),
        Mechanic::ExtraDamageIfDefenderBurned { extra_damage } => Some(
            sure(bonus_hit(fixed, defender.burned, extra_damage)),
        ),
        Mechanic::ExtraDamageIfDefenderConfused { extra_damage } => Some(
            sure(bonus_hit(fixed, defender.confused, extra_damage)),
        ),
        Mechanic::ExtraDamageIfDefenderAsleep { extra_damage } => Some(
            sure(bonus_hit(fixed, defender.asleep, extra_damage)),
        ),
        Mechanic::ExtraDamagePerDefenderSpecialCondition { damage_per_condition } => Some(
            sure(hit(sat_add(fixed, sat_mul(condition_count(defender), damage_per_condition)))),
        ),
        Mechanic::ExtraDamageIfDefenderToolAttached { extra_damage } => Some(
            sure(bonus_hit(fixed, defender.attached_tool is Some, extra_damage)),
        ),
        Mechanic::ExtraDamagePerOwnPoint { damage_per_point } => Some(
            sure(hit(sat_add(fixed, sat_mul(s.points[cp], damage_per_point)))),
        ),
        Mechanic::ExtraDamagePerOpponentPoint { damage_per_point } => Some(
            sure(hit(sat_add(fixed, sat_mul(s.points[opp], damage_per_point)))),
        ),
        Mechanic::ExtraDamagePerOpponentPointLastTurn { damage_per } => Some(
            sure(hit(sat_add(fixed, sat_mul(s.points_gained_last_turn[opp], damage_per)))),
        ),
        Mechanic::ExtraDamageIfPointsExactly { opponent, points, extra_damage } => Some(
            sure(
                bonus_hit(
                    fixed,
                    s.points[if opponent {
                        opp
                    } else {
                        cp
                    }] == points,
                    extra_damage,
                ),
            ),
        ),
        Mechanic::ExtraDamageIfStadiumInPlay { extra_damage } => Some(
            sure(bonus_hit(fixed, s.active_stadium is Some, extra_damage)),
        ),
        Mechanic::DamageEqualToSelfDamage => Some(sure(hit(damage_on(attacker)))),
        Mechanic::ExtraDamageEqualToSelfDamage => Some(
            sure(hit(sat_add(fixed, damage_on(attacker)))),
        ),
        Mechanic::DamageEqualToSelfRemainingHp => Some(sure(hit(attacker.remaining_hp))),
        Mechanic::ReducedDamageIfSelfDamaged { reduction } => Some(
            sure(
                hit(
                    if is_damaged(attacker) {
                        sat_sub(fixed, reduction)
                    } else {
                        fixed
                    },
                ),
            ),
        ),
        Mechanic::NothingIfSelfHpAtMost { threshold } => Some(
            sure(
                hit(
                    if attacker.remaining_hp <= threshold {
                        0
                    } else {
                        fixed
                    },
                ),
            ),
        ),
        Mechanic::AlternativeCostIfSelfDamaged { .. }
        | Mechanic::AlternativeCostIfDeckEmpty { .. }
        | Mechanic::DamageUnaffectedByWeakness
        | Mechanic::DamageUnaffectedByOpponentActiveEffects => Some(sure(hit(fixed))),
        Mechanic::CoinFlipExtraDamage { extra_damage } => Some(
            coin(hit(sat_add(fixed, extra_damage)), hit(fixed)),
        ),
        Mechanic::CoinFlipNoEffect => Some(coin(hit(fixed), hit(0))),
        Mechanic::ExtraDamageForEachHeads { include_fixed_damage, damage_per_head, num_coins } => Some(
            by_heads(
                num_coins as nat,
                per_heads_hit(
                    if include_fixed_damage {
                        fixed
                    } else {
                        0
                    },
                    damage_per_head,
                ),
            ),
        ),
        Mechanic::FlipUntilTailsDamage { damage_per_heads } => Some(
            until_tails(8, per_heads_hit(0, damage_per_heads)),
        ),
        Mechanic::FlipUntilTailsBonusDamage { damage_per_heads } => Some(
            until_tails(8, per_heads_hit(fixed, damage_per_heads)),
        ),
        Mechanic::ExtraDamageIfBothHeads { extra_damage } => Some(
            (4, seq![(1int, hit(sat_add(fixed, extra_damage))), (3int, hit(fixed))]),
        ),
        Mechanic::NothingIfBothTails => Some(by_heads(2, unless_no_heads_hit(fixed))),
        Mechanic::TieredCoinFlipDamage { num_coins, extra_damage_by_heads } => Some(
            by_heads(num_coins as nat, tiered_hit(fixed, extra_damage_by_heads@)),
        ),
        Mechanic::SelfDamage { amount } => Some(
            sure(hit_then(fixed, seq![AttackEffect::DamageSelf { amount }])),
        ),
        Mechanic::CoinFlipSelfDamage { self_damage } => Some(
            coin(hit(fixed), hit_then(fixed, seq![AttackEffect::DamageSelf { amount: self_damage }])),
        ),
        Mechanic::CoinFlipExtraDamageOrSelfDamage { extra_damage, self_damage } => Some(
            coin(
                hit(sat_add(fixed, extra_damage)),
                hit_then(fixed, seq![AttackEffect::DamageSelf { amount: self_damage }]),
            ),
        ),
        Mechanic::ChanceStatusAttack { condition } => Some(
            coin(
                hit_then(fixed, seq![AttackEffect::InflictStatus { on_opponent: true, condition }]),
                hit(fixed),
            ),
        ),
        Mechanic::InflictStatusConditions { conditions, target_opponent } => Some(
            sure(hit_then(fixed, status_effects(conditions@, target_opponent))),
        ),
        Mechanic::CoinFlipNoDamageOrStatusAttack { status } => Some(
            coin(
                hit_then(
                    fixed,
                    seq![AttackEffect::InflictStatus { on_opponent: true, condition: status }],
                ),
                hit(0),
            ),
        ),
        Mechanic::DamageAllOpponentPokemon { damage } => Some(
            sure((spread(s, opp, damage), Seq::empty(), Seq::empty(), Seq::empty())),
        ),
        Mechanic::DirectDamage { damage, bench_only } => Some(
            sure(hit_then(0, seq![AttackEffect::ChooseDamageTarget { damage, bench_only }])),
        ),
        Mechanic::SelfHeal { amount } => Some(
            sure(hit_then(fixed, seq![AttackEffect::HealSelf { amount }])),
        ),
        Mechanic::CoinFlipSelfHeal { amount } => Some(
            coin(hit_then(fixed, seq![AttackEffect::HealSelf { amount }]), hit(fixed)),
        ),
        Mechanic::DrawCard { amount } => Some(
            sure(hit_then(fixed, seq![AttackEffect::DrawCards { amount }])),
        ),
        Mechanic::BenchCountDamage { include_fixed_damage, damage_per, energy_type, bench_side } => {
            let per = sat_mul(damage_per, counted_bench(s, bench_side, energy_type) as u32);
            Some(
                sure(
                    hit(
                        if include_fixed_damage {
                            sat_add(fixed, per)
                        } else {
                            per
                        },
                    ),
                ),
            )
        },
        Mechanic::MoveAllEnergyTypeToBench { energy_type } => Some(
            if count_of(attacker.attached_energy@, energy_type) == 0 || s.bench_indices(cp).len()
                == 0 {
                sure(hit(fixed))
            } else {
                sure(hit_then(fixed, seq![AttackEffect::MoveAllOfTypeToBench { energy_type }]))
            },
        ),
        Mechanic::MoveFixedEnergyTypeToBench { energy_type, amount } => Some(
            if count_of(attacker.attached_energy@, energy_type) < amount || s.bench_indices(
                cp,
            ).len() == 0 {
                sure(hit(fixed))
            } else {
                sure(
                    hit_then(
                        fixed,
                        seq![AttackEffect::MoveFixedOfTypeToBench { energy_type, amount }],
                    ),
                )
            },
        ),
        Mechanic::MoveAllEnergyToBench => Some(
            sure(hit_then(fixed, seq![AttackEffect::MoveFromActiveToBench { all: true, count: 0 }])),
        ),
        Mechanic::MoveRandomEnergyToBench { count } => Some(
            sure(hit_then(fixed, seq![AttackEffect::MoveFromActiveToBench { all: false, count }])),
        ),
        Mechanic::AlsoBenchDamage { opponent, damage, must_have_energy } => Some(
            sure(
                (
                    bench_targets_upto(
                        s.board[if opponent {
                            opp
                        } else {
                            cp
                        }],
                        must_have_energy,
                        damage,
                        opponent,
                        4,
                    ).push((fixed, true, 0usize)),
                    Seq::empty(),
                    Seq::empty(),
                    Seq::empty(),
                ),
            ),
        ),
        Mechanic::AlsoChoiceBenchDamage { opponent, damage } => Some(
            sure(
                effects_only(
                    seq![
                        AttackEffect::ChooseBenchDamage {
                            active_damage: fixed,
                            bench_damage: damage,
                            opponent_bench: opponent,
                            num_targets: 1,
                        },
                    ],
                ),
            ),
        ),
        Mechanic::ConditionalBenchDamage {
            required_extra_energy,
            bench_damage,
            num_bench_targets,
            opponent,
        } => Some(
            if can_pay(
                attacker.attached_energy@,
                attack.energy_required@ + required_extra_energy@,
            ) && s.bench_indices(
                if opponent {
                    opp
                } else {
                    cp
                },
            ).len() >= num_bench_targets {
                sure(
                    effects_only(
                        seq![
                            AttackEffect::ChooseBenchDamage {
                                active_damage: fixed,
                                bench_damage,
                                opponent_bench: opponent,
                                num_targets: num_bench_targets,
                            },
                        ],
                    ),
                )
            } else {
                sure(hit(fixed))
            },
        ),
        Mechanic::RandomSpreadDamage { times, damage_per_hit, include_own_bench } => {
            let targets = spread_targets(s, cp, include_own_bench);
            let hits = (times + extra_spread_hits(s, attack.title@)) as nat;
            if targets.len() == 0 {
                Some(sure(effects_only(Seq::empty())))
            } else if random_hits_fit(targets.len(), hits, damage_per_hit) {
                Some(random_hits_view(targets, hits, damage_per_hit, cp, Seq::empty()))
            } else {
                None
            }
        },
        Mechanic::RandomDamageToOpponentPokemonPerSelfEnergy { energy_type, damage_per_hit } => {
            let hits = count_of(attacker.attached_energy@, energy_type);
            let targets = spread_targets(s, cp, false);
            if hits == 0 {
                Some(sure(hit(0)))
            } else if targets.len() == 0 {
                Some(sure(effects_only(Seq::empty())))
            } else if random_hits_fit(targets.len(), hits, damage_per_hit) {
                Some(random_hits_view(targets, hits, damage_per_hit, cp, Seq::empty()))
            } else {
                None
            }
        },
        Mechanic::ExtraDamageIfOpponentHasSpecialCondition { extra_damage } => Some(
            sure(bonus_hit(fixed, condition_count(defender) > 0, extra_damage)),
        ),
        Mechanic::ExtraDamageIfSupportPlayedThisTurn { extra_damage } => Some(
            sure(bonus_hit(fixed, s.has_played_support, extra_damage)),
        ),
        Mechanic::ExtraDamageIfAnyBenchedDamaged { extra_damage } => Some(
            sure(bonus_hit(fixed, bench_has_damaged(s.board[cp]), extra_damage)),
        ),
        Mechanic::ExtraDamagePerSpecificEnergy { energy_type, damage_per_energy } => Some(
            sure(
                hit(
                    sat_add(
                        fixed,
                        sat_mul(count_of(attacker.attached_energy@, energy_type) as u32, damage_per_energy),
                    ),
                ),
            ),
        ),
        Mechanic::ExtraDamageIfToolAttached { extra_damage } => Some(
            sure(bonus_hit(fixed, attacker.attached_tool is Some, extra_damage)),
        ),
        Mechanic::DamagePerOwnToolAttached { damage_per } => Some(
            sure(hit(sat_mul(damage_per, tools_upto(s.board[cp], 4) as u32))),
        ),
        Mechanic::ExtraDamageIfSelfHasTypeEnergy { energy_type, extra_damage } => Some(
            sure(bonus_hit(fixed, count_of(attacker.attached_energy@, energy_type) > 0, extra_damage)),
        ),
        Mechanic::ExtraDamageIfCombinedActiveEnergyAtLeast { threshold, extra_damage } => Some(
            sure(
                bonus_hit(
                    fixed,
                    attacker.attached_energy@.len() + defender.attached_energy@.len() >= threshold,
                    extra_damage,
                ),
            ),
        ),
        Mechanic::ExtraDamageIfDefenderAnyType { energy_types, extra_damage } => Some(
            sure(
                bonus_hit(
                    fixed,
                    defender.card.energy_type_spec() is Some && energy_types@.contains(
                        defender.card.energy_type_spec()->0,
                    ),
                    extra_damage,
                ),
            ),
        ),
        Mechanic::DamagePerOwnHandCard { damage_per_card } => Some(
            sure(hit(sat_mul(damage_per_card, s.hands[cp].len() as u32))),
        ),
        Mechanic::ExtraDamageIfMovedFromBench { extra_damage } => Some(
            sure(bonus_hit(fixed, attacker.moved_to_active_this_turn, extra_damage)),
        ),
        Mechanic::DamageReducedBySelfDamage => Some(sure(hit(sat_sub(fixed, damage_on(attacker))))),
        Mechanic::ExtraDamageIfExtraEnergy { required_extra_energy, extra_damage } => Some(
            sure(
                bonus_hit(
                    fixed,
                    can_pay(attacker.attached_energy@, attack.energy_required@ + required_extra_energy@),
                    extra_damage,
                ),
            ),
        ),
        Mechanic::ExtraDamageIfHandSizeIs { hand_sizes, extra_damage } => Some(
            sure(bonus_hit(fixed, hand_sizes@.contains(s.hands[cp].len() as usize), extra_damage)),
        ),
        Mechanic::ExtraDamageIfPokemonOnBench { pokemon_name, extra_damage } => Some(
            sure(bonus_hit(fixed, named_bench_upto(s.board[cp], pokemon_name@, 4) > 0, extra_damage)),
        ),
        Mechanic::ExtraDamagePerPokemonWithNameOnBench { pokemon_name, damage_per } => Some(
            sure(
                hit(
                    sat_add(fixed, sat_mul(named_bench_upto(s.board[cp], pokemon_name@, 4) as u32, damage_per)),
                ),
            ),
        ),
        Mechanic::ExtraDamageIfOpponentActiveHasAbility { extra_damage } => Some(
            sure(bonus_hit(fixed, defender.card.ability_spec() is Some, extra_damage)),
        ),
        Mechanic::ChanceMultipleStatusAttack { conditions } => Some(
            coin(hit_then(fixed, status_effects(conditions@, true)), hit(fixed)),
        ),
        Mechanic::CoinFlipStatusSelfOrOpponent { status } => Some(
            coin(
                hit_then(fixed, seq![AttackEffect::InflictStatus { on_opponent: true, condition: status }]),
                hit_then(fixed, seq![AttackEffect::InflictStatus { on_opponent: false, condition: status }]),
            ),
        ),
        Mechanic::InflictStatusConditionsOnBothActive { conditions } => Some(
            sure(hit_then(fixed, both_status_effects(conditions@))),
        ),
        Mechanic::SelfHealIfStadiumInPlay { amount } => Some(
            if s.active_stadium is Some {
                sure(hit_then(fixed, seq![AttackEffect::HealSelf { amount }]))
            } else {
                sure(hit(fixed))
            },
        ),
        Mechanic::InflictStatusIfStadiumInPlay { status } => Some(
            if s.active_stadium is Some {
                sure(hit_then(fixed, seq![AttackEffect::InflictStatus { on_opponent: true, condition: status }]))
            } else {
                sure(hit(fixed))
            },
        ),
        Mechanic::SelfAsleepAndHeal { amount } => Some(
            sure(
                hit_then(
                    fixed,
                    seq![
                        AttackEffect::InflictStatus { on_opponent: false, condition: StatusCondition::Asleep },
                        AttackEffect::HealSelf { amount },
                    ],
                ),
            ),
        ),
        Mechanic::CoinFlipStatusOutcome { heads_status, tails_status } => Some(
            coin(
                hit_then(fixed, seq![AttackEffect::InflictStatus { on_opponent: true, condition: heads_status }]),
                hit_then(fixed, seq![AttackEffect::InflictStatus { on_opponent: true, condition: tails_status }]),
            ),
        ),
        Mechanic::CoinFlipPerPokemonInPlay { damage_per_head } => Some(
            by_heads(s.in_play_indices(cp).len(), per_heads_hit(0, damage_per_head)),
        ),
        Mechanic::ExtraDamageForEachHeadsSelfStatus { num_coins, damage_per_head, status } => Some(
            by_heads(num_coins as nat, per_heads_status_hit(0, damage_per_head, false, status, 0)),
        ),
        Mechanic::ExtraDamageForEachHeadsWithStatus { include_fixed_damage, damage_per_head, num_coins, status } => Some(
            by_heads(
                num_coins as nat,
                per_heads_status_hit(
                    if include_fixed_damage {
                        fixed
                    } else {
                        0
                    },
                    damage_per_head,
                    true,
                    status,
                    0,
                ),
            ),
        ),
        Mechanic::ExtraDamageForEachHeadsWithStatusAtLeast { num_coins, damage_per_head, status, min_heads } => Some(
            by_heads(num_coins as nat, per_heads_status_hit(0, damage_per_head, true, status, min_heads as nat)),
        ),
        Mechanic::FlipCoinsBenchDamagePerHead { num_coins, bench_damage_per_head } => Some(
            by_heads(num_coins as nat, per_heads_bench_hit(fixed, bench_damage_per_head, s.bench_indices(opp))),
        ),
        Mechanic::AlsoBenchDamageIfDamaged { opponent, damage } => Some(
            sure(
                (
                    damaged_bench_targets(
                        s.board[if opponent {
                            opp
                        } else {
                            cp
                        }],
                        damage,
                        opponent,
                    ).push((fixed, true, 0usize)),
                    Seq::empty(),
                    Seq::empty(),
                    Seq::empty(),
                ),
            ),
        ),
        Mechanic::AlsoBenchDamageIfPokemonOnBench { pokemon_name, bench_damage } => Some(
            sure(
                (
                    (if named_bench_upto(s.board[cp], pokemon_name@, 4) > 0 {
                        s.bench_indices(opp).map_values(|i: usize| (bench_damage, true, i))
                    } else {
                        Seq::empty()
                    }).push((fixed, true, 0usize)),
                    Seq::empty(),
                    Seq::empty(),
                    Seq::empty(),
                ),
            ),
        ),
        Mechanic::CoinFlipAlsoChoiceBenchDamage { opponent, damage } => Some(
            if s.bench_indices(
                if opponent {
                    opp
                } else {
                    cp
                },
            ).len() == 0 {
                sure(hit(fixed))
            } else {
                coin(
                    effects_only(
                        seq![
                            AttackEffect::ChooseBenchDamage {
                                active_damage: fixed,
                                bench_damage: damage,
                                opponent_bench: opponent,
                                num_targets: 1,
                            },
                        ],
                    ),
                    hit(fixed),
                )
            },
        ),
        Mechanic::CoinFlipDamageOrHealOpponent { damage, heal } => Some(
            coin(hit(damage), effects_only(seq![AttackEffect::HealOpponentActive { amount: heal }])),
        ),
        Mechanic::HealAllYourPokemon { amount } => Some(
            sure(hit_then(fixed, seq![AttackEffect::HealAllOwn { amount }])),
        ),
        Mechanic::HealAllBenchedPokemon { amount, only_basic } => Some(
            sure(hit_then(fixed, seq![AttackEffect::HealOwnBench { amount, only_basic }])),
        ),
        Mechanic::HealOneYourPokemon { amount } => Some(
            sure(effects_only(seq![AttackEffect::ChooseHeal { amount, bench_only: false }])),
        ),
        Mechanic::HealOneYourBenchedPokemon { amount } => Some(
            sure(effects_only(seq![AttackEffect::ChooseHeal { amount, bench_only: true }])),
        ),
        Mechanic::ExtraDamageIfFewerPokemonInPlay { extra_damage } => Some(
            sure(bonus_hit(fixed, s.in_play_indices(cp).len() < s.in_play_indices(opp).len(), extra_damage)),
        ),
        Mechanic::ExtraDamageIfOpponentHasTypeInPlay { energy_type, extra_damage } => Some(
            sure(bonus_hit(fixed, side_has_type(s.board[opp], energy_type), extra_damage)),
        ),
        Mechanic::ExtraDamagePerOpponentPokemonWithAbility { damage_per } => Some(
            sure(hit(sat_add(fixed, sat_mul(damage_per, abilities_upto(s.board[opp], 4) as u32)))),
        ),
        Mechanic::ExtraDamagePerSpecificEnergyAllYours { energy_type, damage_per_energy } => Some(
            sure(
                hit(
                    sat_add(
                        fixed,
                        sat_mul(energy_count_upto(s.board[cp], energy_type, 4) as u32, damage_per_energy),
                    ),
                ),
            ),
        ),
        Mechanic::SelfDamageAndAllBenchDamage { self_damage, bench_damage } => Some(
            sure(
                (
                    seq![(fixed, true, 0usize), (self_damage, false, 0usize)] + s.bench_indices(opp).map_values(
                        |i: usize| (bench_damage, true, i),
                    ) + s.bench_indices(cp).map_values(|i: usize| (bench_damage, false, i)),
                    Seq::empty(),
                    Seq::empty(),
                    Seq::empty(),
                ),
            ),
        ),
        Mechanic::SelfDiscardAllEnergy => Some(
            sure(hit_then(fixed, seq![AttackEffect::DiscardAllOwnActiveEnergy])),
        ),
        Mechanic::CoinFlipDiscardEnergyFromOpponentActive => Some(
            coin(hit_then(20, seq![AttackEffect::RemoveRandomOpponentActiveEnergy]), hit(20)),
        ),
        Mechanic::CoinFlipSetOpponentHpTo { hp } => Some(
            coin(hit_then(0, seq![AttackEffect::SetOpponentActiveHp { hp }]), hit(0)),
        ),
        Mechanic::HealSelfIfDefenderPoisoned { amount } => Some(
            sure(hit_then(fixed, seq![AttackEffect::HealSelfIfOpponentPoisoned { amount }])),
        ),
        Mechanic::ExtraDamagePerPokemonInDiscard { damage_per_pokemon } => Some(
            sure(
                hit(
                    sat_add(
                        fixed,
                        sat_mul(pokemon_in_pile_upto(s.discard_piles[cp], None, s.discard_piles[cp].len() as int) as u32, damage_per_pokemon),
                    ),
                ),
            ),
        ),
        Mechanic::ExtraDamagePerPokemonTypeInDiscard { energy_type, damage_per_pokemon } => Some(
            sure(
                hit(
                    sat_add(
                        fixed,
                        sat_mul(
                            pokemon_in_pile_upto(s.discard_piles[cp], Some(energy_type), s.discard_piles[cp].len() as int) as u32,
                            damage_per_pokemon,
                        ),
                    ),
                ),
            ),
        ),
        Mechanic::KnockBackOpponentActive => Some(sure(hit_then(fixed, seq![AttackEffect::KnockBackOpponent]))),
        Mechanic::AlsoRandomBenchDamage { bench_damage } => Some(
            sure(hit_then(fixed, seq![AttackEffect::RandomOpponentBenchDamage { damage: bench_damage }])),
        ),
        Mechanic::SelfDiscardAllEnergyAndKnockOutOpponentActive => Some(
            sure(
                hit_then(
                    0,
                    seq![AttackEffect::DiscardAllOwnActiveEnergy, AttackEffect::KnockOutOpponentActive],
                ),
            ),
        ),
        Mechanic::DamageAndDiscardOpponentDeck { discard_count } => Some(
            sure(hit_then(fixed, seq![AttackEffect::DiscardTopDeck { own: false, count: discard_count }])),
        ),
        Mechanic::FlipUntilTailsDiscardOpponentDeck => Some(until_tails(8, per_heads_deck_discard(fixed))),
        Mechanic::DiscardTopSelfDeck { count } => Some(
            sure(hit_then(fixed, seq![AttackEffect::DiscardTopDeck { own: true, count }])),
        ),
        Mechanic::DamageAndDiscardBothDecks { discard_count } => Some(
            sure(
                hit_then(
                    fixed,
                    seq![
                        AttackEffect::DiscardTopDeck { own: true, count: discard_count },
                        AttackEffect::DiscardTopDeck { own: false, count: discard_count },
                    ],
                ),
            ),
        ),
        Mechanic::RecoilIfKo { self_damage } => Some(
            sure(hit_then(fixed, seq![AttackEffect::RecoilIfOpponentKnockedOut { amount: self_damage }])),
        ),
        Mechanic::MegaAmpharosExLightningLancer => {
            let targets = s.bench_indices(opp).map_values(|i: usize| (opp as usize, i));
            if targets.len() == 0 {
                Some(sure(hit(100)))
            } else {
                Some(random_hits_view(targets, 3, 20, cp, seq![(100u32, true, 0usize)]))
            }
        },
        _ => energy_mechanic_forecast(s, attack, m),
    }
}

/// Whether the Pokémon has damage on it.
pub(crate) fn is_damaged_exec(c: &PlayedCard) -> (r: bool)
    ensures
        r == is_damaged(*c),
{
    c.remaining_hp < c.total_hp
}

/// How many special conditions the Pokémon has.
pub(crate) fn condition_count_exec(c: &PlayedCard) -> (r: u32)
    ensures
        r == condition_count(*c),
{
    let mut n: u32 = 0;
    if c.poisoned {
        n = n + 1;
    }
    if c.burned {
        n = n + 1;
    }
    if c.asleep {
        n = n + 1;
    }
    if c.paralyzed {
        n = n + 1;
    }
    if c.confused {
        n = n + 1;
    }
    n
}

/// Benched Pokémon of a side, of type `t` when one is given.
fn bench_count_exec(side: &Vec<Option<PlayedCard>>, t: Option<EnergyType>) -> (r: u32)
    requires
        side@.len() == 4,
    ensures
        r == bench_count(side@, t),
{
    let mut n: u32 = 0;
    let mut i: usize = 1;
    while i < 4
        invariant
            1 <= i <= 4,
            side@.len() == 4,
            n == bench_count_upto(side@, t, i as int),
            n <= i,
        decreases 4 - i,
    {
        match &side[i] {
            Some(c) => {
                let counts = match t {
                    None => true,
                    Some(wanted) => match c.get_energy_type() {
                        Some(e) => e == wanted,
                        None => false,
                    },
                };
                if counts {
                    n = n + 1;
                }
            },
            None => {},
        }
        i = i + 1;
    }
    n
}

/// The Benched Pokémon that Bench-count damage counts.
fn counted_bench_exec(state: &State, side: &BenchSide, t: Option<EnergyType>) -> (r: u32)
    requires
        state.wf(),
    ensures
        r == counted_bench(state@, *side, t),
        r <= 6,
{
    let cp = state.current_player;
    let opp = 1 - cp;
    proof {
        assert(state@.board[cp as int] == state.in_play_pokemon@[cp as int]@);
        assert(state@.board[opp as int] == state.in_play_pokemon@[opp as int]@);
        lemma_bench_count_small(state@.board[cp as int], t, 4);
        lemma_bench_count_small(state@.board[opp as int], t, 4);
    }
    match side {
        BenchSide::YourBench => bench_count_exec(&state.in_play_pokemon[cp], t),
        BenchSide::OpponentBench => bench_count_exec(&state.in_play_pokemon[opp], t),
        BenchSide::BothBenches => bench_count_exec(&state.in_play_pokemon[cp], t)
            + bench_count_exec(&state.in_play_pokemon[opp], t),
    }
}

/// At most one Pokémon per Bench slot is counted.
proof fn lemma_bench_count_small(side: Seq<Option<PlayedCard>>, t: Option<EnergyType>, i: int)
    requires
        1 <= i,
    ensures
        bench_count_upto(side, t, i) <= i - 1,
    decreases i,
{
    if i > 1 {
        lemma_bench_count_small(side, t, i - 1);
    }
}

/// Status conditions as effects on one side.
pub(crate) fn status_effects_exec(conditions: &Vec<StatusCondition>, on_opponent: bool) -> (r: Vec<
    AttackEffect,
>)
    ensures
        r@ == status_effects(conditions@, on_opponent),
{
    let mut r: Vec<AttackEffect> = Vec::new();
    let mut i: usize = 0;
    while i < conditions.len()
        invariant
            i <= conditions@.len(),
            r@ == status_effects(conditions@.subrange(0, i as int), on_opponent),
        decreases conditions@.len() - i,
    {
        r.push(AttackEffect::InflictStatus { on_opponent, condition: conditions[i] });
        i = i + 1;
        proof {
            assert(r@ =~= status_effects(conditions@.subrange(0, i as int), on_opponent));
        }
    }
    proof {
        assert(conditions@.subrange(0, conditions@.len() as int) =~= conditions@);
    }
    r
}

/// Damage on every one of the opponent's Pokémon in play.
pub(crate) fn spread_exec(state: &State, opponent: usize, damage: u32) -> (r: Vec<DamageTarget>)
    requires
        state.wf(),
        opponent < 2,
    ensures
        r@ == spread(state@, opponent as int, damage),
{
    let idxs = state.enumerate_in_play_pokemon(opponent);
    let mut r: Vec<DamageTarget> = Vec::new();
    let mut i: usize = 0;
    while i < idxs.len()
        invariant
            i <= idxs@.len(),
            r@ == idxs@.subrange(0, i as int).map_values(|k: usize| (damage, true, k)),
        decreases idxs@.len() - i,
    {
        r.push((damage, true, idxs[i]));
        i = i + 1;
        proof {
            assert(r@ =~= idxs@.subrange(0, i as int).map_values(|k: usize| (damage, true, k)));
        }
    }
    proof {
        assert(idxs@.subrange(0, idxs@.len() as int) =~= idxs@);
    }
    r
}

/// The outcomes `base + per_heads * h` damage for `h` from 0 to `n` heads.
pub(crate) fn per_heads_hits(n: usize, base: u32, per_heads: u32) -> (r: Vec<AttackOutcome<AttackEffect>>)
    requires
        n < 63,
    ensures
        r@.len() == n + 1,
        forall|h: int|
            0 <= h <= n ==> outcome_view(#[trigger] r@[h]) == (per_heads_hit(base, per_heads))(
                h as nat,
            ),
{
    let mut r: Vec<AttackOutcome<AttackEffect>> = Vec::new();
    let mut h: usize = 0;
    while h <= n
        invariant
            h <= n + 1,
            n < 63,
            r@.len() == h,
            forall|k: int|
                0 <= k < h ==> outcome_view(#[trigger] r@[k]) == (per_heads_hit(base, per_heads))(
                    k as nat,
                ),
        decreases n + 1 - h,
    {
        let d = sat_add_exec(base, sat_mul_exec(per_heads, h as u32));
        r.push(hit_outcome(d));
        h = h + 1;
    }
    r
}

/// The outcomes for Tiered coin-flip damage, for 0 to `n` heads.
fn tiered_hits(n: usize, fixed: u32, extra_by_heads: &Vec<u32>) -> (r: Vec<
    AttackOutcome<AttackEffect>,
>)
    requires
        n < 63,
    ensures
        r@.len() == n + 1,
        forall|h: int|
            0 <= h <= n ==> outcome_view(#[trigger] r@[h]) == (tiered_hit(fixed, extra_by_heads@))(
                h as nat,
            ),
{
    let mut r: Vec<AttackOutcome<AttackEffect>> = Vec::new();
    let mut h: usize = 0;
    while h <= n
        invariant
            h <= n + 1,
            n < 63,
            r@.len() == h,
            forall|k: int|
                0 <= k < h ==> outcome_view(#[trigger] r@[k]) == (tiered_hit(
                    fixed,
                    extra_by_heads@,
                ))(k as nat),
        decreases n + 1 - h,
    {
        let extra = if h < extra_by_heads.len() {
            extra_by_heads[h]
        } else {
            0
        };
        r.push(hit_outcome(sat_add_exec(fixed, extra)));
        h = h + 1;
    }
    r
}

/// How many entries of `es` are `t`.
pub(crate) fn count_exec(es: &Vec<EnergyType>, t: EnergyType) -> (r: usize)
    ensures
        r == count_of(es@, t),
        r <= es@.len(),
{
    let mut r: usize = 0;
    let mut i: usize = 0;
    while i < es.len()
        invariant
            i <= es@.len(),
            r == count_of(es@.subrange(0, i as int), t),
            r <= i,
        decreases es@.len() - i,
    {
        proof {
            assert(es@.subrange(0, i as int + 1).drop_last() =~= es@.subrange(0, i as int));
        }
        if es[i] == t {
            r = r + 1;
        }
        i = i + 1;
    }
    proof {
        assert(es@.subrange(0, es@.len() as int) =~= es@);
    }
    r
}

/// A type counted in a list occurs in it.
proof fn lemma_count_witness(es: Seq<EnergyType>, t: EnergyType)
    requires
        count_of(es, t) > 0,
    ensures
        exists|k: int| 0 <= k < es.len() && es[k] == t,
    decreases es.len(),
{
    if es.last() != t {
        lemma_count_witness(es.drop_last(), t);
        let k = choose|k: int| 0 <= k < es.drop_last().len() && es.drop_last()[k] == t;
        assert(es[k] == t);
    } else {
        assert(es[es.len() - 1] == t);
    }
}

/// Whether attached Energy pays a cost.
pub(crate) fn can_pay_exec(attached: &Vec<EnergyType>, cost: &Vec<EnergyType>) -> (r: bool)
    ensures
        r == can_pay(attached@, cost@),
{
    if cost.len() > attached.len() {
        return false;
    }
    let mut i: usize = 0;
    while i < cost.len()
        invariant
            i <= cost@.len(),
            forall|k: int|
                0 <= k < i && cost@[k] != EnergyType::Colorless ==> count_of(cost@, #[trigger] cost@[k])
                    <= count_of(attached@, cost@[k]),
        decreases cost@.len() - i,
    {
        let t = cost[i];
        if t != EnergyType::Colorless {
            if count_exec(cost, t) > count_exec(attached, t) {
                return false;
            }
        }
        i = i + 1;
    }
    proof {
        assert forall|t: EnergyType| t != EnergyType::Colorless implies #[trigger] count_of(cost@, t)
            <= count_of(attached@, t) by {
            if count_of(cost@, t) > 0 {
                lemma_count_witness(cost@, t);
                let k = choose|k: int| 0 <= k < cost@.len() && cost@[k] == t;
                assert(cost@[k] != EnergyType::Colorless);
            }
        }
    }
    true
}

/// Damage on the Benched Pokémon of a side, in slot order.
pub(crate) fn bench_targets_exec(side: &Vec<Option<PlayedCard>>, must_have_energy: bool, damage: u32, flag: bool) -> (r: Vec<
    DamageTarget,
>)
    requires
        side@.len() == 4,
    ensures
        r@ == bench_targets_upto(side@, must_have_energy, damage, flag, 4),
{
    let mut r: Vec<DamageTarget> = Vec::new();
    let mut i: usize = 1;
    while i < 4
        invariant
            1 <= i <= 4,
            side@.len() == 4,
            r@ == bench_targets_upto(side@, must_have_energy, damage, flag, i as int),
        decreases 4 - i,
    {
        match &side[i] {
            Some(c) => {
                if !must_have_energy || c.attached_energy.len() > 0 {
                    r.push((damage, flag, i));
                }
            },
            None => {},
        }
        i = i + 1;
    }
    r
}

/// No damage of its own, only one effect.
pub(crate) fn effect_only_outcome(e: AttackEffect) -> (r: AttackOutcome<AttackEffect>)
    ensures
        outcome_view(r) == effects_only(seq![e]),
{
    let r = AttackOutcome::effect_only(e);
    proof {
        assert(outcome_view(r).0 =~= Seq::<DamageTarget>::empty());
        assert(outcome_view(r).1 =~= Seq::<AttackEffect>::empty());
        assert(outcome_view(r).3 =~= Seq::<usize>::empty());
    }
    r
}

/// The mechanics whose forecast is single damage to the opponent's Active Pokémon computed from the board.
pub open spec fn forecast_group_a(m: Mechanic) -> bool {
    matches!(m, Mechanic::ExtraDamageIfEx { .. } | Mechanic::ExtraDamageIfDefenderType { .. } | Mechanic::ExtraDamageIfHurt { .. } | Mechanic::ExtraDamageIfUndamaged { .. } | Mechanic::ExtraDamageIfDefenderIsBasic { .. } | Mechanic::ExtraDamageIfMoreEnergyThanDefender { .. } | Mechanic::ExtraDamageIfSelfHpAtMost { .. } | Mechanic::ExtraDamageIfOpponentHpMoreThanSelf { .. } | Mechanic::ExtraDamageIfDefenderHasLessHp { .. } | Mechanic::ExtraDamageIfDefenderPoisoned { .. } | Mechanic::ExtraDamageIfDefenderBurned { .. } | Mechanic::ExtraDamageIfDefenderConfused { .. } | Mechanic::ExtraDamageIfDefenderAsleep { .. } | Mechanic::ExtraDamagePerDefenderSpecialCondition { .. } | Mechanic::ExtraDamageIfDefenderToolAttached { .. } | Mechanic::ExtraDamagePerOwnPoint { .. } | Mechanic::ExtraDamagePerOpponentPoint { .. } | Mechanic::ExtraDamagePerOpponentPointLastTurn { .. } | Mechanic::ExtraDamageIfPointsExactly { .. } | Mechanic::ExtraDamageIfStadiumInPlay { .. } | Mechanic::DamageEqualToSelfDamage { .. } | Mechanic::ExtraDamageEqualToSelfDamage { .. } | Mechanic::DamageEqualToSelfRemainingHp { .. } | Mechanic::ReducedDamageIfSelfDamaged { .. } | Mechanic::NothingIfSelfHpAtMost { .. } | Mechanic::AlternativeCostIfSelfDamaged { .. } | Mechanic::AlternativeCostIfDeckEmpty { .. } | Mechanic::DamageUnaffectedByWeakness { .. } | Mechanic::DamageUnaffectedByOpponentActiveEffects { .. })
}

/// Whether the mechanic is in `forecast_group_a`.
fn in_forecast_group_a(m: &Mechanic) -> (r: bool)
    ensures
        r == forecast_group_a(*m),
{
    matches!(m, Mechanic::ExtraDamageIfEx { .. } | Mechanic::ExtraDamageIfDefenderType { .. } | Mechanic::ExtraDamageIfHurt { .. } | Mechanic::ExtraDamageIfUndamaged { .. } | Mechanic::ExtraDamageIfDefenderIsBasic { .. } | Mechanic::ExtraDamageIfMoreEnergyThanDefender { .. } | Mechanic::ExtraDamageIfSelfHpAtMost { .. } | Mechanic::ExtraDamageIfOpponentHpMoreThanSelf { .. } | Mechanic::ExtraDamageIfDefenderHasLessHp { .. } | Mechanic::ExtraDamageIfDefenderPoisoned { .. } | Mechanic::ExtraDamageIfDefenderBurned { .. } | Mechanic::ExtraDamageIfDefenderConfused { .. } | Mechanic::ExtraDamageIfDefenderAsleep { .. } | Mechanic::ExtraDamagePerDefenderSpecialCondition { .. } | Mechanic::ExtraDamageIfDefenderToolAttached { .. } | Mechanic::ExtraDamagePerOwnPoint { .. } | Mechanic::ExtraDamagePerOpponentPoint { .. } | Mechanic::ExtraDamagePerOpponentPointLastTurn { .. } | Mechanic::ExtraDamageIfPointsExactly { .. } | Mechanic::ExtraDamageIfStadiumInPlay { .. } | Mechanic::DamageEqualToSelfDamage { .. } | Mechanic::ExtraDamageEqualToSelfDamage { .. } | Mechanic::DamageEqualToSelfRemainingHp { .. } | Mechanic::ReducedDamageIfSelfDamaged { .. } | Mechanic::NothingIfSelfHpAtMost { .. } | Mechanic::AlternativeCostIfSelfDamaged { .. } | Mechanic::AlternativeCostIfDeckEmpty { .. } | Mechanic::DamageUnaffectedByWeakness { .. } | Mechanic::DamageUnaffectedByOpponentActiveEffects { .. })
}

/// The mechanics whose forecast is damage that depends on coins.
pub open spec fn forecast_group_b(m: Mechanic) -> bool {
    matches!(m, Mechanic::CoinFlipExtraDamage { .. } | Mechanic::CoinFlipNoEffect { .. } | Mechanic::ExtraDamageForEachHeads { .. } | Mechanic::FlipUntilTailsDamage { .. } | Mechanic::FlipUntilTailsBonusDamage { .. } | Mechanic::ExtraDamageIfBothHeads { .. } | Mechanic::NothingIfBothTails { .. } | Mechanic::TieredCoinFlipDamage { .. })
}

/// Whether the mechanic is in `forecast_group_b`.
fn in_forecast_group_b(m: &Mechanic) -> (r: bool)
    ensures
        r == forecast_group_b(*m),
{
    matches!(m, Mechanic::CoinFlipExtraDamage { .. } | Mechanic::CoinFlipNoEffect { .. } | Mechanic::ExtraDamageForEachHeads { .. } | Mechanic::FlipUntilTailsDamage { .. } | Mechanic::FlipUntilTailsBonusDamage { .. } | Mechanic::ExtraDamageIfBothHeads { .. } | Mechanic::NothingIfBothTails { .. } | Mechanic::TieredCoinFlipDamage { .. })
}

/// The mechanics whose forecast is damage together with effects, or effects only.
pub open spec fn forecast_group_c(m: Mechanic) -> bool {
    matches!(m, Mechanic::SelfDamage { .. } | Mechanic::CoinFlipSelfDamage { .. } | Mechanic::CoinFlipExtraDamageOrSelfDamage { .. } | Mechanic::ChanceStatusAttack { .. } | Mechanic::InflictStatusConditions { .. } | Mechanic::CoinFlipNoDamageOrStatusAttack { .. } | Mechanic::DamageAllOpponentPokemon { .. } | Mechanic::DirectDamage { .. } | Mechanic::SelfHeal { .. } | Mechanic::CoinFlipSelfHeal { .. } | Mechanic::DrawCard { .. } | Mechanic::BenchCountDamage { .. } | Mechanic::MoveAllEnergyTypeToBench { .. } | Mechanic::MoveFixedEnergyTypeToBench { .. } | Mechanic::MoveAllEnergyToBench { .. } | Mechanic::MoveRandomEnergyToBench { .. } | Mechanic::AlsoBenchDamage { .. } | Mechanic::AlsoChoiceBenchDamage { .. } | Mechanic::ConditionalBenchDamage { .. })
}

/// Whether the mechanic is in `forecast_group_c`.
fn in_forecast_group_c(m: &Mechanic) -> (r: bool)
    ensures
        r == forecast_group_c(*m),
{
    matches!(m, Mechanic::SelfDamage { .. } | Mechanic::CoinFlipSelfDamage { .. } | Mechanic::CoinFlipExtraDamageOrSelfDamage { .. } | Mechanic::ChanceStatusAttack { .. } | Mechanic::InflictStatusConditions { .. } | Mechanic::CoinFlipNoDamageOrStatusAttack { .. } | Mechanic::DamageAllOpponentPokemon { .. } | Mechanic::DirectDamage { .. } | Mechanic::SelfHeal { .. } | Mechanic::CoinFlipSelfHeal { .. } | Mechanic::DrawCard { .. } | Mechanic::BenchCountDamage { .. } | Mechanic::MoveAllEnergyTypeToBench { .. } | Mechanic::MoveFixedEnergyTypeToBench { .. } | Mechanic::MoveAllEnergyToBench { .. } | Mechanic::MoveRandomEnergyToBench { .. } | Mechanic::AlsoBenchDamage { .. } | Mechanic::AlsoChoiceBenchDamage { .. } | Mechanic::ConditionalBenchDamage { .. })
}

/// The forecast of a mechanic whose forecast is single damage to the opponent's Active Pokémon computed from the board.
fn forecast_mechanic_a(state: &State, attack: &Attack, mechanic: &Mechanic) -> (o: AttackOutcomes<
    AttackEffect,
>)
    requires
        state.wf(),
        state@.slot(state.current_player as int, 0) is Some,
        state@.slot(1 - state.current_player, 0) is Some,
        coins_in_range(*mechanic),
        forecast_group_a(*mechanic),
    ensures
        o.is_distribution(),
        mechanic_forecast(state@, *attack, *mechanic) == Some(attack_view(o)),
{
    let fixed = attack.fixed_damage;
    let cp = state.current_player;
    let opp = 1 - cp;
    let attacker = state.get_active(cp);
    let defender = state.get_active(opp);
    match mechanic {
        Mechanic::ExtraDamageIfEx { extra_damage } => {
            let bonus = defender.card.is_ex();
            sure_outcomes(hit_outcome(if bonus { sat_add_exec(fixed, *extra_damage) } else { fixed }))
        },
        Mechanic::ExtraDamageIfDefenderType { energy_type, extra_damage } => {
            let bonus = match defender.card.energy_type() {
                Some(t) => t == *energy_type,
                None => false,
            };
            sure_outcomes(hit_outcome(if bonus { sat_add_exec(fixed, *extra_damage) } else { fixed }))
        },
        Mechanic::ExtraDamageIfHurt { extra_damage, opponent } => {
            let bonus = if *opponent {
                is_damaged_exec(defender)
            } else {
                is_damaged_exec(attacker)
            };
            sure_outcomes(hit_outcome(if bonus { sat_add_exec(fixed, *extra_damage) } else { fixed }))
        },
        Mechanic::ExtraDamageIfUndamaged { extra_damage } => {
            let bonus = !is_damaged_exec(attacker);
            sure_outcomes(hit_outcome(if bonus { sat_add_exec(fixed, *extra_damage) } else { fixed }))
        },
        Mechanic::ExtraDamageIfDefenderIsBasic { extra_damage } => {
            let bonus = defender.card.is_basic();
            sure_outcomes(hit_outcome(if bonus { sat_add_exec(fixed, *extra_damage) } else { fixed }))
        },
        Mechanic::ExtraDamageIfMoreEnergyThanDefender { extra_damage } => {
            let bonus = attacker.attached_energy.len() > defender.attached_energy.len();
            sure_outcomes(hit_outcome(if bonus { sat_add_exec(fixed, *extra_damage) } else { fixed }))
        },
        Mechanic::ExtraDamageIfSelfHpAtMost { threshold, extra_damage } => {
            let bonus = attacker.remaining_hp <= *threshold;
            sure_outcomes(hit_outcome(if bonus { sat_add_exec(fixed, *extra_damage) } else { fixed }))
        },
        Mechanic::ExtraDamageIfOpponentHpMoreThanSelf { extra_damage } => {
            let bonus = defender.remaining_hp > attacker.remaining_hp;
            sure_outcomes(hit_outcome(if bonus { sat_add_exec(fixed, *extra_damage) } else { fixed }))
        },
        Mechanic::ExtraDamageIfDefenderHasLessHp { extra_damage } => {
            let bonus = defender.remaining_hp < attacker.remaining_hp;
            sure_outcomes(hit_outcome(if bonus { sat_add_exec(fixed, *extra_damage) } else { fixed }))
        },
        Mechanic::ExtraDamageIfDefenderPoisoned { extra_damage } => {
            let bonus = defender.poisoned;
            sure_outcomes(hit_outcome(if bonus { sat_add_exec(fixed, *extra_damage) } else { fixed }))
        },
        Mechanic::ExtraDamageIfDefenderBurned { extra_damage } => {
            let bonus = defender.burned;
            sure_outcomes(hit_outcome(if bonus { sat_add_exec(fixed, *extra_damage) } else { fixed }))
        },
        Mechanic::ExtraDamageIfDefenderConfused { extra_damage } => {
            let bonus = defender.confused;
            sure_outcomes(hit_outcome(if bonus { sat_add_exec(fixed, *extra_damage) } else { fixed }))
        },
        Mechanic::ExtraDamageIfDefenderAsleep { extra_damage } => {
            let bonus = defender.asleep;
            sure_outcomes(hit_outcome(if bonus { sat_add_exec(fixed, *extra_damage) } else { fixed }))
        },
        Mechanic::ExtraDamagePerDefenderSpecialCondition { damage_per_condition } => {
            let per = sat_mul_exec(condition_count_exec(defender), *damage_per_condition);
            sure_outcomes(hit_outcome(sat_add_exec(fixed, per)))
        },
        Mechanic::ExtraDamageIfDefenderToolAttached { extra_damage } => {
            let bonus = defender.attached_tool.is_some();
            sure_outcomes(hit_outcome(if bonus { sat_add_exec(fixed, *extra_damage) } else { fixed }))
        },
        Mechanic::ExtraDamagePerOwnPoint { damage_per_point } => {
            let per = sat_mul_exec(state.points[cp], *damage_per_point);
            sure_outcomes(hit_outcome(sat_add_exec(fixed, per)))
        },
        Mechanic::ExtraDamagePerOpponentPoint { damage_per_point } => {
            let per = sat_mul_exec(state.points[opp], *damage_per_point);
            sure_outcomes(hit_outcome(sat_add_exec(fixed, per)))
        },
        Mechanic::ExtraDamagePerOpponentPointLastTurn { damage_per } => {
            let per = sat_mul_exec(state.points_gained_last_turn[opp], *damage_per);
            sure_outcomes(hit_outcome(sat_add_exec(fixed, per)))
        },
        Mechanic::ExtraDamageIfPointsExactly { opponent, points, extra_damage } => {
            let side = if *opponent {
                opp
            } else {
                cp
            };
            let bonus = state.points[side] == *points as u32;
            sure_outcomes(hit_outcome(if bonus { sat_add_exec(fixed, *extra_damage) } else { fixed }))
        },
        Mechanic::ExtraDamageIfStadiumInPlay { extra_damage } => {
            let bonus = state.active_stadium.is_some();
            sure_outcomes(hit_outcome(if bonus { sat_add_exec(fixed, *extra_damage) } else { fixed }))
        },
        Mechanic::DamageEqualToSelfDamage => {
            let on = attacker.total_hp.saturating_sub(attacker.remaining_hp);
            sure_outcomes(hit_outcome(on))
        },
        Mechanic::ExtraDamageEqualToSelfDamage => {
            let on = attacker.total_hp.saturating_sub(attacker.remaining_hp);
            sure_outcomes(hit_outcome(sat_add_exec(fixed, on)))
        },
        Mechanic::DamageEqualToSelfRemainingHp => sure_outcomes(hit_outcome(attacker.remaining_hp)),
        Mechanic::ReducedDamageIfSelfDamaged { reduction } => {
            let d = if is_damaged_exec(attacker) {
                fixed.saturating_sub(*reduction)
            } else {
                fixed
            };
            sure_outcomes(hit_outcome(d))
        },
        Mechanic::NothingIfSelfHpAtMost { threshold } => {
            let d = if attacker.remaining_hp <= *threshold {
                0
            } else {
                fixed
            };
            sure_outcomes(hit_outcome(d))
        },
        Mechanic::AlternativeCostIfSelfDamaged { .. }
        | Mechanic::AlternativeCostIfDeckEmpty { .. }
        | Mechanic::DamageUnaffectedByWeakness
        | Mechanic::DamageUnaffectedByOpponentActiveEffects => sure_outcomes(hit_outcome(fixed)),
        _ => {
            proof {
                assert(false);
            }
            sure_outcomes(hit_outcome(fixed))
        },
    }
}

/// The forecast of a mechanic whose forecast is damage that depends on coins.
fn forecast_mechanic_b(state: &State, attack: &Attack, mechanic: &Mechanic) -> (o: AttackOutcomes<
    AttackEffect,
>)
    requires
        state.wf(),
        state@.slot(state.current_player as int, 0) is Some,
        state@.slot(1 - state.current_player, 0) is Some,
        coins_in_range(*mechanic),
        forecast_group_b(*mechanic),
    ensures
        o.is_distribution(),
        mechanic_forecast(state@, *attack, *mechanic) == Some(attack_view(o)),
{
    let fixed = attack.fixed_damage;
    let cp = state.current_player;
    let opp = 1 - cp;
    let attacker = state.get_active(cp);
    let defender = state.get_active(opp);
    match mechanic {
        Mechanic::CoinFlipExtraDamage { extra_damage } => coin_outcomes(
            hit_outcome(sat_add_exec(fixed, *extra_damage)),
            hit_outcome(fixed),
        ),
        Mechanic::CoinFlipNoEffect => coin_outcomes(hit_outcome(fixed), hit_outcome(0)),
        Mechanic::ExtraDamageForEachHeads { include_fixed_damage, damage_per_head, num_coins } => {
            let base = if *include_fixed_damage {
                fixed
            } else {
                0
            };
            let per = per_heads_hits(*num_coins, base, *damage_per_head);
            by_heads_outcomes(*num_coins, per, Ghost(per_heads_hit(base, *damage_per_head)))
        },
        Mechanic::FlipUntilTailsDamage { damage_per_heads } => {
            let per = per_heads_hits(8, 0, *damage_per_heads);
            until_tails_outcomes(8, per, Ghost(per_heads_hit(0, *damage_per_heads)))
        },
        Mechanic::FlipUntilTailsBonusDamage { damage_per_heads } => {
            let per = per_heads_hits(8, fixed, *damage_per_heads);
            until_tails_outcomes(8, per, Ghost(per_heads_hit(fixed, *damage_per_heads)))
        },
        Mechanic::ExtraDamageIfBothHeads { extra_damage } => {
            let both = hit_outcome(sat_add_exec(fixed, *extra_damage));
            let other = hit_outcome(fixed);
            let ghost vb = outcome_view(both);
            let ghost vo = outcome_view(other);
            let mut weights: Vec<u64> = Vec::new();
            weights.push(1);
            weights.push(3);
            let mut outcomes: Vec<AttackOutcome<AttackEffect>> = Vec::new();
            outcomes.push(both);
            outcomes.push(other);
            proof {
                reveal_with_fuel(crate::outcomes::weight_sum, 3);
            }
            let dist = Outcomes::from_parts(weights, outcomes);
            let r = AttackOutcomes::from_outcomes(dist);
            proof {
                assert(attack_view(r).1 =~= seq![(1int, vb), (3int, vo)]);
            }
            r
        },
        Mechanic::NothingIfBothTails => {
            let mut per: Vec<AttackOutcome<AttackEffect>> = Vec::new();
            per.push(hit_outcome(0));
            per.push(hit_outcome(fixed));
            per.push(hit_outcome(fixed));
            proof {
                assert forall|h: int| 0 <= h <= 2 implies outcome_view(#[trigger] per@[h])
                    == (unless_no_heads_hit(fixed))(h as nat) by {}
            }
            by_heads_outcomes(2, per, Ghost(unless_no_heads_hit(fixed)))
        },
        Mechanic::TieredCoinFlipDamage { num_coins, extra_damage_by_heads } => {
            let per = tiered_hits(*num_coins, fixed, extra_damage_by_heads);
            by_heads_outcomes(*num_coins, per, Ghost(tiered_hit(fixed, extra_damage_by_heads@)))
        },
        _ => {
            proof {
                assert(false);
            }
            sure_outcomes(hit_outcome(fixed))
        },
    }
}

/// The forecast of a mechanic whose forecast is damage together with effects, or effects only.
fn forecast_mechanic_c(state: &State, attack: &Attack, mechanic: &Mechanic) -> (o: AttackOutcomes<
    AttackEffect,
>)
    requires
        state.wf(),
        state@.slot(state.current_player as int, 0) is Some,
        state@.slot(1 - state.current_player, 0) is Some,
        coins_in_range(*mechanic),
        forecast_group_c(*mechanic),
    ensures
        o.is_distribution(),
        mechanic_forecast(state@, *attack, *mechanic) == Some(attack_view(o)),
{
    let fixed = attack.fixed_damage;
    let cp = state.current_player;
    let opp = 1 - cp;
    let attacker = state.get_active(cp);
    let defender = state.get_active(opp);
    match mechanic {
        Mechanic::SelfDamage { amount } => sure_outcomes(
            hit_then_one(fixed, AttackEffect::DamageSelf { amount: *amount }),
        ),
        Mechanic::CoinFlipSelfDamage { self_damage } => coin_outcomes(
            hit_outcome(fixed),
            hit_then_one(fixed, AttackEffect::DamageSelf { amount: *self_damage }),
        ),
        Mechanic::CoinFlipExtraDamageOrSelfDamage { extra_damage, self_damage } => coin_outcomes(
            hit_outcome(sat_add_exec(fixed, *extra_damage)),
            hit_then_one(fixed, AttackEffect::DamageSelf { amount: *self_damage }),
        ),
        Mechanic::ChanceStatusAttack { condition } => coin_outcomes(
            hit_then_one(
                fixed,
                AttackEffect::InflictStatus { on_opponent: true, condition: *condition },
            ),
            hit_outcome(fixed),
        ),
        Mechanic::InflictStatusConditions { conditions, target_opponent } => sure_outcomes(
            hit_then_outcome(fixed, status_effects_exec(conditions, *target_opponent)),
        ),
        Mechanic::CoinFlipNoDamageOrStatusAttack { status } => coin_outcomes(
            hit_then_one(fixed, AttackEffect::InflictStatus { on_opponent: true, condition: *status }),
            hit_outcome(0),
        ),
        Mechanic::DamageAllOpponentPokemon { damage } => {
            let targets = spread_exec(state, opp, *damage);
            let outcome = AttackOutcome::damage(targets);
            proof {
                assert(outcome_view(outcome).1 =~= Seq::<AttackEffect>::empty());
                assert(outcome_view(outcome).2 =~= Seq::<AttackEffect>::empty());
                assert(outcome_view(outcome).3 =~= Seq::<usize>::empty());
            }
            sure_outcomes(outcome)
        },
        Mechanic::DirectDamage { damage, bench_only } => sure_outcomes(
            hit_then_one(0, AttackEffect::ChooseDamageTarget { damage: *damage, bench_only: *bench_only }),
        ),
        Mechanic::SelfHeal { amount } => sure_outcomes(
            hit_then_one(fixed, AttackEffect::HealSelf { amount: *amount }),
        ),
        Mechanic::CoinFlipSelfHeal { amount } => coin_outcomes(
            hit_then_one(fixed, AttackEffect::HealSelf { amount: *amount }),
            hit_outcome(fixed),
        ),
        Mechanic::DrawCard { amount } => sure_outcomes(
            hit_then_one(fixed, AttackEffect::DrawCards { amount: *amount }),
        ),
        Mechanic::BenchCountDamage { include_fixed_damage, damage_per, energy_type, bench_side } => {
            let count = counted_bench_exec(state, bench_side, *energy_type);
            let per = sat_mul_exec(*damage_per, count);
            let d = if *include_fixed_damage {
                sat_add_exec(fixed, per)
            } else {
                per
            };
            sure_outcomes(hit_outcome(d))
        },
        Mechanic::MoveAllEnergyTypeToBench { energy_type } => {
            let count = count_exec(&attacker.attached_energy, *energy_type);
            let bench = state.enumerate_bench_pokemon(cp);
            if count == 0 || bench.len() == 0 {
                sure_outcomes(hit_outcome(fixed))
            } else {
                sure_outcomes(
                    hit_then_one(fixed, AttackEffect::MoveAllOfTypeToBench { energy_type: *energy_type }),
                )
            }
        },
        Mechanic::MoveFixedEnergyTypeToBench { energy_type, amount } => {
            let count = count_exec(&attacker.attached_energy, *energy_type);
            let bench = state.enumerate_bench_pokemon(cp);
            if (count as u64) < (*amount as u64) || bench.len() == 0 {
                sure_outcomes(hit_outcome(fixed))
            } else {
                sure_outcomes(
                    hit_then_one(
                        fixed,
                        AttackEffect::MoveFixedOfTypeToBench { energy_type: *energy_type, amount: *amount },
                    ),
                )
            }
        },
        Mechanic::MoveAllEnergyToBench => sure_outcomes(
            hit_then_one(fixed, AttackEffect::MoveFromActiveToBench { all: true, count: 0 }),
        ),
        Mechanic::MoveRandomEnergyToBench { count } => sure_outcomes(
            hit_then_one(fixed, AttackEffect::MoveFromActiveToBench { all: false, count: *count }),
        ),
        Mechanic::AlsoBenchDamage { opponent, damage, must_have_energy } => {
            let player = if *opponent {
                opp
            } else {
                cp
            };
            proof {
                assert(state@.board[player as int] == state.in_play_pokemon@[player as int]@);
            }
            let mut targets = bench_targets_exec(
                &state.in_play_pokemon[player],
                *must_have_energy,
                *damage,
                *opponent,
            );
            targets.push((fixed, true, 0));
            let outcome = AttackOutcome::damage(targets);
            proof {
                assert(outcome_view(outcome).1 =~= Seq::<AttackEffect>::empty());
                assert(outcome_view(outcome).2 =~= Seq::<AttackEffect>::empty());
                assert(outcome_view(outcome).3 =~= Seq::<usize>::empty());
            }
            sure_outcomes(outcome)
        },
        Mechanic::AlsoChoiceBenchDamage { opponent, damage } => sure_outcomes(
            effect_only_outcome(
                AttackEffect::ChooseBenchDamage {
                    active_damage: fixed,
                    bench_damage: *damage,
                    opponent_bench: *opponent,
                    num_targets: 1,
                },
            ),
        ),
        Mechanic::ConditionalBenchDamage {
            required_extra_energy,
            bench_damage,
            num_bench_targets,
            opponent,
        } => {
            let mut cost: Vec<EnergyType> = Vec::new();
            let mut k: usize = 0;
            while k < attack.energy_required.len()
                invariant
                    k <= attack.energy_required@.len(),
                    cost@ == attack.energy_required@.subrange(0, k as int),
                decreases attack.energy_required@.len() - k,
            {
                cost.push(attack.energy_required[k]);
                k = k + 1;
                proof {
                    assert(cost@ =~= attack.energy_required@.subrange(0, k as int));
                }
            }
            let mut k: usize = 0;
            while k < required_extra_energy.len()
                invariant
                    k <= required_extra_energy@.len(),
                    cost@ == attack.energy_required@ + required_extra_energy@.subrange(0, k as int),
                decreases required_extra_energy@.len() - k,
            {
                cost.push(required_extra_energy[k]);
                k = k + 1;
                proof {
                    assert(cost@ =~= attack.energy_required@ + required_extra_energy@.subrange(
                        0,
                        k as int,
                    ));
                }
            }
            proof {
                assert(required_extra_energy@.subrange(0, required_extra_energy@.len() as int)
                    =~= required_extra_energy@);
            }
            let payable = can_pay_exec(&attacker.attached_energy, &cost);
            let bench_player = if *opponent {
                opp
            } else {
                cp
            };
            let bench = state.enumerate_bench_pokemon(bench_player);
            if payable && bench.len() >= *num_bench_targets {
                sure_outcomes(
                    effect_only_outcome(
                        AttackEffect::ChooseBenchDamage {
                            active_damage: fixed,
                            bench_damage: *bench_damage,
                            opponent_bench: *opponent,
                            num_targets: *num_bench_targets,
                        },
                    ),
                )
            } else {
                sure_outcomes(hit_outcome(fixed))
            }
        },
        _ => {
            proof {
                assert(false);
            }
            sure_outcomes(hit_outcome(fixed))
        },
    }
}

/// The mechanics whose forecast is random hits among several Pokémon.
pub open spec fn forecast_group_d(m: Mechanic) -> bool {
    matches!(m, Mechanic::RandomSpreadDamage { .. } | Mechanic::RandomDamageToOpponentPokemonPerSelfEnergy { .. } | Mechanic::MegaAmpharosExLightningLancer)
}

/// Whether the mechanic is in `forecast_group_d`.
fn in_forecast_group_d(m: &Mechanic) -> (r: bool)
    ensures
        r == forecast_group_d(*m),
{
    matches!(m, Mechanic::RandomSpreadDamage { .. } | Mechanic::RandomDamageToOpponentPokemonPerSelfEnergy { .. } | Mechanic::MegaAmpharosExLightningLancer)
}

/// No damage and no effect, for sure.
fn nothing_for_sure() -> (r: AttackOutcomes<AttackEffect>)
    ensures
        r.is_distribution(),
        attack_view(r) == sure(effects_only(Seq::empty())),
{
    let n = AttackOutcome::noop();
    proof {
        assert(outcome_view(n).0 =~= Seq::<DamageTarget>::empty());
        assert(outcome_view(n).1 =~= Seq::<AttackEffect>::empty());
        assert(outcome_view(n).2 =~= Seq::<AttackEffect>::empty());
        assert(outcome_view(n).3 =~= Seq::<usize>::empty());
    }
    sure_outcomes(n)
}

/// The forecast of a mechanic of random hits among several Pokémon (`None` beyond the counts
/// this library forecasts).
fn forecast_mechanic_d(state: &State, attack: &Attack, mechanic: &Mechanic) -> (r: Option<
    AttackOutcomes<AttackEffect>,
>)
    requires
        state.wf(),
        state@.slot(state.current_player as int, 0) is Some,
        state@.slot(1 - state.current_player, 0) is Some,
        forecast_group_d(*mechanic),
    ensures
        match r {
            Some(o) => o.is_distribution() && mechanic_forecast(state@, *attack, *mechanic) == Some(
                attack_view(o),
            ),
            None => mechanic_forecast(state@, *attack, *mechanic) is None,
        },
{
    let cp = state.current_player;
    let opp = 1 - cp;
    match mechanic {
        Mechanic::RandomSpreadDamage { times, damage_per_hit, include_own_bench } => {
            let targets = spread_targets_exec(state, cp, *include_own_bench);
            if targets.len() == 0 {
                return Some(nothing_for_sure());
            }
            match extra_spread_hits_exec(state, &attack.title) {
                None => None,
                Some(extra) => {
                    if *times > 64 {
                        return None;
                    }
                    let hits = *times + extra;
                    if random_hits_fit_exec(targets.len(), hits, *damage_per_hit) {
                        let also: Vec<DamageTarget> = Vec::new();
                        let r = random_hits_outcomes(&targets, hits, *damage_per_hit, cp, &also);
                        proof {
                            assert(also@ =~= Seq::<DamageTarget>::empty());
                        }
                        Some(r)
                    } else {
                        None
                    }
                },
            }
        },
        Mechanic::RandomDamageToOpponentPokemonPerSelfEnergy { energy_type, damage_per_hit } => {
            let hits = count_exec(&state.get_active(cp).attached_energy, *energy_type);
            if hits == 0 {
                return Some(sure_outcomes(hit_outcome(0)));
            }
            let targets = spread_targets_exec(state, cp, false);
            if targets.len() == 0 {
                return Some(nothing_for_sure());
            }
            if random_hits_fit_exec(targets.len(), hits, *damage_per_hit) {
                let also: Vec<DamageTarget> = Vec::new();
                let r = random_hits_outcomes(&targets, hits, *damage_per_hit, cp, &also);
                proof {
                    assert(also@ =~= Seq::<DamageTarget>::empty());
                }
                Some(r)
            } else {
                None
            }
        },
        Mechanic::MegaAmpharosExLightningLancer => {
            let targets = bench_targets_of(state, opp);
            if targets.len() == 0 {
                return Some(sure_outcomes(hit_outcome(100)));
            }
            proof {
                lemma_three_hits_fit(targets@.len());
            }
            let mut also: Vec<DamageTarget> = Vec::new();
            also.push((100, true, 0));
            let r = random_hits_outcomes(&targets, 3, 20, cp, &also);
            proof {
                assert(also@ =~= seq![(100u32, true, 0usize)]);
            }
            Some(r)
        },
        _ => None,
    }
}

/// The mechanics whose forecast this library computes.
pub open spec fn forecast_held(m: Mechanic) -> bool {
    ||| forecast_group_a(m)
    ||| forecast_group_b(m)
    ||| forecast_group_c(m)
    ||| forecast_group_d(m)
    ||| crate::board_mechanics::forecast_group_e(m)
    ||| crate::board_mechanics::forecast_group_f(m)
    ||| crate::board_mechanics::forecast_group_g(m)
    ||| crate::board_mechanics::forecast_group_h(m)
    ||| crate::board_mechanics::forecast_group_i(m)
    ||| crate::board_mechanics::forecast_group_j(m)
    ||| crate::board_mechanics::forecast_group_k(m)
    ||| crate::energy_mechanics::forecast_group_l(m)
    ||| crate::disruption_mechanics::forecast_group_m(m)
    ||| crate::energy_removal::forecast_group_n(m)
    ||| crate::special_attacks::forecast_group_o(m)
    ||| crate::more_mechanics::forecast_group_p(m)
    ||| crate::card_effect_mechanics::forecast_group_q(m)
}

/// The mechanics whose forecast is still owed: the engine gives a distribution for them, which
/// this library does not compute yet.
pub open spec fn forecast_owed(m: Mechanic) -> bool {
    !forecast_held(m)
}

/// The forecast of an attack's mechanic. `None` makes no claim about the attack: it marks a
/// forecast this library does not compute, which is the case for every mechanic of
/// `forecast_owed`, and for the few game states in which a held mechanic's forecast is not
/// computed either (see `mechanic_forecast`).
pub fn forecast_effect_attack_by_mechanic(state: &State, attack: &Attack, mechanic: &Mechanic) -> (r:
    Option<AttackOutcomes<AttackEffect>>)
    requires
        state.wf(),
        state@.slot(state.current_player as int, 0) is Some,
        state@.slot(1 - state.current_player, 0) is Some,
        coins_in_range(*mechanic),
    ensures
        match r {
            Some(o) => o.is_distribution() && mechanic_forecast(state@, *attack, *mechanic) == Some(
                attack_view(o),
            ),
            None => mechanic_forecast(state@, *attack, *mechanic) is None,
        },
        forecast_owed(*mechanic) ==> r is None,
        forecast_held(*mechanic) && !forecast_group_d(*mechanic) && !crate::special_attacks::forecast_group_o(*mechanic) ==> r
            is Some,
{
    if in_forecast_group_a(mechanic) {
        Some(forecast_mechanic_a(state, attack, mechanic))
    } else if in_forecast_group_b(mechanic) {
        Some(forecast_mechanic_b(state, attack, mechanic))
    } else if in_forecast_group_c(mechanic) {
        Some(forecast_mechanic_c(state, attack, mechanic))
    } else if in_forecast_group_d(mechanic) {
        forecast_mechanic_d(state, attack, mechanic)
    } else if in_forecast_group_e(mechanic) {
        Some(forecast_mechanic_e(state, attack, mechanic))
    } else if in_forecast_group_f(mechanic) {
        Some(forecast_mechanic_f(state, attack, mechanic))
    } else if in_forecast_group_g(mechanic) {
        Some(forecast_mechanic_g(state, attack, mechanic))
    } else if in_forecast_group_h(mechanic) {
        Some(forecast_mechanic_h(state, attack, mechanic))
    } else if in_forecast_group_i(mechanic) {
        Some(forecast_mechanic_i(state, attack, mechanic))
    } else if in_forecast_group_j(mechanic) {
        Some(forecast_mechanic_j(state, attack, mechanic))
    } else if in_forecast_group_k(mechanic) {
        Some(forecast_mechanic_k(state, attack, mechanic))
    } else if in_forecast_group_l(mechanic) {
        Some(forecast_mechanic_l(state, attack, mechanic))
    } else if in_forecast_group_m(mechanic) {
        Some(forecast_mechanic_m(state, attack, mechanic))
    } else if in_forecast_group_n(mechanic) {
        Some(forecast_mechanic_n(state, attack, mechanic))
    } else if in_forecast_group_o(mechanic) {
        forecast_mechanic_o(state, attack, mechanic)
    } else if in_forecast_group_p(mechanic) {
        Some(forecast_mechanic_p(state, attack, mechanic))
    } else if in_forecast_group_q(mechanic) {
        Some(forecast_mechanic_q(state, attack, mechanic))
    } else {
        None
    }
}


/// The game after one list of choices was pushed on the move-generation stack for `actor`,
/// nothing else changed.
pub open spec fn pushed(before: StateView, after: StateView, actor: usize) -> bool {
    &&& after.move_generation_stack.len() == before.move_generation_stack.len() + 1
    &&& after.move_generation_stack.drop_last() == before.move_generation_stack
    &&& after.move_generation_stack.last().0 == actor
    &&& StateView { move_generation_stack: before.move_generation_stack, ..after } == before
}

/// The choices on top of the move-generation stack.
pub open spec fn top_choices(s: StateView) -> Seq<SimpleAction> {
    s.move_generation_stack.last().1@
}

/// A choice that deals `targets` damage from `actor`'s Active Pokémon, as an attack.
pub open spec fn damage_choice(a: SimpleAction, actor: usize, targets: Seq<(u32, usize, usize)>) -> bool {
    &&& a matches SimpleAction::ApplyDamage {
        attacking_player,
        attacking_idx,
        targets: t,
        is_from_active_attack,
    }
    &&& attacking_player == actor
    &&& attacking_idx == 0
    &&& t@ == targets
    &&& is_from_active_attack
}

/// After `before`, either nothing changed (no choice to offer) or exactly the damage choices
/// `lists` were pushed for `actor`.
pub open spec fn damage_choices_offered(
    before: StateView,
    after: StateView,
    actor: usize,
    lists: Seq<Seq<(u32, usize, usize)>>,
) -> bool {
    if lists.len() == 0 {
        after == before
    } else {
        &&& pushed(before, after, actor)
        &&& top_choices(after).len() == lists.len()
        &&& forall|i: int|
            0 <= i < lists.len() ==> #[trigger] damage_choice(top_choices(after)[i], actor, lists[i])
    }
}

/// The ordered pairs `(xs[i], xs[j])`, `i < j`, with `i` below `n`, in lexicographic order.
pub open spec fn ordered_pairs_upto<A>(xs: Seq<A>, n: int) -> Seq<(A, A)>
    decreases n,
{
    if n <= 0 {
        Seq::empty()
    } else {
        ordered_pairs_upto(xs, n - 1) + Seq::new(
            (xs.len() - n) as nat,
            |k: int| (xs[n - 1], xs[n + k]),
        )
    }
}

/// The damage lists a bench-damage choice offers: the opponent's Active Pokémon takes
/// `active_damage` and each chosen Benched Pokémon of `tp` takes `bench_damage`, for each
/// Benched Pokémon (one target) or each pair of them (two targets).
pub open spec fn bench_damage_lists(
    bench: Seq<usize>,
    active_damage: u32,
    bench_damage: u32,
    opp: usize,
    tp: usize,
    num_targets: usize,
) -> Seq<Seq<(u32, usize, usize)>> {
    if num_targets == 1 {
        bench.map_values(|b: usize| seq![(active_damage, opp, 0usize), (bench_damage, tp, b)])
    } else if num_targets == 2 {
        ordered_pairs_upto(bench, bench.len() as int).map_values(
            |p: (usize, usize)|
                seq![(active_damage, opp, 0usize), (bench_damage, tp, p.0), (bench_damage, tp, p.1)],
        )
    } else {
        Seq::empty()
    }
}

/// `MoveEnergy` choices from the Active Pokémon to each Benched Pokémon.
pub open spec fn move_energy_choices(bench: Seq<usize>, t: EnergyType, amount: u32) -> Seq<
    SimpleAction,
> {
    bench.map_values(
        |to: usize|
            SimpleAction::MoveEnergy {
                from_in_play_idx: 0,
                to_in_play_idx: to,
                energy_type: t,
                amount,
            },
    )
}

/// Choices that move exactly `energies` from the Active Pokémon to each Benched Pokémon.
pub open spec fn moves_of_energies(choices: Seq<SimpleAction>, bench: Seq<usize>, energies: Seq<EnergyType>) -> bool {
    &&& choices.len() == bench.len()
    &&& forall|i: int|
        0 <= i < bench.len() ==> (#[trigger] choices[i] matches SimpleAction::MoveEnergiesFromActive {
            to_in_play_idx,
            energies: e,
        } && to_in_play_idx == bench[i] && e@ == energies)
}

/// What applying the effect `e` of `actor`'s attack does to the game. Random picks (the Energy
/// moved by `MoveFromActiveToBench` without `all`) are stated as what holds of every pick.
pub open spec fn attack_effect_done(before: StateView, after: StateView, actor: usize, e: AttackEffect) -> bool {
    let opp = (1 - actor) as usize;
    match e {
        AttackEffect::InflictStatus { on_opponent, condition } => {
            let p = if on_opponent {
                opp
            } else {
                actor
            };
            after == before.with_slot(
                p as int,
                0,
                match before.slot(p as int, 0) {
                    Some(c) => Some(status_added(c, condition)),
                    None => None,
                },
            )
        },
        AttackEffect::DamageSelf { amount } => after == map_slot(
            before,
            actor as int,
            0,
            |c: PlayedCard| c.damaged_spec(amount),
        ),
        AttackEffect::HealSelf { amount } => after == map_slot(
            before,
            actor as int,
            0,
            |c: PlayedCard| c.healed_spec(amount),
        ),
        AttackEffect::HealOpponentActive { amount } => after == map_slot(
            before,
            opp as int,
            0,
            |c: PlayedCard| c.healed_spec(amount),
        ),
        AttackEffect::HealAllOwn { amount } => after == heal_side_upto(before, actor as int, amount, 4),
        AttackEffect::HealOwnBench { amount, only_basic } => after == heal_bench_upto(
            before,
            actor as int,
            amount,
            only_basic,
            4,
        ),
        AttackEffect::DiscardAllOwnActiveEnergy => energy_set(before, after, actor as int, 0, Seq::empty()),
        AttackEffect::RemoveRandomOpponentActiveEnergy => match before.slot(opp as int, 0) {
            Some(c) => if c.attached_energy@.len() == 0 {
                after == before
            } else {
                exists|k: int|
                    0 <= k < c.attached_energy@.len() && #[trigger] energy_set(
                        before,
                        after,
                        opp as int,
                        0,
                        c.attached_energy@.remove(k),
                    )
            },
            None => after == before,
        },
        AttackEffect::HealSelfIfOpponentPoisoned { amount } => match before.slot(opp as int, 0) {
            Some(c) => if c.poisoned {
                after == map_slot(before, actor as int, 0, |c: PlayedCard| c.healed_spec(amount))
            } else {
                after == before
            },
            None => after == before,
        },
        AttackEffect::KnockBackOpponent => offered(before, after, opp, activations_upto(before.board[opp as int], opp, false, 4)),
        AttackEffect::RandomOpponentBenchDamage { damage } => if before.bench_indices(opp as int).len() == 0 {
            after == before
        } else {
            exists|k: int|
                0 <= k < before.bench_indices(opp as int).len() && after == #[trigger] slot_damaged(
                    before,
                    opp as int,
                    before.bench_indices(opp as int)[k] as int,
                    damage,
                )
        },
        AttackEffect::DiscardTopDeck { own, count } => after == deck_top_discarded(
            before,
            if own {
                actor as int
            } else {
                opp as int
            },
            count,
        ),
        AttackEffect::RecoilIfOpponentKnockedOut { amount } => match before.slot(opp as int, 0) {
            Some(c) => if c.remaining_hp == 0 {
                after == map_slot(before, actor as int, 0, |c: PlayedCard| c.damaged_spec(amount))
            } else {
                after == before
            },
            None => after == before,
        },
        AttackEffect::KnockOutOpponentActive => after == map_slot(
            before,
            opp as int,
            0,
            |c: PlayedCard| c.damaged_spec(c.remaining_hp),
        ),
        AttackEffect::SetOpponentActiveHp { hp } => after == map_slot(
            before,
            opp as int,
            0,
            |c: PlayedCard|
                if c.remaining_hp > hp {
                    c.damaged_spec((c.remaining_hp - hp) as u32)
                } else {
                    c.healed_spec((hp - c.remaining_hp) as u32)
                },
        ),
        AttackEffect::ChooseHeal { amount, bench_only } => {
            let choices = heal_choices_upto(
                before.board[actor as int],
                if bench_only {
                    1
                } else {
                    0
                },
                amount,
                4,
            );
            if choices.len() == 0 {
                after == before
            } else {
                pushed(before, after, actor) && top_choices(after) == choices
            }
        },
        AttackEffect::DrawCards { amount } => pushed(before, after, actor) && top_choices(after)
            == seq![SimpleAction::DrawCard { amount }],
        AttackEffect::ChooseDamageTarget { damage, bench_only } => {
            let idxs = if bench_only {
                before.bench_indices(opp as int)
            } else {
                before.in_play_indices(opp as int)
            };
            damage_choices_offered(
                before,
                after,
                actor,
                idxs.map_values(|i: usize| seq![(damage, opp, i)]),
            )
        },
        AttackEffect::ChooseBenchDamage { active_damage, bench_damage, opponent_bench, num_targets } => {
            let tp = if opponent_bench {
                opp
            } else {
                actor
            };
            damage_choices_offered(
                before,
                after,
                actor,
                bench_damage_lists(
                    before.bench_indices(tp as int),
                    active_damage,
                    bench_damage,
                    opp,
                    tp,
                    num_targets,
                ),
            )
        },
        AttackEffect::MoveAllOfTypeToBench { energy_type } => {
            let bench = before.bench_indices(actor as int);
            match before.slot(actor as int, 0) {
                Some(active) => {
                    let n = count_of(active.attached_energy@, energy_type);
                    if bench.len() == 0 || n == 0 {
                        after == before
                    } else {
                        pushed(before, after, actor) && top_choices(after) == move_energy_choices(
                            bench,
                            energy_type,
                            n as u32,
                        )
                    }
                },
                None => after == before,
            }
        },
        AttackEffect::MoveFixedOfTypeToBench { energy_type, amount } => {
            let bench = before.bench_indices(actor as int);
            match before.slot(actor as int, 0) {
                Some(active) => {
                    if count_of(active.attached_energy@, energy_type) < amount || bench.len() == 0 {
                        after == before
                    } else {
                        pushed(before, after, actor) && top_choices(after) == move_energy_choices(
                            bench,
                            energy_type,
                            amount,
                        )
                    }
                },
                None => after == before,
            }
        },
        AttackEffect::MoveFromActiveToBench { all, count } => {
            let bench = before.bench_indices(actor as int);
            match before.slot(actor as int, 0) {
                Some(active) => {
                    let attached = active.attached_energy@;
                    let moved = if all {
                        attached.len()
                    } else if count < attached.len() {
                        count as nat
                    } else {
                        attached.len()
                    };
                    if bench.len() == 0 || moved == 0 {
                        after == before
                    } else {
                        &&& pushed(before, after, actor)
                        &&& exists|picked: Seq<EnergyType>|
                            {
                                &&& picked.len() == moved
                                &&& picked.to_multiset().subset_of(attached.to_multiset())
                                &&& all ==> picked == attached
                                &&& #[trigger] moves_of_energies(top_choices(after), bench, picked)
                            }
                    }
                },
                None => after == before,
            }
        },
        AttackEffect::DenyPointsOnKnockout { slot } => if slot >= 4 {
            after == before
        } else {
            match before.slot(opp as int, slot as int) {
                Some(c) => if c.remaining_hp == 0 {
                    ||| after == before
                    ||| exists|c2: PlayedCard|
                        #[trigger] denial_marked(c, c2) && after == before.with_slot(
                            opp as int,
                            slot as int,
                            Some(c2),
                        )
                } else {
                    after == before
                },
                None => after == before,
            }
        },
        AttackEffect::DiscardActiveEnergyOfType { own, energy_type } => type_discarded(
            before,
            after,
            if own {
                actor as int
            } else {
                opp as int
            },
            energy_type,
        ),
        AttackEffect::DiscardOwnActiveEnergyMatching { energy_type } => match before.slot(actor as int, 0) {
            Some(c) => active_energy_discarded(
                before,
                after,
                actor as int,
                energy_split(c.attached_energy@, energy_type, false, c.attached_energy@.len() as int),
                energy_split(c.attached_energy@, energy_type, true, c.attached_energy@.len() as int),
            ),
            None => after == before,
        },
        AttackEffect::DiscardRandomActiveEnergy { own, count } => random_discards_done(
            before,
            after,
            if own {
                actor
            } else {
                opp
            },
            count as nat,
        ),
        AttackEffect::ChooseDamagedTarget { damage } => damaged_target_offered(before, after, actor, damage),
        AttackEffect::SwitchOut { energy_type, optional } => switched_out(before, after, actor, energy_type, optional),
        AttackEffect::DiscardRandomOpponentHandCard { trainer_type } => random_hand_card_discarded(
            before,
            after,
            opp as int,
            trainer_type,
        ),
        AttackEffect::DiscardStadium => after == stadium_discarded(before),
        AttackEffect::DragOpponent => opponent_dragged(before, after, actor),
        AttackEffect::DragOpponentThenHit { damage } => dragged_then_hit(before, after, actor, damage),
        AttackEffect::DiscardDeckTopThenHit { base, extra, bonus_type } => deck_top_then_hit(
            before,
            after,
            actor as int,
            base,
            extra,
            deck_top_bonus(bonus_type),
        ),
        AttackEffect::ChooseDamagedBenchDamage { active_damage, bench_damage, opponent_bench } => damage_choices_offered(
            before,
            after,
            actor,
            damaged_bench_lists(before, actor, active_damage, bench_damage, opponent_bench),
        ),
        AttackEffect::ChooseTargetByEnergy { damage_per_energy } => damage_choices_offered(
            before,
            after,
            actor,
            energy_target_lists(before, actor, damage_per_energy),
        ),
        AttackEffect::TakeRandomEnergy { everywhere, to_discard, count } => random_takes_done(
            before,
            after,
            actor,
            everywhere,
            to_discard,
            count as nat,
        ),
        AttackEffect::DiscardOpponentEnergyFromEnd { count } => energy_from_end_discarded(before, after, opp as int, count),
        AttackEffect::SpreadFireOnBench { heads } => fire_spread(before, after, actor, heads as usize),
        AttackEffect::KnockoutsThenHit { damage } => knockouts_then_hit(before, after, actor, damage),
        AttackEffect::OfferShuffleSelf => shuffle_self_offered(before, after, actor),
        AttackEffect::AttachToBenchedBasic { energy_type } => basic_attach_offered(before, after, actor, energy_type),
        AttackEffect::KnockOutOpponentAndResolve => knocked_out_and_resolved(before, after, actor),
        AttackEffect::AttachEnergyToSelf { .. } | AttackEffect::CureSelfStatus
        | AttackEffect::HealSelfByDamageDealt { .. } | AttackEffect::ShuffleRandomOpponentHandCard
        | AttackEffect::DiscardOpponentActiveTool | AttackEffect::OfferShuffleActiveIntoDeck => more_effect_done(
            before,
            after,
            actor,
            e,
        ),
        AttackEffect::LeaveEffect { on_opponent, effect } => effect_left(
            before,
            after,
            if on_opponent { 1 - actor } else { actor as int },
            effect.card_effect(),
        ),
        AttackEffect::BlockIfBasic => blocked_if_basic(before, after, actor),
    }
}

/// The Pokémon `c2` is `c` marked so that no points are given for its Knock Out.
pub open spec fn denial_marked(c: PlayedCard, c2: PlayedCard) -> bool {
    &&& c2 == PlayedCard { effects: c2.effects, ..c }
    &&& c2.effects@ == c.effects@.push(CardEffect::DeniesPointsOnKnockout)
}

/// With `heads`, the opponent's Pokémon in `slot`, when it is Knocked Out, is marked so that
/// no points are given for it; otherwise nothing changes.
pub open spec fn denial_on_flip(before: StateView, after: StateView, actor: usize, slot: usize, heads: bool) -> bool {
    let opp = 1 - actor;
    if slot < 4 && heads && (before.slot(opp, slot as int) matches Some(c) && c.remaining_hp == 0) {
        exists|c2: PlayedCard|
            #[trigger] denial_marked(before.slot(opp, slot as int)->0, c2) && after == before.with_slot(
                opp,
                slot as int,
                Some(c2),
            )
    } else {
        after == before
    }
}

/// Applies the point-denial coin of the opponent's Pokémon in `slot`, given how the coin came
/// up (see `denial_on_flip`).
pub fn mark_denial_on_flip(state: &mut State, actor: usize, slot: usize, heads: bool)
    requires
        old(state).wf(),
        actor < 2,
    ensures
        final(state).wf(),
        denial_on_flip(old(state)@, final(state)@, actor, slot, heads),
{
    if slot >= 4 || !heads {
        return;
    }
    let opp = 1 - actor;
    proof {
        assert(state@.board[opp as int] == state.in_play_pokemon@[opp as int]@);
    }
    let knocked_out = match &state.in_play_pokemon[opp][slot] {
        Some(c) => c.remaining_hp == 0,
        None => false,
    };
    if !knocked_out {
        return;
    }
    let ghost c = old(state)@.slot(opp as int, slot as int)->0;
    let slot_ref = &mut state.in_play_pokemon[opp][slot];
    match slot_ref {
        Some(pokemon) => {
            pokemon.effects.push(CardEffect::DeniesPointsOnKnockout);
        },
        None => {},
    }
    proof {
        let c2 = state@.slot(opp as int, slot as int)->0;
        assert(c2.effects@ =~= c.effects@.push(CardEffect::DeniesPointsOnKnockout));
        assert(denial_marked(c, c2));
        assert(state@.board =~~= old(state)@.with_slot(opp as int, slot as int, Some(c2)).board);
        assert(state@ == old(state)@.with_slot(opp as int, slot as int, Some(c2)));
    }
}

/// Flips the point-denial coin of the opponent's Pokémon in `slot` when it is Knocked Out.
fn deny_points_coin(rng: &mut StdRng, state: &mut State, actor: usize, slot: usize)
    requires
        old(state).wf(),
        actor < 2,
    ensures
        final(state).wf(),
        attack_effect_done(old(state)@, final(state)@, actor, AttackEffect::DenyPointsOnKnockout { slot }),
{
    if slot >= 4 {
        return;
    }
    let opp = 1 - actor;
    let knocked_out = match &state.in_play_pokemon[opp][slot] {
        Some(c) => c.remaining_hp == 0,
        None => false,
    };
    if !knocked_out {
        return;
    }
    let heads = random_below(rng, 2) == 0;
    mark_denial_on_flip(state, actor, slot, heads);
}

/// Pushes a list of choices for `actor`.
pub(crate) fn push_choices(state: &mut State, actor: usize, choices: Vec<SimpleAction>)
    requires
        old(state).wf(),
    ensures
        final(state).wf(),
        pushed(old(state)@, final(state)@, actor),
        top_choices(final(state)@) == choices@,
{
    state.move_generation_stack.push((actor, choices));
    proof {
        assert(state@.move_generation_stack.drop_last() =~= old(state)@.move_generation_stack);
        assert(StateView { move_generation_stack: old(state)@.move_generation_stack, ..state@ }
            == old(state)@);
    }
}

/// Offers damage choices built from target lists (nothing when there is none).
pub(crate) fn offer_damage_choices(
    state: &mut State,
    actor: usize,
    lists: Vec<Vec<(u32, usize, usize)>>,
    ghost_lists: Ghost<Seq<Seq<(u32, usize, usize)>>>,
)
    requires
        old(state).wf(),
        lists@.len() == ghost_lists@.len(),
        forall|i: int| 0 <= i < lists@.len() ==> (#[trigger] lists@[i])@ == ghost_lists@[i],
    ensures
        final(state).wf(),
        damage_choices_offered(old(state)@, final(state)@, actor, ghost_lists@),
{
    if lists.len() == 0 {
        return;
    }
    let ghost gl = ghost_lists@;
    let mut choices: Vec<SimpleAction> = Vec::new();
    let mut rest = lists;
    let ghost all = rest@;
    let n = rest.len();
    let mut i: usize = 0;
    while rest.len() > 0
        invariant
            i + rest@.len() == all.len(),
            all.len() == n,
            rest@ == all.subrange(i as int, all.len() as int),
            all.len() == gl.len(),
            forall|k: int| 0 <= k < all.len() ==> (#[trigger] all[k])@ == gl[k],
            choices@.len() == i,
            forall|k: int| 0 <= k < i ==> #[trigger] damage_choice(choices@[k], actor, gl[k]),
        decreases rest@.len(),
    {
        let targets = rest.remove(0);
        proof {
            assert(targets == all[i as int]);
            assert(rest@ =~= all.subrange(i as int + 1, all.len() as int));
        }
        choices.push(
            SimpleAction::ApplyDamage {
                attacking_player: actor,
                attacking_idx: 0,
                targets,
                is_from_active_attack: true,
            },
        );
        proof {
            assert(damage_choice(choices@[i as int], actor, gl[i as int]));
        }
        i = i + 1;
    }
    push_choices(state, actor, choices);
}

/// Damage choices aimed at each listed slot of `player`.
pub(crate) fn direct_damage_lists(idxs: &Vec<usize>, damage: u32, player: usize) -> (r: Vec<
    Vec<(u32, usize, usize)>,
>)
    ensures
        r@.len() == idxs@.len(),
        forall|i: int|
            0 <= i < r@.len() ==> (#[trigger] r@[i])@ == idxs@.map_values(
                |k: usize| seq![(damage, player, k)],
            )[i],
{
    let mut r: Vec<Vec<(u32, usize, usize)>> = Vec::new();
    let mut i: usize = 0;
    while i < idxs.len()
        invariant
            i <= idxs@.len(),
            r@.len() == i,
            forall|k: int| 0 <= k < i ==> (#[trigger] r@[k])@ == seq![(damage, player, idxs@[k])],
        decreases idxs@.len() - i,
    {
        let mut one: Vec<(u32, usize, usize)> = Vec::new();
        one.push((damage, player, idxs[i]));
        proof {
            assert(one@ =~= seq![(damage, player, idxs@[i as int])]);
        }
        r.push(one);
        i = i + 1;
    }
    r
}

/// Offers the opponent's Pokémon (Benched only, when `bench_only`) as targets for `damage` from
/// the acting player's Active Pokémon (nothing when there is none).
pub fn push_direct_damage_choices(state: &mut State, actor: usize, damage: u32, bench_only: bool)
    requires
        old(state).wf(),
        actor < 2,
    ensures
        final(state).wf(),
        attack_effect_done(
            old(state)@,
            final(state)@,
            actor,
            AttackEffect::ChooseDamageTarget { damage, bench_only },
        ),
{
    let opp = 1 - actor;
    let idxs = if bench_only {
        state.enumerate_bench_pokemon(opp)
    } else {
        state.enumerate_in_play_pokemon(opp)
    };
    let lists = direct_damage_lists(&idxs, damage, opp);
    offer_damage_choices(state, actor, lists, Ghost(idxs@.map_values(|k: usize| seq![(damage, opp, k)])));
}

/// The damage lists a bench-damage choice offers.
fn bench_damage_lists_exec(
    bench: &Vec<usize>,
    active_damage: u32,
    bench_damage: u32,
    opp: usize,
    tp: usize,
    num_targets: usize,
) -> (r: Vec<Vec<(u32, usize, usize)>>)
    ensures
        r@.len() == bench_damage_lists(bench@, active_damage, bench_damage, opp, tp, num_targets).len(),
        forall|i: int|
            0 <= i < r@.len() ==> (#[trigger] r@[i])@ == bench_damage_lists(
                bench@,
                active_damage,
                bench_damage,
                opp,
                tp,
                num_targets,
            )[i],
{
    let ghost spec_lists = bench_damage_lists(bench@, active_damage, bench_damage, opp, tp, num_targets);
    let mut r: Vec<Vec<(u32, usize, usize)>> = Vec::new();
    if num_targets == 1 {
        let mut i: usize = 0;
        while i < bench.len()
            invariant
                i <= bench@.len(),
                num_targets == 1,
                spec_lists == bench_damage_lists(bench@, active_damage, bench_damage, opp, tp, num_targets),
                r@.len() == i,
                forall|k: int| 0 <= k < i ==> (#[trigger] r@[k])@ == spec_lists[k],
            decreases bench@.len() - i,
        {
            let mut one: Vec<(u32, usize, usize)> = Vec::new();
            one.push((active_damage, opp, 0));
            one.push((bench_damage, tp, bench[i]));
            proof {
                assert(one@ =~= spec_lists[i as int]);
            }
            r.push(one);
            i = i + 1;
        }
    } else if num_targets == 2 {
        let n = bench.len();
        let mut i: usize = 0;
        while i < n
            invariant
                i <= n,
                n == bench@.len(),
                num_targets == 2,
                spec_lists == ordered_pairs_upto(bench@, n as int).map_values(
                    |p: (usize, usize)|
                        seq![(active_damage, opp, 0usize), (bench_damage, tp, p.0), (bench_damage, tp, p.1)],
                ),
                r@.len() == ordered_pairs_upto(bench@, i as int).len(),
                forall|k: int|
                    0 <= k < r@.len() ==> (#[trigger] r@[k])@ == seq![
                        (active_damage, opp, 0usize),
                        (bench_damage, tp, ordered_pairs_upto(bench@, i as int)[k].0),
                        (bench_damage, tp, ordered_pairs_upto(bench@, i as int)[k].1),
                    ],
            decreases n - i,
        {
            let ghost before_len = r@.len();
            let ghost prev = ordered_pairs_upto(bench@, i as int);
            let ghost row = Seq::new((n - i - 1) as nat, |k: int| (bench@[i as int], bench@[i + 1 + k]));
            proof {
                assert(ordered_pairs_upto(bench@, i as int + 1) == prev + row);
            }
            let mut j: usize = i + 1;
            while j < n
                invariant
                    i < n,
                    i + 1 <= j <= n,
                    n == bench@.len(),
                    prev == ordered_pairs_upto(bench@, i as int),
                    row == Seq::new((n - i - 1) as nat, |k: int| (bench@[i as int], bench@[i + 1 + k])),
                    r@.len() == prev.len() + (j - i - 1),
                    forall|k: int|
                        0 <= k < r@.len() ==> (#[trigger] r@[k])@ == seq![
                            (active_damage, opp, 0usize),
                            (bench_damage, tp, (prev + row)[k].0),
                            (bench_damage, tp, (prev + row)[k].1),
                        ],
                decreases n - j,
            {
                let mut three: Vec<(u32, usize, usize)> = Vec::new();
                three.push((active_damage, opp, 0));
                three.push((bench_damage, tp, bench[i]));
                three.push((bench_damage, tp, bench[j]));
                proof {
                    let k = prev.len() + (j - i - 1);
                    assert((prev + row)[k] == row[j - i - 1]);
                    assert(row[j - i - 1] == (bench@[i as int], bench@[j as int]));
                    assert(three@ =~= seq![
                        (active_damage, opp, 0usize),
                        (bench_damage, tp, (prev + row)[k].0),
                        (bench_damage, tp, (prev + row)[k].1),
                    ]);
                }
                r.push(three);
                j = j + 1;
            }
            proof {
                assert(ordered_pairs_upto(bench@, i as int + 1) == prev + row);
            }
            i = i + 1;
        }
    }
    r
}

/// Offers the bench-damage choices of a `ChooseBenchDamage` effect.
fn offer_bench_damage(
    state: &mut State,
    actor: usize,
    active_damage: u32,
    bench_damage: u32,
    opponent_bench: bool,
    num_targets: usize,
)
    requires
        old(state).wf(),
        actor < 2,
    ensures
        final(state).wf(),
        attack_effect_done(
            old(state)@,
            final(state)@,
            actor,
            AttackEffect::ChooseBenchDamage { active_damage, bench_damage, opponent_bench, num_targets },
        ),
{
    let opp = 1 - actor;
    let tp = if opponent_bench {
        opp
    } else {
        actor
    };
    let bench = state.enumerate_bench_pokemon(tp);
    let lists = bench_damage_lists_exec(&bench, active_damage, bench_damage, opp, tp, num_targets);
    offer_damage_choices(
        state,
        actor,
        lists,
        Ghost(bench_damage_lists(bench@, active_damage, bench_damage, opp, tp, num_targets)),
    );
}

/// `MoveEnergy` choices from the Active Pokémon to each Benched Pokémon.
fn move_energy_choices_exec(bench: &Vec<usize>, t: EnergyType, amount: u32) -> (r: Vec<SimpleAction>)
    ensures
        r@ == move_energy_choices(bench@, t, amount),
{
    let mut r: Vec<SimpleAction> = Vec::new();
    let mut i: usize = 0;
    while i < bench.len()
        invariant
            i <= bench@.len(),
            r@ == move_energy_choices(bench@.subrange(0, i as int), t, amount),
        decreases bench@.len() - i,
    {
        r.push(
            SimpleAction::MoveEnergy {
                from_in_play_idx: 0,
                to_in_play_idx: bench[i],
                energy_type: t,
                amount,
            },
        );
        i = i + 1;
        proof {
            assert(r@ =~= move_energy_choices(bench@.subrange(0, i as int), t, amount));
        }
    }
    proof {
        assert(bench@.subrange(0, bench@.len() as int) =~= bench@);
    }
    r
}

/// Choices that move the same Energy list to each Benched Pokémon.
fn energies_moves_exec(bench: &Vec<usize>, energies: &Vec<EnergyType>) -> (r: Vec<SimpleAction>)
    ensures
        moves_of_energies(r@, bench@, energies@),
{
    let mut r: Vec<SimpleAction> = Vec::new();
    let mut i: usize = 0;
    while i < bench.len()
        invariant
            i <= bench@.len(),
            r@.len() == i,
            forall|k: int|
                0 <= k < i ==> (#[trigger] r@[k] matches SimpleAction::MoveEnergiesFromActive {
                    to_in_play_idx,
                    energies: e,
                } && to_in_play_idx == bench@[k] && e@ == energies@),
        decreases bench@.len() - i,
    {
        let copy = copy_energies(energies);
        r.push(SimpleAction::MoveEnergiesFromActive { to_in_play_idx: bench[i], energies: copy });
        i = i + 1;
    }
    r
}

/// A copy of an Energy list.
pub(crate) fn copy_energies(v: &Vec<EnergyType>) -> (r: Vec<EnergyType>)
    ensures
        r@ == v@,
{
    let mut r: Vec<EnergyType> = Vec::new();
    let mut i: usize = 0;
    while i < v.len()
        invariant
            i <= v@.len(),
            r@ == v@.subrange(0, i as int),
        decreases v@.len() - i,
    {
        r.push(v[i]);
        i = i + 1;
        proof {
            assert(r@ =~= v@.subrange(0, i as int));
        }
    }
    proof {
        assert(v@.subrange(0, v@.len() as int) =~= v@);
    }
    r
}

/// Up to `count` Energy drawn at random from `attached`, without putting any back.
fn pick_random_energies(rng: &mut StdRng, attached: &Vec<EnergyType>, count: usize) -> (r: Vec<
    EnergyType,
>)
    ensures
        r@.len() == if count < attached@.len() {
            count as nat
        } else {
            attached@.len()
        },
        r@.to_multiset().subset_of(attached@.to_multiset()),
{
    broadcast use vstd::seq_lib::group_to_multiset_ensures;

    let mut remaining = copy_energies(attached);
    let mut picked: Vec<EnergyType> = Vec::new();
    let mut k: usize = 0;
    while k < count && remaining.len() > 0
        invariant
            k <= count,
            picked@.len() == k,
            picked@.len() + remaining@.len() == attached@.len(),
            picked@.to_multiset().add(remaining@.to_multiset()) == attached@.to_multiset(),
        decreases count - k,
    {
        let i = random_below(rng, remaining.len());
        let ghost before_rem = remaining@;
        let ghost before_pick = picked@;
        let e = remaining.remove(i);
        picked.push(e);
        proof {
            assert(before_rem.remove(i as int) == remaining@);
            assert(e == before_rem[i as int]);
            vstd::seq_lib::to_multiset_remove(before_rem, i as int);
            vstd::seq_lib::to_multiset_build(before_pick, e);
            vstd::seq_lib::to_multiset_contains(before_rem, e);
            assert(picked@ == before_pick.push(e));
            assert(before_rem.to_multiset().count(e) > 0);
            assert(picked@.to_multiset().add(remaining@.to_multiset()) =~= attached@.to_multiset());
        }
        k = k + 1;
    }
    proof {
        assert(picked@.to_multiset().subset_of(attached@.to_multiset())) by {
            assert forall|x: EnergyType| picked@.to_multiset().count(x) <= attached@.to_multiset().count(x) by {}
        }
    }
    picked
}

/// Applies one effect of `actor`'s attack.
#[verifier::spinoff_prover]
#[verifier::rlimit(40)]
pub fn apply_attack_effect(rng: &mut StdRng, state: &mut State, actor: usize, effect: AttackEffect)
    requires
        old(state).wf(),
        actor < 2,
    ensures
        final(state).wf(),
        attack_effect_done(old(state)@, final(state)@, actor, effect),
{
    let opp = 1 - actor;
    match effect {
        AttackEffect::InflictStatus { on_opponent, condition } => {
            let p = if on_opponent {
                opp
            } else {
                actor
            };
            state.apply_status_condition(p, 0, condition);
        },
        AttackEffect::DamageSelf { amount } => damage_slot(state, actor, 0, amount),
        AttackEffect::HealSelf { amount } => heal_slot(state, actor, 0, amount),
        AttackEffect::HealOpponentActive { amount } => heal_slot(state, opp, 0, amount),
        AttackEffect::HealAllOwn { amount } => heal_all_pokemon(state, actor, amount),
        AttackEffect::HealOwnBench { amount, only_basic } => heal_own_bench(state, actor, amount, only_basic),
        AttackEffect::DiscardAllOwnActiveEnergy => {
            set_slot_energy(state, actor, 0, Vec::new());
            proof {
                assert(state@.slot(actor as int, 1) == old(state)@.slot(actor as int, 1));
            }
        },
        AttackEffect::RemoveRandomOpponentActiveEnergy => remove_random_active_energy(rng, state, opp),
        AttackEffect::SetOpponentActiveHp { hp } => set_active_hp(state, opp, hp),
        AttackEffect::HealSelfIfOpponentPoisoned { amount } => {
            let poisoned = match &state.in_play_pokemon[opp][0] {
                Some(c) => c.poisoned,
                None => false,
            };
            proof {
                assert(state@.board[opp as int] == state.in_play_pokemon@[opp as int]@);
            }
            if poisoned {
                heal_slot(state, actor, 0, amount);
            }
        },
        AttackEffect::KnockBackOpponent => {
            let choices = activations_exec(state, opp, false);
            if choices.len() > 0 {
                push_choices(state, opp, choices);
            }
        },
        AttackEffect::RandomOpponentBenchDamage { damage } => {
            let bench = state.enumerate_bench_pokemon(opp);
            if bench.len() > 0 {
                let k = random_below(rng, bench.len());
                proof {
                    lemma_occupied_from(state@.board[opp as int], 1);
                    assert(state@.board[opp as int] == state.in_play_pokemon@[opp as int]@);
                }
                damage_slot(state, opp, bench[k], damage);
                proof {
                    assert(state@ == slot_damaged(old(state)@, opp as int, bench@[k as int] as int, damage));
                }
            }
        },
        AttackEffect::KnockOutOpponentActive => knock_out_active(state, opp),
        AttackEffect::RecoilIfOpponentKnockedOut { amount } => {
            let knocked_out = match &state.in_play_pokemon[opp][0] {
                Some(c) => c.remaining_hp == 0,
                None => false,
            };
            proof {
                assert(state@.board[opp as int] == state.in_play_pokemon@[opp as int]@);
            }
            if knocked_out {
                damage_slot(state, actor, 0, amount);
            }
        },
        AttackEffect::DiscardTopDeck { own, count } => {
            // The deck discarded from is the opponent's of the player named here.
            let other = if own {
                opp
            } else {
                actor
            };
            discard_top_opponent_deck(state, other, count);
        },
        AttackEffect::ChooseHeal { amount, bench_only } => {
            let choices = heal_choices_exec(state, actor, amount, bench_only);
            if choices.len() > 0 {
                push_choices(state, actor, choices);
            }
        },
        AttackEffect::DrawCards { amount } => {
            let mut choices: Vec<SimpleAction> = Vec::new();
            choices.push(SimpleAction::DrawCard { amount });
            proof {
                assert(choices@ =~= seq![SimpleAction::DrawCard { amount }]);
            }
            push_choices(state, actor, choices);
        },
        AttackEffect::ChooseDamageTarget { damage, bench_only } => {
            push_direct_damage_choices(state, actor, damage, bench_only);
        },
        AttackEffect::ChooseBenchDamage { active_damage, bench_damage, opponent_bench, num_targets } => {
            offer_bench_damage(state, actor, active_damage, bench_damage, opponent_bench, num_targets);
        },
        AttackEffect::MoveAllOfTypeToBench { energy_type } => {
            let bench = state.enumerate_bench_pokemon(actor);
            let n = match state.maybe_get_active(actor) {
                Some(active) => count_exec(&active.attached_energy, energy_type),
                None => 0,
            };
            if bench.len() > 0 && n > 0 {
                let choices = move_energy_choices_exec(&bench, energy_type, n as u32);
                push_choices(state, actor, choices);
            }
        },
        AttackEffect::MoveFixedOfTypeToBench { energy_type, amount } => {
            let bench = state.enumerate_bench_pokemon(actor);
            let enough = match state.maybe_get_active(actor) {
                Some(active) => count_exec(&active.attached_energy, energy_type) as u64 >= amount as u64,
                None => false,
            };
            if enough && bench.len() > 0 {
                let choices = move_energy_choices_exec(&bench, energy_type, amount);
                push_choices(state, actor, choices);
            }
        },
        AttackEffect::MoveFromActiveToBench { all, count } => {
            let bench = state.enumerate_bench_pokemon(actor);
            if bench.len() == 0 {
                return;
            }
            let energies = match state.maybe_get_active(actor) {
                Some(active) => if all {
                    copy_energies(&active.attached_energy)
                } else {
                    pick_random_energies(rng, &active.attached_energy, count)
                },
                None => {
                    return;
                },
            };
            if energies.len() == 0 {
                return;
            }
            let ghost picked = energies@;
            let choices = energies_moves_exec(&bench, &energies);
            push_choices(state, actor, choices);
            proof {
                assert(moves_of_energies(top_choices(state@), bench@, picked));
            }
        },
        AttackEffect::DenyPointsOnKnockout { slot } => deny_points_coin(rng, state, actor, slot),
        AttackEffect::DiscardActiveEnergyOfType { own, energy_type } => {
            let p = if own {
                actor
            } else {
                opp
            };
            discard_active_energy_of_type(state, p, energy_type);
        },
        AttackEffect::DiscardOwnActiveEnergyMatching { energy_type } => discard_active_energy_matching(
            state,
            actor,
            energy_type,
        ),
        AttackEffect::DiscardRandomActiveEnergy { own, count } => {
            let p = if own {
                actor
            } else {
                opp
            };
            discard_random_active_energies(rng, state, p, count);
        },
        AttackEffect::ChooseDamagedTarget { damage } => offer_damaged_targets(state, actor, damage),
        AttackEffect::SwitchOut { energy_type, optional } => offer_switch_out(state, actor, energy_type, optional),
        AttackEffect::DiscardRandomOpponentHandCard { trainer_type } => discard_random_hand_card(
            rng,
            state,
            opp,
            trainer_type,
        ),
        AttackEffect::DiscardStadium => discard_stadium(state),
        AttackEffect::DragOpponent => offer_drag(state, actor),
        AttackEffect::DragOpponentThenHit { damage } => drag_then_hit(state, actor, damage),
        AttackEffect::DiscardDeckTopThenHit { base, extra, bonus_type } => discard_deck_top_then_hit(
            state,
            actor,
            base,
            extra,
            bonus_type,
        ),
        AttackEffect::ChooseDamagedBenchDamage { active_damage, bench_damage, opponent_bench } => offer_damaged_bench_damage(
            state,
            actor,
            active_damage,
            bench_damage,
            opponent_bench,
        ),
        AttackEffect::ChooseTargetByEnergy { damage_per_energy } => offer_energy_targets(state, actor, damage_per_energy),
        AttackEffect::TakeRandomEnergy { everywhere, to_discard, count } => take_random_energies(
            rng,
            state,
            actor,
            everywhere,
            to_discard,
            count,
        ),
        AttackEffect::DiscardOpponentEnergyFromEnd { count } => discard_energy_from_end(state, opp, count),
        AttackEffect::SpreadFireOnBench { heads } => offer_fire_spread(state, actor, heads),
        AttackEffect::KnockoutsThenHit { damage } => resolve_then_queue_hit(state, actor, damage),
        AttackEffect::OfferShuffleSelf => offer_shuffle_self(state, actor),
        AttackEffect::AttachToBenchedBasic { energy_type } => offer_basic_attach(state, actor, energy_type),
        AttackEffect::KnockOutOpponentAndResolve => knock_out_and_resolve(state, actor),
        AttackEffect::AttachEnergyToSelf { energy_type } => attach_to_self(state, actor, energy_type),
        AttackEffect::CureSelfStatus => cure_self(state, actor),
        AttackEffect::HealSelfByDamageDealt { hp_before } => heal_by_damage_dealt(state, actor, hp_before),
        AttackEffect::ShuffleRandomOpponentHandCard => shuffle_random_hand_card_in(rng, state, opp),
        AttackEffect::DiscardOpponentActiveTool => discard_active_tool(state, opp),
        AttackEffect::OfferShuffleActiveIntoDeck => offer_shuffle_active(state, actor),
        AttackEffect::LeaveEffect { on_opponent, effect } => leave_effect(state, actor, on_opponent, effect),
        AttackEffect::BlockIfBasic => block_if_basic(state, actor),
    }
}

/// The Pokémon in a slot after taking `damage` (no weakness, no effects).
pub open spec fn slot_damaged(s: StateView, player: int, idx: int, damage: u32) -> StateView {
    map_slot(s, player, idx, |c: PlayedCard| c.damaged_spec(damage))
}

/// What applying a list of effects in order does.
pub open spec fn effects_done(before: StateView, after: StateView, actor: usize, es: Seq<AttackEffect>) -> bool
    decreases es.len(),
{
    if es.len() == 0 {
        after == before
    } else {
        exists|mid: StateView|
            effects_done(before, mid, actor, es.drop_last()) && #[trigger] attack_effect_done(
                mid,
                after,
                actor,
                es.last(),
            )
    }
}

/// Applies effects of `actor`'s attack in order.
pub fn apply_attack_effects(rng: &mut StdRng, state: &mut State, actor: usize, effects: &Vec<AttackEffect>)
    requires
        old(state).wf(),
        actor < 2,
    ensures
        final(state).wf(),
        effects_done(old(state)@, final(state)@, actor, effects@),
{
    let ghost s0 = state@;
    let mut i: usize = 0;
    proof {
        assert(effects@.subrange(0, 0) =~= Seq::<AttackEffect>::empty());
    }
    while i < effects.len()
        invariant
            i <= effects@.len(),
            state.wf(),
            actor < 2,
            effects_done(s0, state@, actor, effects@.subrange(0, i as int)),
        decreases effects@.len() - i,
    {
        let ghost mid = state@;
        apply_attack_effect(rng, state, actor, effects[i]);
        proof {
            let sub = effects@.subrange(0, i as int + 1);
            assert(sub.drop_last() =~= effects@.subrange(0, i as int));
            assert(sub.last() == effects@[i as int]);
            assert(attack_effect_done(mid, state@, actor, sub.last()));
        }
        i = i + 1;
    }
    proof {
        assert(effects@.subrange(0, effects@.len() as int) =~= effects@);
    }
}

/// The Pokémon in the opponent's slots `list` left at 10 HP (Guts survivors).
pub open spec fn survivors_set(s: StateView, player: int, list: Seq<usize>) -> StateView
    decreases list.len(),
{
    if list.len() == 0 {
        s
    } else {
        map_slot(
            survivors_set(s, player, list.drop_last()),
            player,
            list.last() as int,
            |c: PlayedCard| PlayedCard { remaining_hp: 10, ..c },
        )
    }
}

/// What `handle_damage_only` does for an attack of `actor`'s Active Pokémon.
pub open spec fn damage_done(
    before: StateView,
    after: StateView,
    actor: usize,
    targets: Seq<(u32, usize, usize)>,
) -> bool {
    &&& same_but_stack(damage_only_spec(before, (actor, 0), targets, true), after)
    &&& only_bouncy_pushes(before.move_generation_stack, after.move_generation_stack)
}

/// What `handle_knockouts` does after an attack of `actor`'s Active Pokémon.
pub open spec fn knockouts_done(before: StateView, after: StateView, actor: usize) -> bool {
    let kos = knocked_out_list(before);
    let iris = iris_bonus_active_spec(before, (actor, 0), true);
    let done = ko_fold(before, kos, (actor, 0), true, iris);
    let w = winner_after_knockouts(done);
    &&& w is Some ==> after == (StateView { winner: w, ..done })
    &&& w is None ==> same_but_stack(done, after)
    &&& w is None ==> promotions_queued(
        done,
        active_ko_players(kos),
        done.move_generation_stack,
        after.move_generation_stack,
    )
}

/// The damage of an outcome aimed at concrete players for `actor`.
pub open spec fn resolved(o: OutcomeView<AttackEffect>, actor: usize) -> Seq<(u32, usize, usize)> {
    o.0.map_values(|t: DamageTarget| resolve_target(t, actor))
}

/// What applying an attack outcome does: the pre-damage effects; the damage, with its
/// modifiers and reactions; the Guts survivors left at 10 HP; the post-damage effects; then
/// Knock Outs (damage and Knock Outs only when the outcome deals damage).
pub open spec fn outcome_applied(
    before: StateView,
    after: StateView,
    actor: usize,
    o: OutcomeView<AttackEffect>,
) -> bool {
    let targets = resolved(o, actor);
    exists|s1: StateView, s2: StateView, s3: StateView|
        #![trigger effects_done(before, s1, actor, o.1), effects_done(survivors_set(s2, 1 - actor, o.3), s3, actor, o.2)]
        {
            &&& effects_done(before, s1, actor, o.1)
            &&& if targets.len() == 0 {
                s2 == s1
            } else {
                damage_done(s1, s2, actor, targets)
            }
            &&& effects_done(survivors_set(s2, 1 - actor, o.3), s3, actor, o.2)
            &&& if targets.len() == 0 {
                after == s3
            } else {
                knockouts_done(s3, after, actor)
            }
        }
}

/// Leaves the Pokémon in a slot at `hp` HP.
fn set_hp_slot(state: &mut State, player: usize, idx: usize, hp: u32)
    requires
        old(state).wf(),
        player < 2,
        idx < 4,
    ensures
        final(state).wf(),
        final(state)@ == map_slot(old(state)@, player as int, idx as int, |c: PlayedCard| PlayedCard { remaining_hp: hp, ..c }),
{
    let slot = &mut state.in_play_pokemon[player][idx];
    match slot {
        Some(pokemon) => {
            pokemon.remaining_hp = hp;
        },
        None => {},
    }
    proof {
        let f = |c: PlayedCard| PlayedCard { remaining_hp: hp, ..c };
        if old(state)@.slot(player as int, idx as int) is Some {
            assert(state@.board =~~= old(state)@.with_slot(
                player as int,
                idx as int,
                Some(f(old(state)@.slot(player as int, idx as int)->0)),
            ).board);
        } else {
            assert(state@.board =~~= old(state)@.board);
        }
    }
}

/// Applies one outcome of `actor`'s attack (what one branch of a forecast does).
pub fn apply_attack_outcome(
    rng: &mut StdRng,
    state: &mut State,
    actor: usize,
    outcome: &AttackOutcome<AttackEffect>,
)
    requires
        old(state).wf(),
        actor < 2,
        targets_in_range(resolved(outcome_view(*outcome), actor)),
        targets_fit(resolved(outcome_view(*outcome), actor)),
        forall|k: int| 0 <= k < outcome.survivors_at_10@.len() ==> #[trigger] outcome.survivors_at_10@[k] < 4,
    ensures
        final(state).wf(),
        outcome_applied(old(state)@, final(state)@, actor, outcome_view(*outcome)),
{
    let ghost s0 = state@;
    let ghost o = outcome_view(*outcome);
    let targets = outcome.resolved_targets(actor);
    proof {
        assert(targets@ =~= resolved(o, actor));
    }
    apply_attack_effects(rng, state, actor, &outcome.pre_damage_effects);
    let ghost s1 = state@;
    if targets.len() > 0 {
        handle_damage_only(state, (actor, 0), &targets, true);
    }
    let ghost s2 = state@;
    let opp = 1 - actor;
    let mut i: usize = 0;
    proof {
        assert(outcome.survivors_at_10@.subrange(0, 0) =~= Seq::<usize>::empty());
    }
    while i < outcome.survivors_at_10.len()
        invariant
            i <= outcome.survivors_at_10@.len(),
            state.wf(),
            opp == 1 - actor,
            actor < 2,
            forall|k: int| 0 <= k < outcome.survivors_at_10@.len() ==> #[trigger] outcome.survivors_at_10@[k] < 4,
            state@ == survivors_set(s2, opp as int, outcome.survivors_at_10@.subrange(0, i as int)),
        decreases outcome.survivors_at_10@.len() - i,
    {
        set_hp_slot(state, opp, outcome.survivors_at_10[i], 10);
        proof {
            let sub = outcome.survivors_at_10@.subrange(0, i as int + 1);
            assert(sub.drop_last() =~= outcome.survivors_at_10@.subrange(0, i as int));
        }
        i = i + 1;
    }
    proof {
        assert(outcome.survivors_at_10@.subrange(0, outcome.survivors_at_10@.len() as int)
            =~= outcome.survivors_at_10@);
    }
    apply_attack_effects(rng, state, actor, &outcome.post_damage_effects);
    let ghost s3 = state@;
    if targets.len() > 0 {
        handle_knockouts(state, (actor, 0), true);
    }
    proof {
        assert(effects_done(s0, s1, actor, o.1));
        assert(effects_done(survivors_set(s2, 1 - actor, o.3), s3, actor, o.2));
    }
}

/// The forecast of an attack before the modifiers of the Pokémon in play: its printed damage
/// when it has no effect text, otherwise the forecast of the mechanic that implements its effect
/// (`None` when this library does not hold that forecast).
pub open spec fn base_forecast(s: StateView, attack: Attack, map: EffectMechanicMap) -> Option<
    AttackView,
> {
    match attack.effect {
        None => Some(sure(hit(attack.fixed_damage))),
        Some(text) => match map.lookup(text@) {
            Some(m) => mechanic_forecast(s, attack, m),
            None => None,
        },
    }
}

/// Whether the attack's effect text has an implementation whose coin counts this library
/// handles (the engine refuses an attack whose effect has no implementation).
pub open spec fn attack_known(attack: Attack, map: EffectMechanicMap) -> bool {
    match attack.effect {
        None => true,
        Some(text) => match map.lookup(text@) {
            Some(m) => coins_in_range(m),
            None => false,
        },
    }
}

/// A nullifying coin in front of a distribution: heads (half the probability) the attack does
/// nothing; tails it goes on as forecast.
pub open spec fn gate_w(v: AttackView) -> AttackView {
    (2 * v.0, seq![(v.0, (Seq::empty(), Seq::empty(), Seq::empty(), Seq::empty()))] + v.1)
}

/// Every branch with `e` added after its post-damage effects.
pub open spec fn post_w(v: AttackView, e: AttackEffect) -> AttackView {
    (
        v.0,
        v.1.map_values(
            |b: (int, OutcomeView<AttackEffect>)| (b.0, (b.1.0, b.1.1, b.1.2.push(e), b.1.3)),
        ),
    )
}

/// Whether a Pokémon's effects include the coin flip that may block its attack.
pub open spec fn has_block_coin(effects: Seq<CardEffect>) -> bool {
    exists|k: int| 0 <= k < effects.len() && effects[k] is CoinFlipToBlockAttack
}

/// The damage reduction of the first effect from position `i` on that is a coin flip against
/// incoming damage (`u32::MAX` for full prevention).
pub open spec fn first_reduction_effect(effects: Seq<CardEffect>, i: int) -> Option<u32>
    decreases effects.len() - i,
{
    if i < 0 || i >= effects.len() {
        None
    } else {
        match effects[i] {
            CardEffect::CoinFlipToPreventIncomingDamage => Some(u32::MAX),
            CardEffect::CoinFlipToReduceIncomingDamage { amount } => Some(amount),
            _ => first_reduction_effect(effects, i + 1),
        }
    }
}

/// Among the first `n` of the given slots of `player`, those whose Pokémon flips a coin against
/// incoming damage, each with its reduction.
pub open spec fn reductions_upto(s: StateView, player: int, idxs: Seq<usize>, n: int) -> Seq<
    (usize, u32),
>
    decreases n,
{
    if n <= 0 {
        Seq::empty()
    } else {
        let prev = reductions_upto(s, player, idxs, n - 1);
        match s.slot(player, idxs[n - 1] as int) {
            Some(c) => match first_reduction_effect(c.effects@, 0) {
                Some(r) => prev.push((idxs[n - 1], r)),
                None => prev,
            },
            None => prev,
        }
    }
}

/// The slots of `player` whose Pokémon flips a coin against incoming damage, with the reduction.
pub open spec fn prevention_reductions(s: StateView, player: int) -> Seq<(usize, u32)> {
    reductions_upto(s, player, s.in_play_indices(player), s.in_play_indices(player).len() as int)
}

/// Among the first `n` of the given slots of `player`, those whose Pokémon has the ability `a`.
pub open spec fn with_ability_upto(
    s: StateView,
    player: int,
    idxs: Seq<usize>,
    a: AbilityMechanic,
    n: int,
) -> Seq<usize>
    decreases n,
{
    if n <= 0 {
        Seq::empty()
    } else {
        let prev = with_ability_upto(s, player, idxs, a, n - 1);
        match s.slot(player, idxs[n - 1] as int) {
            Some(c) => if c.card.ability_spec() == Some(a) {
                prev.push(idxs[n - 1])
            } else {
                prev
            },
            None => prev,
        }
    }
}

/// The slots of `player` in play whose Pokémon has the ability `a`, in slot order.
pub open spec fn slots_with_ability(s: StateView, player: int, a: AbilityMechanic) -> Seq<usize> {
    with_ability_upto(s, player, s.in_play_indices(player), a, s.in_play_indices(player).len() as int)
}

/// The point-denial coins added after the damage, one per slot of `deniers`, in order.
pub open spec fn denials_upto(v: AttackView, deniers: Seq<usize>, n: int) -> AttackView
    decreases n,
{
    if n <= 0 {
        v
    } else {
        post_w(denials_upto(v, deniers, n - 1), AttackEffect::DenyPointsOnKnockout { slot: deniers[n - 1] })
    }
}

/// What an attack of `acting_player` can lead to: its base forecast; unless it is a copied
/// attack, a nullifying coin when the attacker is Confused and another when it carries the
/// coin that may block its attack; then the defender's coins against damage, its Guts coins, and
/// its point-denial coins.
pub open spec fn forecast_attack_view(
    acting_player: usize,
    s: StateView,
    attack: Attack,
    is_sub_attack: bool,
    map: EffectMechanicMap,
) -> Option<AttackView> {
    match base_forecast(s, attack, map) {
        None => None,
        Some(b) => {
            let opp = 1 - acting_player;
            let attacker = active_of(s, acting_player as int);
            let g1 = if !is_sub_attack && attacker.confused {
                gate_w(b)
            } else {
                b
            };
            let g2 = if !is_sub_attack && has_block_coin(attacker.effects@) {
                gate_w(g1)
            } else {
                g1
            };
            let red = prevention_reductions(s, opp);
            let p = if red.len() == 0 {
                g2
            } else {
                (g2.0 * two_pow(red.len()), prevention_split_w(g2.1, red))
            };
            let guts = slots_with_ability(s, opp, AbilityMechanic::CoinFlipToSurviveKnockOut);
            let q = if guts.len() == 0 {
                p
            } else {
                (p.0 * two_pow(guts.len()), guts_split_w(p.1, s, acting_player, guts))
            };
            let deniers = slots_with_ability(s, opp, AbilityMechanic::CoinFlipDenyPointsOnKnockout);
            Some(denials_upto(q, deniers, deniers.len() as int))
        },
    }
}

/// The denominator of a mechanic's forecast is a positive number no larger than 2^31.
#[verifier::rlimit(40)]
proof fn lemma_forecast_denominator(s: StateView, attack: Attack, m: Mechanic)
    requires
        s.board[0].len() == 4,
        s.board[1].len() == 4,
        s.current_player < 2,
        coins_in_range(m),
        mechanic_forecast(s, attack, m) is Some,
    ensures
        1 <= (mechanic_forecast(s, attack, m)->0).0 <= two_pow(31),
{
    reveal_with_fuel(two_pow, 3);
    lemma_two_pow_monotone(2, 31);
    lemma_two_pow_monotone(8, 31);
    match m {
        Mechanic::ExtraDamageForEachHeads { num_coins, .. } => {
            lemma_two_pow_monotone(num_coins as nat, 31);
        },
        Mechanic::TieredCoinFlipDamage { num_coins, .. } => {
            lemma_two_pow_monotone(num_coins as nat, 31);
        },
        Mechanic::RandomSpreadDamage { times, include_own_bench, .. } => {
            let n = spread_targets(s, s.current_player as int, include_own_bench).len();
            let hits = (times + extra_spread_hits(s, attack.title@)) as nat;
            if n > 0 {
                lemma_nat_pow_monotone(n, 0, hits);
            }
        },
        Mechanic::RandomDamageToOpponentPokemonPerSelfEnergy { energy_type, .. } => {
            let cp = s.current_player as int;
            let n = spread_targets(s, cp, false).len();
            let hits = count_of(active_of(s, cp).attached_energy@, energy_type);
            if n > 0 {
                lemma_nat_pow_monotone(n, 0, hits);
            }
        },
        Mechanic::ExtraDamageForEachHeadsSelfStatus { num_coins, .. } => {
            lemma_two_pow_monotone(num_coins as nat, 31);
        },
        Mechanic::ExtraDamageForEachHeadsWithStatus { num_coins, .. } => {
            lemma_two_pow_monotone(num_coins as nat, 31);
        },
        Mechanic::ExtraDamageForEachHeadsWithStatusAtLeast { num_coins, .. } => {
            lemma_two_pow_monotone(num_coins as nat, 31);
        },
        Mechanic::FlipCoinsBenchDamagePerHead { num_coins, .. } => {
            lemma_two_pow_monotone(num_coins as nat, 31);
        },
        Mechanic::FlipUntilTailsDiscardOpponentDeck => {
            lemma_two_pow_monotone(8, 31);
        },
        Mechanic::CoinFlipsDiscardEnergyFromOpponentActiveOrNothing { num_coins } => {
            lemma_two_pow_monotone(num_coins as nat, 31);
        },
        Mechanic::CoinFlipsDiscardEnergyFromOpponentActive { num_coins } => {
            lemma_two_pow_monotone(num_coins as nat, 31);
        },
        Mechanic::DiscardSelfEnergyPerHeadsExtraDamage { num_coins, .. } => {
            lemma_two_pow_monotone(num_coins as nat, 31);
        },
        Mechanic::CoinFlipsAttachEnergyToSelf { num_coins, .. } => {
            lemma_two_pow_monotone(num_coins as nat, 31);
        },
        Mechanic::CoinFlipsShuffleOpponentHandCards { num_coins } => {
            lemma_two_pow_monotone(num_coins as nat, 31);
        },
        Mechanic::ExtraDamageForEachHeadsWithToolBoost { num_coins, boosted_num_coins, .. } => {
            lemma_two_pow_monotone(num_coins as nat, 31);
            lemma_two_pow_monotone(boosted_num_coins as nat, 31);
        },
        Mechanic::MoltresExInfernoDance => {
            lemma_two_pow_monotone(3, 31);
        },
        Mechanic::VaporeonHyperWhirlpool => {
            lemma_two_pow_monotone(5, 31);
        },
        Mechanic::CoinFlipPerSpecificEnergyType { energy_type, .. } => {
            let n = count_of(active_of(s, s.current_player as int).attached_energy@, energy_type);
            if n < 32 {
                lemma_two_pow_monotone(n, 31);
            }
        },
        Mechanic::CelebiExPowerfulBloom => {
            let n = active_of(s, s.current_player as int).attached_energy@.len();
            if n < 32 {
                lemma_two_pow_monotone(n, 31);
            }
        },
        Mechanic::CoinFlipPerPokemonInPlay { .. } => {
            let cp = s.current_player as int;
            lemma_occupied_len(s.board[cp], 0);
            lemma_two_pow_monotone(s.in_play_indices(cp).len(), 31);
        },
        Mechanic::MegaAmpharosExLightningLancer => {
            let opp = 1 - s.current_player;
            let n = s.bench_indices(opp).map_values(|i: usize| (opp as usize, i)).len();
            if n > 0 {
                lemma_occupied_len(s.board[opp as int], 1);
                lemma_three_hits_fit(n);
                lemma_nat_pow_monotone(n, 0, 3);
            }
        },
        _ => {},
    }
}

/// Whether the effects include the coin that may block an attack.
fn has_block_coin_exec(effects: &Vec<CardEffect>) -> (r: bool)
    ensures
        r == has_block_coin(effects@),
{
    let mut i: usize = 0;
    while i < effects.len()
        invariant
            i <= effects@.len(),
            forall|k: int| 0 <= k < i ==> !(effects@[k] is CoinFlipToBlockAttack),
        decreases effects@.len() - i,
    {
        if matches!(effects[i], CardEffect::CoinFlipToBlockAttack) {
            return true;
        }
        i = i + 1;
    }
    false
}

/// The reduction of the first coin-flip effect against incoming damage.
fn first_reduction_effect_exec(effects: &Vec<CardEffect>) -> (r: Option<u32>)
    ensures
        r == first_reduction_effect(effects@, 0),
{
    let mut i: usize = 0;
    while i < effects.len()
        invariant
            i <= effects@.len(),
            first_reduction_effect(effects@, 0) == first_reduction_effect(effects@, i as int),
        decreases effects@.len() - i,
    {
        match &effects[i] {
            CardEffect::CoinFlipToPreventIncomingDamage => {
                return Some(u32::MAX);
            },
            CardEffect::CoinFlipToReduceIncomingDamage { amount } => {
                return Some(*amount);
            },
            _ => {},
        }
        i = i + 1;
    }
    None
}

/// The slots of `player` whose Pokémon flips a coin against incoming damage.
fn prevention_reductions_exec(state: &State, player: usize) -> (r: Vec<(usize, u32)>)
    requires
        state.wf(),
        player < 2,
    ensures
        r@ == prevention_reductions(state@, player as int),
        r@.len() <= 4,
        forall|k: int| 0 <= k < r@.len() ==> (#[trigger] r@[k]).0 < 4,
{
    let idxs = state.enumerate_in_play_pokemon(player);
    let mut r: Vec<(usize, u32)> = Vec::new();
    let mut i: usize = 0;
    proof {
        lemma_occupied_from(state@.board[player as int], 0);
        lemma_occupied_len(state@.board[player as int], 0);
    }
    while i < idxs.len()
        invariant
            i <= idxs@.len(),
            state.wf(),
            player < 2,
            idxs@ == state@.in_play_indices(player as int),
            idxs@.len() <= 4,
            forall|k: int| 0 <= k < idxs@.len() ==> #[trigger] idxs@[k] < 4,
            r@ == reductions_upto(state@, player as int, idxs@, i as int),
            r@.len() <= i,
            forall|k: int| 0 <= k < r@.len() ==> (#[trigger] r@[k]).0 < 4,
        decreases idxs@.len() - i,
    {
        let idx = idxs[i];
        match &state.in_play_pokemon[player][idx] {
            Some(c) => match first_reduction_effect_exec(&c.effects) {
                Some(red) => {
                    r.push((idx, red));
                },
                None => {},
            },
            None => {},
        }
        i = i + 1;
    }
    r
}

/// The slots of `player` in play whose Pokémon has Guts (`guts`) or the point-denial coin.
fn slots_with_ability_exec(state: &State, player: usize, guts: bool) -> (r: Vec<usize>)
    requires
        state.wf(),
        player < 2,
    ensures
        r@ == slots_with_ability(
            state@,
            player as int,
            if guts {
                AbilityMechanic::CoinFlipToSurviveKnockOut
            } else {
                AbilityMechanic::CoinFlipDenyPointsOnKnockout
            },
        ),
        r@.len() <= 4,
        forall|k: int| 0 <= k < r@.len() ==> #[trigger] r@[k] < 4,
{
    let ghost a = if guts {
        AbilityMechanic::CoinFlipToSurviveKnockOut
    } else {
        AbilityMechanic::CoinFlipDenyPointsOnKnockout
    };
    let idxs = state.enumerate_in_play_pokemon(player);
    let mut r: Vec<usize> = Vec::new();
    let mut i: usize = 0;
    proof {
        lemma_occupied_from(state@.board[player as int], 0);
        lemma_occupied_len(state@.board[player as int], 0);
    }
    while i < idxs.len()
        invariant
            i <= idxs@.len(),
            state.wf(),
            player < 2,
            idxs@ == state@.in_play_indices(player as int),
            idxs@.len() <= 4,
            forall|k: int| 0 <= k < idxs@.len() ==> #[trigger] idxs@[k] < 4,
            a == if guts {
                AbilityMechanic::CoinFlipToSurviveKnockOut
            } else {
                AbilityMechanic::CoinFlipDenyPointsOnKnockout
            },
            r@ == with_ability_upto(state@, player as int, idxs@, a, i as int),
            r@.len() <= i,
            forall|k: int| 0 <= k < r@.len() ==> #[trigger] r@[k] < 4,
        decreases idxs@.len() - i,
    {
        let idx = idxs[i];
        match &state.in_play_pokemon[player][idx] {
            Some(c) => {
                let ability = c.card.get_ability();
                let has = match ability {
                    Some(AbilityMechanic::CoinFlipToSurviveKnockOut) => guts,
                    Some(AbilityMechanic::CoinFlipDenyPointsOnKnockout) => !guts,
                    _ => false,
                };
                proof {
                    assert(state@.slot(player as int, idx as int) == Some(*c));
                    if has {
                        assert(*ability == Some(a));
                    } else {
                        assert(*ability != Some(a));
                    }
                }
                if has {
                    r.push(idx);
                }
            },
            None => {},
        }
        i = i + 1;
    }
    r
}

/// A side's occupied slots from `from` on are at most the slots from `from` on.
pub(crate) proof fn lemma_occupied_len(side: Seq<Option<PlayedCard>>, from: int)
    requires
        0 <= from,
    ensures
        occupied_from(side, from).len() <= if side.len() >= from {
            side.len() - from
        } else {
            0
        },
    decreases side.len() - from,
{
    if from < side.len() {
        lemma_occupied_len(side, from + 1);
    }
}

/// The branches' weights and outcomes are those of their full views.
proof fn lemma_attack_view_weighted(o: AttackOutcomes<AttackEffect>)
    ensures
        attack_view(o).1 == weighted_views(branch_views(o.branches@)),
{
    assert(attack_view(o).1 =~= weighted_views(branch_views(o.branches@)));
}

/// The forecast of an attack before the modifiers of the Pokémon in play.
fn base_attack_forecast(state: &State, attack: &Attack, map: &EffectMechanicMap) -> (r: Option<
    AttackOutcomes<AttackEffect>,
>)
    requires
        state.wf(),
        state@.slot(state.current_player as int, 0) is Some,
        state@.slot(1 - state.current_player, 0) is Some,
        attack_known(*attack, *map),
    ensures
        match r {
            Some(o) => {
                &&& o.is_distribution()
                &&& base_forecast(state@, *attack, *map) == Some(attack_view(o))
                &&& o.denominator <= 0x8000_0000
            },
            None => base_forecast(state@, *attack, *map) is None,
        },
{
    let ghost s = state@;
    match &attack.effect {
        None => Some(sure_outcomes(hit_outcome(attack.fixed_damage))),
        Some(text) => match map.get(text.as_str()) {
            Some(m) => match forecast_effect_attack_by_mechanic(state, attack, m) {
                Some(o) => {
                    proof {
                        assert(s.board[0] == state.in_play_pokemon@[0]@);
                        assert(s.board[1] == state.in_play_pokemon@[1]@);
                        lemma_forecast_denominator(s, *attack, *m);
                        crate::outcomes::lemma_two_pow_31();
                    }
                    Some(o)
                },
                None => None,
            },
            None => None,
        },
    }
}

/// A nullifying coin in front of the forecast when `cond` holds.
fn gate_if(o: AttackOutcomes<AttackEffect>, cond: bool) -> (r: AttackOutcomes<AttackEffect>)
    requires
        o.is_distribution(),
        o.denominator <= u64::MAX / 2,
    ensures
        r.is_distribution(),
        attack_view(r) == if cond {
            gate_w(attack_view(o))
        } else {
            attack_view(o)
        },
        r.denominator <= 2 * o.denominator,
{
    if cond {
        let ghost v = attack_view(o);
        let ghost ob = o.branches@;
        let r = o.prepend_nullifying_coin_gate();
        proof {
            let a = attack_view(r).1;
            let g = gate_w(v).1;
            assert(a.len() == g.len());
            assert forall|i: int| 0 <= i < a.len() implies a[i] == g[i] by {
                if i == 0 {
                    assert(r.branches@[0].outcome.damage@ =~= Seq::<DamageTarget>::empty());
                    assert(r.branches@[0].outcome.pre_damage_effects@ =~= Seq::<AttackEffect>::empty());
                    assert(r.branches@[0].outcome.post_damage_effects@ =~= Seq::<AttackEffect>::empty());
                    assert(r.branches@[0].outcome.survivors_at_10@ =~= Seq::<usize>::empty());
                } else {
                    let j = i - 1;
                    assert(r.branches@[j + 1].weight == ob[j].weight);
                    assert(r.branches@[j + 1].outcome == ob[j].outcome);
                }
            }
            assert(a =~= g);
        }
        r
    } else {
        o
    }
}

/// The defender's coins against incoming damage, for an attack of `acting_player`.
fn defender_prevention(o: AttackOutcomes<AttackEffect>, state: &State, acting_player: usize) -> (r:
    AttackOutcomes<AttackEffect>)
    requires
        o.is_distribution(),
        o.denominator <= 0x4_0000_0000,
        state.wf(),
        acting_player < 2,
    ensures
        r.is_distribution(),
        r.denominator <= 16 * o.denominator,
        ({
            let red = prevention_reductions(state@, 1 - acting_player);
            let v = attack_view(o);
            attack_view(r) == if red.len() == 0 {
                v
            } else {
                (v.0 * two_pow(red.len()), prevention_split_w(v.1, red))
            }
        }),
{
    let reductions = prevention_reductions_exec(state, 1 - acting_player);
    if reductions.len() == 0 {
        return o;
    }
    proof {
        reveal_with_fuel(two_pow, 5);
        lemma_two_pow_monotone(reductions@.len() as nat, 4);
        lemma_attack_view_weighted(o);
        assert(o.denominator * two_pow(reductions@.len() as nat) <= o.denominator * 16)
            by (nonlinear_arith)
            requires
                two_pow(reductions@.len() as nat) <= 16,
        ;
    }
    let ghost before = o.branches@;
    let r = o.split_with_damage_prevention(&reductions);
    proof {
        lemma_attack_view_weighted(r);
        lemma_prevention_weighted(branch_views(before), reductions@);
    }
    r
}

/// The defender's Guts coins, for an attack of `acting_player`.
fn defender_guts(o: AttackOutcomes<AttackEffect>, state: &State, acting_player: usize) -> (r:
    AttackOutcomes<AttackEffect>)
    requires
        o.is_distribution(),
        o.denominator <= 0x40_0000_0000,
        state.wf(),
        acting_player < 2,
    ensures
        r.is_distribution(),
        ({
            let guts = slots_with_ability(
                state@,
                1 - acting_player,
                AbilityMechanic::CoinFlipToSurviveKnockOut,
            );
            let v = attack_view(o);
            attack_view(r) == if guts.len() == 0 {
                v
            } else {
                (v.0 * two_pow(guts.len()), guts_split_w(v.1, state@, acting_player, guts))
            }
        }),
{
    let guts = slots_with_ability_exec(state, 1 - acting_player, true);
    if guts.len() == 0 {
        return o;
    }
    proof {
        reveal_with_fuel(two_pow, 5);
        lemma_two_pow_monotone(guts@.len() as nat, 4);
        lemma_attack_view_weighted(o);
        assert(o.denominator * two_pow(guts@.len() as nat) <= o.denominator * 16)
            by (nonlinear_arith)
            requires
                two_pow(guts@.len() as nat) <= 16,
        ;
    }
    let ghost before = o.branches@;
    let r = o.split_with_guts_survival(state, acting_player, &guts);
    proof {
        lemma_attack_view_weighted(r);
        lemma_guts_weighted(branch_views(before), state@, acting_player, guts@);
    }
    r
}

/// The defender's point-denial coins, added after the damage of every branch.
fn defender_denials(o: AttackOutcomes<AttackEffect>, state: &State, acting_player: usize) -> (r:
    AttackOutcomes<AttackEffect>)
    requires
        o.is_distribution(),
        state.wf(),
        acting_player < 2,
    ensures
        r.is_distribution(),
        ({
            let deniers = slots_with_ability(
                state@,
                1 - acting_player,
                AbilityMechanic::CoinFlipDenyPointsOnKnockout,
            );
            attack_view(r) == denials_upto(attack_view(o), deniers, deniers.len() as int)
        }),
{
    let ghost q = attack_view(o);
    let deniers = slots_with_ability_exec(state, 1 - acting_player, false);
    let mut r = o;
    let mut i: usize = 0;
    while i < deniers.len()
        invariant
            i <= deniers@.len(),
            r.is_distribution(),
            attack_view(r) == denials_upto(q, deniers@, i as int),
        decreases deniers@.len() - i,
    {
        let ghost v = attack_view(r);
        r = r.with_post_damage_effect(AttackEffect::DenyPointsOnKnockout { slot: deniers[i] });
        proof {
            assert(attack_view(r).1 =~~= post_w(
                v,
                AttackEffect::DenyPointsOnKnockout { slot: deniers@[i as int] },
            ).1);
        }
        i = i + 1;
    }
    r
}

/// The forecast of an attack of `acting_player`'s Active Pokémon, with the modifiers of the
/// Pokémon in play (a copied attack skips the attacker's own coins).
pub fn forecast_attack(
    acting_player: usize,
    state: &State,
    attack: &Attack,
    is_sub_attack: bool,
    map: &EffectMechanicMap,
) -> (r: Option<AttackOutcomes<AttackEffect>>)
    requires
        state.wf(),
        acting_player < 2,
        state@.slot(state.current_player as int, 0) is Some,
        state@.slot(1 - state.current_player, 0) is Some,
        state@.slot(acting_player as int, 0) is Some,
        attack_known(*attack, *map),
    ensures
        match r {
            Some(o) => o.is_distribution() && forecast_attack_view(
                acting_player,
                state@,
                *attack,
                is_sub_attack,
                *map,
            ) == Some(attack_view(o)),
            None => forecast_attack_view(acting_player, state@, *attack, is_sub_attack, *map) is None,
        },
{
    let base = match base_attack_forecast(state, attack, map) {
        Some(o) => o,
        None => {
            return None;
        },
    };
    let attacker = state.get_active(acting_player);
    let confused = !is_sub_attack && attacker.confused;
    let blocked = !is_sub_attack && has_block_coin_exec(&attacker.effects);
    let o = gate_if(base, confused);
    let o = gate_if(o, blocked);
    let o = defender_prevention(o, state, acting_player);
    let o = defender_guts(o, state, acting_player);
    let o = defender_denials(o, state, acting_player);
    Some(o)
}

/// Every way to share `total` Energy among `n` Pokémon, as the count each one gets, in
/// lexicographic order of the counts.
pub open spec fn distributions(n: nat, total: nat) -> Seq<Seq<usize>>
    decreases n, total + 2,
{
    if n == 0 {
        if total == 0 {
            seq![Seq::empty()]
        } else {
            Seq::empty()
        }
    } else {
        distributions_from(n, total, 0)
    }
}

/// The ways of `distributions(n, total)` whose first count is at least `f`.
pub open spec fn distributions_from(n: nat, total: nat, f: nat) -> Seq<Seq<usize>>
    decreases n, total + 1 - f,
{
    if n == 0 || f > total {
        Seq::empty()
    } else {
        distributions((n - 1) as nat, (total - f) as nat).map_values(
            |d: Seq<usize>| seq![f as usize] + d,
        ) + distributions_from(n, total, f + 1)
    }
}

/// Lists of plain indices as sequences.
pub open spec fn deep_usize(v: Seq<Vec<usize>>) -> Seq<Seq<usize>> {
    v.map_values(|x: Vec<usize>| x@)
}

/// Every way to share `total` Energy among `n` Pokémon.
fn distributions_exec(n: usize, total: usize) -> (r: Vec<Vec<usize>>)
    requires
        total < usize::MAX,
    ensures
        deep_usize(r@) == distributions(n as nat, total as nat),
    decreases n,
{
    let mut r: Vec<Vec<usize>> = Vec::new();
    if n == 0 {
        if total == 0 {
            r.push(Vec::new());
            proof {
                assert(deep_usize(r@) =~= seq![Seq::<usize>::empty()]);
            }
        } else {
            proof {
                assert(deep_usize(r@) =~= Seq::<Seq<usize>>::empty());
            }
        }
        return r;
    }
    let mut f: usize = 0;
    proof {
        assert(deep_usize(r@) =~= Seq::<Seq<usize>>::empty());
        assert(deep_usize(r@) + distributions_from(n as nat, total as nat, 0) =~= distributions_from(
            n as nat,
            total as nat,
            0,
        ));
    }
    while f <= total
        invariant
            f <= total + 1,
            total < usize::MAX,
            n > 0,
            deep_usize(r@) + distributions_from(n as nat, total as nat, f as nat) == distributions_from(
                n as nat,
                total as nat,
                0,
            ),
        decreases total + 1 - f,
    {
        let sub = distributions_exec(n - 1, total - f);
        let ghost before = deep_usize(r@);
        let ghost block = distributions((n - 1) as nat, (total - f) as nat).map_values(
            |d: Seq<usize>| seq![f as usize] + d,
        );
        let mut k: usize = 0;
        while k < sub.len()
            invariant
                k <= sub@.len(),
                deep_usize(sub@) == distributions((n - 1) as nat, (total - f) as nat),
                block == distributions((n - 1) as nat, (total - f) as nat).map_values(
                    |d: Seq<usize>| seq![f as usize] + d,
                ),
                deep_usize(r@) == before + block.subrange(0, k as int),
            decreases sub@.len() - k,
        {
            let mut v: Vec<usize> = Vec::new();
            v.push(f);
            let mut m: usize = 0;
            while m < sub[k].len()
                invariant
                    k < sub@.len(),
                    m <= sub@[k as int]@.len(),
                    v@ == seq![f] + sub@[k as int]@.subrange(0, m as int),
                decreases sub@[k as int]@.len() - m,
            {
                v.push(sub[k][m]);
                m = m + 1;
                proof {
                    assert(v@ =~= seq![f] + sub@[k as int]@.subrange(0, m as int));
                }
            }
            proof {
                assert(sub@[k as int]@.subrange(0, sub@[k as int]@.len() as int) =~= sub@[k as int]@);
                assert(deep_usize(sub@)[k as int] == sub@[k as int]@);
                assert(block[k as int] == seq![f as usize] + sub@[k as int]@);
            }
            let ghost rb = r@;
            r.push(v);
            proof {
                assert(deep_usize(r@) =~= deep_usize(rb).push(v@));
                assert(block.subrange(0, k as int + 1) =~= block.subrange(0, k as int).push(block[k as int]));
            }
            k = k + 1;
        }
        proof {
            assert(block.subrange(0, k as int) =~= block);
            assert(distributions_from(n as nat, total as nat, f as nat) == block + distributions_from(
                n as nat,
                total as nat,
                (f + 1) as nat,
            ));
            assert(deep_usize(r@) + distributions_from(n as nat, total as nat, (f + 1) as nat) =~= before
                + distributions_from(n as nat, total as nat, f as nat));
        }
        f = f + 1;
    }
    proof {
        assert(distributions_from(n as nat, total as nat, f as nat) =~= Seq::<Seq<usize>>::empty());
        assert(deep_usize(r@) =~= distributions_from(n as nat, total as nat, 0));
    }
    r
}

/// The attachments of one distribution: `d[i]` Fire Energy on the Pokémon in slot `idxs[i]`,
/// for the first `i` entries with a positive count.
pub open spec fn attachments_upto(d: Seq<usize>, idxs: Seq<usize>, i: int) -> Seq<
    (u32, EnergyType, usize),
>
    decreases i,
{
    if i <= 0 {
        Seq::empty()
    } else {
        let prev = attachments_upto(d, idxs, i - 1);
        if d[i - 1] > 0 {
            prev.push((d[i - 1] as u32, EnergyType::Fire, idxs[i - 1]))
        } else {
            prev
        }
    }
}

/// The choices of sharing `heads` Fire Energy among the Pokémon in the slots `fire_bench_idx`:
/// one `Attach` choice (not the turn's Energy) per distribution, in lexicographic order of the
/// counts, each listing the Pokémon that get at least one Energy.
pub fn generate_energy_distributions(fire_bench_idx: &Vec<usize>, heads: usize) -> (r: Vec<
    SimpleAction,
>)
    requires
        heads < usize::MAX,
    ensures
        r@.len() == distributions(fire_bench_idx@.len() as nat, heads as nat).len(),
        forall|j: int|
            0 <= j < r@.len() ==> (#[trigger] r@[j] matches SimpleAction::Attach {
                attachments,
                is_turn_energy,
            } && !is_turn_energy && attachments@ == attachments_upto(
                distributions(fire_bench_idx@.len() as nat, heads as nat)[j],
                fire_bench_idx@,
                fire_bench_idx@.len() as int,
            )),
{
    let n = fire_bench_idx.len();
    let dists = distributions_exec(n, heads);
    let ghost ds = distributions(n as nat, heads as nat);
    let mut r: Vec<SimpleAction> = Vec::new();
    let mut j: usize = 0;
    while j < dists.len()
        invariant
            j <= dists@.len(),
            n == fire_bench_idx@.len(),
            deep_usize(dists@) == ds,
            ds == distributions(n as nat, heads as nat),
            r@.len() == j,
            forall|q: int|
                0 <= q < j ==> (#[trigger] r@[q] matches SimpleAction::Attach {
                    attachments,
                    is_turn_energy,
                } && !is_turn_energy && attachments@ == attachments_upto(
                    ds[q],
                    fire_bench_idx@,
                    n as int,
                )),
        decreases dists@.len() - j,
    {
        let d = &dists[j];
        proof {
            assert(deep_usize(dists@)[j as int] == d@);
            lemma_distribution_len(n as nat, heads as nat, j as int);
        }
        let mut attachments: Vec<(u32, EnergyType, usize)> = Vec::new();
        let mut i: usize = 0;
        while i < n
            invariant
                i <= n,
                n == fire_bench_idx@.len(),
                d@.len() == n,
                attachments@ == attachments_upto(d@, fire_bench_idx@, i as int),
            decreases n - i,
        {
            if d[i] > 0 {
                attachments.push((d[i] as u32, EnergyType::Fire, fire_bench_idx[i]));
            }
            i = i + 1;
        }
        r.push(SimpleAction::Attach { attachments, is_turn_energy: false });
        j = j + 1;
    }
    r
}

/// Each distribution has one count per Pokémon.
proof fn lemma_distribution_len(n: nat, total: nat, j: int)
    requires
        0 <= j < distributions(n, total).len(),
    ensures
        distributions(n, total)[j].len() == n,
    decreases n, total + 2,
{
    if n > 0 {
        lemma_distribution_from_len(n, total, 0, j);
    }
}

/// Each distribution whose first count is at least `f` has one count per Pokémon.
proof fn lemma_distribution_from_len(n: nat, total: nat, f: nat, j: int)
    requires
        n > 0,
        0 <= j < distributions_from(n, total, f).len(),
    ensures
        distributions_from(n, total, f)[j].len() == n,
    decreases n, total + 1 - f,
{
    if f <= total {
        let block = distributions((n - 1) as nat, (total - f) as nat).map_values(
            |d: Seq<usize>| seq![f as usize] + d,
        );
        if j < block.len() {
            lemma_distribution_len((n - 1) as nat, (total - f) as nat, j);
        } else {
            lemma_distribution_from_len(n, total, f + 1, j - block.len());
        }
    }
}

/// Among the first `n` of the given slots of `player`, those holding a Pokémon of type `t`
/// (a Basic one only, when `basic_only`).
pub open spec fn of_type_upto(
    s: StateView,
    player: int,
    idxs: Seq<usize>,
    t: EnergyType,
    basic_only: bool,
    n: int,
) -> Seq<usize>
    decreases n,
{
    if n <= 0 {
        Seq::empty()
    } else {
        let prev = of_type_upto(s, player, idxs, t, basic_only, n - 1);
        match s.slot(player, idxs[n - 1] as int) {
            Some(c) => if c.card.energy_type_spec() == Some(t) && (!basic_only
                || c.card.is_basic_spec()) {
                prev.push(idxs[n - 1])
            } else {
                prev
            },
            None => prev,
        }
    }
}

/// The Benched slots of `player` holding a Pokémon of type `t` (a Basic one, when
/// `basic_only`), in slot order.
pub open spec fn benched_of_type(s: StateView, player: int, t: EnergyType, basic_only: bool) -> Seq<
    usize,
> {
    of_type_upto(s, player, s.bench_indices(player), t, basic_only, s.bench_indices(player).len() as int)
}

/// The Benched slots of `player` holding a Pokémon of type `t` (a Basic one, when
/// `basic_only`).
fn benched_of_type_exec(state: &State, player: usize, t: EnergyType, basic_only: bool) -> (r: Vec<
    usize,
>)
    requires
        state.wf(),
        player < 2,
    ensures
        r@ == benched_of_type(state@, player as int, t, basic_only),
{
    let idxs = state.enumerate_bench_pokemon(player);
    let mut r: Vec<usize> = Vec::new();
    let mut i: usize = 0;
    proof {
        lemma_occupied_from(state@.board[player as int], 1);
    }
    while i < idxs.len()
        invariant
            i <= idxs@.len(),
            state.wf(),
            player < 2,
            idxs@ == state@.bench_indices(player as int),
            forall|k: int| 0 <= k < idxs@.len() ==> #[trigger] idxs@[k] < 4,
            r@ == of_type_upto(state@, player as int, idxs@, t, basic_only, i as int),
        decreases idxs@.len() - i,
    {
        let idx = idxs[i];
        match &state.in_play_pokemon[player][idx] {
            Some(c) => {
                let typed = match c.get_energy_type() {
                    Some(e) => e == t,
                    None => false,
                };
                if typed && (!basic_only || c.card.is_basic()) {
                    r.push(idx);
                }
            },
            None => {},
        }
        i = i + 1;
    }
    r
}

/// The Benched slots of `player` holding a Pokémon of type `energy_type`, in slot order.
pub fn benched_indices_of_type(state: &State, player: usize, energy_type: EnergyType) -> (r: Vec<
    usize,
>)
    requires
        state.wf(),
        player < 2,
    ensures
        r@ == benched_of_type(state@, player as int, energy_type, false),
{
    benched_of_type_exec(state, player, energy_type, false)
}

/// The Benched slots of `player` holding a Basic Pokémon of type `energy_type`, in slot order.
pub fn benched_basic_indices_of_type(state: &State, player: usize, energy_type: EnergyType) -> (r:
    Vec<usize>)
    requires
        state.wf(),
        player < 2,
    ensures
        r@ == benched_of_type(state@, player as int, energy_type, true),
{
    benched_of_type_exec(state, player, energy_type, true)
}

/// Discards up to `discard_count` cards from the top (the front) of the opponent's deck, in
/// order, onto their discard pile.
pub fn discard_top_opponent_deck(state: &mut State, actor: usize, discard_count: usize)
    requires
        old(state).wf(),
        actor < 2,
    ensures
        final(state).wf(),
        ({
            let opp = 1 - actor;
            let deck = old(state)@.decks[opp];
            let k = if discard_count < deck.len() {
                discard_count as int
            } else {
                deck.len() as int
            };
            final(state)@ == (StateView {
                decks: old(state)@.decks.update(opp, deck.skip(k)),
                discard_piles: old(state)@.discard_piles.update(
                    opp,
                    old(state)@.discard_piles[opp] + deck.take(k),
                ),
                ..old(state)@
            })
        }),
{
    let opp = 1 - actor;
    let ghost s0 = state@;
    let ghost deck = s0.decks[opp as int];
    let mut n: usize = 0;
    proof {
        assert(deck.skip(0) =~= deck);
        assert(s0.discard_piles[opp as int] + deck.take(0) =~= s0.discard_piles[opp as int]);
        assert(s0.decks.update(opp as int, deck.skip(0)) =~~= s0.decks);
        assert(s0.discard_piles.update(opp as int, s0.discard_piles[opp as int] + deck.take(0))
            =~~= s0.discard_piles);
    }
    while n < discard_count && state.decks[opp].len() > 0
        invariant
            state.wf(),
            opp == 1 - actor,
            actor < 2,
            n <= discard_count,
            n <= deck.len(),
            s0.decks.len() == 2,
            s0.discard_piles.len() == 2,
            state@ == (StateView {
                decks: s0.decks.update(opp as int, deck.skip(n as int)),
                discard_piles: s0.discard_piles.update(
                    opp as int,
                    s0.discard_piles[opp as int] + deck.take(n as int),
                ),
                ..s0
            }),
        decreases discard_count - n,
    {
        let ghost before = state@;
        proof {
            assert(state@.decks[opp as int] == deck.skip(n as int));
            assert(state@.discard_piles[opp as int] == s0.discard_piles[opp as int] + deck.take(n as int));
            assert(state.decks@[opp as int]@ == deck.skip(n as int));
            assert(state.discard_piles@[opp as int]@ == s0.discard_piles[opp as int] + deck.take(n as int));
        }
        let ghost dv = state.decks@;
        let ghost pv = state.discard_piles@;
        let card = state.decks[opp].remove(0);
        state.discard_piles[opp].push(card);
        proof {
            assert(deck.skip(n as int)[0] == card);
            assert(deck.skip(n as int).remove(0) =~= deck.skip(n as int + 1));
            assert(s0.discard_piles[opp as int] + deck.take(n as int + 1) =~= (
            s0.discard_piles[opp as int] + deck.take(n as int)).push(card));
            let nd = s0.decks.update(opp as int, deck.skip(n as int + 1));
            let np = s0.discard_piles.update(opp as int, s0.discard_piles[opp as int] + deck.take(n as int + 1));
            assert forall|p: int| 0 <= p < 2 implies state@.decks[p] == nd[p] by {
                assert(before.decks[p] == dv[p]@);
                assert(state@.decks[p] == state.decks@[p]@);
                if p == opp as int {
                    assert(dv[p]@ == deck.skip(n as int));
                    assert(state.decks@[p]@ == dv[p]@.remove(0));
                } else {
                    assert(state.decks@[p] == dv[p]);
                    assert(before.decks[p] == s0.decks[p]);
                }
            }
            assert forall|p: int| 0 <= p < 2 implies state@.discard_piles[p] == np[p] by {
                assert(before.discard_piles[p] == pv[p]@);
                assert(state@.discard_piles[p] == state.discard_piles@[p]@);
                if p == opp as int {
                    assert(state.discard_piles@[p]@ == pv[p]@.push(card));
                } else {
                    assert(state.discard_piles@[p] == pv[p]);
                    assert(before.discard_piles[p] == s0.discard_piles[p]);
                }
            }
            assert(state@.decks =~= nd);
            assert(state@.discard_piles =~= np);
        }
        n = n + 1;
    }
    proof {
        assert(state@.decks[opp as int] == deck.skip(n as int));
        assert(state.decks@[opp as int]@ == deck.skip(n as int));
    }
}

} // verus!
