//! Attacks of named Pokémon and attacks whose coin count comes from the board: Energy
//! discarded from the end, Fire Energy spread over the Bench, a second hit after Knock Outs,
//! and damage counted from evolutions or from attacks of the same name.

use vstd::prelude::*;

use crate::apply_action_helpers::{damage_slot, handle_knockouts, knockouts_resolved, map_slot};
use crate::apply_attack_action::{
    active_of, coins_in_range,
    attachments_upto, attack_view, bench_targets_exec, bench_targets_upto, by_heads, by_heads_outcomes,
    copy_energies, count_exec, count_of, damage_choice, distributions, generate_energy_distributions,
    hit, hit_outcome, hit_then, hit_then_one, hit_then_outcome, per_heads_hit, per_heads_hits,
    bonus_hit, coin, coin_outcomes, effect_only_outcome, effects_only,
    push_choices, pushed, sat_add, sat_add_exec, sat_mul, sat_mul_exec, sure, sure_outcomes,
    top_choices, until_tails, until_tails_outcomes, AttackEffect, AttackView,
};
use crate::attack_outcome::{outcome_view, AttackOutcome, AttackOutcomes, DamageTarget, OutcomeView};
use crate::attacks::Mechanic;
use crate::energy_mechanics::{discard_active_energy_of_type, type_discarded};
use crate::energy_removal::repeated;
use crate::models::{Attack, Card, EnergyType, PlayedCard};
use crate::more_mechanics::more_mechanic_forecast;
use crate::state::{SimpleAction, State, StateView};

verus! {

/// The Energy types discarded one after the other, each as `type_discarded`.
pub open spec fn types_discarded(before: StateView, after: StateView, player: int, types: Seq<EnergyType>) -> bool
    decreases types.len(),
{
    if types.len() == 0 {
        after == before
    } else {
        exists|mid: StateView|
            types_discarded(before, mid, player, types.drop_last()) && #[trigger] type_discarded(
                mid,
                after,
                player,
                types.last(),
            )
    }
}

/// The last `count` Energy of `es` (all of them when it holds fewer), from the last one back.
pub open spec fn last_picks(es: Seq<EnergyType>, count: nat) -> Seq<EnergyType> {
    let n = if count < es.len() {
        count
    } else {
        es.len()
    };
    Seq::new(n, |k: int| es[es.len() - 1 - k])
}

/// The opponent's Active Pokémon's last `count` Energy, taken from the end, went to the
/// discarded Energy, each as the first Energy of its type.
pub open spec fn energy_from_end_discarded(before: StateView, after: StateView, player: int, count: usize) -> bool {
    match before.slot(player, 0) {
        Some(c) => types_discarded(before, after, player, last_picks(c.attached_energy@, count as nat)),
        None => after == before,
    }
}

/// Discards Energy from the end of `player`'s Active Pokémon (see `energy_from_end_discarded`).
pub(crate) fn discard_energy_from_end(state: &mut State, player: usize, count: usize)
    requires
        old(state).wf(),
        player < 2,
    ensures
        final(state).wf(),
        energy_from_end_discarded(old(state)@, final(state)@, player as int, count),
{
    proof {
        assert(state@.board[player as int] == state.in_play_pokemon@[player as int]@);
    }
    let es = match &state.in_play_pokemon[player][0] {
        Some(c) => copy_energies(&c.attached_energy),
        None => {
            return;
        },
    };
    let len = es.len();
    let n = if count < len {
        count
    } else {
        len
    };
    let ghost gp = last_picks(es@, count as nat);
    let mut picks: Vec<EnergyType> = Vec::new();
    let mut k: usize = 0;
    while k < n
        invariant
            k <= n,
            n <= len,
            len == es@.len(),
            gp.len() == n,
            gp == last_picks(es@, count as nat),
            picks@ == gp.subrange(0, k as int),
        decreases n - k,
    {
        picks.push(es[len - 1 - k]);
        k = k + 1;
        proof {
            assert(picks@ =~= gp.subrange(0, k as int));
        }
    }
    proof {
        assert(picks@ =~= gp);
        assert(types_discarded(old(state)@, state@, player as int, picks@.subrange(0, 0))) by {
            assert(picks@.subrange(0, 0).len() == 0);
        }
    }
    let mut i: usize = 0;
    while i < picks.len()
        invariant
            i <= picks@.len(),
            player < 2,
            state.wf(),
            types_discarded(old(state)@, state@, player as int, picks@.subrange(0, i as int)),
        decreases picks@.len() - i,
    {
        let ghost mid = state@;
        discard_active_energy_of_type(state, player, picks[i]);
        proof {
            let sub = picks@.subrange(0, i as int + 1);
            assert(sub.drop_last() =~= picks@.subrange(0, i as int));
            assert(sub.last() == picks@[i as int]);
            assert(type_discarded(mid, state@, player as int, sub.last()));
        }
        i = i + 1;
    }
    proof {
        assert(picks@.subrange(0, picks@.len() as int) =~= picks@);
    }
}

/// The in-play indices, among the Bench slots `1..i`, of `side`'s Pokémon of type `t`.
pub open spec fn typed_bench_upto(side: Seq<Option<PlayedCard>>, t: EnergyType, i: int) -> Seq<usize>
    decreases i,
{
    if i <= 1 {
        Seq::empty()
    } else {
        let prev = typed_bench_upto(side, t, i - 1);
        if side[i - 1] is Some && side[i - 1]->0.card.energy_type_spec() == Some(t) {
            prev.push((i - 1) as usize)
        } else {
            prev
        }
    }
}

/// Each choice `cs[j]` attaches Energy to the Pokémon at `idxs` as the distribution `ds[j]`
/// says.
pub open spec fn attach_choices_ok(cs: Seq<SimpleAction>, ds: Seq<Seq<usize>>, idxs: Seq<usize>) -> bool {
    forall|j: int|
        0 <= j < ds.len() ==> (#[trigger] cs[j] matches SimpleAction::Attach { attachments, is_turn_energy }
            && !is_turn_energy && attachments@ == attachments_upto(ds[j], idxs, idxs.len() as int))
}

/// The attacker's player chooses how to spread `heads` Fire Energy over their Benched Fire
/// Pokémon (one choice for each way, as `generate_energy_distributions` lists them); nothing
/// when there are no heads or no such Pokémon.
pub open spec fn fire_spread(before: StateView, after: StateView, actor: usize, heads: usize) -> bool {
    let idxs = typed_bench_upto(before.board[actor as int], EnergyType::Fire, 4);
    let ds = distributions(idxs.len() as nat, heads as nat);
    if heads == 0 || idxs.len() == 0 || ds.len() == 0 {
        after == before
    } else {
        &&& pushed(before, after, actor)
        &&& top_choices(after).len() == ds.len()
        &&& attach_choices_ok(top_choices(after), ds, idxs)
    }
}

/// Offers the ways to spread Fire Energy (see `fire_spread`).
pub(crate) fn offer_fire_spread(state: &mut State, actor: usize, heads: u8)
    requires
        old(state).wf(),
        actor < 2,
    ensures
        final(state).wf(),
        fire_spread(old(state)@, final(state)@, actor, heads as usize),
{
    let heads = heads as usize;
    if heads == 0 {
        return;
    }
    let side = &state.in_play_pokemon[actor];
    proof {
        assert(state@.board[actor as int] == side@);
    }
    let mut idxs: Vec<usize> = Vec::new();
    let mut i: usize = 1;
    while i < 4
        invariant
            1 <= i <= 4,
            side@.len() == 4,
            idxs@ == typed_bench_upto(side@, EnergyType::Fire, i as int),
        decreases 4 - i,
    {
        match &side[i] {
            Some(c) => {
                let fire = match c.get_energy_type() {
                    Some(EnergyType::Fire) => true,
                    _ => false,
                };
                if fire {
                    idxs.push(i);
                }
            },
            None => {},
        }
        i = i + 1;
    }
    if idxs.len() == 0 {
        return;
    }
    let choices = generate_energy_distributions(&idxs, heads);
    if choices.len() == 0 {
        return;
    }
    let ghost cs = choices@;
    push_choices(state, actor, choices);
    proof {
        assert(attach_choices_ok(cs, distributions(idxs@.len() as nat, heads as nat), idxs@));
    }
}

/// After the usual Knock Out handling, the attacker's player has one more hit of `damage` on
/// the opponent's Active Pokémon queued beneath every other pending choice.
pub open spec fn knockouts_then_hit(before: StateView, after: StateView, actor: usize, damage: u32) -> bool {
    exists|mid: StateView|
        #[trigger] knockouts_resolved(before, mid, (actor, 0usize), true) && hit_queued_first(mid, after, actor, damage)
}

/// `after` is `mid` with a hit of `damage` on the opponent's Active Pokémon at the bottom of
/// the move-generation stack.
pub open spec fn hit_queued_first(mid: StateView, after: StateView, actor: usize, damage: u32) -> bool {
    let opp = (1 - actor) as usize;
    let n = mid.move_generation_stack.len();
    &&& after == StateView { move_generation_stack: after.move_generation_stack, ..mid }
    &&& after.move_generation_stack.len() == n + 1
    &&& after.move_generation_stack.subrange(1, n as int + 1) == mid.move_generation_stack
    &&& after.move_generation_stack[0].0 == actor
    &&& after.move_generation_stack[0].1@.len() == 1
    &&& damage_choice(after.move_generation_stack[0].1@[0], actor, seq![(damage, opp, 0usize)])
}

/// Handles Knock Outs, then queues one more hit (see `knockouts_then_hit`).
pub(crate) fn resolve_then_queue_hit(state: &mut State, actor: usize, damage: u32)
    requires
        old(state).wf(),
        actor < 2,
    ensures
        final(state).wf(),
        knockouts_then_hit(old(state)@, final(state)@, actor, damage),
{
    handle_knockouts(state, (actor, 0), true);
    let ghost mid = state@;
    proof {
        assert(knockouts_resolved(old(state)@, mid, (actor, 0usize), true));
    }
    let opp = 1 - actor;
    let mut targets: Vec<(u32, usize, usize)> = Vec::new();
    targets.push((damage, opp, 0));
    let mut step: Vec<SimpleAction> = Vec::new();
    step.push(
        SimpleAction::ApplyDamage { attacking_player: actor, attacking_idx: 0, targets, is_from_active_attack: true },
    );
    state.move_generation_stack.insert(0, (actor, step));
    proof {
        assert(targets@ =~= seq![(damage, opp, 0usize)]);
        assert(state@.move_generation_stack.subrange(1, mid.move_generation_stack.len() as int + 1)
            =~= mid.move_generation_stack);
        assert(hit_queued_first(mid, state@, actor, damage));
    }
}

/// The attacker's player may shuffle their Active Pokémon into their deck, as long as it has
/// HP left.
pub open spec fn shuffle_self_offered(before: StateView, after: StateView, actor: usize) -> bool {
    if before.slot(actor as int, 0) matches Some(c) && c.remaining_hp > 0 {
        &&& pushed(before, after, actor)
        &&& top_choices(after) == seq![SimpleAction::ShuffleInPlayPokemonIntoDeck { in_play_idx: 0 }, SimpleAction::Noop]
    } else {
        after == before
    }
}

/// Offers to shuffle the attacker into the deck (see `shuffle_self_offered`).
pub(crate) fn offer_shuffle_self(state: &mut State, actor: usize)
    requires
        old(state).wf(),
        actor < 2,
    ensures
        final(state).wf(),
        shuffle_self_offered(old(state)@, final(state)@, actor),
{
    proof {
        assert(state@.board[actor as int] == state.in_play_pokemon@[actor as int]@);
    }
    let alive = match &state.in_play_pokemon[actor][0] {
        Some(c) => c.remaining_hp > 0,
        None => false,
    };
    if !alive {
        return;
    }
    let mut choices: Vec<SimpleAction> = Vec::new();
    choices.push(SimpleAction::ShuffleInPlayPokemonIntoDeck { in_play_idx: 0 });
    choices.push(SimpleAction::Noop);
    proof {
        assert(choices@ =~= seq![SimpleAction::ShuffleInPlayPokemonIntoDeck { in_play_idx: 0 }, SimpleAction::Noop]);
    }
    push_choices(state, actor, choices);
}

/// Whether a card is an evolved Pokémon (stage above 0).
pub open spec fn is_evolved(c: Card) -> bool {
    c matches Card::Pokemon(p) && p.stage > 0
}

/// How many Benched Pokémon among the slots `1..i` of a side are evolved (stage above 0).
pub open spec fn evolved_bench_upto(side: Seq<Option<PlayedCard>>, i: int) -> nat
    decreases i,
{
    if i <= 1 {
        0
    } else {
        evolved_bench_upto(side, i - 1) + if side[i - 1] is Some && is_evolved(side[i - 1]->0.card) {
            1nat
        } else {
            0nat
        }
    }
}

/// Whether a card is a Pokémon with an attack of this name.
pub open spec fn has_attack_named(c: Card, name: Seq<char>) -> bool {
    match c {
        Card::Pokemon(p) => exists|k: int| 0 <= k < p.attacks@.len() && (#[trigger] p.attacks@[k]).title@ == name,
        Card::Trainer(_) => false,
    }
}

/// How many Pokémon among the slots `0..i` of a side have an attack of this name.
pub open spec fn attack_named_in_play(side: Seq<Option<PlayedCard>>, name: Seq<char>, i: int) -> nat
    decreases i,
{
    if i <= 0 {
        0
    } else {
        attack_named_in_play(side, name, i - 1) + if side[i - 1] is Some && has_attack_named(side[i - 1]->0.card, name) {
            1nat
        } else {
            0nat
        }
    }
}

/// How many of the first `n` cards are Pokémon with an attack of this name.
pub open spec fn attack_named_cards(cards: Seq<Card>, name: Seq<char>, n: int) -> nat
    decreases n,
{
    if n <= 0 {
        0
    } else {
        attack_named_cards(cards, name, n - 1) + if has_attack_named(cards[n - 1], name) {
            1nat
        } else {
            0nat
        }
    }
}

/// Whether a card is a Pokémon with an attack of this name.
fn has_attack_named_exec(c: &Card, name: &String) -> (r: bool)
    ensures
        r == has_attack_named(*c, name@),
{
    match c {
        Card::Pokemon(p) => {
            let mut k: usize = 0;
            while k < p.attacks.len()
                invariant
                    k <= p.attacks@.len(),
                    *c == Card::Pokemon(*p),
                    forall|j: int| 0 <= j < k ==> (#[trigger] p.attacks@[j]).title@ != name@,
                decreases p.attacks@.len() - k,
            {
                if p.attacks[k].title == *name {
                    proof {
                        assert(p.attacks@[k as int].title@ == name@);
                    }
                    return true;
                }
                k = k + 1;
            }
            false
        },
        Card::Trainer(_) => false,
    }
}

/// Whether an in-play card counts as a Basic Pokémon: a Pokémon of stage 0, or a Trainer card
/// put in play as a Pokémon (a Fossil).
pub open spec fn counts_as_basic(c: Card) -> bool {
    match c {
        Card::Pokemon(p) => p.stage == 0,
        Card::Trainer(_) => true,
    }
}

/// The in-play indices, among the Bench slots `1..i`, of `side`'s Pokémon that count as Basic.
pub open spec fn basic_bench_upto(side: Seq<Option<PlayedCard>>, i: int) -> Seq<usize>
    decreases i,
{
    if i <= 1 {
        Seq::empty()
    } else {
        let prev = basic_bench_upto(side, i - 1);
        if side[i - 1] is Some && counts_as_basic(side[i - 1]->0.card) {
            prev.push((i - 1) as usize)
        } else {
            prev
        }
    }
}

/// How many Benched Pokémon among the slots `1..i` of a side are Stage 2 Pokémon.
pub open spec fn stage2_bench_upto(side: Seq<Option<PlayedCard>>, i: int) -> nat
    decreases i,
{
    if i <= 1 {
        0
    } else {
        stage2_bench_upto(side, i - 1) + if side[i - 1] is Some && side[i - 1]->0.card is Pokemon
            && side[i - 1]->0.card->Pokemon_0.stage == 2 {
            1nat
        } else {
            0nat
        }
    }
}

/// The attacker's player chooses one of their Benched Pokémon that count as Basic to attach
/// one Energy of type `t` to (nothing when there is none).
pub open spec fn basic_attach_offered(before: StateView, after: StateView, actor: usize, t: EnergyType) -> bool {
    let targets = basic_bench_upto(before.board[actor as int], 4);
    if targets.len() == 0 {
        after == before
    } else {
        &&& pushed(before, after, actor)
        &&& top_choices(after).len() == targets.len()
        &&& forall|j: int|
            0 <= j < targets.len() ==> (#[trigger] top_choices(after)[j] matches SimpleAction::Attach {
                attachments,
                is_turn_energy,
            } && !is_turn_energy && attachments@ == seq![(1u32, t, targets[j])])
    }
}

/// Offers the attach choices of `basic_attach_offered`.
pub(crate) fn offer_basic_attach(state: &mut State, actor: usize, t: EnergyType)
    requires
        old(state).wf(),
        actor < 2,
    ensures
        final(state).wf(),
        basic_attach_offered(old(state)@, final(state)@, actor, t),
{
    let side = &state.in_play_pokemon[actor];
    proof {
        assert(state@.board[actor as int] == side@);
    }
    let mut choices: Vec<SimpleAction> = Vec::new();
    let ghost mut targets: Seq<usize> = Seq::empty();
    let mut i: usize = 1;
    while i < 4
        invariant
            1 <= i <= 4,
            side@.len() == 4,
            targets == basic_bench_upto(side@, i as int),
            choices@.len() == targets.len(),
            forall|j: int|
                0 <= j < targets.len() ==> (#[trigger] choices@[j] matches SimpleAction::Attach {
                    attachments,
                    is_turn_energy,
                } && !is_turn_energy && attachments@ == seq![(1u32, t, targets[j])]),
        decreases 4 - i,
    {
        match &side[i] {
            Some(c) => {
                let basic = match &c.card {
                    Card::Pokemon(p) => p.stage == 0,
                    Card::Trainer(_) => true,
                };
                if basic {
                    let mut attachments: Vec<(u32, EnergyType, usize)> = Vec::new();
                    attachments.push((1, t, i));
                    proof {
                        assert(attachments@ =~= seq![(1u32, t, i)]);
                    }
                    choices.push(SimpleAction::Attach { attachments, is_turn_energy: false });
                    proof {
                        targets = targets.push(i);
                    }
                }
            },
            None => {},
        }
        i = i + 1;
    }
    if choices.len() == 0 {
        return;
    }
    let ghost cs = choices@;
    push_choices(state, actor, choices);
}

/// The opponent's Active Pokémon is Knocked Out (its HP drops to 0) and Knock Outs are handled
/// as after the attacker's attack.
pub open spec fn knocked_out_and_resolved(before: StateView, after: StateView, actor: usize) -> bool {
    let opp = 1 - actor;
    knockouts_resolved(
        map_slot(before, opp, 0, |c: PlayedCard| c.damaged_spec(c.remaining_hp)),
        after,
        (actor, 0usize),
        true,
    )
}

/// Knocks out the opponent's Active Pokémon and handles Knock Outs (see
/// `knocked_out_and_resolved`).
pub(crate) fn knock_out_and_resolve(state: &mut State, actor: usize)
    requires
        old(state).wf(),
        actor < 2,
    ensures
        final(state).wf(),
        knocked_out_and_resolved(old(state)@, final(state)@, actor),
{
    crate::board_mechanics::knock_out_active(state, 1 - actor);
    let ghost mid = state@;
    handle_knockouts(state, (actor, 0), true);
    proof {
        assert(knockouts_resolved(mid, state@, (actor, 0usize), true));
    }
}

/// `fixed` damage, then `h` Fire Energy spread over the Benched Fire Pokémon.
pub open spec fn per_heads_fire_spread() -> spec_fn(nat) -> OutcomeView<AttackEffect> {
    |h: nat| hit_then(0, seq![AttackEffect::SpreadFireOnBench { heads: h as u8 }])
}

/// `fixed` damage, then the opponent's Active Pokémon's last `h` Energy discarded.
pub open spec fn per_heads_end_discard(fixed: u32) -> spec_fn(nat) -> OutcomeView<AttackEffect> {
    |h: nat| hit_then(fixed, seq![AttackEffect::DiscardOpponentEnergyFromEnd { count: h as usize }])
}

/// The mechanics of `forecast_group_o`.
pub open spec fn forecast_group_o(m: Mechanic) -> bool {
    matches!(m, Mechanic::PalkiaExDimensionalStorm | Mechanic::MoltresExInfernoDance | Mechanic::CoinFlipPerSpecificEnergyType { .. } | Mechanic::CelebiExPowerfulBloom | Mechanic::VaporeonHyperWhirlpool | Mechanic::MegaKangaskhanExDoublePunchingFamily | Mechanic::EvolutionBenchCountDamage { .. } | Mechanic::DamagePerOwnPokemonWithAttackName { .. } | Mechanic::MayShuffleSelfIntoDeck | Mechanic::ExtraDamageIfStage2OnBench { .. } | Mechanic::AttachEnergyToBenchedBasic { .. } | Mechanic::CoinFlipDiscardOpponentActive)
}

/// Whether the mechanic is in `forecast_group_o`.
pub fn in_forecast_group_o(m: &Mechanic) -> (r: bool)
    ensures
        r == forecast_group_o(*m),
{
    matches!(m, Mechanic::PalkiaExDimensionalStorm | Mechanic::MoltresExInfernoDance | Mechanic::CoinFlipPerSpecificEnergyType { .. } | Mechanic::CelebiExPowerfulBloom | Mechanic::VaporeonHyperWhirlpool | Mechanic::MegaKangaskhanExDoublePunchingFamily | Mechanic::EvolutionBenchCountDamage { .. } | Mechanic::DamagePerOwnPokemonWithAttackName { .. } | Mechanic::MayShuffleSelfIntoDeck | Mechanic::ExtraDamageIfStage2OnBench { .. } | Mechanic::AttachEnergyToBenchedBasic { .. } | Mechanic::CoinFlipDiscardOpponentActive)
}

/// What an attack with a mechanic of `forecast_group_o` can lead to; `None` for the other
/// mechanics, and when a coin count that comes from the board reaches 32.
pub open spec fn special_mechanic_forecast(s: StateView, attack: Attack, m: Mechanic) -> Option<AttackView> {
    let fixed = attack.fixed_damage;
    let cp = s.current_player as int;
    let opp = 1 - cp;
    match m {
        Mechanic::PalkiaExDimensionalStorm => Some(
            sure(
                (
                    bench_targets_upto(s.board[opp], false, 20, true, 4) + seq![(150u32, true, 0usize)],
                    Seq::empty(),
                    repeated(AttackEffect::DiscardActiveEnergyOfType { own: true, energy_type: EnergyType::Water }, 3),
                    Seq::empty(),
                ),
            ),
        ),
        Mechanic::MoltresExInfernoDance => Some(by_heads(3, per_heads_fire_spread())),
        Mechanic::CoinFlipPerSpecificEnergyType { energy_type, include_fixed_damage, damage_per_heads } => {
            let n = count_of(active_of(s, cp).attached_energy@, energy_type);
            let base = if include_fixed_damage {
                fixed
            } else {
                0
            };
            if n < 32 {
                Some(by_heads(n, per_heads_hit(base, damage_per_heads)))
            } else {
                None
            }
        },
        Mechanic::CelebiExPowerfulBloom => {
            let n = active_of(s, cp).attached_energy@.len();
            if n == 0 {
                Some(sure(hit(0)))
            } else if n < 32 {
                Some(by_heads(n, per_heads_hit(0, 50)))
            } else {
                None
            }
        },
        Mechanic::VaporeonHyperWhirlpool => Some(until_tails(5, per_heads_end_discard(fixed))),
        Mechanic::MegaKangaskhanExDoublePunchingFamily => Some(
            sure(hit_then(fixed, seq![AttackEffect::KnockoutsThenHit { damage: 40 }])),
        ),
        Mechanic::EvolutionBenchCountDamage { include_fixed_damage, damage_per } => {
            let per = sat_mul(damage_per, evolved_bench_upto(s.board[cp], 4) as u32);
            Some(
                sure(
                    hit(
                        if include_fixed_damage {
                            sat_add(fixed, per)
                        } else {
                            per
                        },
                    ),
                ),
            )
        },
        Mechanic::DamagePerOwnPokemonWithAttackName { attack_name, damage_per } => {
            let n = attack_named_in_play(s.board[cp], attack_name@, 4) + attack_named_cards(
                s.hands[cp],
                attack_name@,
                s.hands[cp].len() as int,
            );
            Some(sure(hit(sat_mul(damage_per, n as u32))))
        },
        Mechanic::MayShuffleSelfIntoDeck => Some(sure(hit_then(fixed, seq![AttackEffect::OfferShuffleSelf]))),
        Mechanic::ExtraDamageIfStage2OnBench { extra_damage } => Some(
            sure(bonus_hit(fixed, stage2_bench_upto(s.board[cp], 4) > 0, extra_damage)),
        ),
        Mechanic::AttachEnergyToBenchedBasic { energy_type } => Some(
            sure(hit_then(0, seq![AttackEffect::AttachToBenchedBasic { energy_type }])),
        ),
        Mechanic::CoinFlipDiscardOpponentActive => Some(
            coin(effects_only(seq![AttackEffect::KnockOutOpponentAndResolve]), effects_only(Seq::empty())),
        ),
        _ => more_mechanic_forecast(s, attack, m),
    }
}

/// The forecast of a mechanic of `forecast_group_o`.
pub fn forecast_mechanic_o(state: &State, attack: &Attack, mechanic: &Mechanic) -> (r: Option<
    AttackOutcomes<AttackEffect>,
>)
    requires
        state.wf(),
        state@.slot(state.current_player as int, 0) is Some,
        forecast_group_o(*mechanic),
    ensures
        match r {
            Some(o) => o.is_distribution() && special_mechanic_forecast(state@, *attack, *mechanic) == Some(
                attack_view(o),
            ),
            None => special_mechanic_forecast(state@, *attack, *mechanic) is None,
        },
{
    let fixed = attack.fixed_damage;
    let cp = state.current_player;
    let opp = 1 - cp;
    proof {
        assert(state@.board[cp as int] == state.in_play_pokemon@[cp as int]@);
        assert(state@.board[opp as int] == state.in_play_pokemon@[opp as int]@);
        assert(state@.hands[cp as int] == state.hands@[cp as int]@);
    }
    let active = state.get_active(cp);
    match mechanic {
        Mechanic::PalkiaExDimensionalStorm => {
            let mut targets = bench_targets_exec(&state.in_play_pokemon[opp], false, 20, true);
            let ghost first = targets@;
            targets.push((150, true, 0));
            let d = AttackEffect::DiscardActiveEnergyOfType { own: true, energy_type: EnergyType::Water };
            let mut effects: Vec<AttackEffect> = Vec::new();
            effects.push(d);
            effects.push(d);
            effects.push(d);
            let o = AttackOutcome {
                damage: targets,
                pre_damage_effects: Vec::new(),
                post_damage_effects: effects,
                survivors_at_10: Vec::new(),
            };
            proof {
                assert(outcome_view(o).0 =~= first + seq![(150u32, true, 0usize)]);
                assert(outcome_view(o).1 =~= Seq::<AttackEffect>::empty());
                assert(outcome_view(o).2 =~= repeated(d, 3));
                assert(outcome_view(o).3 =~= Seq::<usize>::empty());
            }
            Some(sure_outcomes(o))
        },
        Mechanic::MoltresExInfernoDance => {
            let mut per: Vec<AttackOutcome<AttackEffect>> = Vec::new();
            let mut h: u8 = 0;
            while h <= 3
                invariant
                    h <= 4,
                    per@.len() == h,
                    forall|k: int| 0 <= k < h ==> outcome_view(#[trigger] per@[k]) == (per_heads_fire_spread())(k as nat),
                decreases 4 - h,
            {
                per.push(hit_then_one(0, AttackEffect::SpreadFireOnBench { heads: h }));
                h = h + 1;
            }
            Some(by_heads_outcomes(3, per, Ghost(per_heads_fire_spread())))
        },
        Mechanic::CoinFlipPerSpecificEnergyType { energy_type, include_fixed_damage, damage_per_heads } => {
            let n = count_exec(&active.attached_energy, *energy_type);
            if n >= 32 {
                return None;
            }
            let base = if *include_fixed_damage {
                fixed
            } else {
                0
            };
            let per = per_heads_hits(n, base, *damage_per_heads);
            Some(by_heads_outcomes(n, per, Ghost(per_heads_hit(base, *damage_per_heads))))
        },
        Mechanic::CelebiExPowerfulBloom => {
            let n = active.attached_energy.len();
            if n == 0 {
                Some(sure_outcomes(hit_outcome(0)))
            } else if n >= 32 {
                None
            } else {
                let per = per_heads_hits(n, 0, 50);
                Some(by_heads_outcomes(n, per, Ghost(per_heads_hit(0, 50))))
            }
        },
        Mechanic::VaporeonHyperWhirlpool => {
            let mut per: Vec<AttackOutcome<AttackEffect>> = Vec::new();
            let mut h: usize = 0;
            while h <= 5
                invariant
                    h <= 6,
                    per@.len() == h,
                    forall|k: int| 0 <= k < h ==> outcome_view(#[trigger] per@[k]) == (per_heads_end_discard(fixed))(k as nat),
                decreases 6 - h,
            {
                per.push(hit_then_one(fixed, AttackEffect::DiscardOpponentEnergyFromEnd { count: h }));
                h = h + 1;
            }
            Some(until_tails_outcomes(5, per, Ghost(per_heads_end_discard(fixed))))
        },
        Mechanic::MegaKangaskhanExDoublePunchingFamily => Some(
            sure_outcomes(hit_then_one(fixed, AttackEffect::KnockoutsThenHit { damage: 40 })),
        ),
        Mechanic::EvolutionBenchCountDamage { include_fixed_damage, damage_per } => {
            let side = &state.in_play_pokemon[cp];
            let mut n: u32 = 0;
            let mut i: usize = 1;
            while i < 4
                invariant
                    1 <= i <= 4,
                    side@.len() == 4,
                    n == evolved_bench_upto(side@, i as int),
                    n < i,
                decreases 4 - i,
            {
                match &side[i] {
                    Some(c) => match &c.card {
                        Card::Pokemon(p) => {
                            if p.stage > 0 {
                                n = n + 1;
                            }
                        },
                        Card::Trainer(_) => {},
                    },
                    None => {},
                }
                i = i + 1;
            }
            let per = sat_mul_exec(*damage_per, n);
            let d = if *include_fixed_damage {
                sat_add_exec(fixed, per)
            } else {
                per
            };
            Some(sure_outcomes(hit_outcome(d)))
        },
        Mechanic::DamagePerOwnPokemonWithAttackName { attack_name, damage_per } => {
            let side = &state.in_play_pokemon[cp];
            let mut a: usize = 0;
            let mut i: usize = 0;
            while i < 4
                invariant
                    i <= 4,
                    side@.len() == 4,
                    a == attack_named_in_play(side@, attack_name@, i as int),
                    a <= i,
                decreases 4 - i,
            {
                match &side[i] {
                    Some(c) => {
                        if has_attack_named_exec(&c.card, attack_name) {
                            a = a + 1;
                        }
                    },
                    None => {},
                }
                i = i + 1;
            }
            let hand = &state.hands[cp];
            let mut b: usize = 0;
            let mut k: usize = 0;
            while k < hand.len()
                invariant
                    k <= hand@.len(),
                    b == attack_named_cards(hand@, attack_name@, k as int),
                    b <= k,
                decreases hand@.len() - k,
            {
                if has_attack_named_exec(&hand[k], attack_name) {
                    b = b + 1;
                }
                k = k + 1;
            }
            let total: u128 = a as u128 + b as u128;
            let d = sat_mul_exec(*damage_per, #[verifier::truncate] (total as u32));
            Some(sure_outcomes(hit_outcome(d)))
        },
        Mechanic::MayShuffleSelfIntoDeck => Some(sure_outcomes(hit_then_one(fixed, AttackEffect::OfferShuffleSelf))),
        Mechanic::ExtraDamageIfStage2OnBench { extra_damage } => {
            let side = &state.in_play_pokemon[cp];
            let mut n: u32 = 0;
            let mut i: usize = 1;
            while i < 4
                invariant
                    1 <= i <= 4,
                    side@.len() == 4,
                    n == stage2_bench_upto(side@, i as int),
                    n < i,
                decreases 4 - i,
            {
                match &side[i] {
                    Some(c) => match &c.card {
                        Card::Pokemon(p) => {
                            if p.stage == 2 {
                                n = n + 1;
                            }
                        },
                        Card::Trainer(_) => {},
                    },
                    None => {},
                }
                i = i + 1;
            }
            let d = if n > 0 {
                sat_add_exec(fixed, *extra_damage)
            } else {
                fixed
            };
            Some(sure_outcomes(hit_outcome(d)))
        },
        Mechanic::AttachEnergyToBenchedBasic { energy_type } => Some(
            sure_outcomes(hit_then_one(0, AttackEffect::AttachToBenchedBasic { energy_type: *energy_type })),
        ),
        Mechanic::CoinFlipDiscardOpponentActive => {
            let tails = AttackOutcome::noop();
            proof {
                assert(outcome_view(tails).0 =~= Seq::empty());
                assert(outcome_view(tails).1 =~= Seq::empty());
                assert(outcome_view(tails).2 =~= Seq::empty());
                assert(outcome_view(tails).3 =~= Seq::empty());
            }
            Some(coin_outcomes(effect_only_outcome(AttackEffect::KnockOutOpponentAndResolve), tails))
        },
        _ => {
            proof {
                assert(false);
            }
            None
        },
    }
}

} // verus!
