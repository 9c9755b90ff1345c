//! Energy that goes to the discard pile, switching the attacker out, and the attack mechanics
//! built on them.

use rand::rngs::StdRng;
use vstd::prelude::*;

use crate::apply_attack_action::{
    attack_view, bonus_hit, by_heads, by_heads_outcomes, coin, coin_outcomes, coins_in_range,
    count_exec, effects_only, hit, hit_outcome, hit_then, hit_then_one, hit_then_outcome,
    mechanic_forecast, sat_add_exec, spread, spread_exec, status_effects, status_effects_exec,
    sure, sure_outcomes, AttackEffect, AttackView,
    copy_energies, damage_choices_offered, direct_damage_lists, is_damaged, is_damaged_exec,
    offer_damage_choices, push_choices,
};
use crate::trainer_effects::offered;
use crate::apply_trainer_action::set_slot_energy;
use crate::board_mechanics::energy_set;
use crate::attack_outcome::{outcome_view, AttackOutcome, AttackOutcomes, OutcomeView};
use crate::attacks::Mechanic;
use crate::disruption_mechanics::disruption_mechanic_forecast;
use crate::board_mechanics::energy_count_upto;
use crate::models::{Attack, EnergyType};
use crate::random::random_below;
use crate::models::PlayedCard;
use crate::state::{SimpleAction, State, StateView};

verus! {

/// The game after `es` joined, in order, the end of `player`'s discarded Energy.
pub open spec fn with_discarded_energy(s: StateView, player: int, es: Seq<EnergyType>) -> StateView {
    StateView { discard_energies: s.discard_energies.update(player, s.discard_energies[player] + es), ..s }
}

/// `player`'s Active Pokémon now holds the Energy `remaining`, and `discarded` joined the end
/// of their discarded Energy; nothing else changed.
pub open spec fn active_energy_discarded(
    before: StateView,
    after: StateView,
    player: int,
    remaining: Seq<EnergyType>,
    discarded: Seq<EnergyType>,
) -> bool {
    energy_set(with_discarded_energy(before, player, discarded), after, player, 0, remaining)
}

/// The index of the first Energy of type `t` in `es` at or after `from` (`es.len()` when there
/// is none).
pub open spec fn first_of_type(es: Seq<EnergyType>, t: EnergyType, from: nat) -> nat
    decreases es.len() - from,
{
    if from >= es.len() {
        es.len()
    } else if es[from as int] == t {
        from
    } else {
        first_of_type(es, t, from + 1)
    }
}

proof fn lemma_first_of_type(es: Seq<EnergyType>, t: EnergyType, from: nat)
    ensures
        from <= es.len() ==> from <= first_of_type(es, t, from) <= es.len(),
        first_of_type(es, t, from) < es.len() ==> es[first_of_type(es, t, from) as int] == t,
        forall|j: int| from <= j < first_of_type(es, t, from) ==> es[j] != t,
    decreases es.len() - from,
{
    if from < es.len() && es[from as int] != t {
        lemma_first_of_type(es, t, from + 1);
    }
}

/// Adds `es`, in order, to the end of `player`'s discarded Energy.
fn push_discarded_energy(state: &mut State, player: usize, es: &Vec<EnergyType>)
    requires
        old(state).wf(),
        player < 2,
    ensures
        final(state).wf(),
        final(state)@ == with_discarded_energy(old(state)@, player as int, es@),
{
    let ghost before = state.discard_energies[player as int]@;
    let mut k: usize = 0;
    while k < es.len()
        invariant
            k <= es@.len(),
            player < 2,
            state.wf(),
            state@ == (StateView { discard_energies: state@.discard_energies, ..old(state)@ }),
            state.discard_energies[player as int]@ == before + es@.subrange(0, k as int),
            forall|q: int| 0 <= q < 2 && q != player ==> state.discard_energies[q] == old(state).discard_energies[q],
        decreases es@.len() - k,
    {
        state.discard_energies[player].push(es[k]);
        k = k + 1;
        proof {
            assert(state.discard_energies[player as int]@ =~= before + es@.subrange(0, k as int));
        }
    }
    proof {
        assert(es@.subrange(0, es@.len() as int) =~= es@);
        assert(state@.discard_energies =~~= with_discarded_energy(old(state)@, player as int, es@).discard_energies);
    }
}

/// Moves the Energy at index `k` of `player`'s Active Pokémon to their discarded Energy.
pub(crate) fn discard_active_energy_at(state: &mut State, player: usize, k: usize)
    requires
        old(state).wf(),
        player < 2,
        old(state)@.slot(player as int, 0) is Some,
        k < old(state)@.slot(player as int, 0)->0.attached_energy@.len(),
    ensures
        final(state).wf(),
        active_energy_discarded(
            old(state)@,
            final(state)@,
            player as int,
            old(state)@.slot(player as int, 0)->0.attached_energy@.remove(k as int),
            seq![old(state)@.slot(player as int, 0)->0.attached_energy@[k as int]],
        ),
{
    proof {
        assert(state@.board[player as int] == state.in_play_pokemon@[player as int]@);
    }
    let mut es = match &state.in_play_pokemon[player][0] {
        Some(c) => copy_energies(&c.attached_energy),
        None => Vec::new(),
    };
    let ghost all = es@;
    let e = es.remove(k);
    let mut gone: Vec<EnergyType> = Vec::new();
    gone.push(e);
    let ghost mid0 = state@;
    set_slot_energy(state, player, 0, es);
    let ghost mid = state@;
    push_discarded_energy(state, player, &gone);
    proof {
        assert(gone@ =~= seq![all[k as int]]);
        let w = with_discarded_energy(mid0, player as int, gone@);
        assert(state@ == with_discarded_energy(mid, player as int, gone@));
        assert(state@.board == mid.board);
        assert(forall|q: int| 0 <= q < 4 ==> #[trigger] state@.slot(player as int, q) == mid.slot(player as int, q));
        assert(forall|q: int| 0 <= q < 4 ==> #[trigger] w.slot(player as int, q) == mid0.slot(player as int, q));
    }
}

/// The first Energy of type `t` of `player`'s Active Pokémon went to their discarded Energy
/// (nothing changed when it has none, or when the Active Spot is empty).
pub open spec fn type_discarded(before: StateView, after: StateView, player: int, t: EnergyType) -> bool {
    match before.slot(player, 0) {
        Some(c) => {
            let i = first_of_type(c.attached_energy@, t, 0);
            if i < c.attached_energy@.len() {
                active_energy_discarded(before, after, player, c.attached_energy@.remove(i as int), seq![t])
            } else {
                after == before
            }
        },
        None => after == before,
    }
}

/// Moves the first Energy of type `t` of `player`'s Active Pokémon to their discarded Energy
/// (see `type_discarded`).
pub(crate) fn discard_active_energy_of_type(state: &mut State, player: usize, t: EnergyType)
    requires
        old(state).wf(),
        player < 2,
    ensures
        final(state).wf(),
        type_discarded(old(state)@, final(state)@, player as int, t),
{
    proof {
        assert(state@.board[player as int] == state.in_play_pokemon@[player as int]@);
    }
    let found = match &state.in_play_pokemon[player][0] {
        Some(c) => {
            let mut i: usize = 0;
            let mut hit: Option<usize> = None;
            proof {
                lemma_first_of_type(c.attached_energy@, t, 0);
            }
            while i < c.attached_energy.len()
                invariant
                    i <= c.attached_energy@.len(),
                    hit is None ==> forall|j: int| 0 <= j < i ==> c.attached_energy@[j] != t,
                    hit matches Some(h) ==> h == first_of_type(c.attached_energy@, t, 0) && h < c.attached_energy@.len(),
                    forall|j: int| 0 <= j < first_of_type(c.attached_energy@, t, 0) ==> c.attached_energy@[j] != t,
                    first_of_type(c.attached_energy@, t, 0) < c.attached_energy@.len() ==> c.attached_energy@[
                        first_of_type(c.attached_energy@, t, 0) as int
                    ] == t,
                    first_of_type(c.attached_energy@, t, 0) <= c.attached_energy@.len(),
                decreases c.attached_energy@.len() - i,
            {
                if hit.is_none() && c.attached_energy[i] == t {
                    proof {
                        let f = first_of_type(c.attached_energy@, t, 0);
                        if f < i {
                            assert(c.attached_energy@[f as int] == t);
                        }
                    }
                    hit = Some(i);
                }
                i = i + 1;
            }
            hit
        },
        None => None,
    };
    match found {
        Some(k) => {
            proof {
                let c = old(state)@.slot(player as int, 0)->0;
                assert(c.attached_energy@[k as int] == t);
            }
            discard_active_energy_at(state, player, k);
        },
        None => {},
    }
}

/// One Energy of `player`'s Active Pokémon went to their discarded Energy: of the type of one
/// picked at random, the first of that type (nothing changed when it has none, or when the
/// Active Spot is empty).
pub open spec fn random_active_energy_discarded(before: StateView, after: StateView, player: usize) -> bool {
    match before.slot(player as int, 0) {
        Some(c) => if c.attached_energy@.len() == 0 {
            after == before
        } else {
            exists|k: int|
                0 <= k < c.attached_energy@.len() && #[trigger] active_energy_discarded(
                    before,
                    after,
                    player as int,
                    c.attached_energy@.remove(first_of_type(c.attached_energy@, c.attached_energy@[k], 0) as int),
                    seq![c.attached_energy@[k]],
                )
        },
        None => after == before,
    }
}

/// Moves one Energy of `player`'s Active Pokémon to their discarded Energy: of the type of one
/// picked at random, the first of that type (nothing when it has none, or when the Active Spot
/// is empty).
pub(crate) fn discard_random_active_energy(rng: &mut StdRng, state: &mut State, player: usize)
    requires
        old(state).wf(),
        player < 2,
    ensures
        final(state).wf(),
        random_active_energy_discarded(old(state)@, final(state)@, player),
{
    proof {
        assert(state@.board[player as int] == state.in_play_pokemon@[player as int]@);
    }
    let picked = match &state.in_play_pokemon[player][0] {
        Some(c) => if c.attached_energy.len() == 0 {
            None
        } else {
            let k = random_below(rng, c.attached_energy.len());
            Some((k, c.attached_energy[k]))
        },
        None => None,
    };
    match picked {
        Some((k, t)) => {
            proof {
                let c = old(state)@.slot(player as int, 0)->0;
                lemma_first_of_type(c.attached_energy@, t, 0);
                assert(first_of_type(c.attached_energy@, t, 0) <= k);
            }
            discard_active_energy_of_type(state, player, t);
            proof {
                let c = old(state)@.slot(player as int, 0)->0;
                assert(active_energy_discarded(
                    old(state)@,
                    state@,
                    player as int,
                    c.attached_energy@.remove(first_of_type(c.attached_energy@, c.attached_energy@[k as int], 0) as int),
                    seq![c.attached_energy@[k as int]],
                ));
            }
        },
        None => {},
    }
}

/// Whether an Energy is of type `t` (every Energy, when `t` is `None`).
pub open spec fn energy_matches(e: EnergyType, t: Option<EnergyType>) -> bool {
    match t {
        Some(x) => e == x,
        None => true,
    }
}

/// The Energy among the first `n` of `es` that match `t` (when `matching`) or that do not,
/// in order.
pub open spec fn energy_split(es: Seq<EnergyType>, t: Option<EnergyType>, matching: bool, n: int) -> Seq<
    EnergyType,
>
    decreases n,
{
    if n <= 0 {
        Seq::empty()
    } else {
        let prev = energy_split(es, t, matching, n - 1);
        if energy_matches(es[n - 1], t) == matching {
            prev.push(es[n - 1])
        } else {
            prev
        }
    }
}

/// Moves all the Energy of `player`'s Active Pokémon that matches `t` to their discarded
/// Energy, in order; the Pokémon keeps the rest in order (nothing when the Active Spot is
/// empty).
pub(crate) fn discard_active_energy_matching(state: &mut State, player: usize, t: Option<EnergyType>)
    requires
        old(state).wf(),
        player < 2,
    ensures
        final(state).wf(),
        match old(state)@.slot(player as int, 0) {
            Some(c) => active_energy_discarded(
                old(state)@,
                final(state)@,
                player as int,
                energy_split(c.attached_energy@, t, false, c.attached_energy@.len() as int),
                energy_split(c.attached_energy@, t, true, c.attached_energy@.len() as int),
            ),
            None => final(state)@ == old(state)@,
        },
{
    proof {
        assert(state@.board[player as int] == state.in_play_pokemon@[player as int]@);
    }
    let (kept, gone) = match &state.in_play_pokemon[player][0] {
        Some(c) => {
            let mut kept: Vec<EnergyType> = Vec::new();
            let mut gone: Vec<EnergyType> = Vec::new();
            let mut i: usize = 0;
            while i < c.attached_energy.len()
                invariant
                    i <= c.attached_energy@.len(),
                    kept@ == energy_split(c.attached_energy@, t, false, i as int),
                    gone@ == energy_split(c.attached_energy@, t, true, i as int),
                decreases c.attached_energy@.len() - i,
            {
                let e = c.attached_energy[i];
                let m = match t {
                    Some(x) => e == x,
                    None => true,
                };
                if m {
                    gone.push(e);
                } else {
                    kept.push(e);
                }
                i = i + 1;
            }
            (kept, gone)
        },
        None => {
            return;
        },
    };
    let ghost mid0 = state@;
    set_slot_energy(state, player, 0, kept);
    let ghost mid = state@;
    push_discarded_energy(state, player, &gone);
    proof {
        let w = with_discarded_energy(mid0, player as int, gone@);
        assert(state@.board == mid.board);
        assert(forall|q: int| 0 <= q < 4 ==> #[trigger] state@.slot(player as int, q) == mid.slot(player as int, q));
        assert(forall|q: int| 0 <= q < 4 ==> #[trigger] w.slot(player as int, q) == mid0.slot(player as int, q));
    }
}

/// The Activate choices for `player`'s Benched Pokémon of type `t` (every one, when `t` is
/// `None`) among slots `1..i`, in slot order.
pub open spec fn switch_targets_upto(side: Seq<Option<PlayedCard>>, player: usize, t: Option<EnergyType>, i: int) -> Seq<
    SimpleAction,
>
    decreases i,
{
    if i <= 1 {
        Seq::empty()
    } else {
        let prev = switch_targets_upto(side, player, t, i - 1);
        if side[i - 1] is Some && (t is None || side[i - 1]->0.card.energy_type_spec() == t) {
            prev.push(SimpleAction::Activate { player, in_play_idx: (i - 1) as usize })
        } else {
            prev
        }
    }
}

/// The choices to switch the attacker with a Benched Pokémon of type `t` (any, when `t` is
/// `None`), with the choice to stay when `optional` and there is a Pokémon to switch with.
pub open spec fn switch_choices(s: StateView, actor: usize, t: Option<EnergyType>, optional: bool) -> Seq<
    SimpleAction,
> {
    let targets = switch_targets_upto(s.board[actor as int], actor, t, 4);
    if optional && targets.len() > 0 {
        targets.push(SimpleAction::Noop)
    } else {
        targets
    }
}

/// The attacker's player switches their Active Pokémon with a Benched one of type `t` (any,
/// when `t` is `None`), or may stay when `optional`: the choice is offered when the Active
/// Pokémon is still in play with HP left and there is a Pokémon to switch with.
pub open spec fn switched_out(before: StateView, after: StateView, actor: usize, t: Option<EnergyType>, optional: bool) -> bool {
    if before.slot(actor as int, 0) matches Some(c) && c.remaining_hp > 0 {
        offered(before, after, actor, switch_choices(before, actor, t, optional))
    } else {
        after == before
    }
}

/// Offers the attacker's player to switch their Active Pokémon out (see `switched_out`).
pub(crate) fn offer_switch_out(state: &mut State, actor: usize, t: Option<EnergyType>, optional: bool)
    requires
        old(state).wf(),
        actor < 2,
    ensures
        final(state).wf(),
        switched_out(old(state)@, final(state)@, actor, t, optional),
{
    let side = &state.in_play_pokemon[actor];
    proof {
        assert(state@.board[actor as int] == side@);
    }
    let alive = match &side[0] {
        Some(c) => c.remaining_hp > 0,
        None => false,
    };
    if !alive {
        return;
    }
    let mut choices: Vec<SimpleAction> = Vec::new();
    let mut i: usize = 1;
    while i < 4
        invariant
            1 <= i <= 4,
            side@.len() == 4,
            choices@ == switch_targets_upto(side@, actor, t, i as int),
        decreases 4 - i,
    {
        match &side[i] {
            Some(c) => {
                let ok = match t {
                    Some(x) => match c.get_energy_type() {
                        Some(y) => y == x,
                        None => false,
                    },
                    None => true,
                };
                if ok {
                    choices.push(SimpleAction::Activate { player: actor, in_play_idx: i });
                }
            },
            None => {},
        }
        i = i + 1;
    }
    if choices.len() == 0 {
        return;
    }
    if optional {
        choices.push(SimpleAction::Noop);
    }
    push_choices(state, actor, choices);
}

/// The in-play indices, among slots `0..i`, of `side`'s Pokémon with damage on them.
pub open spec fn damaged_upto(side: Seq<Option<PlayedCard>>, i: int) -> Seq<usize>
    decreases i,
{
    if i <= 0 {
        Seq::empty()
    } else {
        let prev = damaged_upto(side, i - 1);
        if side[i - 1] is Some && is_damaged(side[i - 1]->0) {
            prev.push((i - 1) as usize)
        } else {
            prev
        }
    }
}

/// The attacker's player chooses one of the opponent's Pokémon with damage on it to take
/// `damage` (nothing when there is none).
pub open spec fn damaged_target_offered(before: StateView, after: StateView, actor: usize, damage: u32) -> bool {
    let opp = (1 - actor) as usize;
    damage_choices_offered(
        before,
        after,
        actor,
        damaged_upto(before.board[opp as int], 4).map_values(|k: usize| seq![(damage, opp, k)]),
    )
}

/// Offers the opponent's damaged Pokémon as targets for `damage` (see `damaged_target_offered`).
pub(crate) fn offer_damaged_targets(state: &mut State, actor: usize, damage: u32)
    requires
        old(state).wf(),
        actor < 2,
    ensures
        final(state).wf(),
        damaged_target_offered(old(state)@, final(state)@, actor, damage),
{
    let opp = 1 - actor;
    let side = &state.in_play_pokemon[opp];
    proof {
        assert(state@.board[opp as int] == side@);
    }
    let mut idxs: Vec<usize> = Vec::new();
    let mut i: usize = 0;
    while i < 4
        invariant
            i <= 4,
            side@.len() == 4,
            idxs@ == damaged_upto(side@, i as int),
        decreases 4 - i,
    {
        match &side[i] {
            Some(c) => {
                if is_damaged_exec(c) {
                    idxs.push(i);
                }
            },
            None => {},
        }
        i = i + 1;
    }
    let lists = direct_damage_lists(&idxs, damage, opp);
    offer_damage_choices(state, actor, lists, Ghost(idxs@.map_values(|k: usize| seq![(damage, opp, k)])));
}

/// `count` draws of `random_active_energy_discarded`, one after the other.
pub open spec fn random_discards_done(before: StateView, after: StateView, player: usize, count: nat) -> bool
    decreases count,
{
    if count == 0 {
        after == before
    } else {
        exists|mid: StateView|
            random_discards_done(before, mid, player, (count - 1) as nat)
                && #[trigger] random_active_energy_discarded(mid, after, player)
    }
}

/// Once the Active Pokémon has no Energy left (or the Active Spot is empty), further draws
/// change nothing.
proof fn lemma_random_discards_settle(before: StateView, s: StateView, player: usize, i: nat, n: nat)
    requires
        i <= n,
        random_discards_done(before, s, player, i),
        match s.slot(player as int, 0) {
            Some(c) => c.attached_energy@.len() == 0,
            None => true,
        },
    ensures
        random_discards_done(before, s, player, n),
    decreases n,
{
    if n > i {
        lemma_random_discards_settle(before, s, player, i, (n - 1) as nat);
        assert(random_active_energy_discarded(s, s, player));

    }
}

/// Moves up to `count` Energy of `player`'s Active Pokémon to their discarded Energy, one at a
/// time, each as `discard_random_active_energy` does.
pub(crate) fn discard_random_active_energies(rng: &mut StdRng, state: &mut State, player: usize, count: usize)
    requires
        old(state).wf(),
        player < 2,
    ensures
        final(state).wf(),
        random_discards_done(old(state)@, final(state)@, player, count as nat),
{
    let mut i: usize = 0;
    while i < count
        invariant
            i <= count,
            player < 2,
            state.wf(),
            random_discards_done(old(state)@, state@, player, i as nat),
        decreases count - i,
    {
        proof {
            assert(state@.board[player as int] == state.in_play_pokemon@[player as int]@);
        }
        let empty = match &state.in_play_pokemon[player][0] {
            Some(c) => c.attached_energy.len() == 0,
            None => true,
        };
        if empty {
            proof {
                lemma_random_discards_settle(old(state)@, state@, player, i as nat, count as nat);
            }
            return;
        }
        let ghost mid = state@;
        discard_random_active_energy(rng, state, player);
        i = i + 1;
        proof {
            assert(random_discards_done(old(state)@, mid, player, (i - 1) as nat));
            assert(random_active_energy_discarded(mid, state@, player));
        }
    }
}

/// One effect that discards the first Energy of each listed type from an Active Pokémon.
pub open spec fn discard_effects(es: Seq<EnergyType>, own: bool) -> Seq<AttackEffect> {
    es.map_values(|e: EnergyType| AttackEffect::DiscardActiveEnergyOfType { own, energy_type: e })
}

/// `discard_effects` as a vector.
pub(crate) fn discard_effects_exec(es: &Vec<EnergyType>, own: bool) -> (r: Vec<AttackEffect>)
    ensures
        r@ == discard_effects(es@, own),
{
    let mut r: Vec<AttackEffect> = Vec::new();
    let mut i: usize = 0;
    while i < es.len()
        invariant
            i <= es@.len(),
            r@ == discard_effects(es@.subrange(0, i as int), own),
        decreases es@.len() - i,
    {
        r.push(AttackEffect::DiscardActiveEnergyOfType { own, energy_type: es[i] });
        i = i + 1;
        proof {
            assert(r@ =~= discard_effects(es@.subrange(0, i as int), own));
        }
    }
    proof {
        assert(es@.subrange(0, es@.len() as int) =~= es@);
    }
    r
}

/// `fixed` damage, then `h` Energy of the opponent's Active Pokémon discarded at random; with
/// `nothing_on_tails`, no heads means no damage either.
pub open spec fn per_heads_energy_discard(fixed: u32, nothing_on_tails: bool) -> spec_fn(nat) -> OutcomeView<
    AttackEffect,
> {
    |h: nat|
        if h == 0 && nothing_on_tails {
            effects_only(Seq::empty())
        } else {
            hit_then(fixed, seq![AttackEffect::DiscardRandomActiveEnergy { own: false, count: h as usize }])
        }
}

/// The mechanics that discard Energy, switch the attacker out, or hit a damaged Pokémon.
pub open spec fn forecast_group_l(m: Mechanic) -> bool {
    matches!(m, Mechanic::SelfDiscardEnergy { .. } | Mechanic::SelfDiscardEnergyAndInflictStatus { .. } | Mechanic::SelfDiscardEnergyAndDamageAllOpponent { .. } | Mechanic::SelfDiscardAllTypeEnergy { .. } | Mechanic::SelfDiscardAllEnergyAndInflictStatus { .. } | Mechanic::DiscardOpponentActiveEnergyOfType { .. } | Mechanic::DiscardEnergyFromOpponentActive | Mechanic::DiscardRandomEnergyBothActive | Mechanic::CoinFlipsDiscardEnergyFromOpponentActiveOrNothing { .. } | Mechanic::CoinFlipsDiscardEnergyFromOpponentActive { .. } | Mechanic::SelfDiscardRandomEnergy { .. } | Mechanic::CoinFlipSelfDiscardRandomEnergy { .. } | Mechanic::ExtraDamageIfTypeEnergyInPlay { .. } | Mechanic::DirectDamageIfDamaged { .. } | Mechanic::SwitchSelfWithBench | Mechanic::MaySwitchSelfWithBench | Mechanic::SwitchSelfWithTypedBench { .. })
}

/// Whether the mechanic is in `forecast_group_l`.
pub fn in_forecast_group_l(m: &Mechanic) -> (r: bool)
    ensures
        r == forecast_group_l(*m),
{
    matches!(m, Mechanic::SelfDiscardEnergy { .. } | Mechanic::SelfDiscardEnergyAndInflictStatus { .. } | Mechanic::SelfDiscardEnergyAndDamageAllOpponent { .. } | Mechanic::SelfDiscardAllTypeEnergy { .. } | Mechanic::SelfDiscardAllEnergyAndInflictStatus { .. } | Mechanic::DiscardOpponentActiveEnergyOfType { .. } | Mechanic::DiscardEnergyFromOpponentActive | Mechanic::DiscardRandomEnergyBothActive | Mechanic::CoinFlipsDiscardEnergyFromOpponentActiveOrNothing { .. } | Mechanic::CoinFlipsDiscardEnergyFromOpponentActive { .. } | Mechanic::SelfDiscardRandomEnergy { .. } | Mechanic::CoinFlipSelfDiscardRandomEnergy { .. } | Mechanic::ExtraDamageIfTypeEnergyInPlay { .. } | Mechanic::DirectDamageIfDamaged { .. } | Mechanic::SwitchSelfWithBench | Mechanic::MaySwitchSelfWithBench | Mechanic::SwitchSelfWithTypedBench { .. })
}

/// What an attack with a mechanic of `forecast_group_l` can lead to (`None` for the other
/// mechanics).
pub open spec fn energy_mechanic_forecast(s: StateView, attack: Attack, m: Mechanic) -> Option<AttackView> {
    let fixed = attack.fixed_damage;
    let cp = s.current_player as int;
    let opp = 1 - cp;
    match m {
        Mechanic::SelfDiscardEnergy { energies } => Some(sure(hit_then(fixed, discard_effects(energies@, true)))),
        Mechanic::SelfDiscardEnergyAndInflictStatus { energies, conditions } => Some(
            sure(hit_then(fixed, discard_effects(energies@, true) + status_effects(conditions@, true))),
        ),
        Mechanic::SelfDiscardEnergyAndDamageAllOpponent { energies, damage } => Some(
            sure((spread(s, opp, damage), Seq::empty(), discard_effects(energies@, true), Seq::empty())),
        ),
        Mechanic::SelfDiscardAllTypeEnergy { energy_type } => Some(
            sure(hit_then(fixed, seq![AttackEffect::DiscardOwnActiveEnergyMatching { energy_type: Some(energy_type) }])),
        ),
        Mechanic::SelfDiscardAllEnergyAndInflictStatus { conditions } => Some(
            sure(
                hit_then(
                    fixed,
                    seq![AttackEffect::DiscardOwnActiveEnergyMatching { energy_type: None }] + status_effects(
                        conditions@,
                        true,
                    ),
                ),
            ),
        ),
        Mechanic::DiscardOpponentActiveEnergyOfType { energy_type } => Some(
            sure(hit_then(fixed, seq![AttackEffect::DiscardActiveEnergyOfType { own: false, energy_type }])),
        ),
        Mechanic::DiscardEnergyFromOpponentActive => Some(
            sure(hit_then(fixed, seq![AttackEffect::DiscardRandomActiveEnergy { own: false, count: 1 }])),
        ),
        Mechanic::DiscardRandomEnergyBothActive => Some(
            sure(
                hit_then(
                    fixed,
                    seq![
                        AttackEffect::DiscardRandomActiveEnergy { own: true, count: 1 },
                        AttackEffect::DiscardRandomActiveEnergy { own: false, count: 1 },
                    ],
                ),
            ),
        ),
        Mechanic::CoinFlipsDiscardEnergyFromOpponentActiveOrNothing { num_coins } => Some(
            by_heads(num_coins as nat, per_heads_energy_discard(fixed, true)),
        ),
        Mechanic::CoinFlipsDiscardEnergyFromOpponentActive { num_coins } => Some(
            by_heads(num_coins as nat, per_heads_energy_discard(fixed, false)),
        ),
        Mechanic::SelfDiscardRandomEnergy { count } => Some(
            sure(hit_then(fixed, seq![AttackEffect::DiscardRandomActiveEnergy { own: true, count }])),
        ),
        Mechanic::CoinFlipSelfDiscardRandomEnergy { count } => Some(
            coin(hit(fixed), hit_then(fixed, seq![AttackEffect::DiscardRandomActiveEnergy { own: true, count }])),
        ),
        Mechanic::ExtraDamageIfTypeEnergyInPlay { energy_type, minimum_count, extra_damage } => Some(
            sure(bonus_hit(fixed, energy_count_upto(s.board[cp], energy_type, 4) >= minimum_count, extra_damage)),
        ),
        Mechanic::DirectDamageIfDamaged { damage } => Some(
            sure(hit_then(0, seq![AttackEffect::ChooseDamagedTarget { damage }])),
        ),
        Mechanic::SwitchSelfWithBench => Some(
            sure(hit_then(fixed, seq![AttackEffect::SwitchOut { energy_type: None, optional: false }])),
        ),
        Mechanic::MaySwitchSelfWithBench => Some(
            sure(hit_then(fixed, seq![AttackEffect::SwitchOut { energy_type: None, optional: true }])),
        ),
        Mechanic::SwitchSelfWithTypedBench { energy_type } => Some(
            sure(hit_then(fixed, seq![AttackEffect::SwitchOut { energy_type: Some(energy_type), optional: false }])),
        ),
        _ => disruption_mechanic_forecast(s, attack, m),
    }
}

/// How much Energy of type `t` `player`'s Pokémon in play hold in all.
fn energy_in_play_exec(state: &State, player: usize, t: EnergyType) -> (r: u128)
    requires
        state.wf(),
        player < 2,
    ensures
        r == energy_count_upto(state@.board[player as int], t, 4),
{
    let side = &state.in_play_pokemon[player];
    proof {
        assert(state@.board[player as int] == side@);
    }
    let mut total: u128 = 0;
    let mut i: usize = 0;
    while i < 4
        invariant
            i <= 4,
            side@.len() == 4,
            total == energy_count_upto(side@, t, i as int),
            total <= i * 0xffff_ffff_ffff_ffff,
        decreases 4 - i,
    {
        match &side[i] {
            Some(c) => {
                let k = count_exec(&c.attached_energy, t);
                total = total + k as u128;
            },
            None => {},
        }
        i = i + 1;
    }
    total
}

/// The outcomes of `per_heads_energy_discard` for 0 to `n` heads.
fn per_heads_energy_discards(n: usize, fixed: u32, nothing_on_tails: bool) -> (r: Vec<AttackOutcome<AttackEffect>>)
    requires
        n < 32,
    ensures
        r@.len() == n + 1,
        forall|h: int| 0 <= h <= n ==> outcome_view(#[trigger] r@[h]) == (per_heads_energy_discard(fixed, nothing_on_tails))(
            h as nat,
        ),
{
    let mut r: Vec<AttackOutcome<AttackEffect>> = Vec::new();
    let mut h: usize = 0;
    while h <= n
        invariant
            n < 32,
            h <= n + 1,
            r@.len() == h,
            forall|k: int| 0 <= k < h ==> outcome_view(#[trigger] r@[k]) == (per_heads_energy_discard(fixed, nothing_on_tails))(
                k as nat,
            ),
        decreases n + 1 - h,
    {
        if h == 0 && nothing_on_tails {
            let o = AttackOutcome::noop();
            proof {
                assert(outcome_view(o).0 =~= Seq::empty());
                assert(outcome_view(o).1 =~= Seq::empty());
                assert(outcome_view(o).2 =~= Seq::empty());
                assert(outcome_view(o).3 =~= Seq::empty());
            }
            r.push(o);
        } else {
            r.push(hit_then_one(fixed, AttackEffect::DiscardRandomActiveEnergy { own: false, count: h }));
        }
        h = h + 1;
    }
    r
}

/// The forecast of a mechanic of `forecast_group_l`.
pub fn forecast_mechanic_l(state: &State, attack: &Attack, mechanic: &Mechanic) -> (o: AttackOutcomes<
    AttackEffect,
>)
    requires
        state.wf(),
        coins_in_range(*mechanic),
        forecast_group_l(*mechanic),
    ensures
        o.is_distribution(),
        energy_mechanic_forecast(state@, *attack, *mechanic) == Some(attack_view(o)),
{
    let fixed = attack.fixed_damage;
    let cp = state.current_player;
    let opp = 1 - cp;
    match mechanic {
        Mechanic::SelfDiscardEnergy { energies } => {
            sure_outcomes(hit_then_outcome(fixed, discard_effects_exec(energies, true)))
        },
        Mechanic::SelfDiscardEnergyAndInflictStatus { energies, conditions } => {
            let mut effects = discard_effects_exec(energies, true);
            let mut statuses = status_effects_exec(conditions, true);
            effects.append(&mut statuses);
            sure_outcomes(hit_then_outcome(fixed, effects))
        },
        Mechanic::SelfDiscardEnergyAndDamageAllOpponent { energies, damage } => {
            let o = AttackOutcome {
                damage: spread_exec(state, opp, *damage),
                pre_damage_effects: Vec::new(),
                post_damage_effects: discard_effects_exec(energies, true),
                survivors_at_10: Vec::new(),
            };
            proof {
                assert(outcome_view(o).1 =~= Seq::empty());
                assert(outcome_view(o).3 =~= Seq::empty());
            }
            sure_outcomes(o)
        },
        Mechanic::SelfDiscardAllTypeEnergy { energy_type } => sure_outcomes(
            hit_then_one(fixed, AttackEffect::DiscardOwnActiveEnergyMatching { energy_type: Some(*energy_type) }),
        ),
        Mechanic::SelfDiscardAllEnergyAndInflictStatus { conditions } => {
            let mut effects: Vec<AttackEffect> = Vec::new();
            effects.push(AttackEffect::DiscardOwnActiveEnergyMatching { energy_type: None });
            let mut statuses = status_effects_exec(conditions, true);
            effects.append(&mut statuses);
            proof {
                assert(effects@ =~= seq![AttackEffect::DiscardOwnActiveEnergyMatching { energy_type: None }]
                    + status_effects(conditions@, true));
            }
            sure_outcomes(hit_then_outcome(fixed, effects))
        },
        Mechanic::DiscardOpponentActiveEnergyOfType { energy_type } => sure_outcomes(
            hit_then_one(fixed, AttackEffect::DiscardActiveEnergyOfType { own: false, energy_type: *energy_type }),
        ),
        Mechanic::DiscardEnergyFromOpponentActive => sure_outcomes(
            hit_then_one(fixed, AttackEffect::DiscardRandomActiveEnergy { own: false, count: 1 }),
        ),
        Mechanic::DiscardRandomEnergyBothActive => {
            let mut effects: Vec<AttackEffect> = Vec::new();
            effects.push(AttackEffect::DiscardRandomActiveEnergy { own: true, count: 1 });
            effects.push(AttackEffect::DiscardRandomActiveEnergy { own: false, count: 1 });
            proof {
                assert(effects@ =~= seq![
                    AttackEffect::DiscardRandomActiveEnergy { own: true, count: 1 },
                    AttackEffect::DiscardRandomActiveEnergy { own: false, count: 1 },
                ]);
            }
            sure_outcomes(hit_then_outcome(fixed, effects))
        },
        Mechanic::CoinFlipsDiscardEnergyFromOpponentActiveOrNothing { num_coins } => {
            let per = per_heads_energy_discards(*num_coins, fixed, true);
            by_heads_outcomes(*num_coins, per, Ghost(per_heads_energy_discard(fixed, true)))
        },
        Mechanic::CoinFlipsDiscardEnergyFromOpponentActive { num_coins } => {
            let per = per_heads_energy_discards(*num_coins, fixed, false);
            by_heads_outcomes(*num_coins, per, Ghost(per_heads_energy_discard(fixed, false)))
        },
        Mechanic::SelfDiscardRandomEnergy { count } => sure_outcomes(
            hit_then_one(fixed, AttackEffect::DiscardRandomActiveEnergy { own: true, count: *count }),
        ),
        Mechanic::CoinFlipSelfDiscardRandomEnergy { count } => coin_outcomes(
            hit_outcome(fixed),
            hit_then_one(fixed, AttackEffect::DiscardRandomActiveEnergy { own: true, count: *count }),
        ),
        Mechanic::ExtraDamageIfTypeEnergyInPlay { energy_type, minimum_count, extra_damage } => {
            let n = energy_in_play_exec(state, cp, *energy_type);
            let d = if n >= *minimum_count as u128 {
                sat_add_exec(fixed, *extra_damage)
            } else {
                fixed
            };
            sure_outcomes(hit_outcome(d))
        },
        Mechanic::DirectDamageIfDamaged { damage } => sure_outcomes(
            hit_then_one(0, AttackEffect::ChooseDamagedTarget { damage: *damage }),
        ),
        Mechanic::SwitchSelfWithBench => sure_outcomes(
            hit_then_one(fixed, AttackEffect::SwitchOut { energy_type: None, optional: false }),
        ),
        Mechanic::MaySwitchSelfWithBench => sure_outcomes(
            hit_then_one(fixed, AttackEffect::SwitchOut { energy_type: None, optional: true }),
        ),
        Mechanic::SwitchSelfWithTypedBench { energy_type } => sure_outcomes(
            hit_then_one(fixed, AttackEffect::SwitchOut { energy_type: Some(*energy_type), optional: false }),
        ),
        _ => {
            proof {
                assert(false);
            }
            sure_outcomes(hit_outcome(fixed))
        },
    }
}

} // verus!
