//! Energy taken at random from any Pokémon in play, damage that depends on Energy, and the
//! attack mechanics that pay Energy for damage.

use rand::rngs::StdRng;
use vstd::prelude::*;

use crate::apply_attack_action::{
    attack_view, bench_targets_exec, bench_targets_upto, by_heads, by_heads_outcomes, coins_in_range,
    copy_energies, count_exec, count_of, damage_choices_offered, effect_only_outcome, effects_only,
    hit_then, hit_then_outcome, is_damaged, is_damaged_exec, offer_damage_choices, sat_add,
    sat_add_exec, sat_mul, sat_mul_exec, sure, sure_outcomes, AttackEffect, AttackView,
};
use crate::attack_outcome::{outcome_view, AttackOutcome, AttackOutcomes, DamageTarget, OutcomeView};
use crate::attacks::Mechanic;
use crate::energy_mechanics::{discard_effects, discard_effects_exec};
use crate::special_attacks::special_mechanic_forecast;
use crate::apply_trainer_action::set_slot_energy;
use crate::board_mechanics::energy_set;
use crate::energy_mechanics::with_discarded_energy;
use crate::models::{Attack, EnergyType, PlayedCard};
use crate::random::random_below;
use crate::state::{State, StateView};

verus! {

/// The Energy at index `k` of `player`'s Pokémon in slot `idx` was taken off it (and added to
/// their discarded Energy when `to_discard`); nothing else changed.
pub open spec fn energy_taken_at(before: StateView, after: StateView, player: int, idx: int, k: int, to_discard: bool) -> bool {
    match before.slot(player, idx) {
        Some(c) => {
            &&& 0 <= k < c.attached_energy@.len()
            &&& energy_set(
                if to_discard {
                    with_discarded_energy(before, player, seq![c.attached_energy@[k]])
                } else {
                    before
                },
                after,
                player,
                idx,
                c.attached_energy@.remove(k),
            )
        },
        None => false,
    }
}

/// Whether `player` may lose Energy here: the attacker's player only, or either player when
/// `everywhere`.
pub open spec fn in_scope(player: int, actor: usize, everywhere: bool) -> bool {
    if everywhere {
        0 <= player < 2
    } else {
        player == actor
    }
}

/// Whether the slot holds a Pokémon with Energy attached.
pub open spec fn holds_energy(slot: Option<PlayedCard>) -> bool {
    slot matches Some(c) && c.attached_energy@.len() > 0
}

/// Whether some Pokémon in scope holds Energy.
pub open spec fn energy_left(s: StateView, actor: usize, everywhere: bool) -> bool {
    exists|p: int, i: int|
        in_scope(p, actor, everywhere) && 0 <= i < 4 && holds_energy(#[trigger] s.slot(p, i))
}

/// One Energy of a Pokémon in scope, picked at random, was taken off (see `energy_taken_at`);
/// nothing changed when no Pokémon in scope holds Energy.
pub open spec fn random_energy_taken(before: StateView, after: StateView, actor: usize, everywhere: bool, to_discard: bool) -> bool {
    if !energy_left(before, actor, everywhere) {
        after == before
    } else {
        exists|p: int, i: int, k: int|
            in_scope(p, actor, everywhere) && 0 <= i < 4 && #[trigger] energy_taken_at(
                before,
                after,
                p,
                i,
                k,
                to_discard,
            )
    }
}

/// `count` draws of `random_energy_taken`, one after the other.
pub open spec fn random_takes_done(
    before: StateView,
    after: StateView,
    actor: usize,
    everywhere: bool,
    to_discard: bool,
    count: nat,
) -> bool
    decreases count,
{
    if count == 0 {
        after == before
    } else {
        exists|mid: StateView|
            random_takes_done(before, mid, actor, everywhere, to_discard, (count - 1) as nat)
                && #[trigger] random_energy_taken(mid, after, actor, everywhere, to_discard)
    }
}

proof fn lemma_random_takes_settle(
    before: StateView,
    s: StateView,
    actor: usize,
    everywhere: bool,
    to_discard: bool,
    i: nat,
    n: nat,
)
    requires
        i <= n,
        random_takes_done(before, s, actor, everywhere, to_discard, i),
        !energy_left(s, actor, everywhere),
    ensures
        random_takes_done(before, s, actor, everywhere, to_discard, n),
    decreases n,
{
    if n > i {
        lemma_random_takes_settle(before, s, actor, everywhere, to_discard, i, (n - 1) as nat);
        assert(random_energy_taken(s, s, actor, everywhere, to_discard));
    }
}

/// Adds one Energy to the end of `player`'s discarded Energy.
fn push_discarded_one(state: &mut State, player: usize, e: EnergyType)
    requires
        old(state).wf(),
        player < 2,
    ensures
        final(state).wf(),
        final(state)@ == with_discarded_energy(old(state)@, player as int, seq![e]),
{
    let ghost before = state.discard_energies[player as int]@;
    state.discard_energies[player].push(e);
    proof {
        assert(state.discard_energies[player as int]@ =~= before + seq![e]);
        assert(state@.discard_energies =~~= with_discarded_energy(old(state)@, player as int, seq![e]).discard_energies);
    }
}

/// Takes the Energy at index `k` off `player`'s Pokémon in slot `idx` (see `energy_taken_at`).
pub(crate) fn take_energy_at(state: &mut State, player: usize, idx: usize, k: usize, to_discard: bool)
    requires
        old(state).wf(),
        player < 2,
        idx < 4,
        old(state)@.slot(player as int, idx as int) matches Some(c) && k < c.attached_energy@.len(),
    ensures
        final(state).wf(),
        energy_taken_at(old(state)@, final(state)@, player as int, idx as int, k as int, to_discard),
{
    proof {
        assert(state@.board[player as int] == state.in_play_pokemon@[player as int]@);
    }
    let mut es = match &state.in_play_pokemon[player][idx] {
        Some(c) => copy_energies(&c.attached_energy),
        None => Vec::new(),
    };
    let e = es.remove(k);
    if to_discard {
        let ghost s0 = state@;
        push_discarded_one(state, player, e);
        let ghost s1 = state@;
        set_slot_energy(state, player, idx, es);
        proof {
            assert(s1.board == s0.board);
            assert(forall|q: int| 0 <= q < 4 ==> #[trigger] s1.slot(player as int, q) == s0.slot(player as int, q));
        }
    } else {
        set_slot_energy(state, player, idx, es);
    }
}

/// Takes one Energy, picked at random, off a Pokémon in scope (see `random_energy_taken`);
/// returns whether there was one to take.
fn take_random_energy(rng: &mut StdRng, state: &mut State, actor: usize, everywhere: bool, to_discard: bool) -> (r: bool)
    requires
        old(state).wf(),
        actor < 2,
    ensures
        final(state).wf(),
        random_energy_taken(old(state)@, final(state)@, actor, everywhere, to_discard),
        r == energy_left(old(state)@, actor, everywhere),
{
    let mut holders: Vec<(usize, usize)> = Vec::new();
    let mut p: usize = if everywhere {
        0
    } else {
        actor
    };
    let last: usize = if everywhere {
        1
    } else {
        actor
    };
    proof {
        assert(state@.board[0] == state.in_play_pokemon@[0]@);
        assert(state@.board[1] == state.in_play_pokemon@[1]@);
    }
    while p <= last
        invariant
            last < 2,
            p <= last + 1,
            everywhere ==> last == 1,
            !everywhere ==> last == actor && (p == actor || p == actor + 1),
            everywhere ==> p <= 2,
            actor < 2,
            state.wf(),
            state@ == old(state)@,
            forall|j: int|
                0 <= j < holders@.len() ==> {
                    let (hp, hi) = #[trigger] holders@[j];
                    &&& hp < 2
                    &&& hi < 4
                    &&& in_scope(hp as int, actor, everywhere)
                    &&& holds_energy(state@.slot(hp as int, hi as int))
                },
            holders@.len() == 0 ==> forall|q: int, i: int|
                (everywhere ==> 0 <= q < p) && (!everywhere ==> q == actor && p > actor) && 0 <= i < 4
                    ==> !holds_energy(#[trigger] state@.slot(q, i)),
        decreases last + 1 - p,
    {
        let side = &state.in_play_pokemon[p];
        proof {
            assert(state@.board[p as int] == side@);
        }
        let mut i: usize = 0;
        while i < 4
            invariant
                i <= 4,
                p <= last,
                last < 2,
                actor < 2,
                side@.len() == 4,
                side@ == state@.board[p as int],
                in_scope(p as int, actor, everywhere),
                forall|j: int|
                    0 <= j < holders@.len() ==> {
                        let (hp, hi) = #[trigger] holders@[j];
                        &&& hp < 2
                        &&& hi < 4
                        &&& in_scope(hp as int, actor, everywhere)
                        &&& holds_energy(state@.slot(hp as int, hi as int))
                    },
                holders@.len() == 0 ==> forall|q: int, k: int|
                    (everywhere ==> 0 <= q < p) && (!everywhere ==> q == actor && p > actor) && 0 <= k < 4
                        ==> !holds_energy(#[trigger] state@.slot(q, k)),
                holders@.len() == 0 ==> forall|k: int|
                    0 <= k < i ==> !holds_energy(#[trigger] state@.slot(p as int, k)),
            decreases 4 - i,
        {
            match &side[i] {
                Some(c) => {
                    if c.attached_energy.len() > 0 {
                        holders.push((p, i));
                    }
                },
                None => {},
            }
            i = i + 1;
        }
        p = p + 1;
    }
    if holders.len() == 0 {
        proof {
            if energy_left(old(state)@, actor, everywhere) {
                let (q, i) = choose|q: int, i: int|
                    in_scope(q, actor, everywhere) && 0 <= i < 4 && holds_energy(#[trigger] old(state)@.slot(q, i));
                assert(!holds_energy(state@.slot(q, i)));
            }
        }
        return false;
    }
    let j = random_below(rng, holders.len());
    let (hp, hi) = holders[j];
    proof {
        assert(state@.board[hp as int] == state.in_play_pokemon@[hp as int]@);
    }
    let n = match &state.in_play_pokemon[hp][hi] {
        Some(c) => c.attached_energy.len(),
        None => 1,
    };
    let k = random_below(rng, n);
    take_energy_at(state, hp, hi, k, to_discard);
    proof {
        assert(energy_taken_at(old(state)@, state@, hp as int, hi as int, k as int, to_discard));
    }
    true
}

/// Takes up to `count` Energy, one at a time, each as `take_random_energy` does.
pub(crate) fn take_random_energies(
    rng: &mut StdRng,
    state: &mut State,
    actor: usize,
    everywhere: bool,
    to_discard: bool,
    count: usize,
)
    requires
        old(state).wf(),
        actor < 2,
    ensures
        final(state).wf(),
        random_takes_done(old(state)@, final(state)@, actor, everywhere, to_discard, count as nat),
{
    let mut i: usize = 0;
    while i < count
        invariant
            i <= count,
            actor < 2,
            state.wf(),
            random_takes_done(old(state)@, state@, actor, everywhere, to_discard, i as nat),
        decreases count - i,
    {
        let ghost mid = state@;
        let took = take_random_energy(rng, state, actor, everywhere, to_discard);
        if !took {
            proof {
                lemma_random_takes_settle(old(state)@, mid, actor, everywhere, to_discard, i as nat, count as nat);
            }
            return;
        }
        i = i + 1;
        proof {
            assert(random_energy_taken(mid, state@, actor, everywhere, to_discard));
        }
    }
}

/// The in-play indices, among the Bench slots `1..i`, of `side`'s Pokémon with damage on them.
pub open spec fn damaged_bench_upto(side: Seq<Option<PlayedCard>>, i: int) -> Seq<usize>
    decreases i,
{
    if i <= 1 {
        Seq::empty()
    } else {
        let prev = damaged_bench_upto(side, i - 1);
        if side[i - 1] is Some && is_damaged(side[i - 1]->0) {
            prev.push((i - 1) as usize)
        } else {
            prev
        }
    }
}

/// The damage lists of a choice that deals `active_damage` to the opponent's Active Pokémon
/// and `bench_damage` to one damaged Benched Pokémon of player `tp`.
pub open spec fn damaged_bench_lists(s: StateView, actor: usize, active_damage: u32, bench_damage: u32, opponent_bench: bool) -> Seq<
    Seq<(u32, usize, usize)>,
> {
    let opp = (1 - actor) as usize;
    let tp = if opponent_bench {
        opp
    } else {
        actor
    };
    damaged_bench_upto(s.board[tp as int], 4).map_values(
        |b: usize| seq![(active_damage, opp, 0usize), (bench_damage, tp, b)],
    )
}

/// Offers the damage choices of `damaged_bench_lists`.
pub(crate) fn offer_damaged_bench_damage(
    state: &mut State,
    actor: usize,
    active_damage: u32,
    bench_damage: u32,
    opponent_bench: bool,
)
    requires
        old(state).wf(),
        actor < 2,
    ensures
        final(state).wf(),
        damage_choices_offered(
            old(state)@,
            final(state)@,
            actor,
            damaged_bench_lists(old(state)@, actor, active_damage, bench_damage, opponent_bench),
        ),
{
    let opp = 1 - actor;
    let tp = if opponent_bench {
        opp
    } else {
        actor
    };
    let side = &state.in_play_pokemon[tp];
    proof {
        assert(state@.board[tp as int] == side@);
    }
    let mut lists: Vec<Vec<(u32, usize, usize)>> = Vec::new();
    let ghost gl = damaged_bench_lists(state@, actor, active_damage, bench_damage, opponent_bench);
    let mut i: usize = 1;
    while i < 4
        invariant
            1 <= i <= 4,
            side@.len() == 4,
            tp < 2,
            opp == 1 - actor,
            gl == damaged_bench_upto(side@, 4).map_values(
                |b: usize| seq![(active_damage, opp, 0usize), (bench_damage, tp, b)],
            ),
            lists@.len() == damaged_bench_upto(side@, i as int).len(),
            forall|k: int|
                0 <= k < lists@.len() ==> (#[trigger] lists@[k])@ == seq![
                    (active_damage, opp, 0usize),
                    (bench_damage, tp, damaged_bench_upto(side@, i as int)[k]),
                ],
        decreases 4 - i,
    {
        proof {
            assert(damaged_bench_upto(side@, i as int + 1) == if side@[i as int] is Some && is_damaged(side@[i as int]->0) {
                damaged_bench_upto(side@, i as int).push(i)
            } else {
                damaged_bench_upto(side@, i as int)
            });
        }
        match &side[i] {
            Some(c) => {
                if is_damaged_exec(c) {
                    let mut one: Vec<(u32, usize, usize)> = Vec::new();
                    one.push((active_damage, opp, 0));
                    one.push((bench_damage, tp, i));
                    proof {
                        assert(one@ =~= seq![(active_damage, opp, 0usize), (bench_damage, tp, i)]);
                    }
                    lists.push(one);
                }
            },
            None => {},
        }
        i = i + 1;
    }
    offer_damage_choices(state, actor, lists, Ghost(gl));
}

/// The damage lists of a choice of one of the opponent's Pokémon, each taking
/// `damage_per_energy` for each Energy attached to it.
pub open spec fn energy_target_lists(s: StateView, actor: usize, damage_per_energy: u32) -> Seq<Seq<(u32, usize, usize)>> {
    let opp = (1 - actor) as usize;
    s.in_play_indices(opp as int).map_values(
        |i: usize|
            seq![
                (
                    sat_mul(s.slot(opp as int, i as int)->0.attached_energy@.len() as u32, damage_per_energy),
                    opp,
                    i,
                ),
            ],
    )
}

/// Offers the damage choices of `energy_target_lists`.
pub(crate) fn offer_energy_targets(state: &mut State, actor: usize, damage_per_energy: u32)
    requires
        old(state).wf(),
        actor < 2,
    ensures
        final(state).wf(),
        damage_choices_offered(old(state)@, final(state)@, actor, energy_target_lists(old(state)@, actor, damage_per_energy)),
{
    let opp = 1 - actor;
    let idxs = state.enumerate_in_play_pokemon(opp);
    let ghost gl = energy_target_lists(state@, actor, damage_per_energy);
    proof {
        crate::apply_action_helpers::lemma_occupied_from(state@.board[opp as int], 0);
        assert(state@.board[opp as int] == state.in_play_pokemon@[opp as int]@);
    }
    let mut lists: Vec<Vec<(u32, usize, usize)>> = Vec::new();
    let mut j: usize = 0;
    while j < idxs.len()
        invariant
            j <= idxs@.len(),
            opp == 1 - actor,
            opp < 2,
            state.wf(),
            idxs@ == state@.in_play_indices(opp as int),
            gl == energy_target_lists(state@, actor, damage_per_energy),
            lists@.len() == j,
            forall|k: int| 0 <= k < j ==> (#[trigger] lists@[k])@ == gl[k],
            forall|k: int| 0 <= k < idxs@.len() ==> #[trigger] idxs@[k] < 4 && state@.slot(opp as int, idxs@[k] as int) is Some,
        decreases idxs@.len() - j,
    {
        let i = idxs[j];
        proof {
            assert(state@.board[opp as int] == state.in_play_pokemon@[opp as int]@);
        }
        let n = match &state.in_play_pokemon[opp][i] {
            Some(c) => c.attached_energy.len(),
            None => 0,
        };
        let d = sat_mul_exec(#[verifier::truncate] (n as u32), damage_per_energy);
        let mut one: Vec<(u32, usize, usize)> = Vec::new();
        one.push((d, opp, i));
        proof {
            assert(one@ =~= gl[j as int]);
        }
        lists.push(one);
        j = j + 1;
    }
    offer_damage_choices(state, actor, lists, Ghost(gl));
}

/// `n` copies of an effect.
pub open spec fn repeated(e: AttackEffect, n: nat) -> Seq<AttackEffect> {
    Seq::new(n, |i: int| e)
}

/// `repeated` as a vector.
pub(crate) fn repeated_exec(e: AttackEffect, n: usize) -> (r: Vec<AttackEffect>)
    ensures
        r@ == repeated(e, n as nat),
{
    let mut r: Vec<AttackEffect> = Vec::new();
    let mut i: usize = 0;
    while i < n
        invariant
            i <= n,
            r@ == repeated(e, i as nat),
        decreases n - i,
    {
        r.push(e);
        i = i + 1;
        proof {
            assert(r@ =~= repeated(e, i as nat));
        }
    }
    r
}

/// With `h` heads, up to `h` Energy of type `t` (as many as the attacker holds, `available`)
/// are discarded before the damage, which grows by `per` for each.
pub open spec fn per_heads_paid(fixed: u32, t: EnergyType, available: nat, per: u32) -> spec_fn(nat) -> OutcomeView<
    AttackEffect,
> {
    |h: nat|
        {
            let paid = if h < available {
                h
            } else {
                available
            };
            (
                seq![(sat_add(fixed, sat_mul(paid as u32, per)), true, 0usize)],
                repeated(AttackEffect::DiscardActiveEnergyOfType { own: true, energy_type: t }, paid),
                Seq::empty(),
                Seq::empty(),
            )
        }
}

/// The mechanics of `forecast_group_n`: Energy paid for damage, damage chosen by damage or by
/// Energy, and Energy taken at random.
pub open spec fn forecast_group_n(m: Mechanic) -> bool {
    matches!(m, Mechanic::DiscardSelfEnergyPerHeadsExtraDamage { .. } | Mechanic::SelfDiscardAllTypeEnergyAndDamageAnyOpponentPokemon { .. } | Mechanic::SelfDiscardTypeEnergyAndDamageAnyOpponentPokemon { .. } | Mechanic::SelfDiscardRandomEnergyAndBenchDamage { .. } | Mechanic::AlsoChoiceBenchDamageIfDamaged { .. } | Mechanic::DamageToAnyOpponentPerTargetEnergy { .. } | Mechanic::DiscardRandomOwnEnergy { .. } | Mechanic::DiscardRandomGlobalEnergy { .. } | Mechanic::SelfDiscardEnergyAndChoiceBenchDamage { .. })
}

/// Whether the mechanic is in `forecast_group_n`.
pub fn in_forecast_group_n(m: &Mechanic) -> (r: bool)
    ensures
        r == forecast_group_n(*m),
{
    matches!(m, Mechanic::DiscardSelfEnergyPerHeadsExtraDamage { .. } | Mechanic::SelfDiscardAllTypeEnergyAndDamageAnyOpponentPokemon { .. } | Mechanic::SelfDiscardTypeEnergyAndDamageAnyOpponentPokemon { .. } | Mechanic::SelfDiscardRandomEnergyAndBenchDamage { .. } | Mechanic::AlsoChoiceBenchDamageIfDamaged { .. } | Mechanic::DamageToAnyOpponentPerTargetEnergy { .. } | Mechanic::DiscardRandomOwnEnergy { .. } | Mechanic::DiscardRandomGlobalEnergy { .. } | Mechanic::SelfDiscardEnergyAndChoiceBenchDamage { .. })
}

/// What an attack with a mechanic of `forecast_group_n` can lead to (`None` for the other
/// mechanics).
pub open spec fn removal_mechanic_forecast(s: StateView, attack: Attack, m: Mechanic) -> Option<AttackView> {
    let fixed = attack.fixed_damage;
    let cp = s.current_player as int;
    let opp = 1 - cp;
    match m {
        Mechanic::DiscardSelfEnergyPerHeadsExtraDamage { num_coins, energy_type, damage_per_discarded_energy } => {
            let available = match s.slot(cp, 0) {
                Some(c) => count_of(c.attached_energy@, energy_type),
                None => 0,
            };
            Some(by_heads(num_coins as nat, per_heads_paid(fixed, energy_type, available, damage_per_discarded_energy)))
        },
        Mechanic::SelfDiscardAllTypeEnergyAndDamageAnyOpponentPokemon { energy_type, damage } => Some(
            sure(
                hit_then(
                    0,
                    seq![
                        AttackEffect::DiscardOwnActiveEnergyMatching { energy_type: Some(energy_type) },
                        AttackEffect::ChooseDamageTarget { damage, bench_only: false },
                    ],
                ),
            ),
        ),
        Mechanic::SelfDiscardTypeEnergyAndDamageAnyOpponentPokemon { energy_type, count, damage } => Some(
            sure(
                hit_then(
                    0,
                    repeated(AttackEffect::DiscardActiveEnergyOfType { own: true, energy_type }, count as nat)
                        + seq![AttackEffect::ChooseDamageTarget { damage, bench_only: false }],
                ),
            ),
        ),
        Mechanic::SelfDiscardRandomEnergyAndBenchDamage { count, opponent, bench_damage } => {
            let player = if opponent {
                opp
            } else {
                cp
            };
            Some(
                sure(
                    (
                        bench_targets_upto(s.board[player], false, bench_damage, opponent, 4) + seq![
                            (fixed, true, 0usize),
                        ],
                        Seq::empty(),
                        seq![AttackEffect::DiscardRandomActiveEnergy { own: true, count }],
                        Seq::empty(),
                    ),
                ),
            )
        },
        Mechanic::AlsoChoiceBenchDamageIfDamaged { opponent, damage } => Some(
            sure(
                effects_only(
                    seq![
                        AttackEffect::ChooseDamagedBenchDamage {
                            active_damage: fixed,
                            bench_damage: damage,
                            opponent_bench: opponent,
                        },
                    ],
                ),
            ),
        ),
        Mechanic::DamageToAnyOpponentPerTargetEnergy { damage_per_energy } => Some(
            sure(hit_then(0, seq![AttackEffect::ChooseTargetByEnergy { damage_per_energy }])),
        ),
        Mechanic::DiscardRandomOwnEnergy { count } => Some(
            sure(hit_then(fixed, seq![AttackEffect::TakeRandomEnergy { everywhere: false, to_discard: true, count }])),
        ),
        Mechanic::DiscardRandomGlobalEnergy { count } => Some(
            sure(hit_then(fixed, seq![AttackEffect::TakeRandomEnergy { everywhere: true, to_discard: false, count }])),
        ),
        Mechanic::SelfDiscardEnergyAndChoiceBenchDamage { energies, bench_damage } => Some(
            if s.bench_indices(opp).len() == 0 {
                sure(hit_then(fixed, discard_effects(energies@, true)))
            } else {
                sure(
                    effects_only(
                        discard_effects(energies@, true) + seq![
                            AttackEffect::ChooseBenchDamage {
                                active_damage: fixed,
                                bench_damage,
                                opponent_bench: true,
                                num_targets: 1,
                            },
                        ],
                    ),
                )
            },
        ),
        _ => special_mechanic_forecast(s, attack, m),
    }
}

/// The outcomes of `per_heads_paid` for 0 to `n` heads.
fn per_heads_paid_exec(n: usize, fixed: u32, t: EnergyType, available: usize, per: u32) -> (r: Vec<
    AttackOutcome<AttackEffect>,
>)
    requires
        n < 32,
    ensures
        r@.len() == n + 1,
        forall|h: int|
            0 <= h <= n ==> outcome_view(#[trigger] r@[h]) == (per_heads_paid(fixed, t, available as nat, per))(
                h as nat,
            ),
{
    let mut r: Vec<AttackOutcome<AttackEffect>> = Vec::new();
    let mut h: usize = 0;
    while h <= n
        invariant
            n < 32,
            h <= n + 1,
            r@.len() == h,
            forall|k: int|
                0 <= k < h ==> outcome_view(#[trigger] r@[k]) == (per_heads_paid(fixed, t, available as nat, per))(
                    k as nat,
                ),
        decreases n + 1 - h,
    {
        let paid = if h < available {
            h
        } else {
            available
        };
        let d = sat_add_exec(fixed, sat_mul_exec(#[verifier::truncate] (paid as u32), per));
        let mut targets: Vec<DamageTarget> = Vec::new();
        targets.push((d, true, 0));
        let o = AttackOutcome {
            damage: targets,
            pre_damage_effects: repeated_exec(AttackEffect::DiscardActiveEnergyOfType { own: true, energy_type: t }, paid),
            post_damage_effects: Vec::new(),
            survivors_at_10: Vec::new(),
        };
        proof {
            assert(paid < 32);
            assert(outcome_view(o).0 =~= seq![(d, true, 0usize)]);
            assert(outcome_view(o).2 =~= Seq::<AttackEffect>::empty());
            assert(outcome_view(o).3 =~= Seq::<usize>::empty());
        }
        r.push(o);
        h = h + 1;
    }
    r
}

/// The forecast of a mechanic of `forecast_group_n`.
pub fn forecast_mechanic_n(state: &State, attack: &Attack, mechanic: &Mechanic) -> (o: AttackOutcomes<
    AttackEffect,
>)
    requires
        state.wf(),
        coins_in_range(*mechanic),
        forecast_group_n(*mechanic),
    ensures
        o.is_distribution(),
        removal_mechanic_forecast(state@, *attack, *mechanic) == Some(attack_view(o)),
{
    let fixed = attack.fixed_damage;
    let cp = state.current_player;
    let opp = 1 - cp;
    proof {
        assert(state@.board[cp as int] == state.in_play_pokemon@[cp as int]@);
        assert(state@.board[opp as int] == state.in_play_pokemon@[opp as int]@);
    }
    match mechanic {
        Mechanic::DiscardSelfEnergyPerHeadsExtraDamage { num_coins, energy_type, damage_per_discarded_energy } => {
            let available = match &state.in_play_pokemon[cp][0] {
                Some(c) => count_exec(&c.attached_energy, *energy_type),
                None => 0,
            };
            proof {
                let spec_available = match state@.slot(cp as int, 0) {
                    Some(c) => count_of(c.attached_energy@, *energy_type),
                    None => 0,
                };
                assert(available as nat == spec_available);
            }
            let per = per_heads_paid_exec(*num_coins, fixed, *energy_type, available, *damage_per_discarded_energy);
            let r = by_heads_outcomes(
                *num_coins,
                per,
                Ghost(per_heads_paid(fixed, *energy_type, available as nat, *damage_per_discarded_energy)),
            );
            proof {
                assert(attack_view(r) == by_heads(
                    *num_coins as nat,
                    per_heads_paid(fixed, *energy_type, available as nat, *damage_per_discarded_energy),
                ));
                assert(removal_mechanic_forecast(state@, *attack, *mechanic) == Some(attack_view(r)));
            }
            r
        },
        Mechanic::SelfDiscardAllTypeEnergyAndDamageAnyOpponentPokemon { energy_type, damage } => {
            let mut effects: Vec<AttackEffect> = Vec::new();
            effects.push(AttackEffect::DiscardOwnActiveEnergyMatching { energy_type: Some(*energy_type) });
            effects.push(AttackEffect::ChooseDamageTarget { damage: *damage, bench_only: false });
            proof {
                assert(effects@ =~= seq![
                    AttackEffect::DiscardOwnActiveEnergyMatching { energy_type: Some(*energy_type) },
                    AttackEffect::ChooseDamageTarget { damage: *damage, bench_only: false },
                ]);
            }
            sure_outcomes(hit_then_outcome(0, effects))
        },
        Mechanic::SelfDiscardTypeEnergyAndDamageAnyOpponentPokemon { energy_type, count, damage } => {
            let mut effects = repeated_exec(
                AttackEffect::DiscardActiveEnergyOfType { own: true, energy_type: *energy_type },
                *count,
            );
            let ghost first = effects@;
            effects.push(AttackEffect::ChooseDamageTarget { damage: *damage, bench_only: false });
            proof {
                assert(effects@ =~= first + seq![AttackEffect::ChooseDamageTarget { damage: *damage, bench_only: false }]);
            }
            sure_outcomes(hit_then_outcome(0, effects))
        },
        Mechanic::SelfDiscardRandomEnergyAndBenchDamage { count, opponent, bench_damage } => {
            let player = if *opponent {
                opp
            } else {
                cp
            };
            proof {
                assert(state@.board[player as int] == state.in_play_pokemon@[player as int]@);
            }
            let mut targets = bench_targets_exec(&state.in_play_pokemon[player], false, *bench_damage, *opponent);
            let ghost first = targets@;
            targets.push((fixed, true, 0));
            proof {
                assert(targets@ =~= first + seq![(fixed, true, 0usize)]);
            }
            let mut effects: Vec<AttackEffect> = Vec::new();
            effects.push(AttackEffect::DiscardRandomActiveEnergy { own: true, count: *count });
            let o = AttackOutcome {
                damage: targets,
                pre_damage_effects: Vec::new(),
                post_damage_effects: effects,
                survivors_at_10: Vec::new(),
            };
            proof {
                assert(outcome_view(o).1 =~= Seq::<AttackEffect>::empty());
                assert(outcome_view(o).2 =~= seq![AttackEffect::DiscardRandomActiveEnergy { own: true, count: *count }]);
                assert(outcome_view(o).3 =~= Seq::<usize>::empty());
            }
            sure_outcomes(o)
        },
        Mechanic::AlsoChoiceBenchDamageIfDamaged { opponent, damage } => sure_outcomes(
            effect_only_outcome(
                AttackEffect::ChooseDamagedBenchDamage {
                    active_damage: fixed,
                    bench_damage: *damage,
                    opponent_bench: *opponent,
                },
            ),
        ),
        Mechanic::DamageToAnyOpponentPerTargetEnergy { damage_per_energy } => sure_outcomes(
            crate::apply_attack_action::hit_then_one(
                0,
                AttackEffect::ChooseTargetByEnergy { damage_per_energy: *damage_per_energy },
            ),
        ),
        Mechanic::DiscardRandomOwnEnergy { count } => sure_outcomes(
            crate::apply_attack_action::hit_then_one(
                fixed,
                AttackEffect::TakeRandomEnergy { everywhere: false, to_discard: true, count: *count },
            ),
        ),
        Mechanic::DiscardRandomGlobalEnergy { count } => sure_outcomes(
            crate::apply_attack_action::hit_then_one(
                fixed,
                AttackEffect::TakeRandomEnergy { everywhere: true, to_discard: false, count: *count },
            ),
        ),
        Mechanic::SelfDiscardEnergyAndChoiceBenchDamage { energies, bench_damage } => {
            let bench = state.enumerate_bench_pokemon(opp);
            let mut effects = discard_effects_exec(energies, true);
            if bench.len() == 0 {
                sure_outcomes(hit_then_outcome(fixed, effects))
            } else {
                let ghost first = effects@;
                effects.push(
                    AttackEffect::ChooseBenchDamage {
                        active_damage: fixed,
                        bench_damage: *bench_damage,
                        opponent_bench: true,
                        num_targets: 1,
                    },
                );
                let o = AttackOutcome {
                    damage: Vec::new(),
                    pre_damage_effects: Vec::new(),
                    post_damage_effects: effects,
                    survivors_at_10: Vec::new(),
                };
                proof {
                    assert(effects@ =~= first + seq![
                        AttackEffect::ChooseBenchDamage {
                            active_damage: fixed,
                            bench_damage: *bench_damage,
                            opponent_bench: true,
                            num_targets: 1,
                        },
                    ]) by {
                        assert(outcome_view(o).2 == effects@);
                    }
                    assert(outcome_view(o).0 =~= Seq::<DamageTarget>::empty());
                    assert(outcome_view(o).1 =~= Seq::<AttackEffect>::empty());
                    assert(outcome_view(o).3 =~= Seq::<usize>::empty());
                }
                sure_outcomes(o)
            }
        },
        _ => {
            proof {
                assert(false);
            }
            sure_outcomes(crate::apply_attack_action::hit_outcome(fixed))
        },
    }
}

} // verus!
