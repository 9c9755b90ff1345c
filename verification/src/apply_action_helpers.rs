use vstd::prelude::*;

use crate::abilities::AbilityMechanic;
use crate::card_ids::CardId;
use crate::models::{
    Card, EnergyType, GameOutcome, PlayedCard, StatusCondition, TrainerCard, TrainerType, TurnEffect,
};
use crate::state::{occupied_from, status_added, Action, SimpleAction, State, StateView};

verus! {

// ---------------------------------------------------------------------------------------------
// Abilities read by the damage rules
// ---------------------------------------------------------------------------------------------

/// The ability mechanic of a Pokémon in play.
pub open spec fn ability_of(c: PlayedCard) -> Option<AbilityMechanic> {
    c.card.ability_spec()
}

/// Mimikyu ex's Disguise: the first damage from an attack after it enters play is prevented.
pub open spec fn has_prevent_first_attack(c: PlayedCard) -> bool {
    ability_of(c) matches Some(AbilityMechanic::PreventFirstAttack)
}

/// Damage the Pokémon deals back to the Attacking Pokémon when it is damaged in the Active Spot.
pub open spec fn counterattack_spec(c: PlayedCard) -> u32 {
    match ability_of(c) {
        Some(AbilityMechanic::CounterattackDamage { amount }) => amount,
        _ => 0,
    }
}

/// Damage the Pokémon deals back to the Attacking Pokémon when it is Knocked Out.
pub open spec fn knockout_counterattack_spec(c: PlayedCard) -> u32 {
    match ability_of(c) {
        Some(AbilityMechanic::CounterattackDamageOnKnockout { amount }) => amount,
        _ => 0,
    }
}

/// The Pokémon poisons the Attacking Pokémon when it is damaged in the Active Spot.
pub open spec fn poisons_attacker(c: PlayedCard) -> bool {
    ability_of(c) matches Some(AbilityMechanic::PoisonAttackerOnDamaged)
}

/// Nihilego's More Poison: +10 poison damage to the opponent's Active Pokémon.
pub open spec fn is_more_poison(slot: Option<PlayedCard>) -> bool {
    &&& slot matches Some(c)
    &&& ability_of(c) matches Some(AbilityMechanic::IncreasePoisonDamage { amount })
    &&& amount == 10
}

/// How many of the first `n` slots of a side hold a Pokémon with More Poison.
pub open spec fn count_more_poison(side: Seq<Option<PlayedCard>>, n: int) -> nat
    decreases n,
{
    if n <= 0 {
        0
    } else {
        count_more_poison(side, n - 1) + if is_more_poison(side[n - 1]) {
            1nat
        } else {
            0nat
        }
    }
}

/// Poison damage taken during Pokémon Checkup by the Pokémon in `(player, idx)`: 10, plus 10
/// for each of the opponent's Pokémon with More Poison when the poisoned Pokémon is Active.
pub open spec fn poison_damage_spec(s: StateView, player: int, idx: int) -> u32 {
    if idx != 0 {
        10
    } else {
        (10 + 10 * count_more_poison(s.board[1 - player], 4)) as u32
    }
}

// ---------------------------------------------------------------------------------------------
// Damage
// ---------------------------------------------------------------------------------------------

/// `a + b` capped at `u32::MAX`.
pub open spec fn add_capped(a: u32, b: u32) -> u32 {
    if a + b > u32::MAX {
        u32::MAX
    } else {
        (a + b) as u32
    }
}

/// Weakness: an attack from the Active Pokémon to the opponent's Active Pokémon of a type that
/// Pokémon is weak to does +20 damage. Any other damage is dealt as it is.
pub open spec fn modify_damage_spec(
    s: StateView,
    attacker: (usize, usize),
    target: (u32, usize, usize),
    is_from_active_attack: bool,
) -> u32 {
    let (damage, tp, ti) = target;
    if damage > 0 && is_from_active_attack && ti == 0 && tp != attacker.0 && weak_to_attacker(
        s,
        attacker,
        tp as int,
    ) {
        add_capped(damage, 20)
    } else {
        damage
    }
}

/// The Active Pokémon of `tp` is weak to the type of the attacking Pokémon.
pub open spec fn weak_to_attacker(s: StateView, attacker: (usize, usize), tp: int) -> bool {
    &&& s.slot(attacker.0 as int, attacker.1 as int) is Some
    &&& s.slot(tp, 0) matches Some(defender)
    &&& defender.card matches Card::Pokemon(card)
    &&& card.weakness is Some
    &&& card.weakness == s.slot(attacker.0 as int, attacker.1 as int)->0.card.energy_type_spec()
}

/// Index of the first entry of `acc` aimed at `(player, idx)`, or -1.
pub open spec fn find_target(acc: Seq<(u32, usize, usize)>, player: usize, idx: usize) -> int
    decreases acc.len(),
{
    if acc.len() == 0 {
        -1
    } else {
        let j = find_target(acc.drop_last(), player, idx);
        if j >= 0 {
            j
        } else if acc.last().1 == player && acc.last().2 == idx {
            acc.len() - 1
        } else {
            -1
        }
    }
}

/// Total damage the list deals to the Pokémon in `(player, idx)`.
pub open spec fn damage_to(ts: Seq<(u32, usize, usize)>, player: usize, idx: usize) -> int
    decreases ts.len(),
{
    if ts.len() == 0 {
        0
    } else {
        damage_to(ts.drop_last(), player, idx) + if ts.last().1 == player && ts.last().2 == idx {
            ts.last().0 as int
        } else {
            0
        }
    }
}

/// The damage dealt to each Pokémon, summed over the list, fits in a `u32`.
pub open spec fn targets_fit(ts: Seq<(u32, usize, usize)>) -> bool {
    forall|player: usize, idx: usize| #[trigger] damage_to(ts, player, idx) <= u32::MAX
}

/// The target list with the damage to each Pokémon summed into one entry, in the order in which
/// each Pokémon first appears.
pub open spec fn merge_targets(ts: Seq<(u32, usize, usize)>) -> Seq<(u32, usize, usize)>
    decreases ts.len(),
{
    if ts.len() == 0 {
        Seq::empty()
    } else {
        let acc = merge_targets(ts.drop_last());
        let t = ts.last();
        let j = find_target(acc, t.1, t.2);
        if j >= 0 {
            acc.update(j, ((acc[j].0 + t.0) as u32, t.1, t.2))
        } else {
            acc.push(t)
        }
    }
}

/// One Pokémon in play replaced by what `f` makes of it (no change for an empty slot).
pub open spec fn map_slot(
    s: StateView,
    player: int,
    idx: int,
    f: spec_fn(PlayedCard) -> PlayedCard,
) -> StateView {
    match s.slot(player, idx) {
        Some(c) => s.with_slot(player, idx, Some(f(c))),
        None => s,
    }
}

/// Whether Disguise stops this damage (`(tp, ti)` is the target).
pub open spec fn disguise_applies(s: StateView, tp: int, ti: int, is_from_active_attack: bool) -> bool {
    &&& is_from_active_attack
    &&& s.slot(tp, ti) matches Some(c)
    &&& !c.prevent_first_attack_damage_used
    &&& has_prevent_first_attack(c)
}

/// The state after resolving one (already modified) damage target, except for the choices that
/// Bouncy Body offers (see `bouncy_body_pushes`).
pub open spec fn damage_step(
    s: StateView,
    attacker: (usize, usize),
    t: (u32, usize, usize),
    is_from_active_attack: bool,
) -> StateView {
    let (damage, tp, ti) = t;
    if disguise_applies(s, tp as int, ti as int, is_from_active_attack) {
        map_slot(
            s,
            tp as int,
            ti as int,
            |c: PlayedCard| PlayedCard { prevent_first_attack_damage_used: true, ..c },
        )
    } else if damage == 0 || s.slot(tp as int, ti as int) is None {
        s
    } else {
        let s2 = map_slot(s, tp as int, ti as int, |c: PlayedCard| c.damaged_spec(damage));
        if !(is_from_active_attack && ti == 0) {
            s2
        } else {
            let c2 = s2.slot(tp as int, ti as int)->0;
            let counter = counterattack_spec(c2);
            let ko_counter = if c2.remaining_hp == 0 && attacker.0 != tp {
                knockout_counterattack_spec(c2)
            } else {
                0
            };
            let s3 = if counter > 0 {
                map_slot(s2, attacker.0 as int, 0, |c: PlayedCard| c.damaged_spec(counter))
            } else {
                s2
            };
            let s4 = if ko_counter > 0 {
                map_slot(s3, attacker.0 as int, 0, |c: PlayedCard| c.damaged_spec(ko_counter))
            } else {
                s3
            };
            if poisons_attacker(c2) {
                map_slot(
                    s4,
                    attacker.0 as int,
                    0,
                    |c: PlayedCard| status_added(c, StatusCondition::Poisoned),
                )
            } else {
                s4
            }
        }
    }
}

/// Resolves the targets one after the other.
pub open spec fn damage_fold(
    s: StateView,
    attacker: (usize, usize),
    ts: Seq<(u32, usize, usize)>,
    is_from_active_attack: bool,
) -> StateView
    decreases ts.len(),
{
    if ts.len() == 0 {
        s
    } else {
        damage_step(
            damage_fold(s, attacker, ts.drop_last(), is_from_active_attack),
            attacker,
            ts.last(),
            is_from_active_attack,
        )
    }
}

/// The targets after damage modifiers, all computed on the board before any damage is dealt.
pub open spec fn modified_targets(
    s: StateView,
    attacker: (usize, usize),
    ts: Seq<(u32, usize, usize)>,
    is_from_active_attack: bool,
) -> Seq<(u32, usize, usize)> {
    ts.map_values(
        |t: (u32, usize, usize)|
            (modify_damage_spec(s, attacker, t, is_from_active_attack), t.1, t.2),
    )
}

/// The state after `handle_damage_only`, except for the choices Bouncy Body offers.
pub open spec fn damage_only_spec(
    s: StateView,
    attacker: (usize, usize),
    ts: Seq<(u32, usize, usize)>,
    is_from_active_attack: bool,
) -> StateView {
    damage_fold(
        s,
        attacker,
        modified_targets(s, attacker, merge_targets(ts), is_from_active_attack),
        is_from_active_attack,
    )
}

/// `b` equals `a` but for the move-generation stack.
pub open spec fn same_but_stack(a: StateView, b: StateView) -> bool {
    StateView { move_generation_stack: b.move_generation_stack, ..a } == b
}

/// A choice offered by Bouncy Body: attach one Energy to one of the Benched slots.
pub open spec fn is_bench_attach_choice(a: SimpleAction) -> bool {
    &&& a matches SimpleAction::Attach { attachments, is_turn_energy }
    &&& !is_turn_energy
    &&& attachments@.len() == 1
    &&& attachments@[0].0 == 1
    &&& 1 <= attachments@[0].2 < 4
}

/// Every entry that was pushed on top of `old` is a Bouncy Body choice for some player.
pub open spec fn only_bouncy_pushes(
    old: Seq<(usize, Vec<SimpleAction>)>,
    new: Seq<(usize, Vec<SimpleAction>)>,
) -> bool {
    &&& old.len() <= new.len()
    &&& new.subrange(0, old.len() as int) == old
    &&& forall|k: int|
        old.len() <= k < new.len() ==> {
            let (player, choices) = #[trigger] new[k];
            &&& player < 2
            &&& choices@.len() > 0
            &&& forall|m: int| 0 <= m < choices@.len() ==> is_bench_attach_choice(#[trigger] choices@[m])
        }
}

/// All target coordinates are on the board.
pub open spec fn targets_in_range(ts: Seq<(u32, usize, usize)>) -> bool {
    forall|k: int| 0 <= k < ts.len() ==> (#[trigger] ts[k]).1 < 2 && ts[k].2 < 4
}

// ---------------------------------------------------------------------------------------------
// Slot operations
// ---------------------------------------------------------------------------------------------

/// Deals `damage` to the Pokémon in a slot (nothing happens to an empty slot).
pub fn damage_slot(state: &mut State, player: usize, idx: usize, damage: u32)
    requires
        old(state).wf(),
        player < 2,
        idx < 4,
    ensures
        final(state).wf(),
        final(state)@ == map_slot(old(state)@, player as int, idx as int, |c: PlayedCard| c.damaged_spec(damage)),
{
    let slot = &mut state.in_play_pokemon[player][idx];
    match slot {
        Some(pokemon) => pokemon.apply_damage(damage),
        None => {},
    }
    proof {
        let f = |c: PlayedCard| c.damaged_spec(damage);
        if old(state)@.slot(player as int, idx as int) is Some {
            assert(state@.board =~~= old(state)@.with_slot(
                player as int,
                idx as int,
                Some(f(old(state)@.slot(player as int, idx as int)->0)),
            ).board);
        } else {
            assert(state@.board =~~= old(state)@.board);
        }
    }
}

/// Heals `amount` damage from the Pokémon in a slot (nothing happens to an empty slot).
pub fn heal_slot(state: &mut State, player: usize, idx: usize, amount: u32)
    requires
        old(state).wf(),
        player < 2,
        idx < 4,
    ensures
        final(state).wf(),
        final(state)@ == map_slot(old(state)@, player as int, idx as int, |c: PlayedCard| c.healed_spec(amount)),
{
    let slot = &mut state.in_play_pokemon[player][idx];
    match slot {
        Some(pokemon) => pokemon.heal(amount),
        None => {},
    }
    proof {
        let f = |c: PlayedCard| c.healed_spec(amount);
        if old(state)@.slot(player as int, idx as int) is Some {
            assert(state@.board =~~= old(state)@.with_slot(
                player as int,
                idx as int,
                Some(f(old(state)@.slot(player as int, idx as int)->0)),
            ).board);
        } else {
            assert(state@.board =~~= old(state)@.board);
        }
    }
}

/// Removes a status condition from the Pokémon in a slot (nothing happens to an empty slot).
pub fn clear_status_slot(state: &mut State, player: usize, idx: usize, condition: StatusCondition)
    requires
        old(state).wf(),
        player < 2,
        idx < 4,
    ensures
        final(state).wf(),
        final(state)@ == map_slot(old(state)@, player as int, idx as int, |c: PlayedCard| c.cleared_spec(condition)),
{
    let slot = &mut state.in_play_pokemon[player][idx];
    match slot {
        Some(pokemon) => pokemon.clear_status_condition(condition),
        None => {},
    }
    proof {
        let f = |c: PlayedCard| c.cleared_spec(condition);
        if old(state)@.slot(player as int, idx as int) is Some {
            assert(state@.board =~~= old(state)@.with_slot(
                player as int,
                idx as int,
                Some(f(old(state)@.slot(player as int, idx as int)->0)),
            ).board);
        } else {
            assert(state@.board =~~= old(state)@.board);
        }
    }
}


/// Every index listed by `occupied_from` is a slot at or after `from` that holds a Pokémon, and
/// the list is strictly increasing.
pub proof fn lemma_occupied_from(side: Seq<Option<PlayedCard>>, from: int)
    requires
        0 <= from,
        side.len() <= 1024,
    ensures
        forall|k: int|
            0 <= k < occupied_from(side, from).len() ==> from <= #[trigger] occupied_from(side, from)[k]
                < side.len() && side[occupied_from(side, from)[k] as int] is Some,
        forall|k: int, m: int|
            0 <= k < m < occupied_from(side, from).len() ==> #[trigger] occupied_from(side, from)[k]
                < #[trigger] occupied_from(side, from)[m],
        forall|i: int| from <= i < side.len() && side[i] is Some ==> occupied_from(side, from).contains(i as usize),
    decreases side.len() - from,
{
    if from < side.len() {
        lemma_occupied_from(side, from + 1);
        let rest = occupied_from(side, from + 1);
        if side[from] is Some {
            let all = seq![from as usize] + rest;
            assert(occupied_from(side, from) == all);
            assert forall|k: int| 0 < k < all.len() implies all[k] == rest[k - 1] by {}
            assert forall|i: int| from <= i < side.len() && side[i] is Some implies all.contains(i as usize) by {
                if i == from {
                    assert(all[0] == i as usize);
                } else {
                    let k = choose|k: int| 0 <= k < rest.len() && rest[k] == i as usize;
                    assert(all[k + 1] == i as usize);
                }
            }
        }
    }
}

/// The Energy type Bouncy Body attaches for the Active Pokémon of `player`, if it has the ability.
pub open spec fn bouncy_energy(s: StateView, player: int) -> Option<EnergyType> {
    match s.slot(player, 0) {
        Some(c) => match ability_of(c) {
            Some(AbilityMechanic::AttachEnergyFromZoneToBenchedOnDamaged { energy_type }) => Some(
                energy_type,
            ),
            _ => None,
        },
        None => None,
    }
}

/// `a` attaches exactly one Energy of type `energy` to in-play slot `idx`.
pub open spec fn attach_one_choice(a: SimpleAction, energy: EnergyType, idx: usize) -> bool {
    &&& a matches SimpleAction::Attach { attachments, is_turn_energy }
    &&& !is_turn_energy
    &&& attachments@ == seq![(1u32, energy, idx)]
}

/// What Bouncy Body does to the move-generation stack for `player`: when that player's Active
/// Pokémon has the ability and they have Benched Pokémon, one new entry for that player offering
/// to attach one Energy of the ability's type to each Benched Pokémon; nothing otherwise.
pub open spec fn bouncy_body_stack(
    s: StateView,
    player: int,
    new_stack: Seq<(usize, Vec<SimpleAction>)>,
) -> bool {
    if bouncy_energy(s, player) is Some && s.bench_indices(player).len() > 0 {
        let e = bouncy_energy(s, player)->0;
        let bench = s.bench_indices(player);
        &&& new_stack.len() == s.move_generation_stack.len() + 1
        &&& new_stack.subrange(0, s.move_generation_stack.len() as int) == s.move_generation_stack
        &&& new_stack.last().0 == player
        &&& new_stack.last().1@.len() == bench.len()
        &&& forall|m: int|
            0 <= m < bench.len() ==> attach_one_choice(#[trigger] new_stack.last().1@[m], e, bench[m])
    } else {
        new_stack == s.move_generation_stack
    }
}

/// Jellicent's Bouncy Body: the Active Pokémon of `target_player` was just damaged by an attack
/// of the opponent's Pokémon, so its owner may attach an Energy from their Energy Zone to one of
/// their Benched Pokémon. The choice is queued before Knock Outs resolve, so the Bench is intact.
pub fn apply_bouncy_body(state: &mut State, target_player: usize)
    requires
        old(state).wf(),
        target_player < 2,
    ensures
        final(state).wf(),
        same_but_stack(old(state)@, final(state)@),
        bouncy_body_stack(old(state)@, target_player as int, final(state)@.move_generation_stack),
        only_bouncy_pushes(old(state)@.move_generation_stack, final(state)@.move_generation_stack),
{
    let energy: Option<EnergyType> = match state.in_play_pokemon[target_player][0].as_ref() {
        Some(active) => match active.card.get_ability() {
            Some(AbilityMechanic::AttachEnergyFromZoneToBenchedOnDamaged { energy_type }) => Some(
                *energy_type,
            ),
            _ => None,
        },
        None => None,
    };
    let energy_type = match energy {
        Some(e) => e,
        None => {
            proof {
                lemma_only_bouncy_pushes_refl(state@.move_generation_stack);
            }
            return ;
        },
    };
    let bench = state.enumerate_bench_pokemon(target_player);
    proof {
        lemma_occupied_from(state@.board[target_player as int], 1);
    }
    let mut choices: Vec<SimpleAction> = Vec::new();
    let mut k: usize = 0;
    while k < bench.len()
        invariant
            k <= bench.len(),
            choices@.len() == k,
            forall|m: int| 0 <= m < k ==> attach_one_choice(#[trigger] choices@[m], energy_type, bench@[m]),
        decreases bench.len() - k,
    {
        let mut attachments: Vec<(u32, EnergyType, usize)> = Vec::new();
        attachments.push((1, energy_type, bench[k]));
        choices.push(SimpleAction::Attach { attachments, is_turn_energy: false });
        k = k + 1;
    }
    if choices.len() == 0 {
        proof {
            lemma_only_bouncy_pushes_refl(state@.move_generation_stack);
        }
        return ;
    }
    let ghost old_stack = state.move_generation_stack@;
    state.move_generation_stack.push((target_player, choices));
    proof {
        let new_stack = state.move_generation_stack@;
        assert(new_stack.subrange(0, old_stack.len() as int) =~= old_stack);
        assert forall|m: int| 0 <= m < new_stack.last().1@.len() implies is_bench_attach_choice(
            #[trigger] new_stack.last().1@[m],
        ) by {
            assert(attach_one_choice(new_stack.last().1@[m], energy_type, bench@[m]));
        }
    }
}

/// An unchanged stack has no pushes.
pub proof fn lemma_only_bouncy_pushes_refl(a: Seq<(usize, Vec<SimpleAction>)>)
    ensures
        only_bouncy_pushes(a, a),
{
    assert(a.subrange(0, a.len() as int) =~= a);
}

/// Pushes onto the stack only keep `only_bouncy_pushes` when each new part does.
pub proof fn lemma_only_bouncy_pushes_trans(
    a: Seq<(usize, Vec<SimpleAction>)>,
    b: Seq<(usize, Vec<SimpleAction>)>,
    c: Seq<(usize, Vec<SimpleAction>)>,
)
    requires
        only_bouncy_pushes(a, b),
        only_bouncy_pushes(b, c),
    ensures
        only_bouncy_pushes(a, c),
{
    assert(c.subrange(0, a.len() as int) =~= b.subrange(0, a.len() as int));
    assert forall|k: int| a.len() <= k < c.len() implies ({
        let (player, choices) = #[trigger] c[k];
        &&& player < 2
        &&& choices@.len() > 0
        &&& forall|m: int| 0 <= m < choices@.len() ==> is_bench_attach_choice(#[trigger] choices@[m])
    }) by {
        if k < b.len() {
            assert(c[k] == c.subrange(0, b.len() as int)[k]);
        }
    }
}

/// Disguise (Mimikyu ex): prevents the first damage from an attack the Pokémon takes after
/// entering play. Returns whether it applied; if so, it is used up.
fn checkapply_prevent_first_attack(
    state: &mut State,
    target_player: usize,
    target_pokemon_idx: usize,
    is_from_active_attack: bool,
) -> (applied: bool)
    requires
        old(state).wf(),
        target_player < 2,
        target_pokemon_idx < 4,
    ensures
        final(state).wf(),
        applied == disguise_applies(
            old(state)@,
            target_player as int,
            target_pokemon_idx as int,
            is_from_active_attack,
        ),
        final(state)@ == if applied {
            map_slot(
                old(state)@,
                target_player as int,
                target_pokemon_idx as int,
                |c: PlayedCard| PlayedCard { prevent_first_attack_damage_used: true, ..c },
            )
        } else {
            old(state)@
        },
{
    if !is_from_active_attack {
        return false;
    }
    let applies = match state.in_play_pokemon[target_player][target_pokemon_idx].as_ref() {
        Some(target_pokemon) => !target_pokemon.prevent_first_attack_damage_used && match target_pokemon.card.get_ability() {
            Some(AbilityMechanic::PreventFirstAttack) => true,
            _ => false,
        },
        None => false,
    };
    if !applies {
        return false;
    }
    let slot = &mut state.in_play_pokemon[target_player][target_pokemon_idx];
    match slot {
        Some(target_pokemon) => {
            target_pokemon.prevent_first_attack_damage_used = true;
        },
        None => {},
    }
    proof {
        let f = |c: PlayedCard| PlayedCard { prevent_first_attack_damage_used: true, ..c };
        assert(state@.board =~~= old(state)@.with_slot(
            target_player as int,
            target_pokemon_idx as int,
            Some(f(old(state)@.slot(target_player as int, target_pokemon_idx as int)->0)),
        ).board);
    }
    true
}

/// Damage after modifiers (see `modify_damage_spec`).
pub fn modify_damage(
    state: &State,
    attacking_ref: (usize, usize),
    target: (u32, usize, usize),
    is_from_active_attack: bool,
) -> (r: u32)
    requires
        state.wf(),
        attacking_ref.0 < 2,
        attacking_ref.1 < 4,
        target.1 < 2,
    ensures
        r == modify_damage_spec(state@, attacking_ref, target, is_from_active_attack),
{
    let (damage, tp, ti) = target;
    if !(damage > 0 && is_from_active_attack && ti == 0 && tp != attacking_ref.0) {
        return damage;
    }
    let attacker_type = match state.in_play_pokemon[attacking_ref.0][attacking_ref.1].as_ref() {
        Some(attacker) => attacker.card.energy_type(),
        None => {
            return damage;
        },
    };
    let weakness = match state.in_play_pokemon[tp][0].as_ref() {
        Some(defender) => match &defender.card {
            Card::Pokemon(card) => card.weakness,
            Card::Trainer(_) => None,
        },
        None => None,
    };
    let weak = match (weakness, attacker_type) {
        (Some(w), Some(a)) => w == a,
        _ => false,
    };
    if weak {
        if damage <= u32::MAX - 20 {
            damage + 20
        } else {
            u32::MAX
        }
    } else {
        damage
    }
}

/// Resolves one damage target: Disguise, the damage itself, and — for an attack on the Active
/// Pokémon — counterattacks, Poison Barb and Bouncy Body. Knock Outs are not resolved here.
fn apply_damage_to_target(
    state: &mut State,
    attacking_ref: (usize, usize),
    target: (u32, usize, usize),
    is_from_active_attack: bool,
)
    requires
        old(state).wf(),
        attacking_ref.0 < 2,
        attacking_ref.1 < 4,
        target.1 < 2,
        target.2 < 4,
    ensures
        final(state).wf(),
        same_but_stack(
            damage_step(old(state)@, attacking_ref, target, is_from_active_attack),
            final(state)@,
        ),
        only_bouncy_pushes(old(state)@.move_generation_stack, final(state)@.move_generation_stack),
        !is_from_active_attack ==> final(state)@.move_generation_stack == old(state)@.move_generation_stack,
{
    let (damage, target_player, target_pokemon_idx) = target;
    let attacking_player = attacking_ref.0;
    let ghost s0 = state@;
    let applied = checkapply_prevent_first_attack(
        state,
        target_player,
        target_pokemon_idx,
        is_from_active_attack,
    );
    if applied || damage == 0 || state.in_play_pokemon[target_player][target_pokemon_idx].is_none() {
        proof {
            assert(state@.move_generation_stack.subrange(0, s0.move_generation_stack.len() as int) =~= s0.move_generation_stack);
        }
        return ;
    }
    damage_slot(state, target_player, target_pokemon_idx, damage);
    if !(is_from_active_attack && target_pokemon_idx == 0) {
        proof {
            assert(state@.move_generation_stack.subrange(0, s0.move_generation_stack.len() as int) =~= s0.move_generation_stack);
        }
        return ;
    }
    let ghost s2 = state@;
    let (counter_damage, should_poison, knockout_counter_damage) = {
        let target_pokemon = state.in_play_pokemon[target_player][target_pokemon_idx].as_ref().unwrap();
        let counter: u32 = match target_pokemon.card.get_ability() {
            Some(AbilityMechanic::CounterattackDamage { amount }) => *amount,
            _ => 0,
        };
        let poison = match target_pokemon.card.get_ability() {
            Some(AbilityMechanic::PoisonAttackerOnDamaged) => true,
            _ => false,
        };
        let ko_counter: u32 = if target_pokemon.get_remaining_hp() == 0 && attacking_player
            != target_player {
            match target_pokemon.card.get_ability() {
                Some(AbilityMechanic::CounterattackDamageOnKnockout { amount }) => *amount,
                _ => 0,
            }
        } else {
            0
        };
        (counter, poison, ko_counter)
    };
    if counter_damage > 0 {
        damage_slot(state, attacking_player, 0, counter_damage);
    }
    if knockout_counter_damage > 0 {
        damage_slot(state, attacking_player, 0, knockout_counter_damage);
    }
    if should_poison {
        let ghost s4 = state@;
        state.apply_status_condition(attacking_player, 0, StatusCondition::Poisoned);
        proof {
            if s4.slot(attacking_player as int, 0) is None {
                assert(state@.board =~~= s4.board);
            }
        }
    }
    let ghost s5 = state@;
    if attacking_player != target_player {
        apply_bouncy_body(state, target_player);
        proof {
            assert(only_bouncy_pushes(s5.move_generation_stack, state@.move_generation_stack));
            assert(s5.move_generation_stack == s0.move_generation_stack);
        }
    } else {
        proof {
            assert(state@.move_generation_stack.subrange(0, s0.move_generation_stack.len() as int) =~= s0.move_generation_stack);
        }
    }
}


/// The entry is aimed at `(player, idx)`.
pub open spec fn aims_at(t: (u32, usize, usize), player: usize, idx: usize) -> bool {
    t.1 == player && t.2 == idx
}

/// `find_target` finds the first entry aimed at `(player, idx)`.
pub proof fn lemma_find_target(acc: Seq<(u32, usize, usize)>, player: usize, idx: usize)
    ensures
        -1 <= find_target(acc, player, idx) < acc.len(),
        find_target(acc, player, idx) == -1 <==> forall|m: int|
            0 <= m < acc.len() ==> !aims_at(#[trigger] acc[m], player, idx),
        find_target(acc, player, idx) >= 0 ==> aims_at(acc[find_target(acc, player, idx)], player, idx),
        forall|m: int|
            0 <= m < find_target(acc, player, idx) ==> !aims_at(#[trigger] acc[m], player, idx),
    decreases acc.len(),
{
    if acc.len() > 0 {
        let d = acc.drop_last();
        lemma_find_target(d, player, idx);
        assert forall|m: int| 0 <= m < acc.len() - 1 implies acc[m] == #[trigger] d[m] by {}
        let j = find_target(d, player, idx);
        if j >= 0 {
            assert(acc[j] == d[j]);
            assert forall|m: int| 0 <= m < j implies !aims_at(#[trigger] acc[m], player, idx) by {
                assert(acc[m] == d[m]);
            }
        } else if aims_at(acc.last(), player, idx) {
            assert(acc.last() == acc[acc.len() - 1]);
            assert forall|m: int| 0 <= m < acc.len() - 1 implies !aims_at(#[trigger] acc[m], player, idx) by {
                assert(acc[m] == d[m]);
            }
        } else {
            assert forall|m: int| 0 <= m < acc.len() implies !aims_at(#[trigger] acc[m], player, idx) by {
                if m < acc.len() - 1 {
                    assert(acc[m] == d[m]);
                } else {
                    assert(acc[m] == acc.last());
                }
            }
        }
    }
}

/// Position of the first entry aimed at `(player, idx)`.
fn find_target_index(acc: &Vec<(u32, usize, usize)>, player: usize, idx: usize) -> (r: Option<usize>)
    ensures
        match r {
            Some(j) => j as int == find_target(acc@, player, idx),
            None => find_target(acc@, player, idx) == -1,
        },
{
    proof {
        lemma_find_target(acc@, player, idx);
    }
    let mut j: usize = 0;
    while j < acc.len()
        invariant
            j <= acc.len(),
            forall|m: int| 0 <= m < j ==> !aims_at(#[trigger] acc@[m], player, idx),
        decreases acc.len() - j,
    {
        if acc[j].1 == player && acc[j].2 == idx {
            proof {
                lemma_find_target(acc@, player, idx);
                assert(aims_at(acc@[j as int], player, idx));
                let f = find_target(acc@, player, idx);
                if f >= 0 && f < j {
                    assert(aims_at(acc@[f], player, idx));
                }
            }
            return Some(j);
        }
        j = j + 1;
    }
    None
}

/// Damage sums only grow along prefixes.
pub proof fn lemma_damage_to_prefix(ts: Seq<(u32, usize, usize)>, n: int, player: usize, idx: usize)
    requires
        0 <= n <= ts.len(),
    ensures
        0 <= damage_to(ts.subrange(0, n), player, idx) <= damage_to(ts, player, idx),
    decreases ts.len(),
{
    if ts.len() > 0 {
        if n == ts.len() {
            assert(ts.subrange(0, n) =~= ts);
            lemma_damage_to_prefix(ts.drop_last(), n - 1, player, idx);
            assert(ts.drop_last().subrange(0, n - 1) =~= ts.drop_last());
        } else {
            lemma_damage_to_prefix(ts.drop_last(), n, player, idx);
            assert(ts.drop_last().subrange(0, n) =~= ts.subrange(0, n));
        }
    }
}

/// Facts about merging: merged entries are on the board when the targets are, each Pokémon gets
/// one entry holding its summed damage, and a Pokémon without an entry takes no damage.
pub proof fn lemma_merge_targets(ts: Seq<(u32, usize, usize)>)
    requires
        targets_in_range(ts),
        targets_fit(ts),
    ensures
        targets_in_range(merge_targets(ts)),
        forall|j: int|
            0 <= j < merge_targets(ts).len() ==> (#[trigger] merge_targets(ts)[j]).0 == damage_to(
                ts,
                merge_targets(ts)[j].1,
                merge_targets(ts)[j].2,
            ),
        forall|j: int, k: int|
            0 <= j < k < merge_targets(ts).len() ==> !aims_at(
                #[trigger] merge_targets(ts)[j],
                (#[trigger] merge_targets(ts)[k]).1,
                merge_targets(ts)[k].2,
            ),
        forall|player: usize, idx: usize|
            find_target(merge_targets(ts), player, idx) == -1 ==> #[trigger] damage_to(ts, player, idx) == 0,
    decreases ts.len(),
{
    if ts.len() > 0 {
        let prefix = ts.drop_last();
        assert forall|k: int| 0 <= k < prefix.len() implies (#[trigger] prefix[k]).1 < 2 && prefix[k].2 < 4 by {
            assert(prefix[k] == ts[k]);
        }
        assert forall|player: usize, idx: usize| #[trigger] damage_to(prefix, player, idx) <= u32::MAX by {
            lemma_damage_to_prefix(ts, ts.len() - 1, player, idx);
            assert(ts.subrange(0, ts.len() - 1) =~= prefix);
            assert(damage_to(ts, player, idx) <= u32::MAX);
        }
        lemma_merge_targets(prefix);
        let acc = merge_targets(prefix);
        let t = ts.last();
        assert(t == ts[ts.len() - 1]);
        lemma_find_target(acc, t.1, t.2);
        let m = merge_targets(ts);
        let j = find_target(acc, t.1, t.2);
        assert(damage_to(ts, t.1, t.2) <= u32::MAX);
        assert forall|player: usize, idx: usize| !(player == t.1 && idx == t.2) implies #[trigger] damage_to(
            ts,
            player,
            idx,
        ) == damage_to(prefix, player, idx) by {}
        if j >= 0 {
            assert(m == acc.update(j, ((acc[j].0 + t.0) as u32, t.1, t.2)));
            assert forall|k: int| 0 <= k < m.len() implies (#[trigger] m[k]).0 == damage_to(ts, m[k].1, m[k].2) by {
                if k != j {
                    assert(m[k] == acc[k]);
                    if k < j {
                        assert(!aims_at(acc[k], t.1, t.2));
                    } else {
                        assert(!aims_at(acc[j], acc[k].1, acc[k].2));
                    }
                }
            }
            assert forall|player: usize, idx: usize|
                find_target(m, player, idx) == -1 implies #[trigger] damage_to(ts, player, idx) == 0 by {
                lemma_find_target(m, player, idx);
                lemma_find_target(acc, player, idx);
                if find_target(acc, player, idx) >= 0 {
                    let f = find_target(acc, player, idx);
                    assert(aims_at(acc[f], player, idx));
                    if f == j {
                        assert(aims_at(m[f], player, idx));
                    } else {
                        assert(m[f] == acc[f]);
                    }
                }
                if player == t.1 && idx == t.2 {
                    assert(aims_at(m[j], player, idx));
                }
            }
        } else {
            assert(m == acc.push(t));
            assert(damage_to(prefix, t.1, t.2) == 0);
            assert forall|k: int| 0 <= k < m.len() implies (#[trigger] m[k]).0 == damage_to(ts, m[k].1, m[k].2) by {
                if k < acc.len() {
                    assert(m[k] == acc[k]);
                    assert(!aims_at(acc[k], t.1, t.2));
                }
            }
            assert forall|player: usize, idx: usize|
                find_target(m, player, idx) == -1 implies #[trigger] damage_to(ts, player, idx) == 0 by {
                lemma_find_target(m, player, idx);
                lemma_find_target(acc, player, idx);
                if find_target(acc, player, idx) >= 0 {
                    let f = find_target(acc, player, idx);
                    assert(aims_at(acc[f], player, idx));
                    assert(m[f] == acc[f]);
                }
                if player == t.1 && idx == t.2 {
                    assert(aims_at(m[acc.len() as int], player, idx));
                }
            }
        }
    }
}

/// Sums the damage to each Pokémon that appears more than once in `targets`, keeping the order
/// in which each Pokémon first appears.
fn merge_damage_targets(targets: &Vec<(u32, usize, usize)>) -> (r: Vec<(u32, usize, usize)>)
    requires
        targets_fit(targets@),
        targets_in_range(targets@),
    ensures
        r@ == merge_targets(targets@),
        targets_in_range(r@),
{
    let mut acc: Vec<(u32, usize, usize)> = Vec::new();
    let mut i: usize = 0;
    proof {
        assert(targets@.subrange(0, 0) =~= Seq::<(u32, usize, usize)>::empty());
    }
    while i < targets.len()
        invariant
            i <= targets.len(),
            targets_fit(targets@),
            targets_in_range(targets@),
            acc@ == merge_targets(targets@.subrange(0, i as int)),
        decreases targets.len() - i,
    {
        let t = targets[i];
        let ghost prefix = targets@.subrange(0, i as int);
        let ghost next = targets@.subrange(0, i as int + 1);
        proof {
            assert(next.drop_last() =~= prefix);
            assert(next.last() == t);
            assert forall|k: int| 0 <= k < next.len() implies (#[trigger] next[k]).1 < 2 && next[k].2 < 4 by {
                assert(next[k] == targets@[k]);
            }
            assert forall|k: int| 0 <= k < prefix.len() implies (#[trigger] prefix[k]).1 < 2 && prefix[k].2 < 4 by {
                assert(prefix[k] == targets@[k]);
            }
            assert forall|player: usize, idx: usize| #[trigger] damage_to(prefix, player, idx) <= u32::MAX by {
                lemma_damage_to_prefix(targets@, i as int, player, idx);
            }
            lemma_damage_to_prefix(targets@, i as int + 1, t.1, t.2);
            lemma_merge_targets(prefix);
            lemma_find_target(acc@, t.1, t.2);
            assert(damage_to(next, t.1, t.2) == damage_to(prefix, t.1, t.2) + t.0);
        }
        match find_target_index(&acc, t.1, t.2) {
            Some(j) => {
                proof {
                    assert(acc@[j as int].0 == damage_to(prefix, t.1, t.2));
                }
                let merged = (acc[j].0 + t.0, t.1, t.2);
                acc.set(j, merged);
            },
            None => {
                acc.push(t);
            },
        }
        i = i + 1;
    }
    proof {
        assert(targets@.subrange(0, targets@.len() as int) =~= targets@);
        lemma_merge_targets(targets@);
    }
    acc
}

/// Resolving a target does not look at the move-generation stack.
pub proof fn lemma_damage_step_ignores_stack(
    a: StateView,
    b: StateView,
    attacker: (usize, usize),
    t: (u32, usize, usize),
    is_from_active_attack: bool,
)
    requires
        same_but_stack(a, b),
    ensures
        same_but_stack(
            damage_step(a, attacker, t, is_from_active_attack),
            damage_step(b, attacker, t, is_from_active_attack),
        ),
{
    assert(a.board == b.board);
}

/// The targets after damage modifiers.
fn modify_all_targets(
    state: &State,
    attacking_ref: (usize, usize),
    merged: &Vec<(u32, usize, usize)>,
    is_from_active_attack: bool,
) -> (modified: Vec<(u32, usize, usize)>)
    requires
        state.wf(),
        attacking_ref.0 < 2,
        attacking_ref.1 < 4,
        targets_in_range(merged@),
    ensures
        modified@ == modified_targets(state@, attacking_ref, merged@, is_from_active_attack),
{
    let ghost mods = modified_targets(state@, attacking_ref, merged@, is_from_active_attack);
    let mut modified: Vec<(u32, usize, usize)> = Vec::new();
    let mut k: usize = 0;
    while k < merged.len()
        invariant
            k <= merged.len(),
            state.wf(),
            attacking_ref.0 < 2,
            attacking_ref.1 < 4,
            targets_in_range(merged@),
            mods == modified_targets(state@, attacking_ref, merged@, is_from_active_attack),
            modified@ == mods.subrange(0, k as int),
        decreases merged.len() - k,
    {
        let t = merged[k];
        let d = modify_damage(state, attacking_ref, t, is_from_active_attack);
        modified.push((d, t.1, t.2));
        k = k + 1;
        proof {
            assert(modified@ =~= mods.subrange(0, k as int));
        }
    }
    proof {
        assert(mods.subrange(0, mods.len() as int) =~= mods);
    }
    modified
}

/// Applies damage (with modifiers and counterattacks) to each target, without resolving Knock
/// Outs or queueing promotions. Damage to the same Pokémon listed more than once is summed first.
pub fn handle_damage_only(
    state: &mut State,
    attacking_ref: (usize, usize),
    targets: &Vec<(u32, usize, usize)>,
    is_from_active_attack: bool,
)
    requires
        old(state).wf(),
        attacking_ref.0 < 2,
        attacking_ref.1 < 4,
        targets_in_range(targets@),
        targets_fit(targets@),
    ensures
        final(state).wf(),
        same_but_stack(
            damage_only_spec(old(state)@, attacking_ref, targets@, is_from_active_attack),
            final(state)@,
        ),
        only_bouncy_pushes(old(state)@.move_generation_stack, final(state)@.move_generation_stack),
        !is_from_active_attack ==> final(state)@.move_generation_stack == old(state)@.move_generation_stack,
{
    let merged = merge_damage_targets(targets);
    let ghost s0 = state@;
    let modified = modify_all_targets(state, attacking_ref, &merged, is_from_active_attack);
    let ghost mods = modified@;
    proof {
        lemma_only_bouncy_pushes_refl(s0.move_generation_stack);
        assert(modified@.subrange(0, 0) =~= Seq::<(u32, usize, usize)>::empty());
    }
    let mut k: usize = 0;
    while k < modified.len()
        invariant
            k <= modified.len(),
            state.wf(),
            attacking_ref.0 < 2,
            attacking_ref.1 < 4,
            modified@ == mods,
            targets_in_range(merged@),
            mods.len() == merged@.len(),
            forall|m: int| 0 <= m < mods.len() ==> (#[trigger] mods[m]).1 == merged@[m].1 && mods[m].2 == merged@[m].2,
            same_but_stack(
                damage_fold(s0, attacking_ref, modified@.subrange(0, k as int), is_from_active_attack),
                state@,
            ),
            only_bouncy_pushes(s0.move_generation_stack, state@.move_generation_stack),
            !is_from_active_attack ==> state@.move_generation_stack == s0.move_generation_stack,
        decreases modified.len() - k,
    {
        let t = modified[k];
        let ghost before = state@;
        proof {
            assert(t.1 == merged@[k as int].1 && t.2 == merged@[k as int].2);
        }
        apply_damage_to_target(state, attacking_ref, t, is_from_active_attack);
        proof {
            let prefix = modified@.subrange(0, k as int);
            let next = modified@.subrange(0, k as int + 1);
            assert(next.drop_last() =~= prefix);
            lemma_damage_step_ignores_stack(
                damage_fold(s0, attacking_ref, prefix, is_from_active_attack),
                before,
                attacking_ref,
                t,
                is_from_active_attack,
            );
            lemma_only_bouncy_pushes_trans(
                s0.move_generation_stack,
                before.move_generation_stack,
                state@.move_generation_stack,
            );
        }
        k = k + 1;
    }
    proof {
        assert(modified@.subrange(0, modified@.len() as int) =~= modified@);
    }
}


// ---------------------------------------------------------------------------------------------
// Knock Outs
// ---------------------------------------------------------------------------------------------

/// The Knocked Out Pokémon (0 HP) of `player` from slot `from` on, by slot.
pub open spec fn knocked_out_from(side: Seq<Option<PlayedCard>>, player: usize, from: int) -> Seq<(usize, usize)>
    decreases side.len() - from,
{
    if from >= side.len() || from < 0 {
        Seq::empty()
    } else if side[from] matches Some(c) && c.remaining_hp == 0 {
        seq![(player, from as usize)] + knocked_out_from(side, player, from + 1)
    } else {
        knocked_out_from(side, player, from + 1)
    }
}

/// Every Knocked Out Pokémon in play: player 0's first, each side by slot.
pub open spec fn knocked_out_list(s: StateView) -> Seq<(usize, usize)> {
    knocked_out_from(s.board[0], 0, 0) + knocked_out_from(s.board[1], 1, 0)
}

/// The Haxorus cards that Iris rewards.
pub open spec fn is_iris_haxorus(id: CardId) -> bool {
    id == CardId::B2b056Haxorus || id == CardId::B2b110Haxorus || id == CardId::PB045Haxorus
}

/// Iris: during this turn, a Knock Out of the opponent's Active Pokémon by an attack of Haxorus
/// is worth 1 more point.
pub open spec fn iris_bonus_active_spec(s: StateView, attacker: (usize, usize), is_from_active_attack: bool) -> bool {
    &&& is_from_active_attack
    &&& s.turn_effects.contains(TurnEffect::BonusPointForHaxorusActiveKO)
    &&& s.slot(attacker.0 as int, attacker.1 as int) matches Some(c)
    &&& is_iris_haxorus(c.card.id_spec())
}

/// The cards that go to the discard pile when `c` leaves play: the Pokémon and its Tool.
pub open spec fn discarded_cards(c: PlayedCard) -> Seq<Card> {
    match c.attached_tool {
        Some(t) => seq![c.card, Card::Trainer(t)],
        None => seq![c.card],
    }
}

/// The Pokémon in `(player, idx)` leaves play: it and its Tool go to the discard pile, its
/// Energy to the Energy discard pile.
pub open spec fn discard_from_play_spec(s: StateView, player: int, idx: int) -> StateView {
    match s.slot(player, idx) {
        Some(c) => StateView {
            discard_piles: s.discard_piles.update(player, s.discard_piles[player] + discarded_cards(c)),
            discard_energies: s.discard_energies.update(
                player,
                s.discard_energies[player] + c.attached_energy@,
            ),
            ..s.with_slot(player, idx, None)
        },
        None => s,
    }
}

/// Points for Knocking Out the Pokémon in `ko`, including the Iris bonus.
pub open spec fn ko_points(s: StateView, ko: (usize, usize), attacker: (usize, usize), iris: bool) -> u32 {
    let c = s.slot(ko.0 as int, ko.1 as int)->0;
    (c.card.knockout_points_spec() + if iris && ko.1 == 0 && ko.0 != attacker.0 {
        1u32
    } else {
        0u32
    }) as u32
}

/// One Knock Out: the opponent of the Knocked Out Pokémon's owner gets its points, a Knock Out
/// by an opponent's attack is recorded with the Pokémon's type, and the Pokémon leaves play.
pub open spec fn ko_step(
    s: StateView,
    ko: (usize, usize),
    attacker: (usize, usize),
    is_from_active_attack: bool,
    iris: bool,
) -> StateView {
    let (receiver, idx) = ko;
    let initiator = 1 - receiver;
    let pts = ko_points(s, ko, attacker, iris);
    let s1 = StateView {
        points: s.points.update(initiator, add_capped(s.points[initiator], pts)),
        points_gained_this_turn: s.points_gained_this_turn.update(
            initiator,
            add_capped(s.points_gained_this_turn[initiator], pts),
        ),
        ..s
    };
    let s2 = if is_from_active_attack && receiver != attacker.0 {
        StateView {
            knocked_out_by_opponent_attack_this_turn: true,
            knocked_out_types_this_turn: s1.knocked_out_types_this_turn.push(
                s.slot(receiver as int, idx as int)->0.card.energy_type_spec(),
            ),
            ..s1
        }
    } else {
        s1
    };
    discard_from_play_spec(s2, receiver as int, idx as int)
}

/// The Knock Outs resolved one after the other.
pub open spec fn ko_fold(
    s: StateView,
    kos: Seq<(usize, usize)>,
    attacker: (usize, usize),
    is_from_active_attack: bool,
    iris: bool,
) -> StateView
    decreases kos.len(),
{
    if kos.len() == 0 {
        s
    } else {
        ko_step(
            ko_fold(s, kos.drop_last(), attacker, is_from_active_attack, iris),
            kos.last(),
            attacker,
            is_from_active_attack,
            iris,
        )
    }
}

/// The winner once Knock Outs are resolved, if the game ended: 3 points win (both reaching 3 is
/// a tie); otherwise a player with no Pokémon left in play loses (both at once is a tie).
pub open spec fn winner_after_knockouts(s: StateView) -> Option<GameOutcome> {
    if s.points[0] >= 3 && s.points[1] >= 3 {
        Some(GameOutcome::Tie)
    } else if s.points[0] >= 3 {
        Some(GameOutcome::Win(0))
    } else if s.points[1] >= 3 {
        Some(GameOutcome::Win(1))
    } else if s.in_play_indices(0).len() == 0 && s.in_play_indices(1).len() == 0 {
        Some(GameOutcome::Tie)
    } else if s.in_play_indices(0).len() == 0 {
        Some(GameOutcome::Win(1))
    } else if s.in_play_indices(1).len() == 0 {
        Some(GameOutcome::Win(0))
    } else {
        None
    }
}

/// The players whose Active Pokémon was Knocked Out, in the order of `kos`.
pub open spec fn active_ko_players(kos: Seq<(usize, usize)>) -> Seq<usize>
    decreases kos.len(),
{
    if kos.len() == 0 {
        Seq::empty()
    } else if kos.last().1 == 0 {
        active_ko_players(kos.drop_last()).push(kos.last().0)
    } else {
        active_ko_players(kos.drop_last())
    }
}

/// `a` promotes `player`'s Benched Pokémon in slot `idx` to the Active Spot.
pub open spec fn activate_choice(a: SimpleAction, player: usize, idx: usize) -> bool {
    a == SimpleAction::Activate { player, in_play_idx: idx }
}

/// A promotion entry for `player`: one choice per Benched Pokémon.
pub open spec fn promotion_entry(s: StateView, entry: (usize, Vec<SimpleAction>), player: usize) -> bool {
    let bench = s.bench_indices(player as int);
    &&& entry.0 == player
    &&& entry.1@.len() == bench.len()
    &&& forall|m: int| 0 <= m < bench.len() ==> activate_choice(#[trigger] entry.1@[m], player, bench[m])
}

/// The stack after promotions: one entry per Knocked Out Active Pokémon, each inserted at the
/// bottom (so that it resolves after everything already pending), above the old entries' bottom.
pub open spec fn promotions_queued(
    s: StateView,
    players: Seq<usize>,
    old_stack: Seq<(usize, Vec<SimpleAction>)>,
    new_stack: Seq<(usize, Vec<SimpleAction>)>,
) -> bool {
    let n = players.len();
    &&& new_stack.len() == old_stack.len() + n
    &&& new_stack.subrange(n as int, new_stack.len() as int) == old_stack
    &&& forall|j: int| 0 <= j < n ==> promotion_entry(s, #[trigger] new_stack[j], players[n - 1 - j])
}

/// The Knocked Out Pokémon in play, player 0's first, each side by slot.
fn get_knocked_out(state: &State) -> (knockouts: Vec<(usize, usize)>)
    requires
        state.wf(),
    ensures
        knockouts@ == knocked_out_list(state@),
{
    let mut knockouts: Vec<(usize, usize)> = Vec::new();
    let mut player: usize = 0;
    proof {
        assert(knockouts@ =~= knocked_out_list(state@).subrange(0, 0));
    }
    while player < 2
        invariant
            player <= 2,
            state.wf(),
            knockouts@ == if player == 0 {
                Seq::empty()
            } else if player == 1 {
                knocked_out_from(state@.board[0], 0, 0)
            } else {
                knocked_out_list(state@)
            },
        decreases 2 - player,
    {
        let side = knocked_out_in_side(state, player);
        let ghost before = knockouts@;
        let mut k: usize = 0;
        while k < side.len()
            invariant
                k <= side.len(),
                knockouts@ == before + side@.subrange(0, k as int),
            decreases side.len() - k,
        {
            knockouts.push(side[k]);
            k = k + 1;
            proof {
                assert(knockouts@ =~= before + side@.subrange(0, k as int));
            }
        }
        proof {
            assert(side@.subrange(0, side@.len() as int) =~= side@);
            if player == 0 {
                assert(knockouts@ =~= knocked_out_from(state@.board[0], 0, 0));
            }
        }
        player = player + 1;
    }
    knockouts
}

/// The Knocked Out Pokémon of one player, by slot.
fn knocked_out_in_side(state: &State, player: usize) -> (r: Vec<(usize, usize)>)
    requires
        state.wf(),
        player < 2,
    ensures
        r@ == knocked_out_from(state@.board[player as int], player, 0),
{
    let ghost side = state@.board[player as int];
    let mut acc: Vec<(usize, usize)> = Vec::new();
    let mut i: usize = 4;
    while i > 0
        invariant
            i <= 4,
            state.wf(),
            player < 2,
            side == state@.board[player as int],
            side.len() == 4,
            acc@ == knocked_out_from(side, player, i as int),
        decreases i,
    {
        i = i - 1;
        let ko = match state.in_play_pokemon[player][i].as_ref() {
            Some(c) => c.remaining_hp == 0,
            None => false,
        };
        if ko {
            let mut next: Vec<(usize, usize)> = Vec::new();
            next.push((player, i));
            let mut k: usize = 0;
            while k < acc.len()
                invariant
                    k <= acc.len(),
                    next@ == seq![(player, i)] + acc@.subrange(0, k as int),
                decreases acc.len() - k,
            {
                next.push(acc[k]);
                k = k + 1;
                proof {
                    assert(next@ =~= seq![(player, i)] + acc@.subrange(0, k as int));
                }
            }
            proof {
                assert(acc@.subrange(0, acc@.len() as int) =~= acc@);
            }
            acc = next;
        }
    }
    acc
}

/// Whether the Iris bonus applies to Knock Outs from this attack.
fn is_iris_bonus_active(state: &State, attacking_ref: (usize, usize), is_from_active_attack: bool) -> (r: bool)
    requires
        state.wf(),
        attacking_ref.0 < 2,
        attacking_ref.1 < 4,
    ensures
        r == iris_bonus_active_spec(state@, attacking_ref, is_from_active_attack),
{
    if !is_from_active_attack {
        return false;
    }
    let mut has_iris_effect = false;
    let mut k: usize = 0;
    while k < state.turn_effects.len()
        invariant
            k <= state.turn_effects.len(),
            has_iris_effect == exists|m: int| 0 <= m < k && state.turn_effects@[m] == TurnEffect::BonusPointForHaxorusActiveKO,
        decreases state.turn_effects.len() - k,
    {
        match &state.turn_effects[k] {
            TurnEffect::BonusPointForHaxorusActiveKO => {
                has_iris_effect = true;
            },
            _ => {},
        }
        k = k + 1;
    }
    proof {
        if has_iris_effect {
            let m = choose|m: int| 0 <= m < state.turn_effects.len() && state.turn_effects@[m] == TurnEffect::BonusPointForHaxorusActiveKO;
            assert(state@.turn_effects[m] == TurnEffect::BonusPointForHaxorusActiveKO);
        } else {
            assert(!state@.turn_effects.contains(TurnEffect::BonusPointForHaxorusActiveKO));
        }
    }
    if !has_iris_effect {
        return false;
    }
    match state.in_play_pokemon[attacking_ref.0][attacking_ref.1].as_ref() {
        Some(attacker) => {
            let id = attacker.card.id();
            id == CardId::B2b056Haxorus || id == CardId::B2b110Haxorus || id == CardId::PB045Haxorus
        },
        None => false,
    }
}

/// Moves the Pokémon in `(player, idx)` out of play: the card and its Tool to the discard pile,
/// its Energy to the Energy discard pile.
pub fn discard_from_play(state: &mut State, player: usize, idx: usize)
    requires
        old(state).wf(),
        player < 2,
        idx < 4,
    ensures
        final(state).wf(),
        final(state)@ == discard_from_play_spec(old(state)@, player as int, idx as int),
{
    let taken = state.in_play_pokemon[player][idx].take();
    match taken {
        Some(pokemon) => {
            let ghost c = pokemon;
            let PlayedCard { card, attached_energy, attached_tool, .. } = pokemon;
            state.discard_piles[player].push(card);
            match attached_tool {
                Some(tool) => state.discard_piles[player].push(Card::Trainer(tool)),
                None => {},
            }
            let mut k: usize = 0;
            let ghost before = state.discard_energies[player as int]@;
            let ghost snapshot = state@;
            proof {
                let e = discard_from_play_spec(old(state)@, player as int, idx as int);
                assert(state@.board =~~= e.board);
                assert(state@.discard_piles =~~= e.discard_piles);
            }
            while k < attached_energy.len()
                invariant
                    k <= attached_energy.len(),
                    state@ == (StateView { discard_energies: state@.discard_energies, ..snapshot }),
                    state.wf(),
                    state.discard_energies.len() == 2,
                    player < 2,
                    state.discard_energies[player as int]@ == before + attached_energy@.subrange(0, k as int),
                    forall|q: int| 0 <= q < 2 && q != player ==> state.discard_energies[q] == old(state).discard_energies[q],
                decreases attached_energy.len() - k,
            {
                let e = attached_energy[k];
                state.discard_energies[player].push(e);
                k = k + 1;
                proof {
                    assert(state.discard_energies[player as int]@ =~= before + attached_energy@.subrange(0, k as int));
                }
            }
            proof {
                assert(attached_energy@.subrange(0, attached_energy@.len() as int) =~= attached_energy@);
                let e = discard_from_play_spec(old(state)@, player as int, idx as int);
                assert(state@.discard_energies =~~= e.discard_energies);
            }
        },
        None => {
            proof {
                assert(state@.board =~~= old(state)@.board);
            }
        },
    }
}


/// Entries of `knocked_out_from` are `player`'s Knocked Out slots at or after `from`, by slot.
pub proof fn lemma_knocked_out_from(side: Seq<Option<PlayedCard>>, player: usize, from: int)
    requires
        0 <= from,
        side.len() <= 1024,
    ensures
        forall|k: int|
            0 <= k < knocked_out_from(side, player, from).len() ==> {
                let ko = #[trigger] knocked_out_from(side, player, from)[k];
                &&& ko.0 == player
                &&& from <= ko.1 < side.len()
                &&& side[ko.1 as int] matches Some(c)
                &&& c.remaining_hp == 0
            },
        forall|k: int, m: int|
            0 <= k < m < knocked_out_from(side, player, from).len() ==> (#[trigger] knocked_out_from(
                side,
                player,
                from,
            )[k]).1 < (#[trigger] knocked_out_from(side, player, from)[m]).1,
    decreases side.len() - from,
{
    if from < side.len() {
        lemma_knocked_out_from(side, player, from + 1);
        let rest = knocked_out_from(side, player, from + 1);
        if side[from] matches Some(c) && c.remaining_hp == 0 {
            let all = seq![(player, from as usize)] + rest;
            assert(knocked_out_from(side, player, from) == all);
            assert forall|k: int| 0 < k < all.len() implies all[k] == rest[k - 1] by {}
        }
    }
}

/// The Knock Out list names distinct, Knocked Out, in-range slots.
pub proof fn lemma_knocked_out_list(s: StateView)
    requires
        s.board.len() == 2,
        s.board[0].len() == 4,
        s.board[1].len() == 4,
    ensures
        forall|k: int|
            0 <= k < knocked_out_list(s).len() ==> {
                let ko = #[trigger] knocked_out_list(s)[k];
                &&& ko.0 < 2
                &&& ko.1 < 4
                &&& s.slot(ko.0 as int, ko.1 as int) matches Some(c)
                &&& c.remaining_hp == 0
            },
        forall|k: int, m: int|
            0 <= k < m < knocked_out_list(s).len() ==> #[trigger] knocked_out_list(s)[k]
                != #[trigger] knocked_out_list(s)[m],
{
    lemma_knocked_out_from(s.board[0], 0, 0);
    lemma_knocked_out_from(s.board[1], 1, 0);
    let a = knocked_out_from(s.board[0], 0, 0);
    let b = knocked_out_from(s.board[1], 1, 0);
    assert forall|k: int| 0 <= k < knocked_out_list(s).len() implies ({
        let ko = #[trigger] knocked_out_list(s)[k];
        &&& ko.0 < 2
        &&& ko.1 < 4
        &&& s.slot(ko.0 as int, ko.1 as int) matches Some(c)
        &&& c.remaining_hp == 0
    }) by {
        if k < a.len() {
            assert(knocked_out_list(s)[k] == a[k]);
        } else {
            assert(knocked_out_list(s)[k] == b[k - a.len()]);
        }
    }
    assert forall|k: int, m: int| 0 <= k < m < knocked_out_list(s).len() implies #[trigger] knocked_out_list(s)[k]
        != #[trigger] knocked_out_list(s)[m] by {
        if m < a.len() {
            assert(knocked_out_list(s)[k] == a[k]);
            assert(knocked_out_list(s)[m] == a[m]);
        } else if k >= a.len() {
            assert(knocked_out_list(s)[k] == b[k - a.len()]);
            assert(knocked_out_list(s)[m] == b[m - a.len()]);
        } else {
            assert(knocked_out_list(s)[k] == a[k]);
            assert(knocked_out_list(s)[m] == b[m - a.len()]);
        }
    }
}

/// One Knock Out empties exactly its own slot and keeps the sizes of every per-player list.
pub proof fn lemma_ko_step_slots(
    s: StateView,
    ko: (usize, usize),
    attacker: (usize, usize),
    is_from_active_attack: bool,
    iris: bool,
)
    requires
        s.board.len() == 2,
        s.board[0].len() == 4,
        s.board[1].len() == 4,
        s.points.len() == 2,
        s.points_gained_this_turn.len() == 2,
        s.discard_piles.len() == 2,
        s.discard_energies.len() == 2,
        ko.0 < 2,
        ko.1 < 4,
    ensures
        ({
            let f = ko_step(s, ko, attacker, is_from_active_attack, iris);
            &&& f.board.len() == 2
            &&& f.board[0].len() == 4
            &&& f.board[1].len() == 4
            &&& f.points.len() == 2
            &&& f.points_gained_this_turn.len() == 2
            &&& f.discard_piles.len() == 2
            &&& f.discard_energies.len() == 2
            &&& f.move_generation_stack == s.move_generation_stack
            &&& f.winner == s.winner
            &&& f.slot(ko.0 as int, ko.1 as int) is None
            &&& forall|p: int, i: int|
                0 <= p < 2 && 0 <= i < 4 && !(p == ko.0 && i == ko.1) ==> #[trigger] f.slot(p, i) == s.slot(p, i)
        }),
{
    let f = ko_step(s, ko, attacker, is_from_active_attack, iris);
    assert forall|p: int, i: int|
        0 <= p < 2 && 0 <= i < 4 && !(p == ko.0 && i == ko.1) implies #[trigger] f.slot(p, i) == s.slot(p, i) by {
        if p != ko.0 {
        } else {
            assert(i != ko.1);
        }
    }
}

/// Resolving Knock Outs only empties the slots of the resolved Knock Outs and never changes the
/// board size.
pub proof fn lemma_ko_fold_slots(
    s: StateView,
    kos: Seq<(usize, usize)>,
    attacker: (usize, usize),
    is_from_active_attack: bool,
    iris: bool,
)
    requires
        s.board.len() == 2,
        s.board[0].len() == 4,
        s.board[1].len() == 4,
        s.points.len() == 2,
        s.points_gained_this_turn.len() == 2,
        s.discard_piles.len() == 2,
        s.discard_energies.len() == 2,
        forall|k: int| 0 <= k < kos.len() ==> (#[trigger] kos[k]).0 < 2 && kos[k].1 < 4,
    ensures
        ({
            let f = ko_fold(s, kos, attacker, is_from_active_attack, iris);
            &&& f.board.len() == 2
            &&& f.board[0].len() == 4
            &&& f.board[1].len() == 4
            &&& f.points.len() == 2
            &&& f.points_gained_this_turn.len() == 2
            &&& f.discard_piles.len() == 2
            &&& f.discard_energies.len() == 2
            &&& f.move_generation_stack == s.move_generation_stack
            &&& f.winner == s.winner
            &&& forall|p: int, i: int|
                0 <= p < 2 && 0 <= i < 4 && !kos.contains((p as usize, i as usize)) ==> #[trigger] f.slot(p, i)
                    == s.slot(p, i)
            &&& forall|p: int, i: int|
                0 <= p < 2 && 0 <= i < 4 && kos.contains((p as usize, i as usize)) ==> #[trigger] f.slot(p, i)
                    is None
        }),
    decreases kos.len(),
{
    if kos.len() > 0 {
        let prefix = kos.drop_last();
        assert forall|k: int| 0 <= k < prefix.len() implies (#[trigger] prefix[k]).0 < 2 && prefix[k].1 < 4 by {
            assert(prefix[k] == kos[k]);
        }
        lemma_ko_fold_slots(s, prefix, attacker, is_from_active_attack, iris);
        let last = kos.last();
        assert(last == kos[kos.len() - 1]);
        let g = ko_fold(s, prefix, attacker, is_from_active_attack, iris);
        lemma_ko_step_slots(g, last, attacker, is_from_active_attack, iris);
        let f = ko_fold(s, kos, attacker, is_from_active_attack, iris);
        assert forall|p: int, i: int|
            0 <= p < 2 && 0 <= i < 4 && !kos.contains((p as usize, i as usize)) implies #[trigger] f.slot(p, i)
                == s.slot(p, i) by {
            if prefix.contains((p as usize, i as usize)) {
                let k = choose|k: int| 0 <= k < prefix.len() && prefix[k] == (p as usize, i as usize);
                assert(kos[k] == prefix[k]);
            }
            if p == last.0 && i == last.1 {
                assert(kos.contains((p as usize, i as usize)));
            }
        }
        assert forall|p: int, i: int|
            0 <= p < 2 && 0 <= i < 4 && kos.contains((p as usize, i as usize)) implies #[trigger] f.slot(p, i)
                is None by {
            if !(p == last.0 && i == last.1) {
                let k = choose|k: int| 0 <= k < kos.len() && kos[k] == (p as usize, i as usize);
                assert(k < kos.len() - 1);
                assert(prefix[k] == kos[k]);
                assert(prefix.contains((p as usize, i as usize)));
            }
        }
    }
}

/// Scores one Knock Out, records it, and moves the Pokémon out of play (see `ko_step`).
fn award_knockout(
    state: &mut State,
    ko: (usize, usize),
    attacking_ref: (usize, usize),
    is_from_active_attack: bool,
    iris_bonus_active: bool,
)
    requires
        old(state).wf(),
        ko.0 < 2,
        ko.1 < 4,
        old(state)@.slot(ko.0 as int, ko.1 as int) is Some,
    ensures
        final(state).wf(),
        final(state)@ == ko_step(old(state)@, ko, attacking_ref, is_from_active_attack, iris_bonus_active),
{
    let (ko_receiver, ko_pokemon_idx) = ko;
    let ko_initiator = 1 - ko_receiver;
    let (points_won, ko_pokemon_type) = {
        let ko_pokemon = state.in_play_pokemon[ko_receiver][ko_pokemon_idx].as_ref().unwrap();
        let base = ko_pokemon.card.get_knockout_points();
        let bonus: u32 = if iris_bonus_active && ko_pokemon_idx == 0 && ko_receiver != attacking_ref.0 {
            1
        } else {
            0
        };
        (base + bonus, ko_pokemon.get_energy_type())
    };
    let new_points = state.points[ko_initiator].saturating_add(points_won);
    state.points.set(ko_initiator, new_points);
    let new_gained = state.points_gained_this_turn[ko_initiator].saturating_add(points_won);
    state.points_gained_this_turn.set(ko_initiator, new_gained);
    if is_from_active_attack && ko_receiver != attacking_ref.0 {
        state.knocked_out_by_opponent_attack_this_turn = true;
        state.knocked_out_types_this_turn.push(ko_pokemon_type);
    }
    let ghost mid = state@;
    proof {
        let pts = ko_points(old(state)@, ko, attacking_ref, iris_bonus_active);
        assert(points_won == pts);
    }
    discard_from_play(state, ko_receiver, ko_pokemon_idx);
}

/// With no Pokémon in the Active Spot, the in-play Pokémon are the Benched ones.
pub proof fn lemma_empty_active(side: Seq<Option<PlayedCard>>)
    requires
        side.len() > 0,
        side[0] is None,
    ensures
        occupied_from(side, 0) == occupied_from(side, 1),
{
}

/// After `player`'s Active Pokémon is Knocked Out: if they have Benched Pokémon, queue their
/// choice of which one to promote at the bottom of the stack (so it resolves after everything
/// already pending); otherwise their opponent wins.
pub(crate) fn trigger_promotion_or_declare_winner(state: &mut State, player: usize)
    requires
        old(state).wf(),
        player < 2,
    ensures
        final(state).wf(),
        old(state)@.bench_indices(player as int).len() == 0 ==> final(state)@ == (StateView {
            winner: Some(GameOutcome::Win((1 - player) as usize)),
            ..old(state)@
        }),
        old(state)@.bench_indices(player as int).len() > 0 ==> {
            &&& same_but_stack(old(state)@, final(state)@)
            &&& final(state)@.move_generation_stack.len() == old(state)@.move_generation_stack.len() + 1
            &&& final(state)@.move_generation_stack.subrange(1, final(state)@.move_generation_stack.len() as int)
                == old(state)@.move_generation_stack
            &&& promotion_entry(old(state)@, final(state)@.move_generation_stack[0], player)
        },
{
    let bench = state.enumerate_bench_pokemon(player);
    if bench.len() == 0 {
        state.winner = Some(GameOutcome::Win(1 - player));
        return ;
    }
    let mut choices: Vec<SimpleAction> = Vec::new();
    let mut k: usize = 0;
    while k < bench.len()
        invariant
            k <= bench.len(),
            choices@.len() == k,
            forall|m: int| 0 <= m < k ==> activate_choice(#[trigger] choices@[m], player, bench@[m]),
        decreases bench.len() - k,
    {
        choices.push(SimpleAction::Activate { player, in_play_idx: bench[k] });
        k = k + 1;
    }
    state.move_generation_stack.insert(0, (player, choices));
    proof {
        assert(state@.move_generation_stack.subrange(1, state@.move_generation_stack.len() as int)
            =~= old(state)@.move_generation_stack);
    }
}

/// Scores and removes each listed Knock Out, in order (see `ko_fold`).
fn resolve_knockouts(
    state: &mut State,
    knockouts: &Vec<(usize, usize)>,
    attacking_ref: (usize, usize),
    is_from_active_attack: bool,
    iris_bonus_active: bool,
)
    requires
        old(state).wf(),
        knockouts@ == knocked_out_list(old(state)@),
    ensures
        final(state).wf(),
        final(state)@ == ko_fold(old(state)@, knockouts@, attacking_ref, is_from_active_attack, iris_bonus_active),
{
    let ghost s0 = state@;
    let ghost kos = knockouts@;
    proof {
        lemma_knocked_out_list(s0);
        assert(kos.subrange(0, 0) =~= Seq::<(usize, usize)>::empty());
    }
    let mut k: usize = 0;
    while k < knockouts.len()
        invariant
            k <= knockouts.len(),
            knockouts@ == kos,
            s0.board.len() == 2,
            s0.board[0].len() == 4,
            s0.board[1].len() == 4,
            s0.points.len() == 2,
            s0.points_gained_this_turn.len() == 2,
            s0.discard_piles.len() == 2,
            s0.discard_energies.len() == 2,
            state.wf(),
            forall|j: int| 0 <= j < kos.len() ==> (#[trigger] kos[j]).0 < 2 && kos[j].1 < 4 && s0.slot(kos[j].0 as int, kos[j].1 as int) is Some,
            forall|j: int, m: int| 0 <= j < m < kos.len() ==> #[trigger] kos[j] != #[trigger] kos[m],
            state@ == ko_fold(s0, kos.subrange(0, k as int), attacking_ref, is_from_active_attack, iris_bonus_active),
        decreases knockouts.len() - k,
    {
        let ko = knockouts[k];
        let ghost prefix = kos.subrange(0, k as int);
        proof {
            assert forall|j: int| 0 <= j < prefix.len() implies (#[trigger] prefix[j]).0 < 2 && prefix[j].1 < 4 by {
                assert(prefix[j] == kos[j]);
            }
            lemma_ko_fold_slots(s0, prefix, attacking_ref, is_from_active_attack, iris_bonus_active);
            assert(ko == kos[k as int]);
            if prefix.contains(ko) {
                let j = choose|j: int| 0 <= j < prefix.len() && prefix[j] == ko;
                assert(kos[j] == prefix[j]);
            }
        }
        award_knockout(state, ko, attacking_ref, is_from_active_attack, iris_bonus_active);
        k = k + 1;
        proof {
            assert(kos.subrange(0, k as int).drop_last() =~= prefix);
        }
    }
    proof {
        assert(kos.subrange(0, kos.len() as int) =~= kos);
    }
}

/// Queues a promotion for each Knocked Out Active Pokémon, in order.
fn queue_promotions(state: &mut State, knockouts: &Vec<(usize, usize)>)
    requires
        old(state).wf(),
        old(state)@.in_play_indices(0).len() > 0,
        old(state)@.in_play_indices(1).len() > 0,
        forall|j: int| 0 <= j < knockouts@.len() ==> (#[trigger] knockouts@[j]).0 < 2 && knockouts@[j].1 < 4,
        forall|p: int, i: int|
            0 <= p < 2 && 0 <= i < 4 && knockouts@.contains((p as usize, i as usize)) ==> #[trigger] old(state)@.slot(p, i)
                is None,
    ensures
        final(state).wf(),
        same_but_stack(old(state)@, final(state)@),
        promotions_queued(
            old(state)@,
            active_ko_players(knockouts@),
            old(state)@.move_generation_stack,
            final(state)@.move_generation_stack,
        ),
{
    let ghost after = state@;
    let ghost kos = knockouts@;
    proof {
        assert(state@.move_generation_stack.subrange(0, state@.move_generation_stack.len() as int)
            =~= after.move_generation_stack);
        assert(kos.subrange(0, 0) =~= Seq::<(usize, usize)>::empty());
    }
    let mut k: usize = 0;
    while k < knockouts.len()
        invariant
            k <= knockouts.len(),
            knockouts@ == kos,
            state.wf(),
            after.in_play_indices(0).len() > 0,
            after.in_play_indices(1).len() > 0,
            after.board.len() == 2,
            after.board[0].len() == 4,
            after.board[1].len() == 4,
            forall|j: int| 0 <= j < kos.len() ==> (#[trigger] kos[j]).0 < 2 && kos[j].1 < 4,
            forall|p: int, i: int|
                0 <= p < 2 && 0 <= i < 4 && kos.contains((p as usize, i as usize)) ==> #[trigger] after.slot(p, i)
                    is None,
            same_but_stack(after, state@),
            promotions_queued(
                after,
                active_ko_players(kos.subrange(0, k as int)),
                after.move_generation_stack,
                state@.move_generation_stack,
            ),
        decreases knockouts.len() - k,
    {
        let (ko_receiver, ko_pokemon_idx) = knockouts[k];
        let ghost prefix = kos.subrange(0, k as int);
        let ghost next = kos.subrange(0, k as int + 1);
        proof {
            assert(next.drop_last() =~= prefix);
            assert(next.last() == kos[k as int]);
        }
        if ko_pokemon_idx == 0 {
            let ghost before = state@;
            proof {
                assert(kos[k as int] == (ko_receiver, 0usize));
                assert(kos.contains((ko_receiver, 0usize)));
                assert(after.slot(ko_receiver as int, 0) is None);
                lemma_empty_active(after.board[ko_receiver as int]);
                assert(before.board == after.board);
            }
            trigger_promotion_or_declare_winner(state, ko_receiver);
            proof {
                let n = active_ko_players(prefix).len();
                let ps = active_ko_players(next);
                assert(ps == active_ko_players(prefix).push(ko_receiver));
                let ns = state@.move_generation_stack;
                let bs = before.move_generation_stack;
                assert(ns.subrange(n as int + 1, ns.len() as int) =~= bs.subrange(n as int, bs.len() as int));
                assert forall|j: int| 0 <= j < n + 1 implies promotion_entry(after, #[trigger] ns[j], ps[n + 1 - 1 - j]) by {
                    if j > 0 {
                        assert(ns[j] == bs[j - 1]);
                    }
                }
            }
        } else {
            proof {
                assert(active_ko_players(next) == active_ko_players(prefix));
            }
        }
        k = k + 1;
    }
    proof {
        assert(kos.subrange(0, kos.len() as int) =~= kos);
    }
}

/// Resolves every Knock Out on the board: each Knocked Out Pokémon gives its points to the
/// opponent (plus the Iris bonus) and leaves play. The game ends if a player reached 3 points or
/// has no Pokémon left; otherwise each player whose Active Pokémon was Knocked Out is asked to
/// promote a Benched Pokémon.
pub fn handle_knockouts(state: &mut State, attacking_ref: (usize, usize), is_from_active_attack: bool)
    requires
        old(state).wf(),
        attacking_ref.0 < 2,
        attacking_ref.1 < 4,
    ensures
        final(state).wf(),
        ({
            let kos = knocked_out_list(old(state)@);
            let iris = iris_bonus_active_spec(old(state)@, attacking_ref, is_from_active_attack);
            let after = ko_fold(old(state)@, kos, attacking_ref, is_from_active_attack, iris);
            let w = winner_after_knockouts(after);
            &&& w is Some ==> final(state)@ == (StateView { winner: w, ..after })
            &&& w is None ==> same_but_stack(after, final(state)@)
            &&& w is None ==> promotions_queued(
                after,
                active_ko_players(kos),
                after.move_generation_stack,
                final(state)@.move_generation_stack,
            )
        }),
{
    let ghost s0 = state@;
    let knockouts = get_knocked_out(state);
    let iris_bonus_active = is_iris_bonus_active(state, attacking_ref, is_from_active_attack);
    resolve_knockouts(state, &knockouts, attacking_ref, is_from_active_attack, iris_bonus_active);
    proof {
        lemma_knocked_out_list(s0);
        lemma_ko_fold_slots(s0, knockouts@, attacking_ref, is_from_active_attack, iris_bonus_active);
    }
    if state.points[0] >= 3 && state.points[1] >= 3 {
        state.winner = Some(GameOutcome::Tie);
        return ;
    } else if state.points[0] >= 3 {
        state.winner = Some(GameOutcome::Win(0));
        return ;
    } else if state.points[1] >= 3 {
        state.winner = Some(GameOutcome::Win(1));
        return ;
    }
    let p0_remaining = state.enumerate_in_play_pokemon(0).len();
    let p1_remaining = state.enumerate_in_play_pokemon(1).len();
    if p0_remaining == 0 && p1_remaining == 0 {
        state.winner = Some(GameOutcome::Tie);
        return ;
    } else if p0_remaining == 0 {
        state.winner = Some(GameOutcome::Win(1));
        return ;
    } else if p1_remaining == 0 {
        state.winner = Some(GameOutcome::Win(0));
        return ;
    }
    queue_promotions(state, &knockouts);
}

/// Applies damage (with modifiers and counterattacks), then resolves Knock Outs and promotions.
pub fn handle_damage(
    state: &mut State,
    attacking_ref: (usize, usize),
    targets: &Vec<(u32, usize, usize)>,
    is_from_active_attack: bool,
)
    requires
        old(state).wf(),
        attacking_ref.0 < 2,
        attacking_ref.1 < 4,
        targets_in_range(targets@),
        targets_fit(targets@),
    ensures
        final(state).wf(),
        ({
            let mid = damage_only_spec(old(state)@, attacking_ref, targets@, is_from_active_attack);
            let kos = knocked_out_list(mid);
            let iris = iris_bonus_active_spec(mid, attacking_ref, is_from_active_attack);
            let after = ko_fold(mid, kos, attacking_ref, is_from_active_attack, iris);
            let w = winner_after_knockouts(after);
            &&& final(state)@.board == after.board
            &&& final(state)@.points == after.points
            &&& final(state)@.discard_piles == after.discard_piles
            &&& final(state)@.winner == if w is Some { w } else { after.winner }
        }),
{
    let ghost s0 = state@;
    handle_damage_only(state, attacking_ref, targets, is_from_active_attack);
    let ghost s1 = state@;
    proof {
        let mid = damage_only_spec(s0, attacking_ref, targets@, is_from_active_attack);
        lemma_knocked_out_list_ignores_stack(mid, s1);
    }
    handle_knockouts(state, attacking_ref, is_from_active_attack);
    proof {
        let mid = damage_only_spec(s0, attacking_ref, targets@, is_from_active_attack);
        let kos = knocked_out_list(mid);
        let iris = iris_bonus_active_spec(mid, attacking_ref, is_from_active_attack);
        lemma_ko_fold_ignores_stack(mid, s1, kos, attacking_ref, is_from_active_attack, iris);
    }
}

/// Knock Outs do not depend on the move-generation stack.
pub proof fn lemma_knocked_out_list_ignores_stack(a: StateView, b: StateView)
    requires
        same_but_stack(a, b),
    ensures
        knocked_out_list(a) == knocked_out_list(b),
        iris_bonus_active_spec(a, (0, 0), false) == iris_bonus_active_spec(b, (0, 0), false),
        forall|attacker: (usize, usize), f: bool|
            #[trigger] iris_bonus_active_spec(a, attacker, f) == iris_bonus_active_spec(b, attacker, f),
{
    assert(a.board == b.board);
}

/// Resolving Knock Outs does not depend on the move-generation stack.
pub proof fn lemma_ko_fold_ignores_stack(
    a: StateView,
    b: StateView,
    kos: Seq<(usize, usize)>,
    attacker: (usize, usize),
    is_from_active_attack: bool,
    iris: bool,
)
    requires
        same_but_stack(a, b),
    ensures
        same_but_stack(
            ko_fold(a, kos, attacker, is_from_active_attack, iris),
            ko_fold(b, kos, attacker, is_from_active_attack, iris),
        ),
    decreases kos.len(),
{
    if kos.len() > 0 {
        lemma_ko_fold_ignores_stack(a, b, kos.drop_last(), attacker, is_from_active_attack, iris);
    }
}


// ---------------------------------------------------------------------------------------------
// Pokémon Checkup
// ---------------------------------------------------------------------------------------------

/// Whether `c` is affected by the status condition.
pub open spec fn has_status(c: PlayedCard, condition: StatusCondition) -> bool {
    match condition {
        StatusCondition::Asleep => c.asleep,
        StatusCondition::Burned => c.burned,
        StatusCondition::Confused => c.confused,
        StatusCondition::Paralyzed => c.paralyzed,
        StatusCondition::Poisoned => c.poisoned,
    }
}

/// The slots among the first `n` of `player`'s side holding a Pokémon with the condition.
pub open spec fn status_upto(
    side: Seq<Option<PlayedCard>>,
    player: usize,
    n: int,
    condition: StatusCondition,
) -> Seq<(usize, usize)>
    decreases n,
{
    if n <= 0 {
        Seq::empty()
    } else {
        let r = status_upto(side, player, n - 1, condition);
        if side[n - 1] matches Some(c) && has_status(c, condition) {
            r.push((player, (n - 1) as usize))
        } else {
            r
        }
    }
}

/// All Pokémon in play with the condition: player 0's first, each side by slot.
pub open spec fn status_targets(s: StateView, condition: StatusCondition) -> Seq<(usize, usize)> {
    status_upto(s.board[0], 0, 4, condition) + status_upto(s.board[1], 1, 4, condition)
}

/// The Pokémon that Pokémon Checkup has to deal with, by condition.
pub struct CheckupTargets {
    pub sleeps: Vec<(usize, usize)>,
    pub paralyzed: Vec<(usize, usize)>,
    pub poisoned: Vec<(usize, usize)>,
    pub burned: Vec<(usize, usize)>,
}

/// All coordinates are on the board.
pub open spec fn coords_in_range(ts: Seq<(usize, usize)>) -> bool {
    forall|k: int| 0 <= k < ts.len() ==> (#[trigger] ts[k]).0 < 2 && ts[k].1 < 4
}

/// The Pokémon in play with the condition, player 0's first, each side by slot.
fn status_targets_of(state: &State, condition: StatusCondition) -> (r: Vec<(usize, usize)>)
    requires
        state.wf(),
    ensures
        r@ == status_targets(state@, condition),
        coords_in_range(r@),
{
    let mut r: Vec<(usize, usize)> = Vec::new();
    let mut player: usize = 0;
    while player < 2
        invariant
            player <= 2,
            state.wf(),
            r@ == if player == 0 {
                Seq::empty()
            } else if player == 1 {
                status_upto(state@.board[0], 0, 4, condition)
            } else {
                status_targets(state@, condition)
            },
            coords_in_range(r@),
        decreases 2 - player,
    {
        let ghost base = r@;
        let mut i: usize = 0;
        while i < 4
            invariant
                i <= 4,
                player < 2,
                state.wf(),
                r@ == base + status_upto(state@.board[player as int], player, i as int, condition),
                coords_in_range(r@),
            decreases 4 - i,
        {
            let hit = match state.in_play_pokemon[player][i].as_ref() {
                Some(c) => match condition {
                    StatusCondition::Asleep => c.asleep,
                    StatusCondition::Burned => c.burned,
                    StatusCondition::Confused => c.confused,
                    StatusCondition::Paralyzed => c.paralyzed,
                    StatusCondition::Poisoned => c.poisoned,
                },
                None => false,
            };
            if hit {
                r.push((player, i));
            }
            i = i + 1;
            proof {
                assert(r@ =~= base + status_upto(state@.board[player as int], player, i as int, condition));
            }
        }
        proof {
            if player == 0 {
                assert(r@ =~= status_upto(state@.board[0], 0, 4, condition));
            }
        }
        player = player + 1;
    }
    r
}

/// Finds every Pokémon in play that is Asleep, Paralyzed, Poisoned or Burned.
pub fn collect_checkup_targets(state: &State) -> (targets: CheckupTargets)
    requires
        state.wf(),
    ensures
        targets.sleeps@ == status_targets(state@, StatusCondition::Asleep),
        targets.paralyzed@ == status_targets(state@, StatusCondition::Paralyzed),
        targets.poisoned@ == status_targets(state@, StatusCondition::Poisoned),
        targets.burned@ == status_targets(state@, StatusCondition::Burned),
        coords_in_range(targets.sleeps@),
        coords_in_range(targets.paralyzed@),
        coords_in_range(targets.poisoned@),
        coords_in_range(targets.burned@),
{
    CheckupTargets {
        sleeps: status_targets_of(state, StatusCondition::Asleep),
        paralyzed: status_targets_of(state, StatusCondition::Paralyzed),
        poisoned: status_targets_of(state, StatusCondition::Poisoned),
        burned: status_targets_of(state, StatusCondition::Burned),
    }
}

/// Poison damage for the Pokémon in `(player, in_play_idx)`: 10, plus 10 for each of the
/// opponent's Nihilego with More Poison when the poisoned Pokémon is in the Active Spot.
pub fn get_poison_damage(state: &State, player: usize, in_play_idx: usize) -> (r: u32)
    requires
        state.wf(),
        player < 2,
    ensures
        r == poison_damage_spec(state@, player as int, in_play_idx as int),
        10 <= r <= 50,
{
    let base_damage: u32 = 10;
    if in_play_idx != 0 {
        return base_damage;
    }
    let opponent = 1 - player;
    let mut nihilego_count: u32 = 0;
    let mut i: usize = 0;
    while i < 4
        invariant
            i <= 4,
            opponent < 2,
            state.wf(),
            nihilego_count == count_more_poison(state@.board[opponent as int], i as int),
            nihilego_count <= i,
        decreases 4 - i,
    {
        let more_poison = match state.in_play_pokemon[opponent][i].as_ref() {
            Some(pokemon) => match pokemon.card.get_ability() {
                Some(AbilityMechanic::IncreasePoisonDamage { amount }) => *amount == 10,
                _ => false,
            },
            None => false,
        };
        if more_poison {
            nihilego_count = nihilego_count + 1;
        }
        i = i + 1;
    }
    base_damage + nihilego_count * 10
}

/// One Pokémon's poison damage (dealt as damage to itself), if it is still in play.
pub open spec fn poison_step(s: StateView, t: (usize, usize)) -> StateView {
    if s.slot(t.0 as int, t.1 as int) is Some {
        damage_only_spec(s, t, seq![(poison_damage_spec(s, t.0 as int, t.1 as int), t.0, t.1)], false)
    } else {
        s
    }
}

/// Poison damage for each listed Pokémon, one after the other.
pub open spec fn poison_fold(s: StateView, ts: Seq<(usize, usize)>) -> StateView
    decreases ts.len(),
{
    if ts.len() == 0 {
        s
    } else {
        poison_step(poison_fold(s, ts.drop_last()), ts.last())
    }
}

/// One Burned Pokémon: 20 damage, then healed of its burn when its coin came up heads.
pub open spec fn burn_step(s: StateView, t: (usize, usize), heals: bool) -> StateView {
    if s.slot(t.0 as int, t.1 as int) is Some {
        let s1 = damage_only_spec(s, t, seq![(20u32, t.0, t.1)], false);
        if heals {
            map_slot(s1, t.0 as int, t.1 as int, |c: PlayedCard| c.cleared_spec(StatusCondition::Burned))
        } else {
            s1
        }
    } else {
        s
    }
}

/// The Burned Pokémon one after the other, `heals[i]` being the i-th burn coin.
pub open spec fn burn_fold(s: StateView, ts: Seq<(usize, usize)>, heals: Seq<bool>) -> StateView
    decreases ts.len(),
{
    if ts.len() == 0 {
        s
    } else {
        burn_step(burn_fold(s, ts.drop_last(), heals), ts.last(), heals[ts.len() - 1])
    }
}

/// Removes `condition` from each listed Pokémon whose flag is set.
pub open spec fn clear_fold(
    s: StateView,
    ts: Seq<(usize, usize)>,
    flags: Seq<bool>,
    condition: StatusCondition,
) -> StateView
    decreases ts.len(),
{
    if ts.len() == 0 {
        s
    } else {
        let prev = clear_fold(s, ts.drop_last(), flags, condition);
        if flags[ts.len() - 1] {
            map_slot(
                prev,
                ts.last().0 as int,
                ts.last().1 as int,
                |c: PlayedCard| c.cleared_spec(condition),
            )
        } else {
            prev
        }
    }
}

/// Resolving damage leaves the move-generation stack alone (Bouncy Body aside).
pub proof fn lemma_damage_only_stack(
    s: StateView,
    attacker: (usize, usize),
    ts: Seq<(u32, usize, usize)>,
    is_from_active_attack: bool,
)
    ensures
        damage_only_spec(s, attacker, ts, is_from_active_attack).move_generation_stack
            == s.move_generation_stack,
{
    lemma_damage_fold_stack(
        s,
        attacker,
        modified_targets(s, attacker, merge_targets(ts), is_from_active_attack),
        is_from_active_attack,
    );
}

/// `damage_fold` leaves the move-generation stack alone.
pub proof fn lemma_damage_fold_stack(
    s: StateView,
    attacker: (usize, usize),
    ts: Seq<(u32, usize, usize)>,
    is_from_active_attack: bool,
)
    ensures
        damage_fold(s, attacker, ts, is_from_active_attack).move_generation_stack == s.move_generation_stack,
    decreases ts.len(),
{
    if ts.len() > 0 {
        lemma_damage_fold_stack(s, attacker, ts.drop_last(), is_from_active_attack);
    }
}

/// Damage without modifiers from a source that is not an attack, for a single target.
pub proof fn lemma_single_target_fits(d: u32, p: usize, i: usize)
    ensures
        targets_fit(seq![(d, p, i)]),
        targets_in_range(seq![(d, p, i)]) <== (p < 2 && i < 4),
{
    let ts = seq![(d, p, i)];
    assert forall|player: usize, idx: usize| #[trigger] damage_to(ts, player, idx) <= u32::MAX by {
        assert(ts.drop_last() =~= Seq::<(u32, usize, usize)>::empty());
        assert(damage_to(ts.drop_last(), player, idx) == 0);
        assert(ts.last() == (d, p, i));
    }
}

/// Applies poison damage to each listed Pokémon still in play.
fn apply_poison_damage(state: &mut State, poisoned: &Vec<(usize, usize)>)
    requires
        old(state).wf(),
        coords_in_range(poisoned@),
    ensures
        final(state).wf(),
        final(state)@ == poison_fold(old(state)@, poisoned@),
{
    let ghost s0 = state@;
    let mut k: usize = 0;
    proof {
        assert(poisoned@.subrange(0, 0) =~= Seq::<(usize, usize)>::empty());
    }
    while k < poisoned.len()
        invariant
            k <= poisoned.len(),
            state.wf(),
            coords_in_range(poisoned@),
            state@ == poison_fold(s0, poisoned@.subrange(0, k as int)),
        decreases poisoned.len() - k,
    {
        let (player, in_play_idx) = poisoned[k];
        let ghost before = state@;
        if state.in_play_pokemon[player][in_play_idx].is_some() {
            let poison_damage = get_poison_damage(state, player, in_play_idx);
            let mut targets: Vec<(u32, usize, usize)> = Vec::new();
            targets.push((poison_damage, player, in_play_idx));
            proof {
                lemma_single_target_fits(poison_damage, player, in_play_idx);
                assert(targets@ =~= seq![(poison_damage, player, in_play_idx)]);
            }
            handle_damage_only(state, (player, in_play_idx), &targets, false);
            proof {
                lemma_damage_only_stack(before, (player, in_play_idx), targets@, false);
            }
        }
        k = k + 1;
        proof {
            assert(poisoned@.subrange(0, k as int).drop_last() =~= poisoned@.subrange(0, k as int - 1));
        }
    }
    proof {
        assert(poisoned@.subrange(0, poisoned@.len() as int) =~= poisoned@);
    }
}

/// Applies burn damage to each listed Pokémon still in play, healing the burn of those whose
/// coin came up heads (`heads[i]` for the i-th one).
fn apply_burn_damage(state: &mut State, burned: &Vec<(usize, usize)>, heads: &Vec<bool>)
    requires
        old(state).wf(),
        coords_in_range(burned@),
        heads@.len() >= burned@.len(),
    ensures
        final(state).wf(),
        final(state)@ == burn_fold(old(state)@, burned@, heads@),
{
    let ghost s0 = state@;
    let mut k: usize = 0;
    proof {
        assert(burned@.subrange(0, 0) =~= Seq::<(usize, usize)>::empty());
    }
    while k < burned.len()
        invariant
            k <= burned.len(),
            heads@.len() >= burned@.len(),
            state.wf(),
            coords_in_range(burned@),
            state@ == burn_fold(s0, burned@.subrange(0, k as int), heads@),
        decreases burned.len() - k,
    {
        let (player, in_play_idx) = burned[k];
        if state.in_play_pokemon[player][in_play_idx].is_some() {
            let mut targets: Vec<(u32, usize, usize)> = Vec::new();
            targets.push((20, player, in_play_idx));
            proof {
                lemma_single_target_fits(20, player, in_play_idx);
                assert(targets@ =~= seq![(20u32, player, in_play_idx)]);
            }
            let ghost before = state@;
            handle_damage_only(state, (player, in_play_idx), &targets, false);
            proof {
                lemma_damage_only_stack(before, (player, in_play_idx), targets@, false);
            }
            if heads[k] {
                clear_status_slot(state, player, in_play_idx, StatusCondition::Burned);
            }
        }
        k = k + 1;
        proof {
            assert(burned@.subrange(0, k as int).drop_last() =~= burned@.subrange(0, k as int - 1));
        }
    }
    proof {
        assert(burned@.subrange(0, burned@.len() as int) =~= burned@);
    }
}

/// Removes `condition` from each listed Pokémon whose flag is set.
fn clear_statuses(
    state: &mut State,
    targets: &Vec<(usize, usize)>,
    flags: &Vec<bool>,
    condition: StatusCondition,
)
    requires
        old(state).wf(),
        coords_in_range(targets@),
        flags@.len() >= targets@.len(),
    ensures
        final(state).wf(),
        final(state)@ == clear_fold(old(state)@, targets@, flags@, condition),
{
    let ghost s0 = state@;
    let mut k: usize = 0;
    proof {
        assert(targets@.subrange(0, 0) =~= Seq::<(usize, usize)>::empty());
    }
    while k < targets.len()
        invariant
            k <= targets.len(),
            flags@.len() >= targets@.len(),
            state.wf(),
            coords_in_range(targets@),
            state@ == clear_fold(s0, targets@.subrange(0, k as int), flags@, condition),
        decreases targets.len() - k,
    {
        let (player, in_play_idx) = targets[k];
        if flags[k] {
            clear_status_slot(state, player, in_play_idx, condition);
        }
        k = k + 1;
        proof {
            assert(targets@.subrange(0, k as int).drop_last() =~= targets@.subrange(0, k as int - 1));
        }
    }
    proof {
        assert(targets@.subrange(0, targets@.len() as int) =~= targets@);
    }
}


/// Garganacl's Blessed Salt amount of the Pokémon in a slot, if it has the ability.
pub open spec fn healer_amount(slot: Option<PlayedCard>) -> Option<u32> {
    match slot {
        Some(c) => match ability_of(c) {
            Some(AbilityMechanic::HealAllYourPokemonDuringCheckup { amount }) => Some(amount),
            _ => None,
        },
        None => None,
    }
}

/// The Blessed Salt healers among the first `n` slots of a side, as `(owner, amount)`.
pub open spec fn healers_upto(side: Seq<Option<PlayedCard>>, player: usize, n: int) -> Seq<(usize, u32)>
    decreases n,
{
    if n <= 0 {
        Seq::empty()
    } else {
        let r = healers_upto(side, player, n - 1);
        match healer_amount(side[n - 1]) {
            Some(amount) => r.push((player, amount)),
            None => r,
        }
    }
}

/// Every Blessed Salt healer in play: player 0's first, each side by slot.
pub open spec fn healers(s: StateView) -> Seq<(usize, u32)> {
    healers_upto(s.board[0], 0, 4) + healers_upto(s.board[1], 1, 4)
}

/// Heals `amount` from each of the first `n` slots of `player`.
pub open spec fn heal_side_upto(s: StateView, player: int, amount: u32, n: int) -> StateView
    decreases n,
{
    if n <= 0 {
        s
    } else {
        map_slot(heal_side_upto(s, player, amount, n - 1), player, n - 1, |c: PlayedCard| c.healed_spec(amount))
    }
}

/// Each healer heals every Pokémon of its owner, one healer after the other.
pub open spec fn heal_fold(s: StateView, hs: Seq<(usize, u32)>) -> StateView
    decreases hs.len(),
{
    if hs.len() == 0 {
        s
    } else {
        let prev = heal_fold(s, hs.drop_last());
        heal_side_upto(prev, hs.last().0 as int, hs.last().1, 4)
    }
}

/// Heals `amount` damage from each of `player`'s Pokémon in play.
pub fn heal_all_pokemon(state: &mut State, player: usize, amount: u32)
    requires
        old(state).wf(),
        player < 2,
    ensures
        final(state).wf(),
        final(state)@ == heal_side_upto(old(state)@, player as int, amount, 4),
{
    let ghost s0 = state@;
    let mut i: usize = 0;
    while i < 4
        invariant
            i <= 4,
            player < 2,
            state.wf(),
            state@ == heal_side_upto(s0, player as int, amount, i as int),
        decreases 4 - i,
    {
        heal_slot(state, player, i, amount);
        i = i + 1;
    }
}

/// Garganacl's Blessed Salt: during Pokémon Checkup, each Pokémon with the ability heals
/// `amount` damage from every one of its owner's Pokémon in play (stacking if there are several).
fn apply_checkup_healing_abilities(state: &mut State)
    requires
        old(state).wf(),
    ensures
        final(state).wf(),
        final(state)@ == heal_fold(old(state)@, healers(old(state)@)),
{
    let ghost s0 = state@;
    let mut healer_list: Vec<(usize, u32)> = Vec::new();
    let mut player: usize = 0;
    while player < 2
        invariant
            player <= 2,
            state.wf(),
            state@ == s0,
            healer_list@ == if player == 0 {
                Seq::empty()
            } else if player == 1 {
                healers_upto(s0.board[0], 0, 4)
            } else {
                healers(s0)
            },
            forall|k: int| 0 <= k < healer_list@.len() ==> (#[trigger] healer_list@[k]).0 < 2,
        decreases 2 - player,
    {
        let ghost base = healer_list@;
        let mut i: usize = 0;
        while i < 4
            invariant
                i <= 4,
                player < 2,
                state.wf(),
                state@ == s0,
                healer_list@ == base + healers_upto(s0.board[player as int], player, i as int),
                forall|k: int| 0 <= k < healer_list@.len() ==> (#[trigger] healer_list@[k]).0 < 2,
            decreases 4 - i,
        {
            let amount: Option<u32> = match state.in_play_pokemon[player][i].as_ref() {
                Some(pokemon) => match pokemon.card.get_ability() {
                    Some(AbilityMechanic::HealAllYourPokemonDuringCheckup { amount }) => Some(*amount),
                    _ => None,
                },
                None => None,
            };
            match amount {
                Some(a) => healer_list.push((player, a)),
                None => {},
            }
            i = i + 1;
            proof {
                assert(healer_list@ =~= base + healers_upto(s0.board[player as int], player, i as int));
            }
        }
        proof {
            if player == 0 {
                assert(healer_list@ =~= healers_upto(s0.board[0], 0, 4));
            }
        }
        player = player + 1;
    }
    let mut k: usize = 0;
    proof {
        assert(healer_list@.subrange(0, 0) =~= Seq::<(usize, u32)>::empty());
    }
    while k < healer_list.len()
        invariant
            k <= healer_list.len(),
            state.wf(),
            forall|m: int| 0 <= m < healer_list@.len() ==> (#[trigger] healer_list@[m]).0 < 2,
            state@ == heal_fold(s0, healer_list@.subrange(0, k as int)),
        decreases healer_list.len() - k,
    {
        let (p, amount) = healer_list[k];
        heal_all_pokemon(state, p, amount);
        k = k + 1;
        proof {
            assert(healer_list@.subrange(0, k as int).drop_last() =~= healer_list@.subrange(0, k as int - 1));
        }
    }
    proof {
        assert(healer_list@.subrange(0, healer_list@.len() as int) =~= healer_list@);
    }
}

/// The checkup damage of `player`'s Active Pokémon (Snowy Terrain and the like), if it is in play,
/// not Knocked Out, and has such an ability: `to_all` picks the every-opponent-Pokémon kind.
pub open spec fn checkup_damage_of(s: StateView, player: int, to_all: bool) -> Option<u32> {
    match s.slot(player, 0) {
        Some(c) => if c.remaining_hp == 0 {
            None
        } else {
            match ability_of(c) {
                Some(AbilityMechanic::CheckupDamageToOpponentActive { amount }) => if to_all {
                    None
                } else {
                    Some(amount)
                },
                Some(AbilityMechanic::CheckupDamageToAllOpponentPokemon { amount }) => if to_all {
                    Some(amount)
                } else {
                    None
                },
                _ => None,
            }
        },
        None => None,
    }
}

/// The sources of checkup damage of one kind, as `(source player, amount)`, player 0 first.
pub open spec fn checkup_damage_list(s: StateView, to_all: bool) -> Seq<(usize, u32)> {
    let first = match checkup_damage_of(s, 0, to_all) {
        Some(a) => seq![(0usize, a)],
        None => Seq::empty(),
    };
    match checkup_damage_of(s, 1, to_all) {
        Some(a) => first.push((1usize, a)),
        None => first,
    }
}

/// The damage targets for hitting every Pokémon of `player` in play for `damage`.
pub open spec fn all_pokemon_targets(s: StateView, player: usize, damage: u32) -> Seq<(u32, usize, usize)> {
    s.in_play_indices(player as int).map_values(|i: usize| (damage, player, i))
}

/// Checkup damage to the opponent's Active Pokémon from `src`'s Active Pokémon.
pub open spec fn snowy_active_step(s: StateView, src: (usize, u32)) -> StateView {
    let target = (1 - src.0) as usize;
    if s.slot(target as int, 0) is Some {
        damage_only_spec(s, (src.0, 0), seq![(src.1, target, 0usize)], false)
    } else {
        s
    }
}

/// Checkup damage to every one of the opponent's Pokémon from `src`'s Active Pokémon.
pub open spec fn snowy_all_step(s: StateView, src: (usize, u32)) -> StateView {
    let target = (1 - src.0) as usize;
    let ts = all_pokemon_targets(s, target, src.1);
    if ts.len() > 0 {
        damage_only_spec(s, (src.0, 0), ts, false)
    } else {
        s
    }
}

/// Applies one kind of checkup damage for each source in order.
pub open spec fn snowy_fold(s: StateView, srcs: Seq<(usize, u32)>, to_all: bool) -> StateView
    decreases srcs.len(),
{
    if srcs.len() == 0 {
        s
    } else {
        let prev = snowy_fold(s, srcs.drop_last(), to_all);
        if to_all {
            snowy_all_step(prev, srcs.last())
        } else {
            snowy_active_step(prev, srcs.last())
        }
    }
}

/// All checkup damage: first to Active Pokémon, then to every Pokémon; both lists are taken from
/// the board before any of it is dealt.
pub open spec fn snowy_spec(s: StateView) -> StateView {
    snowy_fold(
        snowy_fold(s, checkup_damage_list(s, false), false),
        checkup_damage_list(s, true),
        true,
    )
}

/// The same damage to distinct Pokémon fits as long as the amount does.
pub proof fn lemma_distinct_targets_fit(ts: Seq<(u32, usize, usize)>, d: u32)
    requires
        forall|k: int| 0 <= k < ts.len() ==> (#[trigger] ts[k]).0 == d,
        forall|j: int, k: int| 0 <= j < k < ts.len() ==> !aims_at(#[trigger] ts[j], (#[trigger] ts[k]).1, ts[k].2),
    ensures
        targets_fit(ts),
        forall|player: usize, idx: usize| 0 <= #[trigger] damage_to(ts, player, idx) <= d,
    decreases ts.len(),
{
    if ts.len() > 0 {
        let prefix = ts.drop_last();
        assert forall|k: int| 0 <= k < prefix.len() implies (#[trigger] prefix[k]).0 == d by {
            assert(prefix[k] == ts[k]);
        }
        assert forall|j: int, k: int| 0 <= j < k < prefix.len() implies !aims_at(#[trigger] prefix[j], (#[trigger] prefix[k]).1, prefix[k].2) by {
            assert(prefix[j] == ts[j]);
            assert(prefix[k] == ts[k]);
        }
        lemma_distinct_targets_fit(prefix, d);
        let t = ts.last();
        assert(t == ts[ts.len() - 1]);
        assert forall|player: usize, idx: usize| 0 <= #[trigger] damage_to(ts, player, idx) <= d by {
            assert(damage_to(prefix, player, idx) <= d);
            if t.1 == player && t.2 == idx {
                assert(damage_to(ts, player, idx) == damage_to(prefix, player, idx) + d);
                lemma_no_aim_no_damage(prefix, player, idx);
                assert forall|k: int| 0 <= k < prefix.len() implies !aims_at(#[trigger] prefix[k], player, idx) by {
                    assert(prefix[k] == ts[k]);
                    assert(!aims_at(ts[k], t.1, t.2));
                }
            } else {
                assert(damage_to(ts, player, idx) == damage_to(prefix, player, idx));
            }
        }
    }
}

/// No entry aimed at a Pokémon means no damage to it.
pub proof fn lemma_no_aim_no_damage(ts: Seq<(u32, usize, usize)>, player: usize, idx: usize)
    ensures
        (forall|k: int| 0 <= k < ts.len() ==> !aims_at(#[trigger] ts[k], player, idx)) ==> damage_to(
            ts,
            player,
            idx,
        ) == 0,
    decreases ts.len(),
{
    if ts.len() > 0 {
        lemma_no_aim_no_damage(ts.drop_last(), player, idx);
        if forall|k: int| 0 <= k < ts.len() ==> !aims_at(#[trigger] ts[k], player, idx) {
            assert forall|k: int| 0 <= k < ts.len() - 1 implies !aims_at(#[trigger] ts.drop_last()[k], player, idx) by {
                assert(ts.drop_last()[k] == ts[k]);
            }
            assert(!aims_at(ts[ts.len() - 1], player, idx));
        }
    }
}

/// The checkup damage of one kind from the Active Pokémon of `player`.
fn checkup_damage_source(state: &State, player: usize, to_all: bool) -> (r: Option<u32>)
    requires
        state.wf(),
        player < 2,
    ensures
        r == checkup_damage_of(state@, player as int, to_all),
{
    match state.in_play_pokemon[player][0].as_ref() {
        Some(active) => {
            if active.is_knocked_out() {
                return None;
            }
            match active.card.get_ability() {
                Some(AbilityMechanic::CheckupDamageToOpponentActive { amount }) => if to_all {
                    None
                } else {
                    Some(*amount)
                },
                Some(AbilityMechanic::CheckupDamageToAllOpponentPokemon { amount }) => if to_all {
                    Some(*amount)
                } else {
                    None
                },
                _ => None,
            }
        },
        None => None,
    }
}

/// Pokémon Checkup damage from abilities like Snowy Terrain (to the opponent's Active Pokémon)
/// and Sand Slammer (to each of the opponent's Pokémon).
fn apply_snowy_terrain_checkup_damage(state: &mut State)
    requires
        old(state).wf(),
    ensures
        final(state).wf(),
        final(state)@ == snowy_spec(old(state)@),
{
    let ghost s0 = state@;
    let mut active_only_damage: Vec<(usize, u32)> = Vec::new();
    let mut all_opponent_damage: Vec<(usize, u32)> = Vec::new();
    match checkup_damage_source(state, 0, false) {
        Some(a) => active_only_damage.push((0, a)),
        None => {},
    }
    match checkup_damage_source(state, 1, false) {
        Some(a) => active_only_damage.push((1, a)),
        None => {},
    }
    match checkup_damage_source(state, 0, true) {
        Some(a) => all_opponent_damage.push((0, a)),
        None => {},
    }
    match checkup_damage_source(state, 1, true) {
        Some(a) => all_opponent_damage.push((1, a)),
        None => {},
    }
    proof {
        assert(active_only_damage@ =~= checkup_damage_list(s0, false));
        assert(all_opponent_damage@ =~= checkup_damage_list(s0, true));
        assert(active_only_damage@.subrange(0, 0) =~= Seq::<(usize, u32)>::empty());
    }
    let mut k: usize = 0;
    while k < active_only_damage.len()
        invariant
            k <= active_only_damage.len(),
            state.wf(),
            forall|m: int| 0 <= m < active_only_damage@.len() ==> (#[trigger] active_only_damage@[m]).0 < 2,
            state@ == snowy_fold(s0, active_only_damage@.subrange(0, k as int), false),
        decreases active_only_damage.len() - k,
    {
        let (source_player, checkup_damage) = active_only_damage[k];
        let target_player = 1 - source_player;
        let ghost before = state@;
        if state.in_play_pokemon[target_player][0].is_some() {
            let mut targets: Vec<(u32, usize, usize)> = Vec::new();
            targets.push((checkup_damage, target_player, 0));
            proof {
                lemma_single_target_fits(checkup_damage, target_player, 0);
                assert(targets@ =~= seq![(checkup_damage, target_player, 0usize)]);
            }
            handle_damage_only(state, (source_player, 0), &targets, false);
            proof {
                lemma_damage_only_stack(before, (source_player, 0), targets@, false);
            }
        }
        k = k + 1;
        proof {
            assert(active_only_damage@.subrange(0, k as int).drop_last() =~= active_only_damage@.subrange(0, k as int - 1));
        }
    }
    let ghost s1 = state@;
    proof {
        assert(active_only_damage@.subrange(0, active_only_damage@.len() as int) =~= active_only_damage@);
        assert(all_opponent_damage@.subrange(0, 0) =~= Seq::<(usize, u32)>::empty());
    }
    let mut k: usize = 0;
    while k < all_opponent_damage.len()
        invariant
            k <= all_opponent_damage.len(),
            state.wf(),
            forall|m: int| 0 <= m < all_opponent_damage@.len() ==> (#[trigger] all_opponent_damage@[m]).0 < 2,
            state@ == snowy_fold(s1, all_opponent_damage@.subrange(0, k as int), true),
        decreases all_opponent_damage.len() - k,
    {
        let (source_player, checkup_damage) = all_opponent_damage[k];
        let target_player = 1 - source_player;
        let ghost before = state@;
        let indices = state.enumerate_in_play_pokemon(target_player);
        let mut targets: Vec<(u32, usize, usize)> = Vec::new();
        let mut j: usize = 0;
        proof {
            lemma_occupied_from(before.board[target_player as int], 0);
        }
        while j < indices.len()
            invariant
                j <= indices.len(),
                indices@ == before.in_play_indices(target_player as int),
                target_player < 2,
                forall|m: int| 0 <= m < indices@.len() ==> (#[trigger] indices@[m]) < 4,
                targets@ == indices@.subrange(0, j as int).map_values(|i: usize| (checkup_damage, target_player, i)),
            decreases indices.len() - j,
        {
            targets.push((checkup_damage, target_player, indices[j]));
            j = j + 1;
            proof {
                assert(targets@ =~= indices@.subrange(0, j as int).map_values(|i: usize| (checkup_damage, target_player, i)));
            }
        }
        proof {
            assert(indices@.subrange(0, indices@.len() as int) =~= indices@);
            assert(targets@ == all_pokemon_targets(before, target_player, checkup_damage));
        }
        if targets.len() > 0 {
            proof {
                let ts = targets@;
                assert forall|m: int| 0 <= m < ts.len() implies (#[trigger] ts[m]).1 < 2 && ts[m].2 < 4 by {}
                assert forall|m: int| 0 <= m < ts.len() implies (#[trigger] ts[m]).0 == checkup_damage by {}
                assert forall|a: int, b: int| 0 <= a < b < ts.len() implies !aims_at(#[trigger] ts[a], (#[trigger] ts[b]).1, ts[b].2) by {
                    assert(indices@[a] < indices@[b]);
                }
                lemma_distinct_targets_fit(ts, checkup_damage);
            }
            handle_damage_only(state, (source_player, 0), &targets, false);
            proof {
                lemma_damage_only_stack(before, (source_player, 0), targets@, false);
            }
        }
        k = k + 1;
        proof {
            assert(all_opponent_damage@.subrange(0, k as int).drop_last() =~= all_opponent_damage@.subrange(0, k as int - 1));
        }
    }
    proof {
        assert(all_opponent_damage@.subrange(0, all_opponent_damage@.len() as int) =~= all_opponent_damage@);
    }
}


/// The per-turn Knock Out records move to "last turn", and this turn's start empty.
pub open spec fn shift_turn_records(s: StateView) -> StateView {
    StateView {
        knocked_out_by_opponent_attack_last_turn: s.knocked_out_by_opponent_attack_this_turn,
        knocked_out_by_opponent_attack_this_turn: false,
        knocked_out_types_last_turn: s.knocked_out_types_this_turn,
        knocked_out_types_this_turn: Seq::empty(),
        points_gained_last_turn: s.points_gained_this_turn,
        points_gained_this_turn: seq![0u32, 0u32],
        ..s
    }
}

/// Pokémon Checkup, given the Pokémon to check and the coin results: `outcome[i]` for the i-th
/// sleeping Pokémon (heads wakes it up), then `outcome[num_sleeps + i]` for the i-th burned one
/// (heads heals the burn). Order: poison damage, burn damage and healing, waking up, paralysis
/// wearing off, Blessed Salt healing, checkup damage from abilities, then the turn's Knock Out
/// records shift. Knock Outs are not resolved here.
pub open spec fn checkup_spec(
    s: StateView,
    sleeps: Seq<(usize, usize)>,
    paralyzed: Seq<(usize, usize)>,
    poisoned: Seq<(usize, usize)>,
    burned: Seq<(usize, usize)>,
    outcome: Seq<bool>,
) -> StateView {
    let s1 = poison_fold(s, poisoned);
    let s2 = burn_fold(s1, burned, outcome.subrange(sleeps.len() as int, outcome.len() as int));
    let s3 = clear_fold(s2, sleeps, outcome, StatusCondition::Asleep);
    let s4 = clear_fold(s3, paralyzed, Seq::new(paralyzed.len(), |i: int| true), StatusCondition::Paralyzed);
    let s5 = heal_fold(s4, healers(s4));
    let s6 = snowy_spec(s5);
    shift_turn_records(s6)
}

/// Runs Pokémon Checkup on the given Pokémon with the given coin results (see `checkup_spec`).
pub fn apply_pokemon_checkup(state: &mut State, checkup_targets: &CheckupTargets, outcome: &Vec<bool>)
    requires
        old(state).wf(),
        coords_in_range(checkup_targets.sleeps@),
        coords_in_range(checkup_targets.paralyzed@),
        coords_in_range(checkup_targets.poisoned@),
        coords_in_range(checkup_targets.burned@),
        outcome@.len() >= checkup_targets.sleeps@.len() + checkup_targets.burned@.len(),
    ensures
        final(state).wf(),
        final(state)@ == checkup_spec(
            old(state)@,
            checkup_targets.sleeps@,
            checkup_targets.paralyzed@,
            checkup_targets.poisoned@,
            checkup_targets.burned@,
            outcome@,
        ),
{
    let num_sleeps = checkup_targets.sleeps.len();
    apply_poison_damage(state, &checkup_targets.poisoned);
    let mut burn_heads: Vec<bool> = Vec::new();
    let mut k: usize = num_sleeps;
    while k < outcome.len()
        invariant
            num_sleeps <= k <= outcome.len(),
            burn_heads@ == outcome@.subrange(num_sleeps as int, k as int),
        decreases outcome.len() - k,
    {
        burn_heads.push(outcome[k]);
        k = k + 1;
        proof {
            assert(burn_heads@ =~= outcome@.subrange(num_sleeps as int, k as int));
        }
    }
    apply_burn_damage(state, &checkup_targets.burned, &burn_heads);
    clear_statuses(state, &checkup_targets.sleeps, outcome, StatusCondition::Asleep);
    let mut all: Vec<bool> = Vec::new();
    let mut k: usize = 0;
    while k < checkup_targets.paralyzed.len()
        invariant
            k <= checkup_targets.paralyzed.len(),
            all@ == Seq::new(k as nat, |i: int| true),
        decreases checkup_targets.paralyzed.len() - k,
    {
        all.push(true);
        k = k + 1;
        proof {
            assert(all@ =~= Seq::new(k as nat, |i: int| true));
        }
    }
    clear_statuses(state, &checkup_targets.paralyzed, &all, StatusCondition::Paralyzed);
    apply_checkup_healing_abilities(state);
    apply_snowy_terrain_checkup_damage(state);
    let ghost s6 = state@;
    state.knocked_out_by_opponent_attack_last_turn = state.knocked_out_by_opponent_attack_this_turn;
    state.knocked_out_by_opponent_attack_this_turn = false;
    let mut this_turn_types: Vec<Option<EnergyType>> = Vec::new();
    std::mem::swap(&mut this_turn_types, &mut state.knocked_out_types_this_turn);
    state.knocked_out_types_last_turn = this_turn_types;
    let gained0 = state.points_gained_this_turn[0];
    let gained1 = state.points_gained_this_turn[1];
    state.points_gained_last_turn.set(0, gained0);
    state.points_gained_last_turn.set(1, gained1);
    state.points_gained_this_turn.set(0, 0);
    state.points_gained_this_turn.set(1, 0);
    proof {
        assert(state@.points_gained_last_turn =~= s6.points_gained_this_turn);
        assert(state@.points_gained_this_turn =~= seq![0u32, 0u32]);
        assert(state@.knocked_out_types_this_turn =~= Seq::<Option<EnergyType>>::empty());
    }
}


// ---------------------------------------------------------------------------------------------
// Coin outcomes, Guts, switching
// ---------------------------------------------------------------------------------------------

/// 2 to the power `n`.
pub open spec fn two_pow(n: nat) -> nat
    decreases n,
{
    if n == 0 {
        1
    } else {
        2 * two_pow((n - 1) as nat)
    }
}

/// Powers of two grow with the exponent.
pub proof fn lemma_two_pow_monotone(a: nat, b: nat)
    requires
        a <= b,
    ensures
        1 <= two_pow(a) <= two_pow(b),
    decreases b,
{
    if b > 0 {
        if a < b {
            lemma_two_pow_monotone(a, (b - 1) as nat);
        } else {
            lemma_two_pow_monotone((b - 1) as nat, (b - 1) as nat);
        }
    }
}

/// The `n` lowest bits of `i`, lowest first: bit `b` is true when `i` has 2^b in it.
pub open spec fn bits_of(i: nat, n: nat) -> Seq<bool>
    decreases n,
{
    if n == 0 {
        Seq::empty()
    } else {
        seq![i % 2 == 1] + bits_of(i / 2, (n - 1) as nat)
    }
}

/// The number whose `n` lowest bits are `v` (lowest first).
pub open spec fn value_of_bits(v: Seq<bool>) -> nat
    decreases v.len(),
{
    if v.len() == 0 {
        0
    } else {
        (if v[0] {
            1nat
        } else {
            0nat
        }) + 2 * value_of_bits(v.skip(1))
    }
}

/// Law: the coin outcomes produced for `n` coins are all distinct — different numbers below 2^n
/// have different bit vectors.
pub proof fn lemma_bits_of_injective(i: nat, j: nat, n: nat)
    requires
        i < two_pow(n),
        j < two_pow(n),
        bits_of(i, n) == bits_of(j, n),
    ensures
        i == j,
    decreases n,
{
    if n > 0 {
        let m = (n - 1) as nat;
        assert(bits_of(i, n) == seq![i % 2 == 1] + bits_of(i / 2, m));
        assert(bits_of(j, n) == seq![j % 2 == 1] + bits_of(j / 2, m));
        assert(bits_of(i, n)[0] == bits_of(j, n)[0]);
        assert((seq![i % 2 == 1] + bits_of(i / 2, m))[0] == (i % 2 == 1));
        assert((seq![j % 2 == 1] + bits_of(j / 2, m))[0] == (j % 2 == 1));
        assert((i % 2 == 1) == (j % 2 == 1));
        assert(i % 2 == j % 2);
        assert(bits_of(i / 2, m) =~= bits_of(i, n).skip(1));
        assert(bits_of(j / 2, m) =~= bits_of(j, n).skip(1));
        assert(two_pow(n) == 2 * two_pow(m));
        assert(i / 2 < two_pow(m));
        assert(j / 2 < two_pow(m));
        lemma_bits_of_injective(i / 2, j / 2, m);
        assert(i == 2 * (i / 2) + i % 2);
        assert(j == 2 * (j / 2) + j % 2);
    }
}

/// Law: every sequence of `n` coin results is produced — `value_of_bits` is below 2^n and its
/// bits give the sequence back.
pub proof fn lemma_bits_of_surjective(v: Seq<bool>)
    ensures
        value_of_bits(v) < two_pow(v.len()),
        bits_of(value_of_bits(v), v.len()) == v,
    decreases v.len(),
{
    if v.len() > 0 {
        let rest = v.skip(1);
        lemma_bits_of_surjective(rest);
        let x = value_of_bits(v);
        let b: nat = if v[0] {
            1
        } else {
            0
        };
        assert(x == b + 2 * value_of_bits(rest));
        assert(x % 2 == b);
        assert(x / 2 == value_of_bits(rest));
        assert(rest.len() == v.len() - 1);
        assert(bits_of(x, v.len()) =~= v);
    }
}

/// All `2^n` coin outcomes for `n` coins: the i-th vector holds the bits of `i`, lowest first.
pub fn generate_boolean_vectors(n: usize) -> (r: Vec<Vec<bool>>)
    requires
        two_pow(n as nat) <= usize::MAX,
    ensures
        r@.len() == two_pow(n as nat),
        forall|i: int| 0 <= i < r@.len() ==> (#[trigger] r@[i])@ == bits_of(i as nat, n as nat),
{
    let mut total_combinations: usize = 1;
    let mut k: usize = 0;
    while k < n
        invariant
            k <= n,
            total_combinations == two_pow(k as nat),
            two_pow(n as nat) <= usize::MAX,
        decreases n - k,
    {
        proof {
            lemma_two_pow_monotone((k + 1) as nat, n as nat);
        }
        total_combinations = total_combinations * 2;
        k = k + 1;
    }
    let mut r: Vec<Vec<bool>> = Vec::new();
    let mut i: usize = 0;
    while i < total_combinations
        invariant
            i <= total_combinations,
            total_combinations == two_pow(n as nat),
            r@.len() == i,
            forall|m: int| 0 <= m < i ==> (#[trigger] r@[m])@ == bits_of(m as nat, n as nat),
        decreases total_combinations - i,
    {
        let mut v: Vec<bool> = Vec::new();
        let mut x: usize = i;
        let mut b: usize = 0;
        while b < n
            invariant
                b <= n,
                v@ + bits_of(x as nat, (n - b) as nat) == bits_of(i as nat, n as nat),
            decreases n - b,
        {
            let ghost before = v@;
            v.push(x % 2 == 1);
            proof {
                let m = (n - b) as nat;
                assert(bits_of(x as nat, m) == seq![x % 2 == 1] + bits_of((x / 2) as nat, (m - 1) as nat));
                assert(v@ + bits_of((x / 2) as nat, (m - 1) as nat) =~= before + bits_of(x as nat, m));
            }
            x = x / 2;
            b = b + 1;
        }
        proof {
            assert(v@ =~= v@ + bits_of(x as nat, 0));
        }
        r.push(v);
        i = i + 1;
    }
    r
}

/// Ursaluna's Guts: whether the Pokémon in `target` flips its coin against `raw_damage` — it has
/// the ability, is not already at 0 HP, and the damage after modifiers would Knock it Out.
pub open spec fn guts_would_flip_spec(
    s: StateView,
    attacker: (usize, usize),
    raw_damage: u32,
    target: (usize, usize),
    is_from_active_attack: bool,
) -> bool {
    &&& raw_damage != 0
    &&& s.slot(target.0 as int, target.1 as int) matches Some(c)
    &&& ability_of(c) matches Some(AbilityMechanic::CoinFlipToSurviveKnockOut)
    &&& c.remaining_hp > 0
    &&& modify_damage_spec(s, attacker, (raw_damage, target.0, target.1), is_from_active_attack)
        >= c.remaining_hp
}

/// True if the Pokémon at `target` has the Guts ability and `raw_damage` (after modifiers)
/// would Knock it Out, so that it flips a Guts coin for this damage.
pub fn guts_would_flip(
    state: &State,
    attacking_ref: (usize, usize),
    raw_damage: u32,
    target: (usize, usize),
    is_from_active_attack: bool,
) -> (r: bool)
    requires
        state.wf(),
        attacking_ref.0 < 2,
        attacking_ref.1 < 4,
        target.0 < 2,
        target.1 < 4,
    ensures
        r == guts_would_flip_spec(state@, attacking_ref, raw_damage, target, is_from_active_attack),
{
    if raw_damage == 0 {
        return false;
    }
    let remaining = match state.in_play_pokemon[target.0][target.1].as_ref() {
        Some(pokemon) => match pokemon.card.get_ability() {
            Some(AbilityMechanic::CoinFlipToSurviveKnockOut) => pokemon.get_remaining_hp(),
            _ => {
                return false;
            },
        },
        None => {
            return false;
        },
    };
    let modified = modify_damage(
        state,
        attacking_ref,
        (raw_damage, target.0, target.1),
        is_from_active_attack,
    );
    remaining > 0 && modified >= remaining
}

/// The Pokémon as it moves from the Active Spot to the Bench: no status conditions, no effects.
pub open spec fn benched_from_active(old_c: PlayedCard, new_c: PlayedCard) -> bool {
    &&& new_c.card == old_c.card
    &&& new_c.remaining_hp == old_c.remaining_hp
    &&& new_c.total_hp == old_c.total_hp
    &&& new_c.attached_energy == old_c.attached_energy
    &&& !new_c.poisoned && !new_c.paralyzed && !new_c.asleep && !new_c.burned && !new_c.confused
    &&& new_c.effects@.len() == 0
}

/// Swaps a Benched Pokémon into the Active Spot: the previous Active Pokémon goes to that Bench
/// slot without status conditions or effects, and the new Active Pokémon is marked as moved to
/// the Active Spot this turn. (The swap part of a retreat, without paying Energy.)
pub fn apply_activate(player: usize, state: &mut State, bench_idx: usize)
    requires
        old(state).wf(),
        player < 2,
        1 <= bench_idx < 4,
    ensures
        final(state).wf(),
        (StateView { board: final(state)@.board, ..old(state)@ }) == final(state)@,
        forall|p: int, i: int|
            0 <= p < 2 && 0 <= i < 4 && !(p == player && (i == 0 || i == bench_idx))
                ==> #[trigger] final(state)@.slot(p, i) == old(state)@.slot(p, i),
        match old(state)@.slot(player as int, bench_idx as int) {
            Some(c) => final(state)@.slot(player as int, 0) == Some(
                PlayedCard { moved_to_active_this_turn: true, ..c },
            ),
            None => final(state)@.slot(player as int, 0) is None,
        },
        match old(state)@.slot(player as int, 0) {
            Some(c) => (final(state)@.slot(player as int, bench_idx as int) matches Some(d)
                && benched_from_active(c, d)),
            None => final(state)@.slot(player as int, bench_idx as int) is None,
        },
{
    let active = state.in_play_pokemon[player][0].take();
    let benched = state.in_play_pokemon[player][bench_idx].take();
    state.in_play_pokemon[player].set(0, benched);
    state.in_play_pokemon[player].set(bench_idx, active);
    let slot = &mut state.in_play_pokemon[player][bench_idx];
    match slot {
        Some(pokemon) => pokemon.clear_status_and_effects(),
        None => {},
    }
    let slot = &mut state.in_play_pokemon[player][0];
    match slot {
        Some(pokemon) => {
            pokemon.moved_to_active_this_turn = true;
        },
        None => {},
    }
}

// ---------------------------------------------------------------------------------------------
// The steps every action goes through before and after its own effect
// ---------------------------------------------------------------------------------------------

/// What `handle_knockouts` does.
pub open spec fn knockouts_resolved(
    before: StateView,
    after: StateView,
    attacking_ref: (usize, usize),
    is_from_active_attack: bool,
) -> bool {
    let kos = knocked_out_list(before);
    let iris = iris_bonus_active_spec(before, attacking_ref, is_from_active_attack);
    let done = ko_fold(before, kos, attacking_ref, is_from_active_attack, iris);
    let w = winner_after_knockouts(done);
    &&& w is Some ==> after == (StateView { winner: w, ..done })
    &&& w is None ==> same_but_stack(done, after)
    &&& w is None ==> promotions_queued(
        done,
        active_ko_players(kos),
        done.move_generation_stack,
        after.move_generation_stack,
    )
}

/// The first position, from `i` on, of a card with identifier `id` in `cards`, or -1.
pub open spec fn first_with_id(cards: Seq<Card>, id: CardId, i: int) -> int
    decreases cards.len() - i,
{
    if i < 0 || i >= cards.len() {
        -1
    } else if cards[i].id_spec() == id {
        i
    } else {
        first_with_id(cards, id, i + 1)
    }
}

/// The first position of a card with identifier `id` in `cards`.
fn first_with_id_exec(cards: &Vec<Card>, id: CardId) -> (r: Option<usize>)
    ensures
        match r {
            Some(k) => k as int == first_with_id(cards@, id, 0) && k < cards@.len(),
            None => first_with_id(cards@, id, 0) == -1,
        },
{
    let mut i: usize = 0;
    while i < cards.len()
        invariant
            i <= cards@.len(),
            first_with_id(cards@, id, 0) == first_with_id(cards@, id, i as int),
        decreases cards@.len() - i,
    {
        if cards[i].id() == id {
            return Some(i);
        }
        i = i + 1;
    }
    None
}

/// `s` with the top choice list of the stack taken off, when the action came from the stack.
pub open spec fn after_stack_pop(s: StateView, a: Action) -> StateView {
    if a.is_stack && s.move_generation_stack.len() > 0 {
        StateView { move_generation_stack: s.move_generation_stack.drop_last(), ..s }
    } else {
        s
    }
}

/// `s` with the card at `k` of `player`'s hand taken out.
pub open spec fn hand_without(s: StateView, player: int, k: int) -> StateView {
    StateView { hands: s.hands.update(player, s.hands[player].remove(k)), ..s }
}

/// What happens before a played card's own effect: the card leaves the hand (a Supporter, Item
/// or Fossil to the discard pile; a Pokémon Tool only leaves the hand); a Supporter marks that
/// one was played this turn.
pub open spec fn played_card_moved(s: StateView, after: StateView, actor: int, tc: TrainerCard) -> bool {
    let hand = s.hands[actor];
    let k = first_with_id(hand, tc.id, 0);
    let moved = if k < 0 {
        s
    } else if tc.trainer_card_type == TrainerType::Tool {
        hand_without(s, actor, k)
    } else {
        StateView {
            discard_piles: s.discard_piles.update(actor, s.discard_piles[actor].push(hand[k])),
            ..hand_without(s, actor, k)
        }
    };
    after == StateView {
        has_played_support: moved.has_played_support || tc.trainer_card_type == TrainerType::Supporter,
        ..moved
    }
}

/// What happens before a Stadium's own effect: it replaces the Stadium in play (which goes to
/// the discard pile of the player who played it), leaves the hand, and Knock Outs are checked.
pub open spec fn stadium_placed(s: StateView, after: StateView, actor: usize, tc: TrainerCard) -> bool {
    let hand = s.hands[actor as int];
    let k = first_with_id(hand, tc.id, 0);
    let s1 = match s.active_stadium {
        Some(old_stadium) => {
            let owner = match s.active_stadium_owner {
                Some(o) => if o < 2 {
                    o as int
                } else {
                    actor as int
                },
                None => actor as int,
            };
            StateView {
                discard_piles: s.discard_piles.update(
                    owner,
                    s.discard_piles[owner].push(Card::Trainer(old_stadium)),
                ),
                ..s
            }
        },
        None => s,
    };
    let s2 = StateView { active_stadium: Some(tc), active_stadium_owner: Some(actor), ..s1 };
    let s3 = if k < 0 {
        s2
    } else {
        hand_without(s2, actor as int, k)
    };
    knockouts_resolved(s3, after, (actor, 0), false)
}

/// What happens before an action's own effect.
pub open spec fn common_before_done(before: StateView, after: StateView, a: Action) -> bool {
    let s = after_stack_pop(before, a);
    match a.action {
        SimpleAction::Play { trainer_card } => if trainer_card.trainer_card_type
            == TrainerType::Stadium {
            stadium_placed(s, after, a.actor, trainer_card)
        } else {
            played_card_moved(s, after, a.actor as int, trainer_card)
        },
        SimpleAction::UseAbility { in_play_idx } => after == map_slot(
            s,
            a.actor as int,
            in_play_idx as int,
            |c: PlayedCard| PlayedCard { ability_used: true, ..c },
        ),
        _ => after == s,
    }
}

/// A copy of a Trainer card.
pub(crate) fn copy_trainer_card(t: &TrainerCard) -> (r: TrainerCard)
    ensures
        r == *t,
{
    TrainerCard { id: t.id, name: t.name.clone(), trainer_card_type: t.trainer_card_type }
}

/// Takes out the card at `k` of `player`'s hand.
pub(crate) fn take_from_hand(state: &mut State, player: usize, k: usize) -> (c: Card)
    requires
        old(state).wf(),
        player < 2,
        k < old(state)@.hands[player as int].len(),
    ensures
        final(state).wf(),
        final(state)@ == hand_without(old(state)@, player as int, k as int),
        c == old(state)@.hands[player as int][k as int],
{
    let ghost hv = state.hands@;
    let c = state.hands[player].remove(k);
    proof {
        assert forall|p: int| 0 <= p < 2 implies state@.hands[p] == old(state)@.hands.update(
            player as int,
            old(state)@.hands[player as int].remove(k as int),
        )[p] by {
            assert(old(state)@.hands[p] == hv[p]@);
            if p != player as int {
                assert(state.hands@[p] == hv[p]);
            }
        }
        assert(state@.hands =~= old(state)@.hands.update(
            player as int,
            old(state)@.hands[player as int].remove(k as int),
        ));
    }
    c
}

/// Pushes a card on `player`'s discard pile.
pub(crate) fn push_discard(state: &mut State, player: usize, c: Card)
    requires
        old(state).wf(),
        player < 2,
    ensures
        final(state).wf(),
        final(state)@ == (StateView {
            discard_piles: old(state)@.discard_piles.update(
                player as int,
                old(state)@.discard_piles[player as int].push(c),
            ),
            ..old(state)@
        }),
{
    let ghost pv = state.discard_piles@;
    state.discard_piles[player].push(c);
    proof {
        let target = old(state)@.discard_piles.update(
            player as int,
            old(state)@.discard_piles[player as int].push(c),
        );
        assert forall|p: int| 0 <= p < 2 implies state@.discard_piles[p] == target[p] by {
            assert(old(state)@.discard_piles[p] == pv[p]@);
            if p != player as int {
                assert(state.discard_piles@[p] == pv[p]);
            }
        }
        assert(state@.discard_piles =~= target);
    }
}

/// A Stadium is put in play by `actor`.
fn place_stadium(state: &mut State, actor: usize, trainer_card: &TrainerCard)
    requires
        old(state).wf(),
        actor < 2,
    ensures
        final(state).wf(),
        stadium_placed(old(state)@, final(state)@, actor, *trainer_card),
{
    let ghost s = state@;
    let found = first_with_id_exec(&state.hands[actor], trainer_card.id);
    proof {
        assert(state@.hands[actor as int] == state.hands@[actor as int]@);
    }
    let new_stadium = copy_trainer_card(trainer_card);
    let old_stadium = match &state.active_stadium {
        Some(t) => Some(copy_trainer_card(t)),
        None => None,
    };
    let old_owner = state.active_stadium_owner;
    state.active_stadium = Some(new_stadium);
    state.active_stadium_owner = Some(actor);
    match old_stadium {
        Some(old) => {
            let owner = match old_owner {
                Some(o) => if o < 2 {
                    o
                } else {
                    actor
                },
                None => actor,
            };
            push_discard(state, owner, Card::Trainer(old));
        },
        None => {},
    }
    match found {
        Some(k) => {
            let _ = take_from_hand(state, actor, k);
        },
        None => {},
    }
    proof {
        let hand = s.hands[actor as int];
        let k = first_with_id(hand, trainer_card.id, 0);
        let s1 = match s.active_stadium {
            Some(old_stadium) => {
                let owner = match s.active_stadium_owner {
                    Some(o) => if o < 2 {
                        o as int
                    } else {
                        actor as int
                    },
                    None => actor as int,
                };
                StateView {
                    discard_piles: s.discard_piles.update(
                        owner,
                        s.discard_piles[owner].push(Card::Trainer(old_stadium)),
                    ),
                    ..s
                }
            },
            None => s,
        };
        let s2 = StateView { active_stadium: Some(*trainer_card), active_stadium_owner: Some(actor), ..s1 };
        let s3 = if k < 0 {
            s2
        } else {
            hand_without(s2, actor as int, k)
        };
        assert(state@.hands == s3.hands);
        assert(state@.discard_piles == s3.discard_piles);
        assert(state@ == s3);
    }
    handle_knockouts(state, (actor, 0), false);
}

/// A non-Stadium Trainer card played by `actor` leaves the hand.
fn move_played_card(state: &mut State, actor: usize, trainer_card: &TrainerCard)
    requires
        old(state).wf(),
        actor < 2,
    ensures
        final(state).wf(),
        played_card_moved(old(state)@, final(state)@, actor as int, *trainer_card),
{
    let found = first_with_id_exec(&state.hands[actor], trainer_card.id);
    proof {
        assert(state@.hands[actor as int] == state.hands@[actor as int]@);
    }
    match found {
        Some(k) => {
            let c = take_from_hand(state, actor, k);
            if trainer_card.trainer_card_type != TrainerType::Tool {
                push_discard(state, actor, c);
            }
        },
        None => {},
    }
    if trainer_card.trainer_card_type == TrainerType::Supporter {
        state.has_played_support = true;
    }
}

/// The ability of the Pokémon in a slot is marked as used.
fn mark_ability_used(state: &mut State, player: usize, idx: usize)
    requires
        old(state).wf(),
        player < 2,
        idx < 4,
    ensures
        final(state).wf(),
        final(state)@ == map_slot(
            old(state)@,
            player as int,
            idx as int,
            |c: PlayedCard| PlayedCard { ability_used: true, ..c },
        ),
{
    let slot = &mut state.in_play_pokemon[player][idx];
    match slot {
        Some(pokemon) => {
            pokemon.ability_used = true;
        },
        None => {},
    }
    proof {
        let f = |c: PlayedCard| PlayedCard { ability_used: true, ..c };
        if old(state)@.slot(player as int, idx as int) is Some {
            assert(state@.board =~~= old(state)@.with_slot(
                player as int,
                idx as int,
                Some(f(old(state)@.slot(player as int, idx as int)->0)),
            ).board);
        } else {
            assert(state@.board =~~= old(state)@.board);
        }
    }
}

/// The steps before an action's own effect: the choice is taken off the stack when it came from
/// there; a played card leaves the hand (a Stadium replaces the one in play, whose card goes to
/// its owner's discard pile, and Knock Outs are checked); a used ability is marked as used.
pub fn common_logic_before(state: &mut State, action: &Action)
    requires
        old(state).wf(),
        action.actor < 2,
        action.action matches SimpleAction::UseAbility { in_play_idx } ==> in_play_idx < 4,
    ensures
        final(state).wf(),
        common_before_done(old(state)@, final(state)@, *action),
{
    let actor = action.actor;
    if action.is_stack && state.move_generation_stack.len() > 0 {
        let ghost s0 = state@;
        state.move_generation_stack.pop();
        proof {
            assert(state@ == (StateView {
                move_generation_stack: s0.move_generation_stack.drop_last(),
                ..s0
            }));
        }
    }
    match &action.action {
        SimpleAction::Play { trainer_card } => {
            if trainer_card.trainer_card_type == TrainerType::Stadium {
                place_stadium(state, actor, trainer_card);
            } else {
                move_played_card(state, actor, trainer_card);
            }
        },
        SimpleAction::UseAbility { in_play_idx } => mark_ability_used(state, actor, *in_play_idx),
        _ => {},
    }
}

/// After an action's own effect, in `before`: Knock Outs are checked (once the game has started),
/// giving `mid`, and an attack then sets the end of the turn as pending, giving `after`.
pub open spec fn common_after_done(before: StateView, mid: StateView, after: StateView, a: Action) -> bool {
    &&& if before.turn_count > 0 {
        knockouts_resolved(before, mid, (a.actor, 0), false)
    } else {
        mid == before
    }
    &&& after == if a.action is Attack {
        StateView { end_turn_pending: true, ..mid }
    } else {
        mid
    }
}

/// The steps after an action's own effect: Knock Outs are checked (once the game has started),
/// and an attack ends the turn once the pending choices are resolved.
pub fn common_logic_after(state: &mut State, action: &Action)
    requires
        old(state).wf(),
        action.actor < 2,
    ensures
        final(state).wf(),
        exists|s2: StateView| #[trigger] common_after_done(old(state)@, s2, final(state)@, *action),
{
    if state.turn_count > 0 {
        handle_knockouts(state, (action.actor, 0), false);
    }
    let ghost s2 = state@;
    if let SimpleAction::Attack(_) = &action.action {
        state.end_turn_pending = true;
    }
    proof {
        assert(state@ == (if action.action is Attack {
            StateView { end_turn_pending: true, ..s2 }
        } else {
            s2
        }));
        assert(common_after_done(old(state)@, s2, state@, *action));
    }
}

/// Knocking out a Pokémon gives the opponent of its owner 1 point, 2 for a Pokémon ex and 3 for
/// a Mega Evolution Pokémon ex, plus 1 when Iris's bonus applies to a Knock Out of the Active
/// Pokémon by the other player; the owner's own points do not change.
pub proof fn lemma_knockout_points(
    s: StateView,
    ko: (usize, usize),
    attacker: (usize, usize),
    is_from_active_attack: bool,
    iris: bool,
)
    requires
        s.points.len() == 2,
        s.board.len() == 2,
        s.board[0].len() == 4,
        s.board[1].len() == 4,
        ko.0 < 2,
        ko.1 < 4,
        s.slot(ko.0 as int, ko.1 as int) is Some,
        s.points[1 - ko.0] + 4 <= u32::MAX,
    ensures
        ({
            let c = s.slot(ko.0 as int, ko.1 as int)->0;
            let after = ko_step(s, ko, attacker, is_from_active_attack, iris);
            let gained = after.points[1 - ko.0] - s.points[1 - ko.0];
            let bonus: int = if iris && ko.1 == 0 && ko.0 != attacker.0 { 1 } else { 0 };
            &&& after.points.len() == 2
            &&& after.points[ko.0 as int] == s.points[ko.0 as int]
            &&& (c.card matches Card::Pokemon(p) && p.is_mega ==> gained == 3 + bonus)
            &&& (c.card matches Card::Pokemon(p) && p.is_ex && !p.is_mega ==> gained == 2 + bonus)
            &&& (c.card matches Card::Pokemon(p) && !p.is_ex && !p.is_mega ==> gained == 1 + bonus)
        }),
{
}

/// Innards Out: a Pokémon whose ability deals damage back when it is Knocked Out hurts the
/// attacker only when the hit Knocks it Out. While it keeps some HP the Attacking Pokémon is
/// untouched; when a hit on it in the Active Spot takes all its HP, the Attacking Pokémon takes
/// exactly the ability's amount.
pub proof fn lemma_knockout_counterattack(
    s: StateView,
    attacker: (usize, usize),
    t: (u32, usize, usize),
    is_from_active_attack: bool,
    amount: u32,
)
    requires
        s.board.len() == 2,
        s.board[0].len() == 4,
        s.board[1].len() == 4,
        attacker.0 < 2,
        t.1 < 2,
        t.2 < 4,
        attacker.0 != t.1,
        s.slot(t.1 as int, t.2 as int) matches Some(c) && ability_of(c) == Some(
            AbilityMechanic::CounterattackDamageOnKnockout { amount },
        ),
    ensures
        ({
            let c = s.slot(t.1 as int, t.2 as int)->0;
            let after = damage_step(s, attacker, t, is_from_active_attack);
            &&& t.0 < c.remaining_hp ==> after.slot(attacker.0 as int, 0) == s.slot(attacker.0 as int, 0)
            &&& (t.0 >= c.remaining_hp && t.0 > 0 && t.2 == 0 && is_from_active_attack && !disguise_applies(
                s,
                t.1 as int,
                t.2 as int,
                is_from_active_attack,
            ) && s.slot(attacker.0 as int, 0) is Some) ==> after.slot(attacker.0 as int, 0) == Some(
                s.slot(attacker.0 as int, 0)->0.damaged_spec(amount),
            )
        }),
{
    let c = s.slot(t.1 as int, t.2 as int)->0;
    let c2 = c.damaged_spec(t.0);
    assert(ability_of(c2) == ability_of(c));
    if t.0 >= c.remaining_hp && t.0 > 0 && t.2 == 0 && is_from_active_attack && !disguise_applies(
        s,
        t.1 as int,
        t.2 as int,
        is_from_active_attack,
    ) && s.slot(attacker.0 as int, 0) is Some {
        let a = s.slot(attacker.0 as int, 0)->0;
        assert(a.damaged_spec(0) == a);
    }
}

/// One hit of an attack: unless Disguise applies, the target loses the damage (down to 0 HP).
/// A Pokémon in the Active Spot that deals damage back whenever an attack damages it hurts the
/// Attacking Pokémon for exactly that amount, Knocked Out or not; one that poisons its attacker
/// leaves the Attacking Pokémon Poisoned; and Disguise, when it applies, takes the whole hit:
/// the target keeps its HP and the attacker is not touched.
pub proof fn lemma_counterattack_and_disguise(
    s: StateView,
    attacker: (usize, usize),
    t: (u32, usize, usize),
    amount: u32,
)
    requires
        board_shaped(s),
        attacker.0 < 2,
        t.1 < 2,
        t.2 < 4,
        attacker.0 != t.1,
        s.slot(t.1 as int, t.2 as int) is Some,
    ensures
        ({
            let c = s.slot(t.1 as int, t.2 as int)->0;
            let after = damage_step(s, attacker, t, true);
            &&& (ability_of(c) == Some(AbilityMechanic::CounterattackDamage { amount }) && t.0 > 0 && t.2 == 0
                && !disguise_applies(s, t.1 as int, t.2 as int, true) && s.slot(attacker.0 as int, 0) is Some)
                ==> after.slot(attacker.0 as int, 0) == Some(s.slot(attacker.0 as int, 0)->0.damaged_spec(amount))
            &&& !disguise_applies(s, t.1 as int, t.2 as int, true) ==> after.slot(t.1 as int, t.2 as int)
                == Some(c.damaged_spec(t.0))
            &&& (ability_of(c) == Some(AbilityMechanic::PoisonAttackerOnDamaged) && t.0 > 0 && t.2 == 0
                && !disguise_applies(s, t.1 as int, t.2 as int, true) && s.slot(attacker.0 as int, 0) is Some)
                ==> (after.slot(attacker.0 as int, 0) matches Some(a) && a.poisoned)
            &&& disguise_applies(s, t.1 as int, t.2 as int, true) ==> {
                &&& after.slot(t.1 as int, t.2 as int) matches Some(c2) && c2.remaining_hp == c.remaining_hp
                    && c2.prevent_first_attack_damage_used
                &&& after.slot(attacker.0 as int, 0) == s.slot(attacker.0 as int, 0)
            }
        }),
{
    let c = s.slot(t.1 as int, t.2 as int)->0;
    let c2 = c.damaged_spec(t.0);
    assert(ability_of(c2) == ability_of(c));
    if s.slot(attacker.0 as int, 0) is Some {
        let a = s.slot(attacker.0 as int, 0)->0;
        assert(a.damaged_spec(0) == a);
    }
}

/// Both sides of the board have four slots.
pub open spec fn board_shaped(s: StateView) -> bool {
    &&& s.board.len() == 2
    &&& s.board[0].len() == 4
    &&& s.board[1].len() == 4
}

/// The Pokémon in `(p, i)` has the Special Condition.
pub open spec fn status_at(s: StateView, p: int, i: int, cond: StatusCondition) -> bool {
    s.slot(p, i) matches Some(c) && has_status(c, cond)
}

/// `b` keeps the board's shape, and every Pokémon with the Special Condition in `b` already had
/// it in the same place in `a`.
pub open spec fn no_new_status(a: StateView, b: StateView, cond: StatusCondition) -> bool {
    &&& board_shaped(b)
    &&& forall|p: int, i: int|
        0 <= p < 2 && 0 <= i < 4 && #[trigger] status_at(b, p, i, cond) ==> status_at(a, p, i, cond)
}

proof fn lemma_no_new_status_refl(s: StateView, cond: StatusCondition)
    requires
        board_shaped(s),
    ensures
        no_new_status(s, s, cond),
{
}

proof fn lemma_no_new_status_trans(a: StateView, b: StateView, c: StateView, cond: StatusCondition)
    requires
        no_new_status(a, b, cond),
        no_new_status(b, c, cond),
    ensures
        no_new_status(a, c, cond),
{
}

/// Changing one Pokémon in a way that never gives it the Special Condition gives it to nobody.
proof fn lemma_map_slot_no_new_status(
    s: StateView,
    p: int,
    i: int,
    f: spec_fn(PlayedCard) -> PlayedCard,
    cond: StatusCondition,
)
    requires
        board_shaped(s),
        0 <= p < 2,
        0 <= i < 4,
        forall|c: PlayedCard| #[trigger] has_status(f(c), cond) ==> has_status(c, cond),
    ensures
        no_new_status(s, map_slot(s, p, i, f), cond),
{
    let r = map_slot(s, p, i, f);
    assert forall|q: int, j: int|
        0 <= q < 2 && 0 <= j < 4 && #[trigger] status_at(r, q, j, cond) implies status_at(s, q, j, cond) by {
        if q == p && j == i && s.slot(p, i) is Some {
            assert(has_status(f(s.slot(p, i)->0), cond) ==> has_status(s.slot(p, i)->0, cond));
        }
    }
}

/// Removing a Special Condition gives no Pokémon any.
proof fn lemma_cleared_adds_nothing(condition: StatusCondition, cond: StatusCondition)
    ensures
        forall|c: PlayedCard| #[trigger] has_status(c.cleared_spec(condition), cond) ==> has_status(c, cond),
{
}

proof fn lemma_damage_step_no_new_status(
    s: StateView,
    attacker: (usize, usize),
    t: (u32, usize, usize),
    is_from_active_attack: bool,
    cond: StatusCondition,
)
    requires
        board_shaped(s),
        attacker.0 < 2,
        t.1 < 2,
        t.2 < 4,
        cond != StatusCondition::Poisoned,
    ensures
        no_new_status(s, damage_step(s, attacker, t, is_from_active_attack), cond),
{
    let (damage, tp, ti) = t;
    let f0 = |c: PlayedCard| PlayedCard { prevent_first_attack_damage_used: true, ..c };
    let fd = |c: PlayedCard| c.damaged_spec(damage);
    if disguise_applies(s, tp as int, ti as int, is_from_active_attack) {
        lemma_map_slot_no_new_status(s, tp as int, ti as int, f0, cond);
    } else if damage == 0 || s.slot(tp as int, ti as int) is None {
        lemma_no_new_status_refl(s, cond);
    } else {
        let s2 = map_slot(s, tp as int, ti as int, fd);
        lemma_map_slot_no_new_status(s, tp as int, ti as int, fd, cond);
        if !(is_from_active_attack && ti == 0) {
        } else {
            let c2 = s2.slot(tp as int, ti as int)->0;
            let counter = counterattack_spec(c2);
            let ko_counter = if c2.remaining_hp == 0 && attacker.0 != tp {
                knockout_counterattack_spec(c2)
            } else {
                0
            };
            let fc = |c: PlayedCard| c.damaged_spec(counter);
            let fk = |c: PlayedCard| c.damaged_spec(ko_counter);
            let fp = |c: PlayedCard| status_added(c, StatusCondition::Poisoned);
            let s3 = if counter > 0 {
                lemma_map_slot_no_new_status(s2, attacker.0 as int, 0, fc, cond);
                map_slot(s2, attacker.0 as int, 0, fc)
            } else {
                lemma_no_new_status_refl(s2, cond);
                s2
            };
            lemma_no_new_status_trans(s, s2, s3, cond);
            let s4 = if ko_counter > 0 {
                lemma_map_slot_no_new_status(s3, attacker.0 as int, 0, fk, cond);
                map_slot(s3, attacker.0 as int, 0, fk)
            } else {
                lemma_no_new_status_refl(s3, cond);
                s3
            };
            lemma_no_new_status_trans(s, s3, s4, cond);
            if poisons_attacker(c2) {
                lemma_map_slot_no_new_status(s4, attacker.0 as int, 0, fp, cond);
                lemma_no_new_status_trans(s, s4, map_slot(s4, attacker.0 as int, 0, fp), cond);
            }
        }
    }
}

proof fn lemma_damage_fold_no_new_status(
    s: StateView,
    attacker: (usize, usize),
    ts: Seq<(u32, usize, usize)>,
    is_from_active_attack: bool,
    cond: StatusCondition,
)
    requires
        board_shaped(s),
        attacker.0 < 2,
        targets_in_range(ts),
        cond != StatusCondition::Poisoned,
    ensures
        no_new_status(s, damage_fold(s, attacker, ts, is_from_active_attack), cond),
    decreases ts.len(),
{
    if ts.len() == 0 {
        lemma_no_new_status_refl(s, cond);
    } else {
        let pre = ts.drop_last();
        assert forall|k: int| 0 <= k < pre.len() implies (#[trigger] pre[k]).1 < 2 && pre[k].2 < 4 by {
            assert(pre[k] == ts[k]);
        }
        lemma_damage_fold_no_new_status(s, attacker, pre, is_from_active_attack, cond);
        let prev = damage_fold(s, attacker, pre, is_from_active_attack);
        assert(ts.last() == ts[ts.len() - 1]);
        lemma_damage_step_no_new_status(prev, attacker, ts.last(), is_from_active_attack, cond);
        lemma_no_new_status_trans(s, prev, damage_fold(s, attacker, ts, is_from_active_attack), cond);
    }
}

proof fn lemma_merge_targets_in_range(ts: Seq<(u32, usize, usize)>)
    requires
        targets_in_range(ts),
    ensures
        targets_in_range(merge_targets(ts)),
    decreases ts.len(),
{
    if ts.len() > 0 {
        let pre = ts.drop_last();
        assert forall|k: int| 0 <= k < pre.len() implies (#[trigger] pre[k]).1 < 2 && pre[k].2 < 4 by {
            assert(pre[k] == ts[k]);
        }
        lemma_merge_targets_in_range(pre);
        let acc = merge_targets(pre);
        let t = ts.last();
        assert(t == ts[ts.len() - 1]);
        lemma_find_target(acc, t.1, t.2);
        let r = merge_targets(ts);
        assert forall|k: int| 0 <= k < r.len() implies (#[trigger] r[k]).1 < 2 && r[k].2 < 4 by {
            if k < acc.len() && k != find_target(acc, t.1, t.2) {
                assert(r[k] == acc[k]);
            }
        }
    }
}

proof fn lemma_damage_only_no_new_status(
    s: StateView,
    attacker: (usize, usize),
    ts: Seq<(u32, usize, usize)>,
    is_from_active_attack: bool,
    cond: StatusCondition,
)
    requires
        board_shaped(s),
        attacker.0 < 2,
        targets_in_range(ts),
        cond != StatusCondition::Poisoned,
    ensures
        no_new_status(s, damage_only_spec(s, attacker, ts, is_from_active_attack), cond),
{
    lemma_merge_targets_in_range(ts);
    let m = merge_targets(ts);
    let mt = modified_targets(s, attacker, m, is_from_active_attack);
    assert forall|k: int| 0 <= k < mt.len() implies (#[trigger] mt[k]).1 < 2 && mt[k].2 < 4 by {
        assert(mt[k].1 == m[k].1 && mt[k].2 == m[k].2);
    }
    lemma_damage_fold_no_new_status(s, attacker, mt, is_from_active_attack, cond);
}

proof fn lemma_poison_fold_no_new_status(s: StateView, ts: Seq<(usize, usize)>, cond: StatusCondition)
    requires
        board_shaped(s),
        coords_in_range(ts),
        cond != StatusCondition::Poisoned,
    ensures
        no_new_status(s, poison_fold(s, ts), cond),
    decreases ts.len(),
{
    if ts.len() == 0 {
        lemma_no_new_status_refl(s, cond);
    } else {
        let pre = ts.drop_last();
        assert forall|k: int| 0 <= k < pre.len() implies (#[trigger] pre[k]).0 < 2 && pre[k].1 < 4 by {
            assert(pre[k] == ts[k]);
        }
        lemma_poison_fold_no_new_status(s, pre, cond);
        let prev = poison_fold(s, pre);
        let t = ts.last();
        assert(t == ts[ts.len() - 1]);
        if prev.slot(t.0 as int, t.1 as int) is Some {
            let d = seq![(poison_damage_spec(prev, t.0 as int, t.1 as int), t.0, t.1)];
            assert(d[0] == (poison_damage_spec(prev, t.0 as int, t.1 as int), t.0, t.1));
            lemma_damage_only_no_new_status(prev, t, d, false, cond);
        } else {
            lemma_no_new_status_refl(prev, cond);
        }
        lemma_no_new_status_trans(s, prev, poison_fold(s, ts), cond);
    }
}

/// Burns add no Special Condition other than poison; with `heals[k]`, the `k`-th listed Pokémon
/// is no longer Burned.
proof fn lemma_burn_fold_status(s: StateView, ts: Seq<(usize, usize)>, heals: Seq<bool>, cond: StatusCondition)
    requires
        board_shaped(s),
        coords_in_range(ts),
        cond != StatusCondition::Poisoned,
    ensures
        no_new_status(s, burn_fold(s, ts, heals), cond),
        cond == StatusCondition::Burned ==> forall|k: int|
            0 <= k < ts.len() && heals[k] ==> !status_at(
                burn_fold(s, ts, heals),
                (#[trigger] ts[k]).0 as int,
                ts[k].1 as int,
                cond,
            ),
    decreases ts.len(),
{
    if ts.len() == 0 {
        lemma_no_new_status_refl(s, cond);
    } else {
        let pre = ts.drop_last();
        assert forall|k: int| 0 <= k < pre.len() implies (#[trigger] pre[k]).0 < 2 && pre[k].1 < 4 by {
            assert(pre[k] == ts[k]);
        }
        lemma_burn_fold_status(s, pre, heals, cond);
        let prev = burn_fold(s, pre, heals);
        let t = ts.last();
        assert(t == ts[ts.len() - 1]);
        let r = burn_fold(s, ts, heals);
        lemma_cleared_adds_nothing(StatusCondition::Burned, cond);
        if prev.slot(t.0 as int, t.1 as int) is Some {
            let d = seq![(20u32, t.0, t.1)];
            assert(d[0] == (20u32, t.0, t.1));
            lemma_damage_only_no_new_status(prev, t, d, false, cond);
            let s1 = damage_only_spec(prev, t, d, false);
            let fb = |c: PlayedCard| c.cleared_spec(StatusCondition::Burned);
            if heals[ts.len() - 1] {
                lemma_map_slot_no_new_status(s1, t.0 as int, t.1 as int, fb, cond);
                lemma_no_new_status_trans(prev, s1, r, cond);
            }
        } else {
            lemma_no_new_status_refl(prev, cond);
        }
        lemma_no_new_status_trans(s, prev, r, cond);
        if cond == StatusCondition::Burned {
            assert forall|k: int| 0 <= k < ts.len() && heals[k] implies !status_at(
                r,
                (#[trigger] ts[k]).0 as int,
                ts[k].1 as int,
                cond,
            ) by {
                if k < pre.len() {
                    assert(pre[k] == ts[k]);
                    assert(!status_at(prev, pre[k].0 as int, pre[k].1 as int, cond));
                }
            }
        }
    }
}

/// Removing a Special Condition gives no Pokémon any; each listed Pokémon whose flag is set no
/// longer has the removed condition.
proof fn lemma_clear_fold_status(
    s: StateView,
    ts: Seq<(usize, usize)>,
    flags: Seq<bool>,
    condition: StatusCondition,
    cond: StatusCondition,
)
    requires
        board_shaped(s),
        coords_in_range(ts),
    ensures
        no_new_status(s, clear_fold(s, ts, flags, condition), cond),
        condition == cond ==> forall|k: int|
            0 <= k < ts.len() && flags[k] ==> !status_at(
                clear_fold(s, ts, flags, condition),
                (#[trigger] ts[k]).0 as int,
                ts[k].1 as int,
                cond,
            ),
    decreases ts.len(),
{
    if ts.len() == 0 {
        lemma_no_new_status_refl(s, cond);
    } else {
        let pre = ts.drop_last();
        assert forall|k: int| 0 <= k < pre.len() implies (#[trigger] pre[k]).0 < 2 && pre[k].1 < 4 by {
            assert(pre[k] == ts[k]);
        }
        lemma_clear_fold_status(s, pre, flags, condition, cond);
        let prev = clear_fold(s, pre, flags, condition);
        let t = ts.last();
        assert(t == ts[ts.len() - 1]);
        let fc = |c: PlayedCard| c.cleared_spec(condition);
        let r = clear_fold(s, ts, flags, condition);
        lemma_cleared_adds_nothing(condition, cond);
        if flags[ts.len() - 1] {
            lemma_map_slot_no_new_status(prev, t.0 as int, t.1 as int, fc, cond);
        } else {
            lemma_no_new_status_refl(prev, cond);
        }
        lemma_no_new_status_trans(s, prev, r, cond);
        if condition == cond {
            assert forall|k: int| 0 <= k < ts.len() && flags[k] implies !status_at(
                r,
                (#[trigger] ts[k]).0 as int,
                ts[k].1 as int,
                cond,
            ) by {
                if k < pre.len() {
                    assert(pre[k] == ts[k]);
                    assert(!status_at(prev, pre[k].0 as int, pre[k].1 as int, cond));
                }
            }
        }
    }
}

proof fn lemma_heal_side_no_new_status(s: StateView, player: int, amount: u32, n: int, cond: StatusCondition)
    requires
        board_shaped(s),
        0 <= player < 2,
        n <= 4,
    ensures
        no_new_status(s, heal_side_upto(s, player, amount, n), cond),
    decreases n,
{
    if n <= 0 {
        lemma_no_new_status_refl(s, cond);
    } else {
        lemma_heal_side_no_new_status(s, player, amount, n - 1, cond);
        let prev = heal_side_upto(s, player, amount, n - 1);
        let fh = |c: PlayedCard| c.healed_spec(amount);
        lemma_map_slot_no_new_status(prev, player, n - 1, fh, cond);
        lemma_no_new_status_trans(s, prev, heal_side_upto(s, player, amount, n), cond);
    }
}

proof fn lemma_healers_players(side: Seq<Option<PlayedCard>>, player: usize, n: int)
    ensures
        forall|k: int| 0 <= k < healers_upto(side, player, n).len() ==> (#[trigger] healers_upto(side, player, n)[k]).0 == player,
    decreases n,
{
    if n > 0 {
        lemma_healers_players(side, player, n - 1);
        let r = healers_upto(side, player, n - 1);
        assert forall|k: int| 0 <= k < healers_upto(side, player, n).len() implies (#[trigger] healers_upto(
            side,
            player,
            n,
        )[k]).0 == player by {
            if k < r.len() {
                assert(healers_upto(side, player, n)[k] == r[k]);
            }
        }
    }
}

proof fn lemma_heal_fold_no_new_status(s: StateView, hs: Seq<(usize, u32)>, cond: StatusCondition)
    requires
        board_shaped(s),
        forall|k: int| 0 <= k < hs.len() ==> (#[trigger] hs[k]).0 < 2,
    ensures
        no_new_status(s, heal_fold(s, hs), cond),
    decreases hs.len(),
{
    if hs.len() == 0 {
        lemma_no_new_status_refl(s, cond);
    } else {
        let pre = hs.drop_last();
        assert forall|k: int| 0 <= k < pre.len() implies (#[trigger] pre[k]).0 < 2 by {
            assert(pre[k] == hs[k]);
        }
        lemma_heal_fold_no_new_status(s, pre, cond);
        let prev = heal_fold(s, pre);
        assert(hs.last() == hs[hs.len() - 1]);
        lemma_heal_side_no_new_status(prev, hs.last().0 as int, hs.last().1, 4, cond);
        lemma_no_new_status_trans(s, prev, heal_fold(s, hs), cond);
    }
}

proof fn lemma_snowy_fold_no_new_status(s: StateView, srcs: Seq<(usize, u32)>, to_all: bool, cond: StatusCondition)
    requires
        board_shaped(s),
        forall|k: int| 0 <= k < srcs.len() ==> (#[trigger] srcs[k]).0 < 2,
        cond != StatusCondition::Poisoned,
    ensures
        no_new_status(s, snowy_fold(s, srcs, to_all), cond),
    decreases srcs.len(),
{
    if srcs.len() == 0 {
        lemma_no_new_status_refl(s, cond);
    } else {
        let pre = srcs.drop_last();
        assert forall|k: int| 0 <= k < pre.len() implies (#[trigger] pre[k]).0 < 2 by {
            assert(pre[k] == srcs[k]);
        }
        lemma_snowy_fold_no_new_status(s, pre, to_all, cond);
        let prev = snowy_fold(s, pre, to_all);
        let src = srcs.last();
        assert(src == srcs[srcs.len() - 1]);
        let target = (1 - src.0) as usize;
        if to_all {
            let ts = all_pokemon_targets(prev, target, src.1);
            if ts.len() > 0 {
                lemma_occupied_from(prev.board[target as int], 0);
                assert forall|k: int| 0 <= k < ts.len() implies (#[trigger] ts[k]).1 < 2 && ts[k].2 < 4 by {
                    assert(ts[k].2 == prev.in_play_indices(target as int)[k]);
                }
                lemma_damage_only_no_new_status(prev, (src.0, 0usize), ts, false, cond);
            } else {
                lemma_no_new_status_refl(prev, cond);
            }
        } else {
            if prev.slot(target as int, 0) is Some {
                let d = seq![(src.1, target, 0usize)];
                assert(d[0] == (src.1, target, 0usize));
                lemma_damage_only_no_new_status(prev, (src.0, 0usize), d, false, cond);
            } else {
                lemma_no_new_status_refl(prev, cond);
            }
        }
        lemma_no_new_status_trans(s, prev, snowy_fold(s, srcs, to_all), cond);
    }
}

/// After the Pokémon are healed (Blessed Salt) and take their checkup damage, none has a
/// Special Condition (poison aside) that it did not have before.
proof fn lemma_checkup_tail_no_new_status(s4: StateView, cond: StatusCondition)
    requires
        board_shaped(s4),
        cond != StatusCondition::Poisoned,
    ensures
        no_new_status(s4, snowy_spec(heal_fold(s4, healers(s4))), cond),
{
    let hs = healers(s4);
    lemma_healers_players(s4.board[0], 0, 4);
    lemma_healers_players(s4.board[1], 1, 4);
    assert forall|k: int| 0 <= k < hs.len() implies (#[trigger] hs[k]).0 < 2 by {
        let h0 = healers_upto(s4.board[0], 0, 4);
        if k < h0.len() {
            assert(hs[k] == h0[k]);
        } else {
            assert(hs[k] == healers_upto(s4.board[1], 1, 4)[k - h0.len()]);
        }
    }
    let s5 = heal_fold(s4, hs);
    lemma_heal_fold_no_new_status(s4, hs, cond);
    let l1 = checkup_damage_list(s5, false);
    let l2 = checkup_damage_list(s5, true);
    assert forall|k: int| 0 <= k < l1.len() implies (#[trigger] l1[k]).0 < 2 by {}
    assert forall|k: int| 0 <= k < l2.len() implies (#[trigger] l2[k]).0 < 2 by {}
    lemma_snowy_fold_no_new_status(s5, l1, false, cond);
    let s6a = snowy_fold(s5, l1, false);
    lemma_snowy_fold_no_new_status(s6a, l2, true, cond);
    lemma_no_new_status_trans(s5, s6a, snowy_spec(s5), cond);
    lemma_no_new_status_trans(s4, s5, snowy_spec(s5), cond);
}

/// Pokémon Checkup, whatever the coins: paralysis wears off (none of the Pokémon given as
/// Paralyzed is Paralyzed afterwards); a sleeping Pokémon whose coin came up heads wakes up; a
/// Burned Pokémon whose coin came up heads is no longer Burned.
pub proof fn lemma_checkup_clears_conditions(
    s: StateView,
    sleeps: Seq<(usize, usize)>,
    paralyzed: Seq<(usize, usize)>,
    poisoned: Seq<(usize, usize)>,
    burned: Seq<(usize, usize)>,
    outcome: Seq<bool>,
)
    requires
        board_shaped(s),
        coords_in_range(sleeps),
        coords_in_range(paralyzed),
        coords_in_range(poisoned),
        coords_in_range(burned),
        outcome.len() >= sleeps.len() + burned.len(),
    ensures
        ({
            let r = checkup_spec(s, sleeps, paralyzed, poisoned, burned, outcome);
            &&& forall|k: int|
                0 <= k < paralyzed.len() ==> !(r.slot((#[trigger] paralyzed[k]).0 as int, paralyzed[k].1 as int) matches Some(
                    c,
                ) && c.paralyzed)
            &&& forall|k: int|
                0 <= k < sleeps.len() && outcome[k] ==> !(r.slot((#[trigger] sleeps[k]).0 as int, sleeps[k].1 as int) matches Some(
                    c,
                ) && c.asleep)
            &&& forall|k: int|
                0 <= k < burned.len() && outcome[sleeps.len() + k] ==> !(r.slot(
                    (#[trigger] burned[k]).0 as int,
                    burned[k].1 as int,
                ) matches Some(c) && c.burned)
        }),
{
    let heals = outcome.subrange(sleeps.len() as int, outcome.len() as int);
    let all = Seq::new(paralyzed.len(), |i: int| true);
    let s1 = poison_fold(s, poisoned);
    let s2 = burn_fold(s1, burned, heals);
    let s3 = clear_fold(s2, sleeps, outcome, StatusCondition::Asleep);
    let s4 = clear_fold(s3, paralyzed, all, StatusCondition::Paralyzed);
    let r = checkup_spec(s, sleeps, paralyzed, poisoned, burned, outcome);
    let tail = snowy_spec(heal_fold(s4, healers(s4)));
    assert(r.board == tail.board);
    // Paralysis.
    lemma_poison_fold_no_new_status(s, poisoned, StatusCondition::Paralyzed);
    lemma_burn_fold_status(s1, burned, heals, StatusCondition::Paralyzed);
    lemma_clear_fold_status(s2, sleeps, outcome, StatusCondition::Asleep, StatusCondition::Paralyzed);
    assert forall|k: int| 0 <= k < paralyzed.len() implies #[trigger] all[k] by {}
    lemma_clear_fold_status(s3, paralyzed, all, StatusCondition::Paralyzed, StatusCondition::Paralyzed);
    lemma_checkup_tail_no_new_status(s4, StatusCondition::Paralyzed);
    assert forall|k: int| 0 <= k < paralyzed.len() implies !(r.slot(
        (#[trigger] paralyzed[k]).0 as int,
        paralyzed[k].1 as int,
    ) matches Some(c) && c.paralyzed) by {
        assert(all[k]);
        assert(!status_at(s4, paralyzed[k].0 as int, paralyzed[k].1 as int, StatusCondition::Paralyzed));
        assert(!status_at(tail, paralyzed[k].0 as int, paralyzed[k].1 as int, StatusCondition::Paralyzed));
    }
    // Sleep.
    lemma_poison_fold_no_new_status(s, poisoned, StatusCondition::Asleep);
    lemma_burn_fold_status(s1, burned, heals, StatusCondition::Asleep);
    lemma_clear_fold_status(s2, sleeps, outcome, StatusCondition::Asleep, StatusCondition::Asleep);
    lemma_clear_fold_status(s3, paralyzed, all, StatusCondition::Paralyzed, StatusCondition::Asleep);
    lemma_checkup_tail_no_new_status(s4, StatusCondition::Asleep);
    assert forall|k: int| 0 <= k < sleeps.len() && outcome[k] implies !(r.slot(
        (#[trigger] sleeps[k]).0 as int,
        sleeps[k].1 as int,
    ) matches Some(c) && c.asleep) by {
        assert(!status_at(s3, sleeps[k].0 as int, sleeps[k].1 as int, StatusCondition::Asleep));
        assert(!status_at(s4, sleeps[k].0 as int, sleeps[k].1 as int, StatusCondition::Asleep));
        assert(!status_at(tail, sleeps[k].0 as int, sleeps[k].1 as int, StatusCondition::Asleep));
    }
    // Burn.
    lemma_poison_fold_no_new_status(s, poisoned, StatusCondition::Burned);
    lemma_burn_fold_status(s1, burned, heals, StatusCondition::Burned);
    lemma_clear_fold_status(s2, sleeps, outcome, StatusCondition::Asleep, StatusCondition::Burned);
    lemma_clear_fold_status(s3, paralyzed, all, StatusCondition::Paralyzed, StatusCondition::Burned);
    lemma_checkup_tail_no_new_status(s4, StatusCondition::Burned);
    assert forall|k: int| 0 <= k < burned.len() && outcome[sleeps.len() + k] implies !(r.slot(
        (#[trigger] burned[k]).0 as int,
        burned[k].1 as int,
    ) matches Some(c) && c.burned) by {
        assert(heals[k] == outcome[sleeps.len() + k]);
        assert(!status_at(s2, burned[k].0 as int, burned[k].1 as int, StatusCondition::Burned));
        assert(!status_at(s3, burned[k].0 as int, burned[k].1 as int, StatusCondition::Burned));
        assert(!status_at(s4, burned[k].0 as int, burned[k].1 as int, StatusCondition::Burned));
        assert(!status_at(tail, burned[k].0 as int, burned[k].1 as int, StatusCondition::Burned));
    }
}

} // verus!

