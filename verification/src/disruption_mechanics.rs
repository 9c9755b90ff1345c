//! Attack effects that reach past the Active Pokémon: cards discarded from the opponent's hand,
//! the Stadium discarded, the opponent's Pokémon dragged out, the top card of the deck
//! discarded for extra damage, and the mechanics built on them.

use rand::rngs::StdRng;
use vstd::prelude::*;

use crate::apply_action_helpers::{damage_slot, hand_without, map_slot, push_discard, take_from_hand};
use crate::apply_attack_action::{
    attack_view, bonus_hit, coin, coin_outcomes, damage_choice, effect_only_outcome, effects_only,
    hit, hit_outcome, hit_then, hit_then_one, hit_then_outcome, push_choices, sat_add, sat_add_exec,
    sat_mul, sat_mul_exec, sure, sure_outcomes, AttackEffect, AttackView,
};
use crate::attack_outcome::AttackOutcomes;
use crate::attacks::Mechanic;
use crate::board_mechanics::has_name;
use crate::energy_removal::removal_mechanic_forecast;
use crate::board_mechanics::card_name;
use crate::models::{Attack, Card, EnergyType, PlayedCard, TrainerType};
use crate::random::random_below;
use crate::state::{SimpleAction, State, StateView};
use crate::trainer_effects::{activations_exec, activations_upto, offered};

verus! {

/// Whether a card is a Trainer card of type `t` (any card, when `t` is `None`).
pub open spec fn card_of_kind(c: Card, t: Option<TrainerType>) -> bool {
    match t {
        Some(tt) => c matches Card::Trainer(tc) && tc.trainer_card_type == tt,
        None => true,
    }
}

/// The game after the card at index `k` of `player`'s hand went to their discard pile.
pub open spec fn hand_card_discarded(s: StateView, player: int, k: int) -> StateView {
    StateView {
        discard_piles: s.discard_piles.update(player, s.discard_piles[player].push(s.hands[player][k])),
        ..hand_without(s, player, k)
    }
}

/// One card of `player`'s hand of kind `t` (see `card_of_kind`), picked at random, went to
/// their discard pile; nothing changed when there is none.
pub open spec fn random_hand_card_discarded(before: StateView, after: StateView, player: int, t: Option<TrainerType>) -> bool {
    let hand = before.hands[player];
    if forall|k: int| 0 <= k < hand.len() ==> !card_of_kind(#[trigger] hand[k], t) {
        after == before
    } else {
        exists|k: int|
            0 <= k < hand.len() && card_of_kind(hand[k], t) && after == #[trigger] hand_card_discarded(
                before,
                player,
                k,
            )
    }
}

/// Whether a card is of kind `t` (see `card_of_kind`).
fn card_of_kind_exec(c: &Card, t: Option<TrainerType>) -> (r: bool)
    ensures
        r == card_of_kind(*c, t),
{
    match t {
        Some(tt) => match c {
            Card::Trainer(tc) => tc.trainer_card_type == tt,
            Card::Pokemon(_) => false,
        },
        None => true,
    }
}

/// Moves one card of `player`'s hand of kind `t`, picked at random, to their discard pile.
pub(crate) fn discard_random_hand_card(rng: &mut StdRng, state: &mut State, player: usize, t: Option<TrainerType>)
    requires
        old(state).wf(),
        player < 2,
    ensures
        final(state).wf(),
        random_hand_card_discarded(old(state)@, final(state)@, player as int, t),
{
    let hand = &state.hands[player];
    proof {
        assert(state@.hands[player as int] == hand@);
    }
    let mut idxs: Vec<usize> = Vec::new();
    let mut i: usize = 0;
    while i < hand.len()
        invariant
            i <= hand@.len(),
            forall|j: int| 0 <= j < idxs@.len() ==> #[trigger] idxs@[j] < hand@.len() && card_of_kind(hand@[idxs@[j] as int], t),
            idxs@.len() == 0 ==> forall|k: int| 0 <= k < i ==> !card_of_kind(#[trigger] hand@[k], t),
        decreases hand@.len() - i,
    {
        if card_of_kind_exec(&hand[i], t) {
            idxs.push(i);
        }
        i = i + 1;
    }
    if idxs.len() == 0 {
        return;
    }
    let pick = random_below(rng, idxs.len());
    let k = idxs[pick];
    proof {
        assert(card_of_kind(hand@[k as int], t));
    }
    let c = take_from_hand(state, player, k);
    push_discard(state, player, c);
    proof {
        assert(state@ == hand_card_discarded(old(state)@, player as int, k as int));
    }
}

/// The game after the Stadium in play, if any, went to the discard pile of the player who put
/// it in play (player 0 when that is not recorded).
pub open spec fn stadium_discarded(s: StateView) -> StateView {
    match s.active_stadium {
        Some(t) => {
            let owner = match s.active_stadium_owner {
                Some(o) => if o < 2 {
                    o as int
                } else {
                    0
                },
                None => 0,
            };
            StateView {
                active_stadium: None,
                active_stadium_owner: None,
                discard_piles: s.discard_piles.update(owner, s.discard_piles[owner].push(Card::Trainer(t))),
                ..s
            }
        },
        None => s,
    }
}

/// Discards the Stadium in play (see `stadium_discarded`).
pub(crate) fn discard_stadium(state: &mut State)
    requires
        old(state).wf(),
    ensures
        final(state).wf(),
        final(state)@ == stadium_discarded(old(state)@),
{
    match state.active_stadium.take() {
        Some(t) => {
            let owner = match state.active_stadium_owner.take() {
                Some(o) => if o < 2 {
                    o
                } else {
                    0
                },
                None => 0,
            };
            push_discard(state, owner, Card::Trainer(t));
        },
        None => {},
    }
}

/// The attacker's player chooses one of the opponent's Benched Pokémon to switch with the
/// opponent's Active Pokémon (nothing when there is none).
pub open spec fn opponent_dragged(before: StateView, after: StateView, actor: usize) -> bool {
    let opp = (1 - actor) as usize;
    offered(before, after, actor, activations_upto(before.board[opp as int], opp, false, 4))
}

/// Offers the opponent's Benched Pokémon to drag out (see `opponent_dragged`).
pub(crate) fn offer_drag(state: &mut State, actor: usize)
    requires
        old(state).wf(),
        actor < 2,
    ensures
        final(state).wf(),
        opponent_dragged(old(state)@, final(state)@, actor),
{
    let choices = activations_exec(state, 1 - actor, false);
    if choices.len() > 0 {
        push_choices(state, actor, choices);
    }
}

/// The opponent's Pokémon is dragged out first, then `damage` lands on whichever Pokémon is in
/// the opponent's Active Spot: two lists of choices for the attacker's player, the switch on
/// top (nothing when the opponent has no Benched Pokémon).
pub open spec fn dragged_then_hit(before: StateView, after: StateView, actor: usize, damage: u32) -> bool {
    let opp = (1 - actor) as usize;
    let acts = activations_upto(before.board[opp as int], opp, false, 4);
    let n = before.move_generation_stack.len();
    if acts.len() == 0 {
        after == before
    } else {
        &&& after == StateView { move_generation_stack: after.move_generation_stack, ..before }
        &&& after.move_generation_stack.len() == n + 2
        &&& after.move_generation_stack.subrange(0, n as int) == before.move_generation_stack
        &&& after.move_generation_stack[n as int].0 == actor
        &&& after.move_generation_stack[n as int].1@.len() == 1
        &&& damage_choice(after.move_generation_stack[n as int].1@[0], actor, seq![(damage, opp, 0usize)])
        &&& after.move_generation_stack[n as int + 1].0 == actor
        &&& after.move_generation_stack[n as int + 1].1@ == acts
    }
}

/// Pushes the damage and then the drag (see `dragged_then_hit`).
pub(crate) fn drag_then_hit(state: &mut State, actor: usize, damage: u32)
    requires
        old(state).wf(),
        actor < 2,
    ensures
        final(state).wf(),
        dragged_then_hit(old(state)@, final(state)@, actor, damage),
{
    let opp = 1 - actor;
    let choices = activations_exec(state, opp, false);
    if choices.len() == 0 {
        return;
    }
    let mut targets: Vec<(u32, usize, usize)> = Vec::new();
    targets.push((damage, opp, 0));
    let mut step: Vec<SimpleAction> = Vec::new();
    step.push(
        SimpleAction::ApplyDamage { attacking_player: actor, attacking_idx: 0, targets, is_from_active_attack: true },
    );
    let ghost s0 = state@;
    push_choices(state, actor, step);
    let ghost s1 = state@;
    push_choices(state, actor, choices);
    proof {
        let n = s0.move_generation_stack.len();
        assert(targets@ =~= seq![(damage, opp, 0usize)]);
        assert(state@.move_generation_stack.drop_last() == s1.move_generation_stack);
        assert(s1.move_generation_stack.drop_last() == s0.move_generation_stack);
        assert(state@.move_generation_stack[n as int] == s1.move_generation_stack[n as int]);
        assert(state@.move_generation_stack.subrange(0, n as int) =~= s0.move_generation_stack);
    }
}

/// The top card of `player`'s deck went to their discard pile, then the opponent's Active
/// Pokémon took `base` damage, plus `extra` when that card passes `bonus` (no weakness, no
/// effects); with an empty deck, only `base` damage.
pub open spec fn deck_top_then_hit(
    before: StateView,
    after: StateView,
    player: int,
    base: u32,
    extra: u32,
    bonus: spec_fn(Card) -> bool,
) -> bool {
    let deck = before.decks[player];
    if deck.len() == 0 {
        after == map_slot(before, 1 - player, 0, |c: PlayedCard| c.damaged_spec(base))
    } else {
        let s1 = StateView {
            decks: before.decks.update(player, deck.skip(1)),
            discard_piles: before.discard_piles.update(player, before.discard_piles[player].push(deck[0])),
            ..before
        };
        let d = if bonus(deck[0]) {
            sat_add(base, extra)
        } else {
            base
        };
        after == map_slot(s1, 1 - player, 0, |c: PlayedCard| c.damaged_spec(d))
    }
}

/// Whether a card is an Item card.
pub open spec fn is_item_card(c: Card) -> bool {
    c matches Card::Trainer(tc) && tc.trainer_card_type == TrainerType::Item
}

/// Whether a card is a Pokémon of type `t`.
pub open spec fn is_pokemon_of_type(c: Card, t: EnergyType) -> bool {
    c matches Card::Pokemon(p) && p.energy_type == t
}

/// Takes the top card of `player`'s deck (`None` when it is empty).
fn take_deck_top(state: &mut State, player: usize) -> (r: Option<Card>)
    requires
        old(state).wf(),
        player < 2,
    ensures
        final(state).wf(),
        old(state)@.decks[player as int].len() == 0 ==> r is None && final(state)@ == old(state)@,
        old(state)@.decks[player as int].len() > 0 ==> r == Some(old(state)@.decks[player as int][0])
            && final(state)@ == (StateView {
            decks: old(state)@.decks.update(player as int, old(state)@.decks[player as int].skip(1)),
            ..old(state)@
        }),
{
    proof {
        assert(state@.decks[player as int] == state.decks@[player as int]@);
    }
    if state.decks[player].len() == 0 {
        return None;
    }
    let ghost dv = state.decks@;
    let c = state.decks[player].remove(0);
    proof {
        assert forall|p: int| 0 <= p < 2 implies state@.decks[p] == old(state)@.decks.update(
            player as int,
            old(state)@.decks[player as int].skip(1),
        )[p] by {
            assert(old(state)@.decks[p] == dv[p]@);
            if p != player as int {
                assert(state.decks@[p] == dv[p]);
            } else {
                assert(state.decks@[p]@ =~= dv[p]@.skip(1));
            }
        }
        assert(state@.decks =~= old(state)@.decks.update(player as int, old(state)@.decks[player as int].skip(1)));
    }
    Some(c)
}

/// What earns the extra damage: an Item card (`None`), or a Pokémon of the given type.
pub open spec fn deck_top_bonus(bonus_type: Option<EnergyType>) -> spec_fn(Card) -> bool {
    |c: Card|
        match bonus_type {
            Some(t) => is_pokemon_of_type(c, t),
            None => is_item_card(c),
        }
}

/// Discards the top card of the attacker's deck, then damages the opponent's Active Pokémon
/// (see `deck_top_then_hit` and `deck_top_bonus`).
pub(crate) fn discard_deck_top_then_hit(
    state: &mut State,
    actor: usize,
    base: u32,
    extra: u32,
    bonus_type: Option<EnergyType>,
)
    requires
        old(state).wf(),
        actor < 2,
    ensures
        final(state).wf(),
        deck_top_then_hit(
            old(state)@,
            final(state)@,
            actor as int,
            base,
            extra,
            deck_top_bonus(bonus_type),
        ),
{
    let opp = 1 - actor;
    let top = take_deck_top(state, actor);
    let d = match top {
        Some(c) => {
            let passes = match bonus_type {
                None => match &c {
                    Card::Trainer(tc) => tc.trainer_card_type == TrainerType::Item,
                    Card::Pokemon(_) => false,
                },
                Some(t) => match &c {
                    Card::Pokemon(p) => p.energy_type == t,
                    Card::Trainer(_) => false,
                },
            };
            push_discard(state, actor, c);
            if passes {
                sat_add_exec(base, extra)
            } else {
                base
            }
        },
        None => base,
    };
    damage_slot(state, opp, 0, d);
}

/// How many of the first `n` cards are Trainer cards of type `t` (any Trainer card, when `t`
/// is `None`).
pub open spec fn trainer_count(cards: Seq<Card>, t: Option<TrainerType>, n: int) -> nat
    decreases n,
{
    if n <= 0 {
        0
    } else {
        trainer_count(cards, t, n - 1) + if cards[n - 1] is Trainer && card_of_kind(cards[n - 1], t) {
            1nat
        } else {
            0nat
        }
    }
}

/// How many of the first `n` cards carry the name.
pub open spec fn named_count(cards: Seq<Card>, name: Seq<char>, n: int) -> nat
    decreases n,
{
    if n <= 0 {
        0
    } else {
        named_count(cards, name, n - 1) + if card_name(cards[n - 1]) == name {
            1nat
        } else {
            0nat
        }
    }
}

/// How many Pokémon among the slots `0..i` of a side carry the name.
pub open spec fn named_in_play_upto(side: Seq<Option<PlayedCard>>, name: Seq<char>, i: int) -> nat
    decreases i,
{
    if i <= 0 {
        0
    } else {
        named_in_play_upto(side, name, i - 1) + if side[i - 1] is Some && card_name(side[i - 1]->0.card) == name {
            1nat
        } else {
            0nat
        }
    }
}

/// The mechanics of `forecast_group_m`: hand and Stadium discards, drags, the top card of the
/// deck, and damage counted from decks, discard piles and names.
pub open spec fn forecast_group_m(m: Mechanic) -> bool {
    matches!(m, Mechanic::DiscardRandomOpponentHandCard | Mechanic::CoinFlipDiscardRandomOpponentHandCard | Mechanic::DiscardRandomOpponentHandTrainer { .. } | Mechanic::DiscardStadiumInPlay | Mechanic::CoinFlipDragOpponentBench | Mechanic::DragOpponentBenchThenDamage { .. } | Mechanic::DiscardTopThenExtraDamageIfItem { .. } | Mechanic::DiscardTopThenExtraDamageIfTypedPokemon { .. } | Mechanic::DrawPerPokemonWithName { .. } | Mechanic::ExtraDamagePerTrainerInOpponentDeck { .. } | Mechanic::ExtraDamagePerTrainerTypeInDiscard { .. } | Mechanic::ExtraDamageIfCardInDiscard { .. })
}

/// Whether the mechanic is in `forecast_group_m`.
pub fn in_forecast_group_m(m: &Mechanic) -> (r: bool)
    ensures
        r == forecast_group_m(*m),
{
    matches!(m, Mechanic::DiscardRandomOpponentHandCard | Mechanic::CoinFlipDiscardRandomOpponentHandCard | Mechanic::DiscardRandomOpponentHandTrainer { .. } | Mechanic::DiscardStadiumInPlay | Mechanic::CoinFlipDragOpponentBench | Mechanic::DragOpponentBenchThenDamage { .. } | Mechanic::DiscardTopThenExtraDamageIfItem { .. } | Mechanic::DiscardTopThenExtraDamageIfTypedPokemon { .. } | Mechanic::DrawPerPokemonWithName { .. } | Mechanic::ExtraDamagePerTrainerInOpponentDeck { .. } | Mechanic::ExtraDamagePerTrainerTypeInDiscard { .. } | Mechanic::ExtraDamageIfCardInDiscard { .. })
}

/// What an attack with a mechanic of `forecast_group_m` can lead to (`None` for the other
/// mechanics).
pub open spec fn disruption_mechanic_forecast(s: StateView, attack: Attack, m: Mechanic) -> Option<AttackView> {
    let fixed = attack.fixed_damage;
    let cp = s.current_player as int;
    let opp = 1 - cp;
    match m {
        Mechanic::DiscardRandomOpponentHandCard => Some(
            sure(hit_then(fixed, seq![AttackEffect::DiscardRandomOpponentHandCard { trainer_type: None }])),
        ),
        Mechanic::CoinFlipDiscardRandomOpponentHandCard => Some(
            coin(hit_then(fixed, seq![AttackEffect::DiscardRandomOpponentHandCard { trainer_type: None }]), hit(fixed)),
        ),
        Mechanic::DiscardRandomOpponentHandTrainer { trainer_type } => Some(
            sure(
                hit_then(
                    fixed,
                    seq![AttackEffect::DiscardRandomOpponentHandCard { trainer_type: Some(trainer_type) }],
                ),
            ),
        ),
        Mechanic::DiscardStadiumInPlay => Some(sure(hit_then(fixed, seq![AttackEffect::DiscardStadium]))),
        Mechanic::CoinFlipDragOpponentBench => Some(
            coin(hit_then(fixed, seq![AttackEffect::DragOpponent]), hit(fixed)),
        ),
        Mechanic::DragOpponentBenchThenDamage { damage } => Some(
            if activations_upto(s.board[opp], opp as usize, false, 4).len() == 0 {
                sure(hit(0))
            } else {
                sure(effects_only(seq![AttackEffect::DragOpponentThenHit { damage }]))
            },
        ),
        Mechanic::DiscardTopThenExtraDamageIfItem { extra_damage } => Some(
            sure(
                effects_only(
                    seq![AttackEffect::DiscardDeckTopThenHit { base: fixed, extra: extra_damage, bonus_type: None }],
                ),
            ),
        ),
        Mechanic::DiscardTopThenExtraDamageIfTypedPokemon { energy_type, extra_damage } => Some(
            sure(
                effects_only(
                    seq![
                        AttackEffect::DiscardDeckTopThenHit {
                            base: fixed,
                            extra: extra_damage,
                            bonus_type: Some(energy_type),
                        },
                    ],
                ),
            ),
        ),
        Mechanic::DrawPerPokemonWithName { name } => {
            let count = named_in_play_upto(s.board[cp], name@, 4);
            Some(
                sure(
                    hit_then(
                        fixed,
                        if count > 0 {
                            seq![AttackEffect::DrawCards { amount: count as u8 }]
                        } else {
                            Seq::empty()
                        },
                    ),
                ),
            )
        },
        Mechanic::ExtraDamagePerTrainerInOpponentDeck { damage_per_trainer } => Some(
            sure(
                hit(
                    sat_add(
                        fixed,
                        sat_mul(trainer_count(s.decks[opp], None, s.decks[opp].len() as int) as u32, damage_per_trainer),
                    ),
                ),
            ),
        ),
        Mechanic::ExtraDamagePerTrainerTypeInDiscard { trainer_type, damage_per_card } => Some(
            sure(
                hit(
                    sat_add(
                        fixed,
                        sat_mul(
                            trainer_count(s.discard_piles[cp], Some(trainer_type), s.discard_piles[cp].len() as int) as u32,
                            damage_per_card,
                        ),
                    ),
                ),
            ),
        ),
        Mechanic::ExtraDamageIfCardInDiscard { card_name, extra_damage } => Some(
            sure(
                bonus_hit(
                    fixed,
                    named_count(s.discard_piles[cp], card_name@, s.discard_piles[cp].len() as int) > 0,
                    extra_damage,
                ),
            ),
        ),
        _ => removal_mechanic_forecast(s, attack, m),
    }
}

/// `trainer_count` over a whole pile.
fn trainer_count_exec(cards: &Vec<Card>, t: Option<TrainerType>) -> (r: usize)
    ensures
        r == trainer_count(cards@, t, cards@.len() as int),
{
    let mut n: usize = 0;
    let mut i: usize = 0;
    while i < cards.len()
        invariant
            i <= cards@.len(),
            n == trainer_count(cards@, t, i as int),
            n <= i,
        decreases cards@.len() - i,
    {
        let hit = match &cards[i] {
            Card::Trainer(_) => card_of_kind_exec(&cards[i], t),
            Card::Pokemon(_) => false,
        };
        if hit {
            n = n + 1;
        }
        i = i + 1;
    }
    n
}

/// Whether a card carries the name.
fn card_has_name(c: &Card, name: &String) -> (r: bool)
    ensures
        r == (card_name(*c) == name@),
{
    match c {
        Card::Pokemon(p) => p.name == *name,
        Card::Trainer(t) => t.name == *name,
    }
}

/// `named_count` over a whole pile.
fn named_count_exec(cards: &Vec<Card>, name: &String) -> (r: usize)
    ensures
        r == named_count(cards@, name@, cards@.len() as int),
{
    let mut n: usize = 0;
    let mut i: usize = 0;
    while i < cards.len()
        invariant
            i <= cards@.len(),
            n == named_count(cards@, name@, i as int),
            n <= i,
        decreases cards@.len() - i,
    {
        if card_has_name(&cards[i], name) {
            n = n + 1;
        }
        i = i + 1;
    }
    n
}

/// The forecast of a mechanic of `forecast_group_m`.
pub fn forecast_mechanic_m(state: &State, attack: &Attack, mechanic: &Mechanic) -> (o: AttackOutcomes<
    AttackEffect,
>)
    requires
        state.wf(),
        forecast_group_m(*mechanic),
    ensures
        o.is_distribution(),
        disruption_mechanic_forecast(state@, *attack, *mechanic) == Some(attack_view(o)),
{
    let fixed = attack.fixed_damage;
    let cp = state.current_player;
    let opp = 1 - cp;
    proof {
        assert(state@.decks[opp as int] == state.decks@[opp as int]@);
        assert(state@.discard_piles[cp as int] == state.discard_piles@[cp as int]@);
        assert(state@.board[cp as int] == state.in_play_pokemon@[cp as int]@);
    }
    match mechanic {
        Mechanic::DiscardRandomOpponentHandCard => sure_outcomes(
            hit_then_one(fixed, AttackEffect::DiscardRandomOpponentHandCard { trainer_type: None }),
        ),
        Mechanic::CoinFlipDiscardRandomOpponentHandCard => coin_outcomes(
            hit_then_one(fixed, AttackEffect::DiscardRandomOpponentHandCard { trainer_type: None }),
            hit_outcome(fixed),
        ),
        Mechanic::DiscardRandomOpponentHandTrainer { trainer_type } => sure_outcomes(
            hit_then_one(fixed, AttackEffect::DiscardRandomOpponentHandCard { trainer_type: Some(*trainer_type) }),
        ),
        Mechanic::DiscardStadiumInPlay => sure_outcomes(hit_then_one(fixed, AttackEffect::DiscardStadium)),
        Mechanic::CoinFlipDragOpponentBench => coin_outcomes(
            hit_then_one(fixed, AttackEffect::DragOpponent),
            hit_outcome(fixed),
        ),
        Mechanic::DragOpponentBenchThenDamage { damage } => {
            let acts = activations_exec(state, opp, false);
            if acts.len() == 0 {
                sure_outcomes(hit_outcome(0))
            } else {
                sure_outcomes(effect_only_outcome(AttackEffect::DragOpponentThenHit { damage: *damage }))
            }
        },
        Mechanic::DiscardTopThenExtraDamageIfItem { extra_damage } => sure_outcomes(
            effect_only_outcome(
                AttackEffect::DiscardDeckTopThenHit { base: fixed, extra: *extra_damage, bonus_type: None },
            ),
        ),
        Mechanic::DiscardTopThenExtraDamageIfTypedPokemon { energy_type, extra_damage } => sure_outcomes(
            effect_only_outcome(
                AttackEffect::DiscardDeckTopThenHit {
                    base: fixed,
                    extra: *extra_damage,
                    bonus_type: Some(*energy_type),
                },
            ),
        ),
        Mechanic::DrawPerPokemonWithName { name } => {
            let side = &state.in_play_pokemon[cp];
            let mut n: u8 = 0;
            let mut i: usize = 0;
            while i < 4
                invariant
                    i <= 4,
                    side@.len() == 4,
                    n == named_in_play_upto(side@, name@, i as int),
                    n <= i,
                decreases 4 - i,
            {
                match &side[i] {
                    Some(c) => {
                        if has_name(c, name) {
                            n = n + 1;
                        }
                    },
                    None => {},
                }
                i = i + 1;
            }
            let mut effects: Vec<AttackEffect> = Vec::new();
            if n > 0 {
                effects.push(AttackEffect::DrawCards { amount: n });
            }
            proof {
                if n > 0 {
                    assert(effects@ =~= seq![AttackEffect::DrawCards { amount: n }]);
                } else {
                    assert(effects@ =~= Seq::<AttackEffect>::empty());
                }
            }
            sure_outcomes(hit_then_outcome(fixed, effects))
        },
        Mechanic::ExtraDamagePerTrainerInOpponentDeck { damage_per_trainer } => {
            let n = trainer_count_exec(&state.decks[opp], None);
            let count = #[verifier::truncate] (n as u32);
            sure_outcomes(hit_outcome(sat_add_exec(fixed, sat_mul_exec(count, *damage_per_trainer))))
        },
        Mechanic::ExtraDamagePerTrainerTypeInDiscard { trainer_type, damage_per_card } => {
            let n = trainer_count_exec(&state.discard_piles[cp], Some(*trainer_type));
            let count = #[verifier::truncate] (n as u32);
            sure_outcomes(hit_outcome(sat_add_exec(fixed, sat_mul_exec(count, *damage_per_card))))
        },
        Mechanic::ExtraDamageIfCardInDiscard { card_name, extra_damage } => {
            let n = named_count_exec(&state.discard_piles[cp], card_name);
            let d = if n > 0 {
                sat_add_exec(fixed, *extra_damage)
            } else {
                fixed
            };
            sure_outcomes(hit_outcome(d))
        },
        _ => {
            proof {
                assert(false);
            }
            sure_outcomes(hit_outcome(fixed))
        },
    }
}

} // verus!
