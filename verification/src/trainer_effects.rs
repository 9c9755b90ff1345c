use rand::rngs::StdRng;
use vstd::prelude::*;

use crate::apply_attack_action::{is_damaged, pushed, top_choices};
use crate::apply_trainer_action::{
    energy_kept, fixed_trainer_effect, gather_bench_energy, gathered_upto, only_side_changed, slot_with_energy,
    trainer_forecast_view, TrainerEffect,
};
use crate::apply_action_helpers::{
    clear_status_slot, copy_trainer_card, handle_knockouts, heal_slot, knockouts_resolved, promotion_entry, push_discard, same_but_stack, take_from_hand,
    trigger_promotion_or_declare_winner,
};
use crate::apply_trainer_action::{
    filter_holds, filter_holds_exec, ids_where, pair_row, pairs_upto, pile_ids, CardFilter,
};
use crate::card_ids::CardId;
use crate::board_mechanics::{card_name, has_name};
use crate::energy_mechanics::{discard_active_energy_of_type, type_discarded};
use crate::energy_removal::{energy_taken_at, take_energy_at};
use crate::special_attacks::{discard_energy_from_end, energy_from_end_discarded};
use crate::random::{random_below, shuffle_cards};
use crate::models::{Card, EnergyType, GameOutcome, PlayedCard, PokemonCard, StatusCondition, TrainerCard, TrainerType, TurnEffect};
use crate::state::{status_added, SimpleAction, State, StateView};

verus! {

/// A Heal choice of `amount` (curing Special Conditions when `cure`) for each Pokémon among
/// slots 0 to `i - 1` of a side, of type `t` when one is given.
pub open spec fn heal_offers_upto(
    side: Seq<Option<PlayedCard>>,
    amount: u32,
    cure: bool,
    t: Option<EnergyType>,
    i: int,
) -> Seq<SimpleAction>
    decreases i,
{
    if i <= 0 {
        Seq::empty()
    } else {
        let prev = heal_offers_upto(side, amount, cure, t, i - 1);
        if side[i - 1] is Some && (t is None || side[i - 1]->0.card.energy_type_spec() == t) {
            prev.push(SimpleAction::Heal { in_play_idx: (i - 1) as usize, amount, cure_status: cure })
        } else {
            prev
        }
    }
}

/// A choice to make the Pokémon of `player` in each Bench slot 1 to `i - 1` of a side Active
/// (only the damaged ones when `damaged_only`).
pub open spec fn activations_upto(side: Seq<Option<PlayedCard>>, player: usize, damaged_only: bool, i: int) -> Seq<
    SimpleAction,
>
    decreases i,
{
    if i <= 1 {
        Seq::empty()
    } else {
        let prev = activations_upto(side, player, damaged_only, i - 1);
        if side[i - 1] is Some && (!damaged_only || is_damaged(side[i - 1]->0)) {
            prev.push(SimpleAction::Activate { player, in_play_idx: (i - 1) as usize })
        } else {
            prev
        }
    }
}

/// Whether a Pokémon may receive Energy from a Trainer card's attach choice: the given type
/// (`names` empty), or one of the given names.
pub open spec fn attach_target(c: PlayedCard, t: Option<EnergyType>, names: Seq<Seq<char>>) -> bool {
    if names.len() == 0 {
        t is None || c.card.energy_type_spec() == t
    } else {
        names.contains(card_name(c.card))
    }
}

/// The slots from `from` to `i - 1` of a side whose Pokémon may receive the Energy.
pub open spec fn attach_slots_upto(
    side: Seq<Option<PlayedCard>>,
    from: int,
    t: Option<EnergyType>,
    names: Seq<Seq<char>>,
    i: int,
) -> Seq<usize>
    decreases i - from,
{
    if i <= from {
        Seq::empty()
    } else {
        let prev = attach_slots_upto(side, from, t, names, i - 1);
        if side[i - 1] is Some && attach_target(side[i - 1]->0, t, names) {
            prev.push((i - 1) as usize)
        } else {
            prev
        }
    }
}

/// A choice to attach `amount` Energy of type `t` to the Pokémon in slot `idx`, not as the turn's
/// Energy.
pub open spec fn attach_choice(a: SimpleAction, amount: u32, t: EnergyType, idx: usize) -> bool {
    &&& a matches SimpleAction::Attach { attachments, is_turn_energy }
    &&& !is_turn_energy
    &&& attachments@ == seq![(amount, t, idx)]
}

/// The choices are one attach choice of `amount` Energy of type `t` per slot of `slots`, in order.
pub open spec fn attach_choices(choices: Seq<SimpleAction>, amount: u32, t: EnergyType, slots: Seq<usize>) -> bool {
    &&& choices.len() == slots.len()
    &&& forall|k: int| 0 <= k < slots.len() ==> #[trigger] attach_choice(choices[k], amount, t, slots[k])
}

/// `choices` pushed for `player` when there are some; nothing otherwise.
pub open spec fn offered(before: StateView, after: StateView, player: usize, choices: Seq<SimpleAction>) -> bool {
    if choices.len() == 0 {
        after == before
    } else {
        pushed(before, after, player) && top_choices(after) == choices
    }
}

/// The names of the Pokémon that Kiawe attaches to.
pub open spec fn kiawe_names() -> Seq<Seq<char>> {
    seq!["Alolan Marowak"@, "Turtonator"@]
}

/// The names of the Pokémon that Brock attaches to.
pub open spec fn brock_names() -> Seq<Seq<char>> {
    seq!["Golem"@, "Onix"@]
}

/// What gathering `player`'s Benched Pokémon's Energy of type `t` onto the Active Pokémon does.
pub open spec fn gathered(before: StateView, after: StateView, player: int, t: Option<EnergyType>) -> bool {
    &&& only_side_changed(before, after, player)
    &&& forall|i: int|
        1 <= i < 4 ==> slot_with_energy(
            #[trigger] before.slot(player, i),
            after.slot(player, i),
            match before.slot(player, i) {
                Some(c) => energy_kept(c.attached_energy@, t, c.attached_energy@.len() as int),
                None => Seq::empty(),
            },
        )
    &&& slot_with_energy(
        before.slot(player, 0),
        after.slot(player, 0),
        match before.slot(player, 0) {
            Some(c) => c.attached_energy@ + gathered_upto(before.board[player], t, 4),
            None => Seq::empty(),
        },
    )
}

/// The effects of Trainer cards that this library applies.
pub open spec fn trainer_effect_applied(e: TrainerEffect) -> bool {
    matches!(e, TrainerEffect::Nothing | TrainerEffect::AttachTool | TrainerEffect::Potion | TrainerEffect::Erika | TrainerEffect::PokemonCenterLady | TrainerEffect::Cyrus | TrainerEffect::Lana | TrainerEffect::Sabrina | TrainerEffect::Repel | TrainerEffect::Lyra | TrainerEffect::LtSurge | TrainerEffect::Kiawe | TrainerEffect::MistyAttachWater { .. } | TrainerEffect::ElectricGeneratorAttach | TrainerEffect::MasterPlanOpponentConfused | TrainerEffect::MasterPlanBothConfused | TrainerEffect::HittingHammerDiscard | TrainerEffect::FisherReturn { .. } | TrainerEffect::MayShuffle | TrainerEffect::MayDraw { .. } | TrainerEffect::XSpeed | TrainerEffect::ProfessorOak | TrainerEffect::MythicalSlab | TrainerEffect::RedCard | TrainerEffect::TakeFromDiscard { .. } | TrainerEffect::Leaf | TrainerEffect::Giovanni | TrainerEffect::Red | TrainerEffect::Iris | TrainerEffect::Korrina | TrainerEffect::Blaine | TrainerEffect::Cynthia | TrainerEffect::Hau | TrainerEffect::Sophocles | TrainerEffect::Drayden | TrainerEffect::Iono | TrainerEffect::Mars | TrainerEffect::Whitney | TrainerEffect::SquirtBottle | TrainerEffect::Brock | TrainerEffect::Marlon | TrainerEffect::Juggler | TrainerEffect::BuddingExpeditioner | TrainerEffect::Skyla | TrainerEffect::Copycat | TrainerEffect::PrankSpinner | TrainerEffect::Calem | TrainerEffect::Lillie | TrainerEffect::Wally | TrainerEffect::TravelingMerchant | TrainerEffect::TeamRocketGruntDiscard { .. } | TrainerEffect::Piers | TrainerEffect::Guzma | TrainerEffect::Elesa | TrainerEffect::Koga | TrainerEffect::BigMalasada | TrainerEffect::Nemona | TrainerEffect::ClemontsBackpack | TrainerEffect::Barry)
}

/// The Active Pokémon of `player` with a Special Condition added.
pub open spec fn with_active_status(s: StateView, player: int, condition: StatusCondition) -> StateView {
    s.with_slot(
        player,
        0,
        match s.slot(player, 0) {
            Some(c) => Some(status_added(c, condition)),
            None => None,
        },
    )
}

/// What a Trainer card's effect, played by `actor`, does (for the effects this library applies).
pub open spec fn trainer_effect_done(
    before: StateView,
    after: StateView,
    actor: usize,
    played: TrainerCard,
    e: TrainerEffect,
) -> bool {
    let opp = (1 - actor) as usize;
    let own = before.board[actor as int];
    let theirs = before.board[opp as int];
    match e {
        TrainerEffect::Potion => offered(before, after, actor, heal_offers_upto(own, 20, false, None, 4)),
        TrainerEffect::Erika => offered(
            before,
            after,
            actor,
            heal_offers_upto(own, 50, false, Some(EnergyType::Grass), 4),
        ),
        TrainerEffect::PokemonCenterLady => offered(before, after, actor, heal_offers_upto(own, 30, true, None, 4)),
        TrainerEffect::Cyrus => pushed(before, after, actor) && top_choices(after) == activations_upto(
            theirs,
            opp,
            true,
            4,
        ),
        TrainerEffect::Lana => pushed(before, after, actor) && top_choices(after) == activations_upto(
            theirs,
            opp,
            false,
            4,
        ),
        TrainerEffect::Sabrina | TrainerEffect::Repel => pushed(before, after, opp) && top_choices(after)
            == activations_upto(theirs, opp, false, 4),
        TrainerEffect::Lyra => pushed(before, after, actor) && top_choices(after) == activations_upto(
            own,
            actor,
            false,
            4,
        ),
        TrainerEffect::LtSurge => gathered(before, after, actor as int, Some(EnergyType::Lightning)),
        TrainerEffect::MistyAttachWater { heads } => {
            let slots = attach_slots_upto(own, 0, Some(EnergyType::Water), Seq::empty(), 4);
            if slots.len() == 0 {
                after == before
            } else {
                pushed(before, after, actor) && attach_choices(top_choices(after), heads, EnergyType::Water, slots)
            }
        },
        TrainerEffect::ElectricGeneratorAttach => {
            let slots = attach_slots_upto(own, 1, Some(EnergyType::Lightning), Seq::empty(), 4);
            if slots.len() == 0 {
                after == before
            } else {
                pushed(before, after, actor) && attach_choices(top_choices(after), 1, EnergyType::Lightning, slots)
            }
        },
        TrainerEffect::Brock => {
            let slots = attach_slots_upto(own, 0, None, brock_names(), 4);
            if slots.len() == 0 {
                after == before
            } else {
                pushed(before, after, actor) && attach_choices(top_choices(after), 1, EnergyType::Fighting, slots)
            }
        },
        TrainerEffect::Kiawe => {
            let slots = attach_slots_upto(own, 0, None, kiawe_names(), 4);
            if slots.len() == 0 {
                after == before
            } else {
                let mid = StateView {
                    move_generation_stack: before.move_generation_stack.push(
                        (actor, after.move_generation_stack[before.move_generation_stack.len() as int].1),
                    ),
                    ..before
                };
                &&& after.move_generation_stack.len() == before.move_generation_stack.len() + 2
                &&& pushed(before, mid, actor)
                &&& top_choices(mid) == seq![SimpleAction::EndTurn]
                &&& pushed(mid, after, actor)
                &&& attach_choices(top_choices(after), 2, EnergyType::Fire, slots)
            }
        },
        TrainerEffect::MasterPlanOpponentConfused => after == with_active_status(
            before,
            opp as int,
            StatusCondition::Confused,
        ),
        TrainerEffect::MasterPlanBothConfused => after == with_active_status(
            with_active_status(before, opp as int, StatusCondition::Confused),
            actor as int,
            StatusCondition::Confused,
        ),
        TrainerEffect::HittingHammerDiscard => match before.slot(opp as int, 0) {
            Some(c) => if c.attached_energy@.len() == 0 {
                after == before
            } else {
                exists|k: int| #[trigger] energy_taken_at(before, after, opp as int, 0, k, true)
            },
            None => after == before,
        },
        TrainerEffect::FisherReturn { heads } => water_returns_done(before, after, actor as int, heads as nat),
        TrainerEffect::TeamRocketGruntDiscard { heads } => random_energy_discards(before, after, opp as int, heads as nat),
        TrainerEffect::Piers => energy_from_end_discarded(before, after, opp as int, 2),
        TrainerEffect::Guzma => knockouts_resolved(tools_discarded_upto(before, opp as int, 4), after, (actor, 0usize), false),
        TrainerEffect::Elesa => after == tools_to_hand_upto(before, 8),
        TrainerEffect::Koga => promoted_or_lost(active_to_hand(before, actor as int), after, actor as int),
        TrainerEffect::BigMalasada => malasada_done(before, after, actor as int),
        TrainerEffect::AttachTool => pushed(before, after, actor) && top_choices(after) == tool_slots_upto(own, 4).map_values(
            |k: usize| SimpleAction::AttachTool { in_play_idx: k, tool_card: played },
        ),
        TrainerEffect::MayShuffle => deck_shuffled(before, after, actor as int),
        TrainerEffect::XSpeed => after == (StateView {
            turn_effects: before.turn_effects.push(TurnEffect::ReducedRetreatCost { amount: 1 }),
            ..before
        }),
        TrainerEffect::ProfessorOak => after == top_drawn(top_drawn(before, actor as int), actor as int),
        TrainerEffect::Iono => exists|mid1: StateView, mid2: StateView|
            hand_shuffled_into_deck(before, mid1, actor as int) && #[trigger] hand_shuffled_into_deck(
                mid1,
                mid2,
                opp as int,
            ) && after == tops_drawn(
                tops_drawn(mid2, actor as int, before.hands[actor as int].len()),
                opp as int,
                before.hands[opp as int].len(),
            ),
        TrainerEffect::Mars => exists|mid: StateView|
            #[trigger] hand_shuffled_into_deck(before, mid, opp as int) && after == tops_drawn(
                mid,
                opp as int,
                (3 - before.points[opp as int]) as nat,
            ),
        TrainerEffect::SquirtBottle => type_discarded(before, after, opp as int, EnergyType::Fire),
        TrainerEffect::Whitney => offered(before, after, actor, named_heal_offers_upto(own, seq!["Miltank"@], 60, true, 4)),
        TrainerEffect::Marlon => offered(
            before,
            after,
            actor,
            named_heal_offers_upto(own, seq!["Carracosta"@, "Jellicent"@], 70, false, 4),
        ),
        TrainerEffect::Juggler => gathered(before, after, actor as int, None),
        TrainerEffect::TravelingMerchant => deck_shuffled(merchant_looked(before, actor as int), after, actor as int),
        TrainerEffect::Lillie => offered(
            before,
            after,
            actor,
            stage2_slots_upto(own, 4).map_values(
                |k: usize| SimpleAction::Heal { in_play_idx: k, amount: 60, cure_status: false },
            ),
        ),
        TrainerEffect::Wally => {
            let slots = stage2_slots_upto(own, 4);
            if slots.len() == 0 {
                after == before
            } else {
                pushed(before, after, actor) && attach_choices(top_choices(after), 1, EnergyType::Colorless, slots)
            }
        },
        TrainerEffect::PrankSpinner => exists|mid: StateView|
            #[trigger] hand_card_shuffled_in(before, mid, actor as int) && hand_card_shuffled_in(
                mid,
                after,
                opp as int,
            ),
        TrainerEffect::Calem => after == tops_drawn(
            before,
            actor as int,
            mega_in_side(before.board[0], 4) + mega_in_side(before.board[1], 4),
        ),
        TrainerEffect::BuddingExpeditioner => pushed(before, after, actor) && top_choices(after) == seq![
            SimpleAction::ReturnPokemonToHand { in_play_idx: 0 },
        ],
        TrainerEffect::Skyla => offered(before, after, actor, activations_upto(own, actor, false, 4)),
        TrainerEffect::Copycat => exists|mid: StateView|
            #[trigger] hand_shuffled_into_deck(before, mid, actor as int) && after == tops_drawn(
                mid,
                actor as int,
                before.hands[opp as int].len(),
            ),
        TrainerEffect::Leaf => after == with_turn_effect(before, TurnEffect::ReducedRetreatCost { amount: 2 }),
        TrainerEffect::Giovanni => after == with_turn_effect(before, TurnEffect::IncreasedDamage { amount: 10 }),
        TrainerEffect::Red => after == with_turn_effect(before, TurnEffect::IncreasedDamageAgainstEx { amount: 20 }),
        TrainerEffect::Iris => after == with_turn_effect(before, TurnEffect::BonusPointForHaxorusActiveKO),
        TrainerEffect::Korrina => after == with_turn_effect(
            before,
            TurnEffect::IncreasedDamageForTypeAgainstEx { amount: 30, energy_type: EnergyType::Fighting },
        ),
        TrainerEffect::Blaine => named_boost_added(before, after, 30, seq!["Ninetales"@, "Rapidash"@, "Magmar"@]),
        TrainerEffect::Nemona => named_ex_boost_added(before, after, 80, seq!["Pawmot"@]),
        TrainerEffect::ClemontsBackpack => named_boost_added(before, after, 20, seq!["Magneton"@, "Heliolisk"@]),
        TrainerEffect::Barry => named_cost_cut_added(before, after, 2, seq!["Snorlax"@, "Heracross"@, "Staraptor"@]),
        TrainerEffect::Cynthia => named_boost_added(before, after, 50, seq!["Garchomp"@, "Togekiss"@]),
        TrainerEffect::Hau => named_boost_added(
            before,
            after,
            30,
            seq!["Decidueye ex"@, "Incineroar ex"@, "Primarina ex"@],
        ),
        TrainerEffect::Sophocles => named_boost_added(
            before,
            after,
            30,
            seq!["Alolan Golem"@, "Vikavolt"@, "Togedemaru"@],
        ),
        TrainerEffect::Drayden => turn_effect_pushed(before, after) && (after.turn_effects.last() matches TurnEffect::ExtraRandomSpreadHits {
            amount,
            attack_name,
        } && amount == 1 && attack_name@ == "Draco Meteor"@),
        TrainerEffect::MythicalSlab => after == slab_looked(before, actor as int),
        TrainerEffect::RedCard => exists|mid: StateView|
            #[trigger] hand_shuffled_into_deck(before, mid, opp as int) && after == top_drawn(
                top_drawn(top_drawn(mid, opp as int), opp as int),
                opp as int,
            ),
        TrainerEffect::TakeFromDiscard { from_opponent, card } => taken_from_discard_by_id(
            before,
            after,
            if from_opponent {
                opp as int
            } else {
                actor as int
            },
            actor as int,
            card,
        ),
        TrainerEffect::MayDraw { first, second } => match second {
            None => exists|mid: StateView|
                #[trigger] drawn_by_id(before, mid, actor as int, first) && pushed(mid, after, actor)
                    && top_choices(after).len() == 1 && shuffle_back_choice(top_choices(after)[0], seq![first]),
            Some(next) => exists|mid1: StateView, mid2: StateView|
                drawn_by_id(before, mid1, actor as int, first) && #[trigger] drawn_by_id(
                    mid1,
                    mid2,
                    actor as int,
                    next,
                ) && pushed(mid2, after, actor) && shuffle_back_offered(
                    top_choices(after),
                    pairs_upto(
                        pile_ids(mid2.hands[actor as int], CardFilter::Pokemon),
                        pile_ids(mid2.hands[actor as int], CardFilter::Pokemon).len() as int,
                    ),
                ),
        },
        _ => after == before,
    }
}

/// `player`'s deck was shuffled: it holds the same cards, each as many times, and nothing else
/// changed.
pub open spec fn deck_shuffled(before: StateView, after: StateView, player: int) -> bool {
    &&& after.decks[player].to_multiset() == before.decks[player].to_multiset()
    &&& after == StateView { decks: before.decks.update(player, after.decks[player]), ..before }
}

/// `player`'s card at `k` of the deck went to the end of their hand.
pub open spec fn deck_to_hand(s: StateView, player: int, k: int) -> StateView {
    StateView {
        decks: s.decks.update(player, s.decks[player].remove(k)),
        hands: s.hands.update(player, s.hands[player].push(s.decks[player][k])),
        ..s
    }
}

/// Whether a card with identifier `id` is in `cards`.
pub open spec fn has_id(cards: Seq<Card>, id: CardId) -> bool {
    exists|k: int| 0 <= k < cards.len() && (#[trigger] cards[k]).id_spec() == id
}

/// The first card of `player`'s deck with identifier `id` went to their hand; nothing changed
/// when the deck has none.
pub open spec fn drawn_by_id(before: StateView, after: StateView, player: int, id: CardId) -> bool {
    let deck = before.decks[player];
    if has_id(deck, id) {
        exists|k: int|
            0 <= k < deck.len() && deck[k].id_spec() == id && (forall|j: int|
                0 <= j < k ==> (#[trigger] deck[j]).id_spec() != id) && after == #[trigger] deck_to_hand(
                before,
                player,
                k,
            )
    } else {
        after == before
    }
}

/// A choice to shuffle back into the deck Pokémon cards with the identifiers `ids`, in order.
pub open spec fn shuffle_back_choice(a: SimpleAction, ids: Seq<CardId>) -> bool {
    a matches SimpleAction::ShufflePokemonIntoDeck { hand_pokemon } && hand_pokemon@.map_values(
        |c: Card| c.id_spec(),
    ) == ids
}

/// One shuffle-back choice for each pair, in order.
pub open spec fn shuffle_back_offered(choices: Seq<SimpleAction>, pairs: Seq<(CardId, CardId)>) -> bool {
    &&& choices.len() == pairs.len()
    &&& forall|x: int|
        0 <= x < choices.len() ==> shuffle_back_choice(#[trigger] choices[x], seq![pairs[x].0, pairs[x].1])
}

/// A copy of a card with the same identifier, name and kind.
pub(crate) fn copy_card(c: &Card) -> (r: Card)
    ensures
        r.id_spec() == c.id_spec(),
        r is Pokemon <==> c is Pokemon,
{
    match c {
        Card::Pokemon(p) => Card::Pokemon(
            PokemonCard {
                id: p.id,
                name: p.name.clone(),
                stage: p.stage,
                hp: p.hp,
                energy_type: p.energy_type,
                weakness: p.weakness,
                is_ex: p.is_ex,
                is_mega: p.is_mega,
                ability: p.ability.clone(),
                attacks: p.attacks.clone(),
            },
        ),
        Card::Trainer(t) => Card::Trainer(copy_trainer_card(t)),
    }
}

/// Takes the card at `k` of `player`'s deck.
fn take_from_deck(state: &mut State, player: usize, k: usize) -> (c: Card)
    requires
        old(state).wf(),
        player < 2,
        k < old(state)@.decks[player as int].len(),
    ensures
        final(state).wf(),
        final(state)@ == (StateView {
            decks: old(state)@.decks.update(player as int, old(state)@.decks[player as int].remove(k as int)),
            ..old(state)@
        }),
        c == old(state)@.decks[player as int][k as int],
{
    let ghost dv = state.decks@;
    let c = state.decks[player].remove(k);
    proof {
        let target = old(state)@.decks.update(player as int, old(state)@.decks[player as int].remove(k as int));
        assert forall|p: int| 0 <= p < 2 implies state@.decks[p] == target[p] by {
            assert(old(state)@.decks[p] == dv[p]@);
            if p != player as int {
                assert(state.decks@[p] == dv[p]);
            }
        }
        assert(state@.decks =~= target);
    }
    c
}

/// Moves the first card of `player`'s deck with identifier `id` to their hand (see
/// `drawn_by_id`).
pub(crate) fn draw_by_id(state: &mut State, player: usize, id: CardId)
    requires
        old(state).wf(),
        player < 2,
    ensures
        final(state).wf(),
        drawn_by_id(old(state)@, final(state)@, player as int, id),
{
    proof {
        assert(state@.decks[player as int] == state.decks@[player as int]@);
    }
    let deck = &state.decks[player];
    let mut i: usize = 0;
    while i < deck.len()
        invariant
            i <= deck@.len(),
            forall|j: int| 0 <= j < i ==> (#[trigger] deck@[j]).id_spec() != id,
        ensures
            i <= deck@.len(),
            forall|j: int| 0 <= j < i ==> (#[trigger] deck@[j]).id_spec() != id,
            i < deck@.len() ==> deck@[i as int].id_spec() == id,
        decreases deck@.len() - i,
    {
        if deck[i].id() == id {
            break;
        }
        i = i + 1;
    }
    if i == deck.len() {
        return;
    }
    let k = i;
    proof {
        assert(deck@[k as int].id_spec() == id);
    }
    let c = take_from_deck(state, player, k);
    push_to_hand(state, player, c);
    proof {
        assert(state@ == deck_to_hand(old(state)@, player as int, k as int));
    }
}

/// Shuffles `player`'s deck (see `deck_shuffled`).
pub(crate) fn shuffle_deck(rng: &mut StdRng, state: &mut State, player: usize)
    requires
        old(state).wf(),
        player < 2,
    ensures
        final(state).wf(),
        deck_shuffled(old(state)@, final(state)@, player as int),
{
    let ghost dv = state.decks@;
    let mut cards: Vec<Card> = Vec::new();
    std::mem::swap(&mut cards, &mut state.decks[player]);
    shuffle_cards(rng, &mut cards);
    let ghost shuffled = cards@;
    std::mem::swap(&mut cards, &mut state.decks[player]);
    proof {
        let target = old(state)@.decks.update(player as int, shuffled);
        assert forall|p: int| 0 <= p < 2 implies state@.decks[p] == target[p] by {
            assert(old(state)@.decks[p] == dv[p]@);
            if p != player as int {
                assert(state.decks@[p] == dv[p]);
            }
        }
        assert(state@.decks =~= target);
        assert(state@ == StateView { decks: old(state)@.decks.update(player as int, state@.decks[player as int]), ..old(state)@ });
    }
}

/// Copies of the Pokémon cards of `player`'s hand, in order.
fn hand_pokemon_copies(state: &State, player: usize) -> (r: Vec<Card>)
    requires
        state.wf(),
        player < 2,
    ensures
        r@.map_values(|c: Card| c.id_spec()) == pile_ids(state@.hands[player as int], CardFilter::Pokemon),
{
    proof {
        assert(state@.hands[player as int] == state.hands@[player as int]@);
    }
    let hand = &state.hands[player];
    let mut r: Vec<Card> = Vec::new();
    let mut i: usize = 0;
    while i < hand.len()
        invariant
            i <= hand@.len(),
            r@.map_values(|c: Card| c.id_spec()) == ids_where(hand@, CardFilter::Pokemon, i as int),
        decreases hand@.len() - i,
    {
        if filter_holds_exec(CardFilter::Pokemon, &hand[i]) {
            let ghost before = r@;
            r.push(copy_card(&hand[i]));
            proof {
                assert(r@.map_values(|c: Card| c.id_spec()) =~= before.map_values(|c: Card| c.id_spec()).push(
                    hand@[i as int].id_spec(),
                ));
            }
        }
        i = i + 1;
    }
    r
}

/// A choice to shuffle back the given cards.
fn shuffle_back_of(cards: Vec<Card>) -> (a: SimpleAction)
    ensures
        shuffle_back_choice(a, cards@.map_values(|c: Card| c.id_spec())),
{
    SimpleAction::ShufflePokemonIntoDeck { hand_pokemon: cards }
}

/// One shuffle-back choice for each pair of Pokémon cards of `player`'s hand, in order.
fn pair_shuffle_backs(state: &State, player: usize) -> (r: Vec<SimpleAction>)
    requires
        state.wf(),
        player < 2,
    ensures
        shuffle_back_offered(
            r@,
            pairs_upto(
                pile_ids(state@.hands[player as int], CardFilter::Pokemon),
                pile_ids(state@.hands[player as int], CardFilter::Pokemon).len() as int,
            ),
        ),
{
    let hp = hand_pokemon_copies(state, player);
    let ghost ids = pile_ids(state@.hands[player as int], CardFilter::Pokemon);
    let n = hp.len();
    assert(ids.len() == n);
    let mut r: Vec<SimpleAction> = Vec::new();
    let mut i: usize = 0;
    while i < n
        invariant
            i <= n,
            n == hp@.len(),
            hp@.map_values(|c: Card| c.id_spec()) == ids,
            shuffle_back_offered(r@, pairs_upto(ids, i as int)),
        decreases n - i,
    {
        let mut j: usize = i + 1;
        let ghost base = pairs_upto(ids, i as int);
        let ghost row = pair_row(ids, i as int);
        while j < n
            invariant
                i < n,
                i + 1 <= j <= n,
                n == hp@.len(),
                hp@.map_values(|c: Card| c.id_spec()) == ids,
                row == pair_row(ids, i as int),
                shuffle_back_offered(r@, base + row.subrange(0, j - i - 1)),
            decreases n - j,
        {
            let mut pair: Vec<Card> = Vec::new();
            pair.push(copy_card(&hp[i]));
            pair.push(copy_card(&hp[j]));
            proof {
                assert(hp@.map_values(|c: Card| c.id_spec())[i as int] == ids[i as int]);
                assert(hp@.map_values(|c: Card| c.id_spec())[j as int] == ids[j as int]);
                assert(pair@.map_values(|c: Card| c.id_spec()) =~= seq![ids[i as int], ids[j as int]]);
            }
            let a = shuffle_back_of(pair);
            let ghost before = r@;
            r.push(a);
            proof {
                assert(row[j - i - 1] == (ids[i as int], ids[j as int]));
                let t = base + row.subrange(0, j - i);
                assert(t =~= (base + row.subrange(0, j - i - 1)).push(row[j - i - 1]));
                assert forall|x: int| 0 <= x < r@.len() implies shuffle_back_choice(
                    #[trigger] r@[x],
                    seq![t[x].0, t[x].1],
                ) by {
                    if x < before.len() {
                        assert(r@[x] == before[x]);
                    }
                }
            }
            j = j + 1;
        }
        proof {
            assert(row.subrange(0, n - i - 1) =~= row);
            assert(pairs_upto(ids, i as int + 1) == base + row);
        }
        i = i + 1;
    }
    r
}

/// The game with one more effect for the rest of the turn.
pub open spec fn with_turn_effect(s: StateView, e: TurnEffect) -> StateView {
    StateView { turn_effects: s.turn_effects.push(e), ..s }
}

/// One effect was added for the rest of the turn, and nothing else changed.
pub open spec fn turn_effect_pushed(before: StateView, after: StateView) -> bool {
    &&& after.turn_effects.len() == before.turn_effects.len() + 1
    &&& after.turn_effects.drop_last() == before.turn_effects
    &&& StateView { turn_effects: before.turn_effects, ..after } == before
}

/// For the rest of the turn, attacks of the Pokémon with the given names do `amount` more
/// damage to the opponent's Active Pokémon.
pub open spec fn named_boost_added(before: StateView, after: StateView, amount: u32, names: Seq<Seq<char>>) -> bool {
    &&& turn_effect_pushed(before, after)
    &&& after.turn_effects.last() matches TurnEffect::IncreasedDamageForSpecificPokemon {
        amount: a,
        pokemon_names,
    } && a == amount && pokemon_names@.map_values(|n: String| n@) == names
}

/// For the rest of the turn, the attacks of the named Pokémon do `amount` more damage to the
/// opponent's Active Pokémon ex.
pub open spec fn named_ex_boost_added(before: StateView, after: StateView, amount: u32, names: Seq<Seq<char>>) -> bool {
    &&& turn_effect_pushed(before, after)
    &&& after.turn_effects.last() matches TurnEffect::IncreasedDamageForSpecificPokemonAgainstEx {
        amount: a,
        pokemon_names,
    } && a == amount && pokemon_names@.map_values(|n: String| n@) == names
}

/// For the rest of the turn, the attacks of the named Pokémon cost `amount` less Colorless
/// Energy.
pub open spec fn named_cost_cut_added(before: StateView, after: StateView, amount: u32, names: Seq<Seq<char>>) -> bool {
    &&& turn_effect_pushed(before, after)
    &&& after.turn_effects.last() matches TurnEffect::ReducedAttackCostForSpecificPokemon {
        amount: a,
        pokemon_names,
    } && a == amount && pokemon_names@.map_values(|n: String| n@) == names
}

/// Adds an effect for the rest of the turn.
fn add_turn_effect(state: &mut State, e: TurnEffect)
    requires
        old(state).wf(),
    ensures
        final(state).wf(),
        final(state)@ == with_turn_effect(old(state)@, e),
        turn_effect_pushed(old(state)@, final(state)@),
{
    state.turn_effects.push(e);
    proof {
        assert(state@.turn_effects =~= old(state)@.turn_effects.push(e));
        assert(state@.turn_effects.drop_last() =~= old(state)@.turn_effects);
    }
}

/// A list of names.
fn name_list(names: &[&str]) -> (r: Vec<String>)
    ensures
        r@.map_values(|n: String| n@) == names@.map_values(|n: &str| n@),
{
    let mut r: Vec<String> = Vec::new();
    let mut i: usize = 0;
    while i < names.len()
        invariant
            i <= names@.len(),
            r@.len() == i,
            forall|x: int| 0 <= x < i ==> (#[trigger] r@[x])@ == names@[x]@,
        decreases names@.len() - i,
    {
        let n: String = names[i].to_owned();
        assert(n@ == names@[i as int]@);
        r.push(n);
        i = i + 1;
    }
    proof {
        assert(r@.map_values(|n: String| n@) =~= names@.map_values(|n: &str| n@));
    }
    r
}

/// `player` drew the top card of their deck (nothing changed when the deck is empty).
pub open spec fn top_drawn(s: StateView, player: int) -> StateView {
    if s.decks[player].len() == 0 {
        s
    } else {
        deck_to_hand(s, player, 0)
    }
}

/// A Heal choice of `amount` (curing Special Conditions when `cure`) for each Pokémon carrying
/// one of `names` among slots 0 to `i - 1` of a side.
pub open spec fn named_heal_offers_upto(
    side: Seq<Option<PlayedCard>>,
    names: Seq<Seq<char>>,
    amount: u32,
    cure: bool,
    i: int,
) -> Seq<SimpleAction>
    decreases i,
{
    if i <= 0 {
        Seq::empty()
    } else {
        let prev = named_heal_offers_upto(side, names, amount, cure, i - 1);
        if side[i - 1] is Some && names.contains(card_name(side[i - 1]->0.card)) {
            prev.push(SimpleAction::Heal { in_play_idx: (i - 1) as usize, amount, cure_status: cure })
        } else {
            prev
        }
    }
}

/// The Heal choices of `amount` for `player`'s Pokémon carrying one of `names`.
fn named_heal_offers(state: &State, player: usize, names: &Vec<String>, amount: u32, cure: bool) -> (r: Vec<
    SimpleAction,
>)
    requires
        state.wf(),
        player < 2,
    ensures
        r@ == named_heal_offers_upto(
            state@.board[player as int],
            names@.map_values(|n: String| n@),
            amount,
            cure,
            4,
        ),
{
    let side = &state.in_play_pokemon[player];
    proof {
        assert(state@.board[player as int] == side@);
    }
    let ghost ns = names@.map_values(|n: String| n@);
    let mut r: Vec<SimpleAction> = Vec::new();
    let mut i: usize = 0;
    while i < 4
        invariant
            i <= 4,
            side@.len() == 4,
            ns == names@.map_values(|n: String| n@),
            r@ == named_heal_offers_upto(side@, ns, amount, cure, i as int),
        decreases 4 - i,
    {
        match &side[i] {
            Some(c) => {
                if named_target(c, names) {
                    r.push(SimpleAction::Heal { in_play_idx: i, amount, cure_status: cure });
                }
            },
            None => {},
        }
        i = i + 1;
    }
    r
}

/// The first card with identifier `id` of `player`'s hand went to the bottom of their deck;
/// nothing changed when the hand has none.
pub open spec fn hand_to_deck_by_id(before: StateView, after: StateView, player: int, id: CardId) -> bool {
    let hand = before.hands[player];
    if has_id(hand, id) {
        exists|k: int|
            0 <= k < hand.len() && hand[k].id_spec() == id && (forall|j: int|
                0 <= j < k ==> (#[trigger] hand[j]).id_spec() != id) && after == #[trigger] hand_to_deck(
                before,
                player,
                k,
            )
    } else {
        after == before
    }
}

/// `player`'s card at `k` of the hand went to the bottom of their deck.
pub open spec fn hand_to_deck(s: StateView, player: int, k: int) -> StateView {
    StateView {
        hands: s.hands.update(player, s.hands[player].remove(k)),
        decks: s.decks.update(player, s.decks[player].push(s.hands[player][k])),
        ..s
    }
}

/// Moves the first card with identifier `id` of `player`'s hand to the bottom of their deck
/// (see `hand_to_deck_by_id`).
pub(crate) fn put_back_by_id(state: &mut State, player: usize, id: CardId)
    requires
        old(state).wf(),
        player < 2,
    ensures
        final(state).wf(),
        hand_to_deck_by_id(old(state)@, final(state)@, player as int, id),
{
    proof {
        assert(state@.hands[player as int] == state.hands@[player as int]@);
    }
    let hand = &state.hands[player];
    let mut i: usize = 0;
    while i < hand.len()
        invariant
            i <= hand@.len(),
            forall|j: int| 0 <= j < i ==> (#[trigger] hand@[j]).id_spec() != id,
        ensures
            i <= hand@.len(),
            forall|j: int| 0 <= j < i ==> (#[trigger] hand@[j]).id_spec() != id,
            i < hand@.len() ==> hand@[i as int].id_spec() == id,
        decreases hand@.len() - i,
    {
        if hand[i].id() == id {
            break;
        }
        i = i + 1;
    }
    if i == hand.len() {
        return;
    }
    let k = i;
    let c = take_from_hand(state, player, k);
    push_to_deck(state, player, c);
    proof {
        assert(state@ == hand_to_deck(old(state)@, player as int, k as int));
    }
}

/// One card of `player`'s hand, picked at random, went into their deck and the deck was
/// shuffled; nothing changed when the hand is empty.
pub open spec fn hand_card_shuffled_in(before: StateView, after: StateView, player: int) -> bool {
    if before.hands[player].len() == 0 {
        after == before
    } else {
        exists|k: int|
            0 <= k < before.hands[player].len() && deck_shuffled(
                #[trigger] hand_to_deck(before, player, k),
                after,
                player,
            )
    }
}

/// Puts a random card of `player`'s hand into their deck and shuffles it (see
/// `hand_card_shuffled_in`).
pub(crate) fn shuffle_random_hand_card_in(rng: &mut StdRng, state: &mut State, player: usize)
    requires
        old(state).wf(),
        player < 2,
    ensures
        final(state).wf(),
        hand_card_shuffled_in(old(state)@, final(state)@, player as int),
{
    proof {
        assert(state@.hands[player as int] == state.hands@[player as int]@);
    }
    let n = state.hands[player].len();
    if n == 0 {
        return;
    }
    let k = random_below(rng, n);
    let c = take_from_hand(state, player, k);
    push_to_deck(state, player, c);
    let ghost mid = state@;
    shuffle_deck(rng, state, player);
    proof {
        assert(mid == hand_to_deck(old(state)@, player as int, k as int));
    }
}

/// How many Mega Evolution Pokémon ex are in slots 0 to `i - 1` of a side.
pub open spec fn mega_in_side(side: Seq<Option<PlayedCard>>, i: int) -> nat
    decreases i,
{
    if i <= 0 {
        0
    } else {
        mega_in_side(side, i - 1) + if side[i - 1] matches Some(c) && (c.card matches Card::Pokemon(p) && p.is_mega) {
            1nat
        } else {
            0nat
        }
    }
}

/// How many Mega Evolution Pokémon ex are in play on one side.
fn count_mega(state: &State, player: usize) -> (r: usize)
    requires
        state.wf(),
        player < 2,
    ensures
        r == mega_in_side(state@.board[player as int], 4),
        r <= 4,
{
    let side = &state.in_play_pokemon[player];
    proof {
        assert(state@.board[player as int] == side@);
    }
    let mut r: usize = 0;
    let mut i: usize = 0;
    while i < 4
        invariant
            i <= 4,
            side@.len() == 4,
            r == mega_in_side(side@, i as int),
            r <= i,
        decreases 4 - i,
    {
        match &side[i] {
            Some(c) => match &c.card {
                Card::Pokemon(p) => {
                    if p.is_mega {
                        r = r + 1;
                    }
                },
                Card::Trainer(_) => {},
            },
            None => {},
        }
        i = i + 1;
    }
    r
}

/// Whether the slot holds a Stage 2 Pokémon.
pub open spec fn holds_stage2(slot: Option<PlayedCard>) -> bool {
    slot matches Some(c) && (c.card matches Card::Pokemon(p) && p.stage == 2)
}

/// The slots 0 to `i - 1` of a side that hold a Stage 2 Pokémon.
pub open spec fn stage2_slots_upto(side: Seq<Option<PlayedCard>>, i: int) -> Seq<usize>
    decreases i,
{
    if i <= 0 {
        Seq::empty()
    } else if holds_stage2(side[i - 1]) {
        stage2_slots_upto(side, i - 1).push((i - 1) as usize)
    } else {
        stage2_slots_upto(side, i - 1)
    }
}

/// The slots of `player`'s side that hold a Stage 2 Pokémon.
fn stage2_slots(state: &State, player: usize) -> (r: Vec<usize>)
    requires
        state.wf(),
        player < 2,
    ensures
        r@ == stage2_slots_upto(state@.board[player as int], 4),
{
    let side = &state.in_play_pokemon[player];
    proof {
        assert(state@.board[player as int] == side@);
    }
    let mut r: Vec<usize> = Vec::new();
    let mut i: usize = 0;
    while i < 4
        invariant
            i <= 4,
            side@.len() == 4,
            r@ == stage2_slots_upto(side@, i as int),
        decreases 4 - i,
    {
        let hit = match &side[i] {
            Some(c) => match &c.card {
                Card::Pokemon(p) => p.stage == 2,
                Card::Trainer(_) => false,
            },
            None => false,
        };
        if hit {
            r.push(i);
        }
        i = i + 1;
    }
    r
}

/// Whether a card is a Pokémon Tool card.
pub open spec fn is_tool(c: Card) -> bool {
    c matches Card::Trainer(t) && t.trainer_card_type == TrainerType::Tool
}

/// The cards of `cards` that are Pokémon Tools (`tools`) or not (`!tools`), in order.
pub open spec fn tools_split(cards: Seq<Card>, tools: bool) -> Seq<Card>
    decreases cards.len(),
{
    if cards.len() == 0 {
        Seq::empty()
    } else if is_tool(cards.last()) == tools {
        tools_split(cards.drop_last(), tools).push(cards.last())
    } else {
        tools_split(cards.drop_last(), tools)
    }
}

/// Traveling Merchant before the shuffle: of the top 4 cards of `player`'s deck (fewer when
/// the deck is shorter), the Pokémon Tools go to the hand and the others to the bottom of the
/// deck, in order.
pub open spec fn merchant_looked(s: StateView, player: int) -> StateView {
    let deck = s.decks[player];
    let m = if deck.len() < 4 {
        deck.len() as int
    } else {
        4
    };
    let top = deck.take(m);
    StateView {
        hands: s.hands.update(player, s.hands[player] + tools_split(top, true)),
        decks: s.decks.update(player, deck.skip(m) + tools_split(top, false)),
        ..s
    }
}

/// Traveling Merchant (see `merchant_looked`), then the shuffle.
fn traveling_merchant(rng: &mut StdRng, state: &mut State, player: usize)
    requires
        old(state).wf(),
        player < 2,
    ensures
        final(state).wf(),
        deck_shuffled(merchant_looked(old(state)@, player as int), final(state)@, player as int),
{
    let ghost s0 = state@;
    let ghost deck0 = s0.decks[player as int];
    let ghost hand0 = s0.hands[player as int];
    proof {
        assert(state@.decks[player as int] == state.decks@[player as int]@);
    }
    let mut revealed: Vec<Card> = Vec::new();
    let mut i: usize = 0;
    proof {
        assert(deck0.skip(0) =~= deck0);
        assert(s0.decks.update(player as int, deck0.skip(0)) =~= s0.decks);
        assert(deck0.take(0) =~= Seq::<Card>::empty());
    }
    while i < 4 && state.decks[player].len() > 0
        invariant
            s0.decks.len() == 2,
            s0.hands.len() == 2,
            i <= 4,
            player < 2,
            state.wf(),
            i <= deck0.len(),
            revealed@ == deck0.take(i as int),
            state@ == (StateView { decks: s0.decks.update(player as int, deck0.skip(i as int)), ..s0 }),
            state@.decks[player as int] == state.decks@[player as int]@,
        decreases 4 - i,
    {
        let c = take_from_deck(state, player, 0);
        proof {
            assert(deck0.skip(i as int)[0] == deck0[i as int]);
            assert(deck0.skip(i as int).remove(0) =~= deck0.skip(i as int + 1));
            assert(state@.decks =~= s0.decks.update(player as int, deck0.skip(i as int + 1)));
            assert(state@.decks[player as int] == state.decks@[player as int]@);
        }
        revealed.push(c);
        i = i + 1;
        proof {
            assert(revealed@ =~= deck0.take(i as int));
        }
    }
    let ghost m = i as int;
    proof {
        assert(m == (if deck0.len() < 4 {
            deck0.len() as int
        } else {
            4
        }));
    }
    let ghost top = revealed@;
    let mut j: usize = 0;
    proof {
        assert(top.take(0) =~= Seq::<Card>::empty());
        assert(tools_split(Seq::<Card>::empty(), true) =~= Seq::<Card>::empty());
        assert(tools_split(Seq::<Card>::empty(), false) =~= Seq::<Card>::empty());
        assert(hand0 + Seq::<Card>::empty() =~= hand0);
        assert(deck0.skip(m) + Seq::<Card>::empty() =~= deck0.skip(m));
        assert(s0.hands.update(player as int, hand0) =~= s0.hands);
        assert(top.skip(0) =~= top);
    }
    while revealed.len() > 0
        invariant
            s0.decks.len() == 2,
            s0.hands.len() == 2,
            top.len() <= 4,
            hand0 == s0.hands[player as int],
            j <= top.len(),
            revealed@ == top.skip(j as int),
            player < 2,
            state.wf(),
            top == deck0.take(m),
            0 <= m <= deck0.len(),
            state@ == (StateView {
                hands: s0.hands.update(player as int, hand0 + tools_split(top.take(j as int), true)),
                decks: s0.decks.update(player as int, deck0.skip(m) + tools_split(top.take(j as int), false)),
                ..s0
            }),
        decreases revealed@.len(),
    {
        let ghost hands_before = state@.hands;
        let ghost decks_before = state@.decks;
        let c = revealed.remove(0);
        proof {
            assert(j < top.len());
            assert(c == top[j as int]);
            assert(revealed@ =~= top.skip(j as int + 1));
            assert(top.take(j as int + 1).drop_last() =~= top.take(j as int));
            assert(top.take(j as int + 1).last() == top[j as int]);
        }
        let tool = match &c {
            Card::Trainer(t) => t.trainer_card_type == TrainerType::Tool,
            Card::Pokemon(_) => false,
        };
        if tool {
            push_to_hand(state, player, c);
            proof {
                assert(state@.hands =~= s0.hands.update(
                    player as int,
                    hand0 + tools_split(top.take(j as int + 1), true),
                ));
            }
        } else {
            push_to_deck(state, player, c);
            proof {
                assert(state@.decks =~= s0.decks.update(
                    player as int,
                    deck0.skip(m) + tools_split(top.take(j as int + 1), false),
                ));
            }
        }
        j = j + 1;
    }
    proof {
        assert(top.take(top.len() as int) =~= top);
        assert(state@ == merchant_looked(s0, player as int));
    }
    shuffle_deck(rng, state, player);
}

/// The slots 0 to `i - 1` of a side that hold a Pokémon with no Pokémon Tool attached.
pub open spec fn tool_slots_upto(side: Seq<Option<PlayedCard>>, i: int) -> Seq<usize>
    decreases i,
{
    if i <= 0 {
        Seq::empty()
    } else if side[i - 1] matches Some(c) && c.attached_tool is None {
        tool_slots_upto(side, i - 1).push((i - 1) as usize)
    } else {
        tool_slots_upto(side, i - 1)
    }
}

/// A Pokémon Tool: one choice to attach it for each of `player`'s Pokémon without a Tool.
fn tool_attach_choices(state: &State, player: usize, tool: &TrainerCard) -> (r: Vec<SimpleAction>)
    requires
        state.wf(),
        player < 2,
    ensures
        r@ == tool_slots_upto(state@.board[player as int], 4).map_values(
            |k: usize| SimpleAction::AttachTool { in_play_idx: k, tool_card: *tool },
        ),
{
    let side = &state.in_play_pokemon[player];
    proof {
        assert(state@.board[player as int] == side@);
    }
    let mut r: Vec<SimpleAction> = Vec::new();
    let mut i: usize = 0;
    while i < 4
        invariant
            i <= 4,
            side@.len() == 4,
            r@ == tool_slots_upto(side@, i as int).map_values(
                |k: usize| SimpleAction::AttachTool { in_play_idx: k, tool_card: *tool },
            ),
        decreases 4 - i,
    {
        let free = match &side[i] {
            Some(c) => c.attached_tool.is_none(),
            None => false,
        };
        if free {
            r.push(SimpleAction::AttachTool { in_play_idx: i, tool_card: copy_trainer_card(tool) });
        }
        i = i + 1;
        proof {
            assert(r@ =~= tool_slots_upto(side@, i as int).map_values(
                |k: usize| SimpleAction::AttachTool { in_play_idx: k, tool_card: *tool },
            ));
        }
    }
    r
}

/// `player` drew `n` times from the top of their deck (stopping when it is empty).
pub open spec fn tops_drawn(s: StateView, player: int, n: nat) -> StateView
    decreases n,
{
    if n == 0 {
        s
    } else {
        top_drawn(tops_drawn(s, player, (n - 1) as nat), player)
    }
}

/// Draws `n` times from the top of `player`'s deck (see `tops_drawn`).
fn draw_tops(state: &mut State, player: usize, n: usize)
    requires
        old(state).wf(),
        player < 2,
    ensures
        final(state).wf(),
        final(state)@ == tops_drawn(old(state)@, player as int, n as nat),
{
    let mut i: usize = 0;
    while i < n
        invariant
            i <= n,
            state.wf(),
            player < 2,
            state@ == tops_drawn(old(state)@, player as int, i as nat),
        decreases n - i,
    {
        draw_top(state, player);
        i = i + 1;
    }
}

/// Mythical Slab: the top card of `player`'s deck goes to their hand when it is a [P]
/// Pokémon, to the bottom of the deck otherwise (nothing changes when the deck is empty).
pub open spec fn slab_looked(s: StateView, player: int) -> StateView {
    let deck = s.decks[player];
    if deck.len() == 0 {
        s
    } else if deck[0] matches Card::Pokemon(p) && p.energy_type == EnergyType::Psychic {
        deck_to_hand(s, player, 0)
    } else {
        StateView { decks: s.decks.update(player, deck.skip(1).push(deck[0])), ..s }
    }
}

/// `player`'s hand was put into their deck and the deck shuffled: the deck holds the cards of
/// both, each as many times, the hand is empty, and nothing else changed.
pub open spec fn hand_shuffled_into_deck(before: StateView, after: StateView, player: int) -> bool {
    &&& after.decks[player].to_multiset() == (before.decks[player] + before.hands[player]).to_multiset()
    &&& after == StateView {
        decks: before.decks.update(player, after.decks[player]),
        hands: before.hands.update(player, Seq::empty()),
        ..before
    }
}

/// The first card with identifier `id` of `owner`'s discard pile went to the end of `taker`'s
/// hand; nothing changed when the pile has none.
pub open spec fn taken_from_discard_by_id(before: StateView, after: StateView, owner: int, taker: int, id: CardId) -> bool {
    let pile = before.discard_piles[owner];
    if has_id(pile, id) {
        exists|k: int|
            0 <= k < pile.len() && pile[k].id_spec() == id && (forall|j: int|
                0 <= j < k ==> (#[trigger] pile[j]).id_spec() != id) && after == #[trigger] discard_to_other_hand(
                before,
                owner,
                taker,
                k,
            )
    } else {
        after == before
    }
}

/// `owner`'s discarded card at `k` went to the end of `taker`'s hand.
pub open spec fn discard_to_other_hand(s: StateView, owner: int, taker: int, k: int) -> StateView {
    let moved = StateView { discard_piles: s.discard_piles.update(owner, s.discard_piles[owner].remove(k)), ..s };
    StateView {
        hands: moved.hands.update(taker, moved.hands[taker].push(s.discard_piles[owner][k])),
        ..moved
    }
}

/// Draws the top card of `player`'s deck (see `top_drawn`).
fn draw_top(state: &mut State, player: usize)
    requires
        old(state).wf(),
        player < 2,
    ensures
        final(state).wf(),
        final(state)@ == top_drawn(old(state)@, player as int),
{
    proof {
        assert(state@.decks[player as int] == state.decks@[player as int]@);
    }
    if state.decks[player].len() == 0 {
        return;
    }
    let c = take_from_deck(state, player, 0);
    push_to_hand(state, player, c);
    proof {
        assert(state@ == deck_to_hand(old(state)@, player as int, 0));
    }
}

/// Puts a card at the bottom of `player`'s deck.
fn push_to_deck(state: &mut State, player: usize, c: Card)
    requires
        old(state).wf(),
        player < 2,
    ensures
        final(state).wf(),
        final(state)@ == (StateView {
            decks: old(state)@.decks.update(player as int, old(state)@.decks[player as int].push(c)),
            ..old(state)@
        }),
{
    let ghost dv = state.decks@;
    state.decks[player].push(c);
    proof {
        let target = old(state)@.decks.update(player as int, old(state)@.decks[player as int].push(c));
        assert forall|p: int| 0 <= p < 2 implies state@.decks[p] == target[p] by {
            assert(old(state)@.decks[p] == dv[p]@);
            if p != player as int {
                assert(state.decks@[p] == dv[p]);
            }
        }
        assert(state@.decks =~= target);
    }
}

/// Mythical Slab (see `slab_looked`).
fn look_at_slab(state: &mut State, player: usize)
    requires
        old(state).wf(),
        player < 2,
    ensures
        final(state).wf(),
        final(state)@ == slab_looked(old(state)@, player as int),
{
    proof {
        assert(state@.decks[player as int] == state.decks@[player as int]@);
    }
    if state.decks[player].len() == 0 {
        return;
    }
    let psychic = match &state.decks[player][0] {
        Card::Pokemon(p) => p.energy_type == EnergyType::Psychic,
        Card::Trainer(_) => false,
    };
    let c = take_from_deck(state, player, 0);
    if psychic {
        push_to_hand(state, player, c);
        proof {
            assert(state@ == deck_to_hand(old(state)@, player as int, 0));
        }
    } else {
        push_to_deck(state, player, c);
        proof {
            let deck = old(state)@.decks[player as int];
            assert(deck.remove(0) =~= deck.skip(1));
            assert(state@.decks =~= old(state)@.decks.update(player as int, deck.skip(1).push(deck[0])));
            assert(state@ == StateView {
                decks: old(state)@.decks.update(player as int, deck.skip(1).push(deck[0])),
                ..old(state)@
            });
        }
    }
}

/// Puts `player`'s hand into their deck and shuffles it (see `hand_shuffled_into_deck`).
fn shuffle_hand_into_deck(rng: &mut StdRng, state: &mut State, player: usize)
    requires
        old(state).wf(),
        player < 2,
    ensures
        final(state).wf(),
        hand_shuffled_into_deck(old(state)@, final(state)@, player as int),
{
    let ghost dv = state.decks@;
    let ghost hv = state.hands@;
    let mut hand: Vec<Card> = Vec::new();
    std::mem::swap(&mut hand, &mut state.hands[player]);
    let mut cards: Vec<Card> = Vec::new();
    std::mem::swap(&mut cards, &mut state.decks[player]);
    let ghost joined = cards@ + hand@;
    cards.append(&mut hand);
    assert(cards@ == joined);
    shuffle_cards(rng, &mut cards);
    let ghost shuffled = cards@;
    std::mem::swap(&mut cards, &mut state.decks[player]);
    proof {
        assert(old(state)@.decks[player as int] == dv[player as int]@);
        assert(old(state)@.hands[player as int] == hv[player as int]@);
        let tdecks = old(state)@.decks.update(player as int, shuffled);
        assert forall|p: int| 0 <= p < 2 implies state@.decks[p] == tdecks[p] by {
            assert(old(state)@.decks[p] == dv[p]@);
            if p != player as int {
                assert(state.decks@[p] == dv[p]);
            }
        }
        assert(state@.decks =~= tdecks);
        let thands = old(state)@.hands.update(player as int, Seq::empty());
        assert forall|p: int| 0 <= p < 2 implies state@.hands[p] == thands[p] by {
            assert(old(state)@.hands[p] == hv[p]@);
            if p != player as int {
                assert(state.hands@[p] == hv[p]);
            }
        }
        assert(state@.hands =~= thands);
    }
}

/// Takes the first card with identifier `id` of `owner`'s discard pile into `taker`'s hand (see
/// `taken_from_discard_by_id`).
fn take_from_discard_by_id(state: &mut State, owner: usize, taker: usize, id: CardId)
    requires
        old(state).wf(),
        owner < 2,
        taker < 2,
    ensures
        final(state).wf(),
        taken_from_discard_by_id(old(state)@, final(state)@, owner as int, taker as int, id),
{
    proof {
        assert(state@.discard_piles[owner as int] == state.discard_piles@[owner as int]@);
    }
    let pile = &state.discard_piles[owner];
    let mut i: usize = 0;
    while i < pile.len()
        invariant
            i <= pile@.len(),
            forall|j: int| 0 <= j < i ==> (#[trigger] pile@[j]).id_spec() != id,
        ensures
            i <= pile@.len(),
            forall|j: int| 0 <= j < i ==> (#[trigger] pile@[j]).id_spec() != id,
            i < pile@.len() ==> pile@[i as int].id_spec() == id,
        decreases pile@.len() - i,
    {
        if pile[i].id() == id {
            break;
        }
        i = i + 1;
    }
    if i == pile.len() {
        return;
    }
    let k = i;
    let c = take_from_discard(state, owner, k);
    push_to_hand(state, taker, c);
    proof {
        assert(state@ == discard_to_other_hand(old(state)@, owner as int, taker as int, k as int));
    }
}

/// `player`'s discarded card at `k` went to the end of their hand.
pub open spec fn discard_to_hand(s: StateView, player: int, k: int) -> StateView {
    StateView {
        discard_piles: s.discard_piles.update(player, s.discard_piles[player].remove(k)),
        hands: s.hands.update(player, s.hands[player].push(s.discard_piles[player][k])),
        ..s
    }
}

/// Whether `player`'s discard pile holds a [W] Pokémon.
pub open spec fn water_in_discard(s: StateView, player: int) -> bool {
    exists|k: int|
        0 <= k < s.discard_piles[player].len() && filter_holds(
            CardFilter::Water,
            #[trigger] s.discard_piles[player][k],
        )
}

/// One [W] Pokémon of `player`'s discard pile, picked at random, went to their hand; nothing
/// changed when there is none.
pub open spec fn water_returned(before: StateView, after: StateView, player: int) -> bool {
    if water_in_discard(before, player) {
        exists|k: int|
            0 <= k < before.discard_piles[player].len() && filter_holds(
                CardFilter::Water,
                before.discard_piles[player][k],
            ) && after == #[trigger] discard_to_hand(before, player, k)
    } else {
        after == before
    }
}

/// `player`'s Pokémon in `slot` without its Pokémon Tool, which goes to their discard pile
/// (nothing changes when it has none).
pub open spec fn slot_tool_discarded(s: StateView, player: int, slot: int) -> StateView {
    match s.slot(player, slot) {
        Some(c) => match c.attached_tool {
            Some(t) => StateView {
                discard_piles: s.discard_piles.update(player, s.discard_piles[player].push(Card::Trainer(t))),
                ..s.with_slot(player, slot, Some(PlayedCard { attached_tool: None, ..c }))
            },
            None => s,
        },
        None => s,
    }
}

/// `slot_tool_discarded` for each slot below `n` of `player`, in order.
pub open spec fn tools_discarded_upto(s: StateView, player: int, n: int) -> StateView
    decreases n,
{
    if n <= 0 {
        s
    } else {
        slot_tool_discarded(tools_discarded_upto(s, player, n - 1), player, n - 1)
    }
}

/// The Special Conditions of the Pokémon, in the order Poisoned, Paralyzed, Asleep, Burned,
/// Confused.
pub open spec fn conditions_of(c: PlayedCard) -> Seq<StatusCondition> {
    let s0 = Seq::<StatusCondition>::empty();
    let s1 = if c.poisoned { s0.push(StatusCondition::Poisoned) } else { s0 };
    let s2 = if c.paralyzed { s1.push(StatusCondition::Paralyzed) } else { s1 };
    let s3 = if c.asleep { s2.push(StatusCondition::Asleep) } else { s2 };
    let s4 = if c.burned { s3.push(StatusCondition::Burned) } else { s3 };
    if c.confused { s4.push(StatusCondition::Confused) } else { s4 }
}

/// `player`'s Active Pokémon heals 10 damage, then loses one of its Special Conditions, picked
/// at random (none when it has none); nothing changes without an Active Pokémon.
pub open spec fn malasada_done(before: StateView, after: StateView, player: int) -> bool {
    match before.slot(player, 0) {
        Some(c) => {
            let h = c.healed_spec(10);
            let healed = before.with_slot(player, 0, Some(h));
            if conditions_of(h).len() == 0 {
                after == healed
            } else {
                exists|k: int|
                    0 <= k < conditions_of(h).len() && after == healed.with_slot(
                        player,
                        0,
                        Some(#[trigger] h.cleared_spec(conditions_of(h)[k])),
                    )
            }
        },
        None => after == before,
    }
}

/// The Special Conditions of `player`'s Active Pokémon (see `conditions_of`; none without one).
fn active_conditions(state: &State, player: usize) -> (r: Vec<StatusCondition>)
    requires
        state.wf(),
        player < 2,
    ensures
        r@ == match state@.slot(player as int, 0) {
            Some(c) => conditions_of(c),
            None => Seq::empty(),
        },
{
    proof {
        assert(state@.board[player as int] == state.in_play_pokemon@[player as int]@);
    }
    let mut r: Vec<StatusCondition> = Vec::new();
    match &state.in_play_pokemon[player][0] {
        Some(c) => {
            if c.poisoned {
                r.push(StatusCondition::Poisoned);
            }
            if c.paralyzed {
                r.push(StatusCondition::Paralyzed);
            }
            if c.asleep {
                r.push(StatusCondition::Asleep);
            }
            if c.burned {
                r.push(StatusCondition::Burned);
            }
            if c.confused {
                r.push(StatusCondition::Confused);
            }
            proof {
                assert(r@ =~= conditions_of(*c));
            }
        },
        None => {},
    }
    r
}

/// `player`'s Active Pokémon goes to their hand; its Energy and Pokémon Tool are gone with
/// it.
pub open spec fn active_to_hand(s: StateView, player: int) -> StateView {
    match s.slot(player, 0) {
        Some(c) => StateView {
            hands: s.hands.update(player, s.hands[player].push(c.card)),
            ..s.with_slot(player, 0, None)
        },
        None => s,
    }
}

/// With its Active Spot empty, `player` promotes one of their Benched Pokémon (a choice queued
/// beneath every pending one), or loses when they have none.
pub open spec fn promoted_or_lost(before: StateView, after: StateView, player: int) -> bool {
    if before.bench_indices(player).len() == 0 {
        after == (StateView { winner: Some(GameOutcome::Win((1 - player) as usize)), ..before })
    } else {
        &&& same_but_stack(before, after)
        &&& after.move_generation_stack.len() == before.move_generation_stack.len() + 1
        &&& after.move_generation_stack.subrange(1, after.move_generation_stack.len() as int)
            == before.move_generation_stack
        &&& promotion_entry(before, after.move_generation_stack[0], player as usize)
    }
}

/// Puts `player`'s Active Pokémon into their hand (see `active_to_hand`).
fn active_to_hand_exec(state: &mut State, player: usize)
    requires
        old(state).wf(),
        player < 2,
    ensures
        final(state).wf(),
        final(state)@ == active_to_hand(old(state)@, player as int),
{
    proof {
        assert(state@.board[player as int] == state.in_play_pokemon@[player as int]@);
    }
    let ghost before = state@;
    let slot_ref = &mut state.in_play_pokemon[player][0];
    let taken = slot_ref.take();
    proof {
        assert(state@.board =~~= before.with_slot(player as int, 0, None).board);
        assert(state@ == before.with_slot(player as int, 0, None));
    }
    match taken {
        Some(c) => {
            push_to_hand(state, player, c.card);
        },
        None => {
            proof {
                assert(state@.board =~~= before.board);
            }
        },
    }
}

/// `player`'s Pokémon in `slot` without its Pokémon Tool, which goes to their hand (nothing
/// changes when it has none).
pub open spec fn slot_tool_to_hand(s: StateView, player: int, slot: int) -> StateView {
    match s.slot(player, slot) {
        Some(c) => match c.attached_tool {
            Some(t) => StateView {
                hands: s.hands.update(player, s.hands[player].push(Card::Trainer(t))),
                ..s.with_slot(player, slot, Some(PlayedCard { attached_tool: None, ..c }))
            },
            None => s,
        },
        None => s,
    }
}

/// `slot_tool_to_hand` for the first `n` of the eight places in play, taken player by player
/// and slot by slot (place `k` is slot `k % 4` of player `k / 4`).
pub open spec fn tools_to_hand_upto(s: StateView, n: int) -> StateView
    decreases n,
{
    if n <= 0 {
        s
    } else {
        slot_tool_to_hand(tools_to_hand_upto(s, n - 1), (n - 1) / 4, (n - 1) % 4)
    }
}

/// Returns the Pokémon Tool of `player`'s Pokémon in `slot` to their hand (see
/// `slot_tool_to_hand`).
fn tool_to_hand(state: &mut State, player: usize, slot: usize)
    requires
        old(state).wf(),
        player < 2,
        slot < 4,
    ensures
        final(state).wf(),
        final(state)@ == slot_tool_to_hand(old(state)@, player as int, slot as int),
{
    proof {
        assert(state@.board[player as int] == state.in_play_pokemon@[player as int]@);
    }
    let tool = match &state.in_play_pokemon[player][slot] {
        Some(c) => match &c.attached_tool {
            Some(t) => Some(copy_trainer_card(t)),
            None => None,
        },
        None => None,
    };
    match tool {
        Some(t) => {
            clear_slot_tool(state, player, slot);
            push_to_hand(state, player, Card::Trainer(t));
        },
        None => {},
    }
}

/// Discards the Pokémon Tool of `player`'s Pokémon in `slot` (see `slot_tool_discarded`).
fn discard_slot_tool(state: &mut State, player: usize, slot: usize)
    requires
        old(state).wf(),
        player < 2,
        slot < 4,
    ensures
        final(state).wf(),
        final(state)@ == slot_tool_discarded(old(state)@, player as int, slot as int),
{
    proof {
        assert(state@.board[player as int] == state.in_play_pokemon@[player as int]@);
    }
    let ghost before = state@;
    let tool = match &state.in_play_pokemon[player][slot] {
        Some(c) => match &c.attached_tool {
            Some(t) => Some(copy_trainer_card(t)),
            None => None,
        },
        None => None,
    };
    match tool {
        Some(t) => {
            clear_slot_tool(state, player, slot);
            push_discard(state, player, Card::Trainer(t));
        },
        None => {},
    }
}

/// `player`'s Pokémon in `slot` without a Pokémon Tool.
fn clear_slot_tool(state: &mut State, player: usize, slot: usize)
    requires
        old(state).wf(),
        player < 2,
        slot < 4,
        old(state)@.slot(player as int, slot as int) is Some,
    ensures
        final(state).wf(),
        final(state)@ == old(state)@.with_slot(
            player as int,
            slot as int,
            Some(PlayedCard { attached_tool: None, ..old(state)@.slot(player as int, slot as int)->0 }),
        ),
{
    let slot_ref = &mut state.in_play_pokemon[player][slot];
    match slot_ref {
        Some(pokemon) => {
            pokemon.attached_tool = None;
        },
        None => {},
    }
    proof {
        let c = old(state)@.slot(player as int, slot as int)->0;
        assert(state@.board =~~= old(state)@.with_slot(
            player as int,
            slot as int,
            Some(PlayedCard { attached_tool: None, ..c }),
        ).board);
    }
}

/// One Energy of `player`'s Active Pokémon, picked at random, goes to the discarded Energy
/// (nothing changes when it has none, or when there is no Active Pokémon).
pub open spec fn random_energy_discarded(before: StateView, after: StateView, player: int) -> bool {
    match before.slot(player, 0) {
        Some(c) => if c.attached_energy@.len() == 0 {
            after == before
        } else {
            exists|k: int| #[trigger] energy_taken_at(before, after, player, 0, k, true)
        },
        None => after == before,
    }
}

/// `count` discards of `random_energy_discarded`, one after the other: as many Energy as
/// there are heads, or as the Active Pokémon has, go to the discarded Energy.
pub open spec fn random_energy_discards(before: StateView, after: StateView, player: int, count: nat) -> bool
    decreases count,
{
    if count == 0 {
        after == before
    } else {
        exists|mid: StateView|
            random_energy_discards(before, mid, player, (count - 1) as nat) && #[trigger] random_energy_discarded(
                mid,
                after,
                player,
            )
    }
}

/// Discards one Energy of `player`'s Active Pokémon, picked at random (see
/// `random_energy_discarded`).
fn discard_random_energy(rng: &mut StdRng, state: &mut State, player: usize)
    requires
        old(state).wf(),
        player < 2,
    ensures
        final(state).wf(),
        random_energy_discarded(old(state)@, final(state)@, player as int),
{
    proof {
        assert(state@.board[player as int] == state.in_play_pokemon@[player as int]@);
    }
    let n = match &state.in_play_pokemon[player][0] {
        Some(c) => c.attached_energy.len(),
        None => 0,
    };
    if n > 0 {
        let k = random_below(rng, n);
        take_energy_at(state, player, 0, k, true);
    }
}

/// `count` draws of `water_returned`, one after the other: as many [W] Pokémon as there are
/// heads, or as the discard pile holds, go to the hand.
pub open spec fn water_returns_done(before: StateView, after: StateView, player: int, count: nat) -> bool
    decreases count,
{
    if count == 0 {
        after == before
    } else {
        exists|mid: StateView|
            water_returns_done(before, mid, player, (count - 1) as nat) && #[trigger] water_returned(
                mid,
                after,
                player,
            )
    }
}

/// How many [W] Pokémon `cards` holds.
pub open spec fn water_count(cards: Seq<Card>) -> nat
    decreases cards.len(),
{
    if cards.len() == 0 {
        0
    } else {
        water_count(cards.drop_last()) + if filter_holds(CardFilter::Water, cards.last()) {
            1nat
        } else {
            0nat
        }
    }
}

/// The count of a concatenation is the sum of the counts.
proof fn lemma_water_count_concat(a: Seq<Card>, b: Seq<Card>)
    ensures
        water_count(a + b) == water_count(a) + water_count(b),
    decreases b.len(),
{
    if b.len() == 0 {
        assert(a + b =~= a);
    } else {
        lemma_water_count_concat(a, b.drop_last());
        assert((a + b).drop_last() =~= a + b.drop_last());
        assert((a + b).last() == b.last());
    }
}

/// A pile holds a [W] Pokémon exactly when its count is positive.
proof fn lemma_water_count_positive(cards: Seq<Card>)
    ensures
        water_count(cards) > 0 <==> exists|k: int|
            0 <= k < cards.len() && filter_holds(CardFilter::Water, #[trigger] cards[k]),
    decreases cards.len(),
{
    if cards.len() > 0 {
        let d = cards.drop_last();
        lemma_water_count_positive(d);
        if water_count(cards) > 0 {
            if water_count(d) > 0 {
                let k = choose|k: int| 0 <= k < d.len() && filter_holds(CardFilter::Water, #[trigger] d[k]);
                assert(cards[k] == d[k]);
            } else {
                assert(filter_holds(CardFilter::Water, cards[cards.len() - 1]));
            }
        }
        if exists|k: int| 0 <= k < cards.len() && filter_holds(CardFilter::Water, #[trigger] cards[k]) {
            let k = choose|k: int| 0 <= k < cards.len() && filter_holds(CardFilter::Water, #[trigger] cards[k]);
            if k < cards.len() - 1 {
                assert(d[k] == cards[k]);
            }
        }
    }
}

/// Taking a [W] Pokémon out of a pile lowers its count by one.
proof fn lemma_water_count_remove(cards: Seq<Card>, k: int)
    requires
        0 <= k < cards.len(),
        filter_holds(CardFilter::Water, cards[k]),
    ensures
        water_count(cards.remove(k)) + 1 == water_count(cards),
{
    let a = cards.take(k);
    let b = cards.skip(k + 1);
    let x = cards[k];
    lemma_water_count_concat(a, b);
    lemma_water_count_concat(a.push(x), b);
    assert(cards.remove(k) =~= a + b);
    assert(cards =~= a.push(x) + b);
    assert(a.push(x).drop_last() =~= a);
    assert(water_count(a.push(x)) == water_count(a) + 1);
}

/// Fisher with `n` heads: the hand gains, and the discard pile loses, as many cards as the
/// smaller of `n` and the number of [W] Pokémon in the discard pile, and every card moved is
/// a [W] Pokémon.
pub proof fn lemma_fisher_returns_count(before: StateView, after: StateView, player: int, n: nat)
    requires
        0 <= player < before.discard_piles.len(),
        player < before.hands.len(),
        water_returns_done(before, after, player, n),
    ensures
        after.discard_piles.len() == before.discard_piles.len(),
        after.hands.len() == before.hands.len(),
        ({
            let w = water_count(before.discard_piles[player]);
            let moved = if n < w {
                n
            } else {
                w
            };
            &&& after.hands[player].len() == before.hands[player].len() + moved
            &&& after.discard_piles[player].len() + moved == before.discard_piles[player].len()
            &&& water_count(after.discard_piles[player]) + moved == w
        }),
    decreases n,
{
    if n > 0 {
        let mid = choose|mid: StateView|
            water_returns_done(before, mid, player, (n - 1) as nat) && #[trigger] water_returned(
                mid,
                after,
                player,
            );
        lemma_fisher_returns_count(before, mid, player, (n - 1) as nat);
        lemma_water_count_positive(mid.discard_piles[player]);
        if water_in_discard(mid, player) {
            let k = choose|k: int|
                0 <= k < mid.discard_piles[player].len() && filter_holds(
                    CardFilter::Water,
                    mid.discard_piles[player][k],
                ) && after == #[trigger] discard_to_hand(mid, player, k);
            lemma_water_count_remove(mid.discard_piles[player], k);
            assert(after.discard_piles[player] == mid.discard_piles[player].remove(k));
            assert(after.hands[player] == mid.hands[player].push(mid.discard_piles[player][k]));
        } else {
            assert(after == mid);
            assert(water_count(mid.discard_piles[player]) == 0);
        }
    }
}

/// Takes the card at `k` of `player`'s discard pile.
fn take_from_discard(state: &mut State, player: usize, k: usize) -> (c: Card)
    requires
        old(state).wf(),
        player < 2,
        k < old(state)@.discard_piles[player as int].len(),
    ensures
        final(state).wf(),
        final(state)@ == (StateView {
            discard_piles: old(state)@.discard_piles.update(
                player as int,
                old(state)@.discard_piles[player as int].remove(k as int),
            ),
            ..old(state)@
        }),
        c == old(state)@.discard_piles[player as int][k as int],
{
    let ghost pv = state.discard_piles@;
    let c = state.discard_piles[player].remove(k);
    proof {
        let target = old(state)@.discard_piles.update(
            player as int,
            old(state)@.discard_piles[player as int].remove(k as int),
        );
        assert forall|p: int| 0 <= p < 2 implies state@.discard_piles[p] == target[p] by {
            assert(old(state)@.discard_piles[p] == pv[p]@);
            if p != player as int {
                assert(state.discard_piles@[p] == pv[p]);
            }
        }
        assert(state@.discard_piles =~= target);
    }
    c
}

/// Puts a card at the end of `player`'s hand.
fn push_to_hand(state: &mut State, player: usize, c: Card)
    requires
        old(state).wf(),
        player < 2,
    ensures
        final(state).wf(),
        final(state)@ == (StateView {
            hands: old(state)@.hands.update(player as int, old(state)@.hands[player as int].push(c)),
            ..old(state)@
        }),
{
    let ghost hv = state.hands@;
    state.hands[player].push(c);
    proof {
        let target = old(state)@.hands.update(player as int, old(state)@.hands[player as int].push(c));
        assert forall|p: int| 0 <= p < 2 implies state@.hands[p] == target[p] by {
            assert(old(state)@.hands[p] == hv[p]@);
            if p != player as int {
                assert(state.hands@[p] == hv[p]);
            }
        }
        assert(state@.hands =~= target);
    }
}

/// Moves one [W] Pokémon, picked at random, from `player`'s discard pile to their hand (see
/// `water_returned`).
fn return_random_water(rng: &mut StdRng, state: &mut State, player: usize)
    requires
        old(state).wf(),
        player < 2,
    ensures
        final(state).wf(),
        water_returned(old(state)@, final(state)@, player as int),
{
    proof {
        assert(state@.discard_piles[player as int] == state.discard_piles@[player as int]@);
    }
    let pile = &state.discard_piles[player];
    let mut eligible: Vec<usize> = Vec::new();
    let mut i: usize = 0;
    while i < pile.len()
        invariant
            i <= pile@.len(),
            forall|x: int|
                0 <= x < eligible@.len() ==> #[trigger] eligible@[x] < i && filter_holds(
                    CardFilter::Water,
                    pile@[eligible@[x] as int],
                ),
            eligible@.len() == 0 ==> forall|k: int| 0 <= k < i ==> !filter_holds(CardFilter::Water, #[trigger] pile@[k]),
        decreases pile@.len() - i,
    {
        if filter_holds_exec(CardFilter::Water, &pile[i]) {
            eligible.push(i);
        }
        i = i + 1;
    }
    if eligible.len() == 0 {
        return;
    }
    let x = random_below(rng, eligible.len());
    let k = eligible[x];
    proof {
        assert(filter_holds(CardFilter::Water, pile@[k as int]));
    }
    let c = take_from_discard(state, player, k);
    push_to_hand(state, player, c);
    proof {
        let target = discard_to_hand(old(state)@, player as int, k as int);
        assert(state@ == target);
    }
}

/// The Heal choices of `amount` for `player`'s Pokémon (of type `t` when one is given).
fn heal_offers_exec(state: &State, player: usize, amount: u32, cure: bool, t: Option<EnergyType>) -> (r: Vec<
    SimpleAction,
>)
    requires
        state.wf(),
        player < 2,
    ensures
        r@ == heal_offers_upto(state@.board[player as int], amount, cure, t, 4),
{
    let side = &state.in_play_pokemon[player];
    proof {
        assert(state@.board[player as int] == side@);
    }
    let mut r: Vec<SimpleAction> = Vec::new();
    let mut i: usize = 0;
    while i < 4
        invariant
            i <= 4,
            side@.len() == 4,
            r@ == heal_offers_upto(side@, amount, cure, t, i as int),
        decreases 4 - i,
    {
        match &side[i] {
            Some(c) => {
                let keep = match t {
                    None => true,
                    Some(wanted) => match c.get_energy_type() {
                        Some(e) => e == wanted,
                        None => false,
                    },
                };
                if keep {
                    r.push(SimpleAction::Heal { in_play_idx: i, amount, cure_status: cure });
                }
            },
            None => {},
        }
        i = i + 1;
    }
    r
}

/// The choices to make one of `player`'s Benched Pokémon (damaged ones only when
/// `damaged_only`) Active.
pub fn activations_exec(state: &State, player: usize, damaged_only: bool) -> (r: Vec<SimpleAction>)
    requires
        state.wf(),
        player < 2,
    ensures
        r@ == activations_upto(state@.board[player as int], player, damaged_only, 4),
{
    let side = &state.in_play_pokemon[player];
    proof {
        assert(state@.board[player as int] == side@);
    }
    let mut r: Vec<SimpleAction> = Vec::new();
    let mut i: usize = 1;
    while i < 4
        invariant
            1 <= i <= 4,
            side@.len() == 4,
            r@ == activations_upto(side@, player, damaged_only, i as int),
        decreases 4 - i,
    {
        match &side[i] {
            Some(c) => {
                if !damaged_only || c.remaining_hp < c.total_hp {
                    r.push(SimpleAction::Activate { player, in_play_idx: i });
                }
            },
            None => {},
        }
        i = i + 1;
    }
    r
}

/// Whether the Pokémon carries one of the names.
fn named_target(c: &PlayedCard, names: &Vec<String>) -> (r: bool)
    ensures
        r == names@.map_values(|n: String| n@).contains(card_name(c.card)),
{
    let ghost ns = names@.map_values(|n: String| n@);
    let mut i: usize = 0;
    while i < names.len()
        invariant
            i <= names@.len(),
            ns == names@.map_values(|n: String| n@),
            forall|j: int| 0 <= j < i ==> ns[j] != card_name(c.card),
        decreases names@.len() - i,
    {
        if has_name(c, &names[i]) {
            proof {
                assert(ns[i as int] == card_name(c.card));
            }
            return true;
        }
        i = i + 1;
    }
    false
}

/// Attach choices of `amount` Energy of type `t` for `player`'s Pokémon from slot `from` on that
/// may receive it, with the slots they are for.
fn attach_offers_exec(
    state: &State,
    player: usize,
    from: usize,
    amount: u32,
    t: EnergyType,
    kind: Option<EnergyType>,
    target_names: &Vec<String>,
) -> (r: Vec<SimpleAction>)
    requires
        state.wf(),
        player < 2,
        from <= 4,
    ensures
        attach_choices(
            r@,
            amount,
            t,
            attach_slots_upto(
                state@.board[player as int],
                from as int,
                kind,
                target_names@.map_values(|n: String| n@),
                4,
            ),
        ),
{
    let side = &state.in_play_pokemon[player];
    proof {
        assert(state@.board[player as int] == side@);
    }
    let ghost names = target_names@.map_values(|n: String| n@);
    let mut r: Vec<SimpleAction> = Vec::new();
    let mut i: usize = from;
    while i < 4
        invariant
            from <= i <= 4,
            side@.len() == 4,
            names == target_names@.map_values(|n: String| n@),
            attach_choices(r@, amount, t, attach_slots_upto(side@, from as int, kind, names, i as int)),
        decreases 4 - i,
    {
        let ghost before = r@;
        match &side[i] {
            Some(c) => {
                let keep = if target_names.len() > 0 {
                    named_target(c, target_names)
                } else {
                    match kind {
                        None => true,
                        Some(wanted) => match c.get_energy_type() {
                            Some(e) => e == wanted,
                            None => false,
                        },
                    }
                };
                if keep {
                    let mut attachments: Vec<(u32, EnergyType, usize)> = Vec::new();
                    attachments.push((amount, t, i));
                    r.push(SimpleAction::Attach { attachments, is_turn_energy: false });
                    proof {
                        let slots = attach_slots_upto(side@, from as int, kind, names, i as int + 1);
                        assert(attachments@ =~= seq![(amount, t, i)]);
                        assert forall|k: int| 0 <= k < slots.len() implies #[trigger] attach_choice(
                            r@[k],
                            amount,
                            t,
                            slots[k],
                        ) by {
                            if k < before.len() {
                                assert(r@[k] == before[k]);
                            }
                        }
                    }
                }
            },
            None => {},
        }
        i = i + 1;
    }
    r
}

/// Applies the effect of a Trainer card played by `actor`, when it is one this library applies
/// (`applied`); otherwise nothing changes.
pub fn apply_trainer_effect(
    rng: &mut StdRng,
    state: &mut State,
    actor: usize,
    played: &TrainerCard,
    effect: TrainerEffect,
) -> (applied: bool)
    requires
        old(state).wf(),
        actor < 2,
        effect == TrainerEffect::HittingHammerDiscard ==> old(state)@.slot(1 - actor, 0) is Some,
        effect == TrainerEffect::Koga ==> old(state)@.slot(actor as int, 0) is Some,
        effect == TrainerEffect::SquirtBottle ==> old(state)@.slot(1 - actor, 0) is Some,
        effect == TrainerEffect::Mars ==> old(state)@.points[1 - actor] <= 3,
        effect matches TrainerEffect::MayDraw { first, second: None } ==> has_id(
            old(state)@.decks[actor as int],
            first,
        ),
    ensures
        final(state).wf(),
        applied == trainer_effect_applied(effect),
        applied ==> trainer_effect_done(old(state)@, final(state)@, actor, *played, effect),
        !applied ==> final(state)@ == old(state)@,
{
    let opp = 1 - actor;
    match effect {
        TrainerEffect::Nothing => true,
        TrainerEffect::Potion => {
            let choices = heal_offers_exec(state, actor, 20, false, None);
            offer(state, actor, choices);
            true
        },
        TrainerEffect::Erika => {
            let choices = heal_offers_exec(state, actor, 50, false, Some(EnergyType::Grass));
            offer(state, actor, choices);
            true
        },
        TrainerEffect::PokemonCenterLady => {
            let choices = heal_offers_exec(state, actor, 30, true, None);
            offer(state, actor, choices);
            true
        },
        TrainerEffect::Cyrus => {
            let choices = activations_exec(state, opp, true);
            push_for(state, actor, choices);
            true
        },
        TrainerEffect::Lana => {
            let choices = activations_exec(state, opp, false);
            push_for(state, actor, choices);
            true
        },
        TrainerEffect::Sabrina | TrainerEffect::Repel => {
            let choices = activations_exec(state, opp, false);
            push_for(state, opp, choices);
            true
        },
        TrainerEffect::Lyra => {
            let choices = activations_exec(state, actor, false);
            push_for(state, actor, choices);
            true
        },
        TrainerEffect::LtSurge => {
            gather_bench_energy(state, actor, Some(EnergyType::Lightning));
            true
        },
        TrainerEffect::MistyAttachWater { heads } => {
            let none: Vec<String> = Vec::new();
            proof {
                assert(none@.map_values(|n: String| n@) =~= Seq::<Seq<char>>::empty());
            }
            let choices = attach_offers_exec(state, actor, 0, heads, EnergyType::Water, Some(EnergyType::Water), &none);
            if choices.len() > 0 {
                push_for(state, actor, choices);
            }
            true
        },
        TrainerEffect::ElectricGeneratorAttach => {
            let none: Vec<String> = Vec::new();
            proof {
                assert(none@.map_values(|n: String| n@) =~= Seq::<Seq<char>>::empty());
            }
            let choices = attach_offers_exec(
                state,
                actor,
                1,
                1,
                EnergyType::Lightning,
                Some(EnergyType::Lightning),
                &none,
            );
            if choices.len() > 0 {
                push_for(state, actor, choices);
            }
            true
        },
        TrainerEffect::Brock => {
            let names = ["Golem", "Onix"];
            let brock = name_list(&names);
            proof {
                assert(names@.map_values(|n: &str| n@) =~= brock_names());
            }
            let choices = attach_offers_exec(state, actor, 0, 1, EnergyType::Fighting, None, &brock);
            if choices.len() > 0 {
                push_for(state, actor, choices);
            }
            true
        },
        TrainerEffect::Kiawe => {
            let names = ["Alolan Marowak", "Turtonator"];
            let kiawe = name_list(&names);
            proof {
                assert(names@.map_values(|n: &str| n@) =~= kiawe_names());
            }
            let choices = attach_offers_exec(state, actor, 0, 2, EnergyType::Fire, None, &kiawe);
            if choices.len() > 0 {
                let mut end: Vec<SimpleAction> = Vec::new();
                end.push(SimpleAction::EndTurn);
                proof {
                    assert(end@ =~= seq![SimpleAction::EndTurn]);
                }
                let ghost s0 = state@;
                push_for(state, actor, end);
                let ghost s1 = state@;
                push_for(state, actor, choices);
                proof {
                    assert(state@.move_generation_stack.drop_last() == s1.move_generation_stack);
                    assert(state@.move_generation_stack[s0.move_generation_stack.len() as int]
                        == s1.move_generation_stack.last());
                    let mid = StateView {
                        move_generation_stack: s0.move_generation_stack.push(
                            (actor, state@.move_generation_stack[s0.move_generation_stack.len() as int].1),
                        ),
                        ..s0
                    };
                    assert(mid.move_generation_stack =~= s1.move_generation_stack);
                    assert(mid == s1);
                }
            }
            true
        },
        TrainerEffect::MasterPlanOpponentConfused => {
            state.apply_status_condition(opp, 0, StatusCondition::Confused);
            true
        },
        TrainerEffect::MasterPlanBothConfused => {
            state.apply_status_condition(opp, 0, StatusCondition::Confused);
            state.apply_status_condition(actor, 0, StatusCondition::Confused);
            true
        },
        TrainerEffect::HittingHammerDiscard => {
            proof {
                assert(state@.board[opp as int] == state.in_play_pokemon@[opp as int]@);
            }
            let n = match &state.in_play_pokemon[opp][0] {
                Some(c) => c.attached_energy.len(),
                None => 0,
            };
            if n > 0 {
                let k = random_below(rng, n);
                take_energy_at(state, opp, 0, k, true);
            }
            true
        },
        TrainerEffect::FisherReturn { heads } => {
            let ghost before = state@;
            let mut i: u32 = 0;
            while i < heads
                invariant
                    i <= heads,
                    state.wf(),
                    actor < 2,
                    water_returns_done(before, state@, actor as int, i as nat),
                decreases heads - i,
            {
                let ghost mid = state@;
                return_random_water(rng, state, actor);
                proof {
                    assert(water_returned(mid, state@, actor as int));
                    assert(water_returns_done(before, state@, actor as int, (i + 1) as nat));
                }
                i = i + 1;
            }
            true
        },
        TrainerEffect::Piers => {
            discard_energy_from_end(state, opp, 2);
            true
        },
        TrainerEffect::BigMalasada => {
            heal_slot(state, actor, 0, 10);
            let conds = active_conditions(state, actor);
            if conds.len() > 0 {
                let k = random_below(rng, conds.len());
                clear_status_slot(state, actor, 0, conds[k]);
            }
            true
        },
        TrainerEffect::Koga => {
            active_to_hand_exec(state, actor);
            trigger_promotion_or_declare_winner(state, actor);
            true
        },
        TrainerEffect::Elesa => {
            let ghost before = state@;
            let mut i: usize = 0;
            while i < 8
                invariant
                    i <= 8,
                    state.wf(),
                    state@ == tools_to_hand_upto(before, i as int),
                decreases 8 - i,
            {
                tool_to_hand(state, i / 4, i % 4);
                i = i + 1;
            }
            true
        },
        TrainerEffect::Guzma => {
            let ghost before = state@;
            let mut i: usize = 0;
            while i < 4
                invariant
                    i <= 4,
                    state.wf(),
                    opp < 2,
                    actor < 2,
                    state@ == tools_discarded_upto(before, opp as int, i as int),
                decreases 4 - i,
            {
                discard_slot_tool(state, opp, i);
                i = i + 1;
            }
            handle_knockouts(state, (actor, 0), false);
            true
        },
        TrainerEffect::TeamRocketGruntDiscard { heads } => {
            let ghost before = state@;
            let mut i: u32 = 0;
            while i < heads
                invariant
                    i <= heads,
                    state.wf(),
                    opp < 2,
                    random_energy_discards(before, state@, opp as int, i as nat),
                decreases heads - i,
            {
                let ghost mid = state@;
                discard_random_energy(rng, state, opp);
                proof {
                    assert(random_energy_discarded(mid, state@, opp as int));
                    assert(random_energy_discards(before, state@, opp as int, (i + 1) as nat));
                }
                i = i + 1;
            }
            true
        },
        TrainerEffect::AttachTool => {
            let choices = tool_attach_choices(state, actor, played);
            push_for(state, actor, choices);
            true
        },
        TrainerEffect::MayShuffle => {
            shuffle_deck(rng, state, actor);
            true
        },
        TrainerEffect::XSpeed => {
            state.turn_effects.push(TurnEffect::ReducedRetreatCost { amount: 1 });
            proof {
                assert(state@.turn_effects =~= old(state)@.turn_effects.push(
                    TurnEffect::ReducedRetreatCost { amount: 1 },
                ));
            }
            true
        },
        TrainerEffect::ProfessorOak => {
            draw_top(state, actor);
            draw_top(state, actor);
            true
        },
        TrainerEffect::Iono => {
            proof {
                assert(state@.hands[actor as int] == state.hands@[actor as int]@);
                assert(state@.hands[opp as int] == state.hands@[opp as int]@);
            }
            let own = state.hands[actor].len();
            let theirs = state.hands[opp].len();
            shuffle_hand_into_deck(rng, state, actor);
            let ghost mid1 = state@;
            shuffle_hand_into_deck(rng, state, opp);
            let ghost mid2 = state@;
            draw_tops(state, actor, own);
            draw_tops(state, opp, theirs);
            proof {
                assert(hand_shuffled_into_deck(old(state)@, mid1, actor as int));
                assert(hand_shuffled_into_deck(mid1, mid2, opp as int));
            }
            true
        },
        TrainerEffect::Mars => {
            proof {
                assert(state@.points[opp as int] == state.points@[opp as int]);
            }
            let n = 3 - state.points[opp];
            shuffle_hand_into_deck(rng, state, opp);
            let ghost mid = state@;
            draw_tops(state, opp, n as usize);
            proof {
                assert(hand_shuffled_into_deck(old(state)@, mid, opp as int));
            }
            true
        },
        TrainerEffect::SquirtBottle => {
            discard_active_energy_of_type(state, opp, EnergyType::Fire);
            true
        },
        TrainerEffect::Whitney => {
            let names = ["Miltank"];
            let miltank = name_list(&names);
            proof {
                assert(names@.map_values(|n: &str| n@) =~= seq!["Miltank"@]);
            }
            let choices = named_heal_offers(state, actor, &miltank, 60, true);
            offer(state, actor, choices);
            true
        },
        TrainerEffect::Marlon => {
            let names = ["Carracosta", "Jellicent"];
            let targets = name_list(&names);
            proof {
                assert(names@.map_values(|n: &str| n@) =~= seq!["Carracosta"@, "Jellicent"@]);
            }
            let choices = named_heal_offers(state, actor, &targets, 70, false);
            offer(state, actor, choices);
            true
        },
        TrainerEffect::Juggler => {
            gather_bench_energy(state, actor, None);
            true
        },
        TrainerEffect::TravelingMerchant => {
            traveling_merchant(rng, state, actor);
            true
        },
        TrainerEffect::Lillie => {
            let slots = stage2_slots(state, actor);
            let mut choices: Vec<SimpleAction> = Vec::new();
            let mut i: usize = 0;
            while i < slots.len()
                invariant
                    i <= slots@.len(),
                    choices@ == slots@.subrange(0, i as int).map_values(
                        |k: usize| SimpleAction::Heal { in_play_idx: k, amount: 60, cure_status: false },
                    ),
                decreases slots@.len() - i,
            {
                choices.push(SimpleAction::Heal { in_play_idx: slots[i], amount: 60, cure_status: false });
                i = i + 1;
                proof {
                    assert(choices@ =~= slots@.subrange(0, i as int).map_values(
                        |k: usize| SimpleAction::Heal { in_play_idx: k, amount: 60, cure_status: false },
                    ));
                }
            }
            proof {
                assert(slots@.subrange(0, slots@.len() as int) =~= slots@);
            }
            offer(state, actor, choices);
            true
        },
        TrainerEffect::Wally => {
            let slots = stage2_slots(state, actor);
            let mut choices: Vec<SimpleAction> = Vec::new();
            let mut i: usize = 0;
            while i < slots.len()
                invariant
                    i <= slots@.len(),
                    choices@.len() == i,
                    forall|k: int| 0 <= k < i ==> #[trigger] attach_choice(choices@[k], 1, EnergyType::Colorless, slots@[k]),
                decreases slots@.len() - i,
            {
                let mut attachments: Vec<(u32, EnergyType, usize)> = Vec::new();
                attachments.push((1, EnergyType::Colorless, slots[i]));
                let ghost before = choices@;
                choices.push(SimpleAction::Attach { attachments, is_turn_energy: false });
                proof {
                    assert(attachments@ =~= seq![(1u32, EnergyType::Colorless, slots@[i as int])]);
                    assert forall|k: int| 0 <= k < i + 1 implies #[trigger] attach_choice(
                        choices@[k],
                        1,
                        EnergyType::Colorless,
                        slots@[k],
                    ) by {
                        if k < i {
                            assert(choices@[k] == before[k]);
                        }
                    }
                }
                i = i + 1;
            }
            if choices.len() > 0 {
                push_for(state, actor, choices);
            }
            true
        },
        TrainerEffect::PrankSpinner => {
            shuffle_random_hand_card_in(rng, state, actor);
            let ghost mid = state@;
            shuffle_random_hand_card_in(rng, state, opp);
            proof {
                assert(hand_card_shuffled_in(old(state)@, mid, actor as int));
            }
            true
        },
        TrainerEffect::Calem => {
            let mine = count_mega(state, 0);
            let theirs = count_mega(state, 1);
            draw_tops(state, actor, mine + theirs);
            true
        },
        TrainerEffect::BuddingExpeditioner => {
            let mut choices: Vec<SimpleAction> = Vec::new();
            choices.push(SimpleAction::ReturnPokemonToHand { in_play_idx: 0 });
            proof {
                assert(choices@ =~= seq![SimpleAction::ReturnPokemonToHand { in_play_idx: 0 }]);
            }
            push_for(state, actor, choices);
            true
        },
        TrainerEffect::Skyla => {
            let choices = activations_exec(state, actor, false);
            offer(state, actor, choices);
            true
        },
        TrainerEffect::Copycat => {
            proof {
                assert(state@.hands[opp as int] == state.hands@[opp as int]@);
            }
            let theirs = state.hands[opp].len();
            shuffle_hand_into_deck(rng, state, actor);
            let ghost mid = state@;
            draw_tops(state, actor, theirs);
            proof {
                assert(hand_shuffled_into_deck(old(state)@, mid, actor as int));
            }
            true
        },
        TrainerEffect::Leaf => {
            add_turn_effect(state, TurnEffect::ReducedRetreatCost { amount: 2 });
            true
        },
        TrainerEffect::Giovanni => {
            add_turn_effect(state, TurnEffect::IncreasedDamage { amount: 10 });
            true
        },
        TrainerEffect::Red => {
            add_turn_effect(state, TurnEffect::IncreasedDamageAgainstEx { amount: 20 });
            true
        },
        TrainerEffect::Iris => {
            add_turn_effect(state, TurnEffect::BonusPointForHaxorusActiveKO);
            true
        },
        TrainerEffect::Korrina => {
            add_turn_effect(
                state,
                TurnEffect::IncreasedDamageForTypeAgainstEx { amount: 30, energy_type: EnergyType::Fighting },
            );
            true
        },
        TrainerEffect::Blaine => {
            let names = ["Ninetales", "Rapidash", "Magmar"];
            let pokemon_names = name_list(&names);
            proof {
                assert(names@.map_values(|n: &str| n@) =~= seq!["Ninetales"@, "Rapidash"@, "Magmar"@]);
            }
            add_turn_effect(state, TurnEffect::IncreasedDamageForSpecificPokemon { amount: 30, pokemon_names });
            true
        },
        TrainerEffect::ClemontsBackpack => {
            let names = ["Magneton", "Heliolisk"];
            let pokemon_names = name_list(&names);
            proof {
                assert(names@.map_values(|n: &str| n@) =~= seq!["Magneton"@, "Heliolisk"@]);
            }
            add_turn_effect(state, TurnEffect::IncreasedDamageForSpecificPokemon { amount: 20, pokemon_names });
            true
        },
        TrainerEffect::Barry => {
            let names = ["Snorlax", "Heracross", "Staraptor"];
            let pokemon_names = name_list(&names);
            proof {
                assert(names@.map_values(|n: &str| n@) =~= seq!["Snorlax"@, "Heracross"@, "Staraptor"@]);
            }
            add_turn_effect(state, TurnEffect::ReducedAttackCostForSpecificPokemon { amount: 2, pokemon_names });
            true
        },
        TrainerEffect::Nemona => {
            let names = ["Pawmot"];
            let pokemon_names = name_list(&names);
            proof {
                assert(names@.map_values(|n: &str| n@) =~= seq!["Pawmot"@]);
            }
            add_turn_effect(state, TurnEffect::IncreasedDamageForSpecificPokemonAgainstEx { amount: 80, pokemon_names });
            true
        },
        TrainerEffect::Cynthia => {
            let names = ["Garchomp", "Togekiss"];
            let pokemon_names = name_list(&names);
            proof {
                assert(names@.map_values(|n: &str| n@) =~= seq!["Garchomp"@, "Togekiss"@]);
            }
            add_turn_effect(state, TurnEffect::IncreasedDamageForSpecificPokemon { amount: 50, pokemon_names });
            true
        },
        TrainerEffect::Hau => {
            let names = ["Decidueye ex", "Incineroar ex", "Primarina ex"];
            let pokemon_names = name_list(&names);
            proof {
                assert(names@.map_values(|n: &str| n@) =~= seq!["Decidueye ex"@, "Incineroar ex"@, "Primarina ex"@]);
            }
            add_turn_effect(state, TurnEffect::IncreasedDamageForSpecificPokemon { amount: 30, pokemon_names });
            true
        },
        TrainerEffect::Sophocles => {
            let names = ["Alolan Golem", "Vikavolt", "Togedemaru"];
            let pokemon_names = name_list(&names);
            proof {
                assert(names@.map_values(|n: &str| n@) =~= seq!["Alolan Golem"@, "Vikavolt"@, "Togedemaru"@]);
            }
            add_turn_effect(state, TurnEffect::IncreasedDamageForSpecificPokemon { amount: 30, pokemon_names });
            true
        },
        TrainerEffect::Drayden => {
            let attack_name = "Draco Meteor".to_owned();
            add_turn_effect(state, TurnEffect::ExtraRandomSpreadHits { amount: 1, attack_name });
            true
        },
        TrainerEffect::MythicalSlab => {
            look_at_slab(state, actor);
            true
        },
        TrainerEffect::RedCard => {
            shuffle_hand_into_deck(rng, state, opp);
            let ghost mid = state@;
            draw_top(state, opp);
            draw_top(state, opp);
            draw_top(state, opp);
            proof {
                assert(hand_shuffled_into_deck(old(state)@, mid, opp as int));
            }
            true
        },
        TrainerEffect::TakeFromDiscard { from_opponent, card } => {
            let owner = if from_opponent {
                opp
            } else {
                actor
            };
            take_from_discard_by_id(state, owner, actor, card);
            true
        },
        TrainerEffect::MayDraw { first, second } => {
            let ghost before = state@;
            draw_by_id(state, actor, first);
            match second {
                None => {
                    let ghost mid = state@;
                    proof {
                        assert(state@.hands[actor as int] == state.hands@[actor as int]@);
                    }
                    let last = state.hands[actor].len() - 1;
                    let mut one: Vec<Card> = Vec::new();
                    one.push(copy_card(&state.hands[actor][last]));
                    proof {
                        assert(one@.map_values(|c: Card| c.id_spec()) =~= seq![first]);
                    }
                    let a = shuffle_back_of(one);
                    let mut choices: Vec<SimpleAction> = Vec::new();
                    choices.push(a);
                    push_for(state, actor, choices);
                    proof {
                        assert(drawn_by_id(before, mid, actor as int, first));
                    }
                },
                Some(next) => {
                    let ghost mid1 = state@;
                    draw_by_id(state, actor, next);
                    let ghost mid2 = state@;
                    let choices = pair_shuffle_backs(state, actor);
                    push_for(state, actor, choices);
                    proof {
                        assert(drawn_by_id(mid1, mid2, actor as int, next));
                        assert(drawn_by_id(before, mid1, actor as int, first));
                    }
                },
            }
            true
        },
        _ => false,
    }
}

/// Pushes `choices` for `player`.
pub(crate) fn push_for(state: &mut State, player: usize, choices: Vec<SimpleAction>)
    requires
        old(state).wf(),
    ensures
        final(state).wf(),
        pushed(old(state)@, final(state)@, player),
        top_choices(final(state)@) == choices@,
{
    state.move_generation_stack.push((player, choices));
    proof {
        assert(state@.move_generation_stack.drop_last() =~= old(state)@.move_generation_stack);
        assert(StateView { move_generation_stack: old(state)@.move_generation_stack, ..state@ }
            == old(state)@);
    }
}

/// Pushes `choices` for `player` when there are some.
fn offer(state: &mut State, player: usize, choices: Vec<SimpleAction>)
    requires
        old(state).wf(),
    ensures
        final(state).wf(),
        offered(old(state)@, final(state)@, player, choices@),
{
    if choices.len() > 0 {
        push_for(state, player, choices);
    }
}

/// `after` is `before` with one more effect for the rest of the turn, and nothing else changed:
/// the attacks of the Pokémon named `names` do `amount` more damage.
pub open spec fn boosted_for_turn(before: StateView, after: StateView, amount: u32, names: Seq<Seq<char>>) -> bool {
    &&& after.turn_effects.len() == before.turn_effects.len() + 1
    &&& after.turn_effects.drop_last() == before.turn_effects
    &&& StateView { turn_effects: before.turn_effects, ..after } == before
    &&& after.turn_effects.last() matches TurnEffect::IncreasedDamageForSpecificPokemon { amount: a, pokemon_names }
        && a == amount && pokemon_names@.map_values(|n: String| n@) == names
}

/// Playing a Supporter that powers up named Pokémon has one sure outcome, and that outcome
/// gives the attacks of exactly those Pokémon the card's extra damage for the rest of the turn:
/// Cynthia +50 for Garchomp and Togekiss, Blaine +30 for Ninetales, Rapidash and Magmar, Hau
/// +30 for Decidueye ex, Incineroar ex and Primarina ex, Sophocles +30 for Alolan Golem,
/// Vikavolt and Togedemaru, Clemont's Backpack +20 for Magneton and Heliolisk.
pub proof fn lemma_boosting_trainers(
    actor: usize,
    s: StateView,
    card: TrainerCard,
    before: StateView,
    after: StateView,
)
    requires
        actor < 2,
        card.trainer_card_type != TrainerType::Tool,
        card.trainer_card_type != TrainerType::Stadium,
    ensures
        ({
            let v = trainer_forecast_view(actor, s, card);
            let done = v.1.len() == 1 && trainer_effect_done(before, after, actor, card, v.1[0].1);
            &&& (card.id == CardId::A2152Cynthia || card.id == CardId::A2192Cynthia) ==> {
                &&& v.0 == 1 && v.1.len() == 1 && v.1[0].0 == 1
                &&& done ==> boosted_for_turn(before, after, 50, seq!["Garchomp"@, "Togekiss"@])
            }
            &&& (card.id == CardId::A1221Blaine || card.id == CardId::A1268Blaine) ==> {
                &&& v.0 == 1 && v.1.len() == 1 && v.1[0].0 == 1
                &&& done ==> boosted_for_turn(before, after, 30, seq!["Ninetales"@, "Rapidash"@, "Magmar"@])
            }
            &&& (card.id == CardId::A3b068Hau || card.id == CardId::A3b085Hau) ==> {
                &&& v.0 == 1 && v.1.len() == 1 && v.1[0].0 == 1
                &&& done ==> boosted_for_turn(
                    before,
                    after,
                    30,
                    seq!["Decidueye ex"@, "Incineroar ex"@, "Primarina ex"@],
                )
            }
            &&& (card.id == CardId::A3153Sophocles || card.id == CardId::A3195Sophocles) ==> {
                &&& v.0 == 1 && v.1.len() == 1 && v.1[0].0 == 1
                &&& done ==> boosted_for_turn(
                    before,
                    after,
                    30,
                    seq!["Alolan Golem"@, "Vikavolt"@, "Togedemaru"@],
                )
            }
            &&& card.id == CardId::B1a066ClemontsBackpack ==> {
                &&& v.0 == 1 && v.1.len() == 1 && v.1[0].0 == 1
                &&& done ==> boosted_for_turn(before, after, 20, seq!["Magneton"@, "Heliolisk"@])
            }
        }),
{
}

/// The only Trainer cards that are played to no effect are those that just let a player look at
/// something: Rotom Dex, Looker, Hiker, Morty, Hand Scope and Pokédex.
pub proof fn lemma_only_looking_cards_do_nothing(id: CardId)
    ensures
        fixed_trainer_effect(id) == Some(TrainerEffect::Nothing) ==> (id == CardId::A3145RotomDEx || id
            == CardId::A3a068Looker || id == CardId::A3a082Looker || id == CardId::A4161Hiker || id
            == CardId::A4201Hiker || id == CardId::A4a071Morty || id == CardId::A4a085Morty || id
            == CardId::PA003HandScope || id == CardId::PA004PokedEx || id == CardId::PA008PokedEx),
{
}

/// Playing a card whose whole effect is one rule for the rest of the turn has one sure outcome,
/// which adds exactly that rule and changes nothing else: X Speed and Leaf make retreating cost
/// 1 and 2 less Energy, Giovanni gives every attack 10 more damage, Red 20 more against
/// Pokémon ex.
pub proof fn lemma_turn_rule_trainers(
    actor: usize,
    s: StateView,
    card: TrainerCard,
    before: StateView,
    after: StateView,
)
    requires
        actor < 2,
        card.trainer_card_type != TrainerType::Tool,
        card.trainer_card_type != TrainerType::Stadium,
    ensures
        ({
            let v = trainer_forecast_view(actor, s, card);
            let done = v.1.len() == 1 && trainer_effect_done(before, after, actor, card, v.1[0].1);
            let adds = |e: TurnEffect| after == (StateView { turn_effects: before.turn_effects.push(e), ..before });
            &&& card.id == CardId::PA002XSpeed ==> {
                &&& v.0 == 1 && v.1.len() == 1 && v.1[0].0 == 1
                &&& done ==> adds(TurnEffect::ReducedRetreatCost { amount: 1 })
            }
            &&& (card.id == CardId::A1a068Leaf || card.id == CardId::A1a082Leaf || card.id == CardId::A4b346Leaf
                || card.id == CardId::A4b347Leaf) ==> {
                &&& v.0 == 1 && v.1.len() == 1 && v.1[0].0 == 1
                &&& done ==> adds(TurnEffect::ReducedRetreatCost { amount: 2 })
            }
            &&& (card.id == CardId::A1223Giovanni || card.id == CardId::A1270Giovanni || card.id
                == CardId::A4b334Giovanni || card.id == CardId::A4b335Giovanni) ==> {
                &&& v.0 == 1 && v.1.len() == 1 && v.1[0].0 == 1
                &&& done ==> adds(TurnEffect::IncreasedDamage { amount: 10 })
            }
            &&& (card.id == CardId::A2b071Red || card.id == CardId::A2b090Red || card.id == CardId::A4b352Red
                || card.id == CardId::A4b353Red) ==> {
                &&& v.0 == 1 && v.1.len() == 1 && v.1[0].0 == 1
                &&& done ==> adds(TurnEffect::IncreasedDamageAgainstEx { amount: 20 })
            }
        }),
{
}

} // verus!

