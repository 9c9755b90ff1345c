use rand::rngs::StdRng;
use vstd::prelude::*;

use crate::apply_action_helpers::two_pow;
use crate::card_ids::CardId;
use crate::models::{Card, TrainerType};
use crate::outcomes::{binomial, outcomes_view, Outcomes};
use crate::apply_attack_action::{pushed, top_choices};
use crate::apply_trainer_action::{ids_where, pile_ids, CardFilter};
use crate::state::{SimpleAction, State, StateView};
use crate::trainer_effects::{
    copy_card, deck_shuffled, draw_by_id, drawn_by_id, hand_to_deck_by_id, push_for, put_back_by_id,
    shuffle_deck,
};

verus! {

/// What using the Stadium in play does once it resolves, as plain data. Every effect also marks
/// the Stadium as used by the player this turn.
#[derive(Clone, Copy, Debug, PartialEq, Eq, Structural)]
pub enum StadiumEffect {
    /// No Stadium that can be used: nothing happens.
    Nothing,
    /// Rainbow Cave: the Energy generated in the Energy Zone is discarded and the next one is
    /// produced.
    RainbowCaveRotate,
    /// Area Zero: the player may shuffle a Basic Pokémon from the hand into the deck, then draws.
    AreaZeroChoose,
    /// Mesagoza, heads: a random Pokémon from the deck goes to the hand.
    MesagozaSearch,
    /// Mesagoza, tails: nothing else happens.
    MesagozaTails,
    /// Fragrant Forest: a random Basic [G] Pokémon from the deck goes to the hand.
    FragrantForestSearch,
    /// Kid's Room: the player may switch a card of the hand with a random Pokémon Tool card of
    /// the deck.
    KidsRoomChoose,
    /// Arcade, `heads` heads out of 3 coins: on 3 heads the player draws up to 7 cards in hand.
    ArcadeCoins { heads: u32 },
    /// Kid's Room, once a card was chosen: the hand card goes into the deck, the Pokémon Tool
    /// `tool` from the deck comes to the hand, and the deck is shuffled.
    SwitchForTool { hand_card: CardId, tool: CardId },
    /// The deck is shuffled.
    ShuffleDeck,
}

/// Whether the Stadium in play is the one with this name.
pub open spec fn stadium_named(s: StateView, name: Seq<char>) -> bool {
    s.active_stadium matches Some(t) && t.name@ == name
}

/// Whether the Stadium in play is the one with this name.
fn stadium_named_exec(state: &State, name: &str) -> (r: bool)
    ensures
        r == stadium_named(state@, name@),
{
    match &state.active_stadium {
        Some(t) => t.name == name.to_owned(),
        None => false,
    }
}

/// One sure result, as plain values.
pub open spec fn single_stadium_view(e: StadiumEffect) -> (int, Seq<(int, StadiumEffect)>) {
    (1, seq![(1int, e)])
}

/// What using the Stadium in play can lead to, checked in this order: Mesagoza (a coin; heads
/// searches the deck for a Pokémon), Fragrant Forest, Area Zero, Kid's Room, Rainbow Cave,
/// Arcade (3 coins); nothing for another Stadium or none.
pub open spec fn use_stadium_view(s: StateView) -> (int, Seq<(int, StadiumEffect)>) {
    if stadium_named(s, "Mesagoza"@) {
        (2, seq![(1int, StadiumEffect::MesagozaSearch), (1int, StadiumEffect::MesagozaTails)])
    } else if stadium_named(s, "Fragrant Forest"@) {
        single_stadium_view(StadiumEffect::FragrantForestSearch)
    } else if stadium_named(s, "Area Zero"@) {
        single_stadium_view(StadiumEffect::AreaZeroChoose)
    } else if stadium_named(s, "Kid's Room"@) {
        single_stadium_view(StadiumEffect::KidsRoomChoose)
    } else if stadium_named(s, "Rainbow Cave"@) {
        single_stadium_view(StadiumEffect::RainbowCaveRotate)
    } else if stadium_named(s, "Arcade"@) {
        (
            two_pow(3) as int,
            Seq::new(
                4,
                |h: int| (binomial(3, h as nat) as int, StadiumEffect::ArcadeCoins { heads: h as u32 }),
            ),
        )
    } else {
        single_stadium_view(StadiumEffect::Nothing)
    }
}

/// One sure result.
fn single_stadium(e: StadiumEffect) -> (r: Outcomes<StadiumEffect>)
    ensures
        r.is_distribution(),
        outcomes_view(r) == single_stadium_view(e),
{
    let r = Outcomes::single(e);
    proof {
        assert(outcomes_view(r).1 =~= seq![(1int, e)]);
    }
    r
}

/// Using the Stadium in play.
pub fn forecast_use_stadium(state: &State, acting_player: usize) -> (r: Outcomes<StadiumEffect>)
    ensures
        r.is_distribution(),
        outcomes_view(r) == use_stadium_view(state@),
{
    if stadium_named_exec(state, "Mesagoza") {
        return forecast_mesagoza_effect();
    }
    if stadium_named_exec(state, "Fragrant Forest") {
        return single_stadium(StadiumEffect::FragrantForestSearch);
    }
    if stadium_named_exec(state, "Area Zero") {
        return single_stadium(StadiumEffect::AreaZeroChoose);
    }
    if stadium_named_exec(state, "Kid's Room") {
        return single_stadium(StadiumEffect::KidsRoomChoose);
    }
    if stadium_named_exec(state, "Rainbow Cave") {
        return single_stadium(StadiumEffect::RainbowCaveRotate);
    }
    if stadium_named_exec(state, "Arcade") {
        return forecast_arcade_effect();
    }
    single_stadium(StadiumEffect::Nothing)
}

/// Mesagoza: a coin; heads searches the deck for a random Pokémon.
fn forecast_mesagoza_effect() -> (r: Outcomes<StadiumEffect>)
    ensures
        r.is_distribution(),
        outcomes_view(r) == (
            2int,
            seq![(1int, StadiumEffect::MesagozaSearch), (1int, StadiumEffect::MesagozaTails)],
        ),
{
    let r = Outcomes::binary_coin(StadiumEffect::MesagozaSearch, StadiumEffect::MesagozaTails);
    proof {
        assert(outcomes_view(r).1 =~= seq![
            (1int, StadiumEffect::MesagozaSearch),
            (1int, StadiumEffect::MesagozaTails),
        ]);
    }
    r
}

/// Arcade: 3 coins, the result depending on the number of heads.
fn forecast_arcade_effect() -> (r: Outcomes<StadiumEffect>)
    ensures
        r.is_distribution(),
        outcomes_view(r) == (
            two_pow(3) as int,
            Seq::new(
                4,
                |h: int| (binomial(3, h as nat) as int, StadiumEffect::ArcadeCoins { heads: h as u32 }),
            ),
        ),
{
    let mut per_heads: Vec<StadiumEffect> = Vec::new();
    let mut h: u32 = 0;
    while h <= 3
        invariant
            h <= 4,
            per_heads@.len() == h,
            forall|k: int| 0 <= k < h ==> #[trigger] per_heads@[k] == (StadiumEffect::ArcadeCoins { heads: k as u32 }),
        decreases 4 - h,
    {
        per_heads.push(StadiumEffect::ArcadeCoins { heads: h });
        h = h + 1;
    }
    let r = Outcomes::binomial_by_heads(3, per_heads);
    proof {
        assert(outcomes_view(r).1 =~= Seq::new(
            4,
            |h: int| (binomial(3, h as nat) as int, StadiumEffect::ArcadeCoins { heads: h as u32 }),
        ));
    }
    r
}

/// Whether the card is a Pokémon Tool.
pub open spec fn is_tool_card(c: Card) -> bool {
    c matches Card::Trainer(t) && t.trainer_card_type == TrainerType::Tool
}

/// The identifiers of the first `n` cards of `cards` that are Pokémon Tools, in order.
pub open spec fn tool_ids_upto(cards: Seq<Card>, n: int) -> Seq<CardId>
    decreases n,
{
    if n <= 0 {
        Seq::empty()
    } else {
        let prev = tool_ids_upto(cards, n - 1);
        if is_tool_card(cards[n - 1]) {
            prev.push(cards[n - 1].id_spec())
        } else {
            prev
        }
    }
}

/// Kid's Room, once the hand card is chosen: one equally likely branch per Pokémon Tool of the
/// deck, switching it with the hand card; a plain shuffle when the deck has none.
pub open spec fn switch_for_tool_view(s: StateView, player: int, hand_card: CardId) -> (
    int,
    Seq<(int, StadiumEffect)>,
) {
    let tools = tool_ids_upto(s.decks[player], s.decks[player].len() as int);
    if tools.len() == 0 {
        single_stadium_view(StadiumEffect::ShuffleDeck)
    } else {
        (
            tools.len() as int,
            tools.map_values(
                |t: CardId| (1int, StadiumEffect::SwitchForTool { hand_card, tool: t }),
            ),
        )
    }
}

/// Kid's Room, once `hand_card` is chosen: the switch with a random Pokémon Tool of the deck.
pub fn forecast_switch_hand_card_for_random_tool(
    state: &State,
    acting_player: usize,
    hand_card: &Card,
) -> (r: Outcomes<StadiumEffect>)
    requires
        state.wf(),
        acting_player < 2,
    ensures
        r.is_distribution(),
        outcomes_view(r) == switch_for_tool_view(state@, acting_player as int, hand_card.id_spec()),
{
    let deck = &state.decks[acting_player];
    proof {
        assert(state@.decks[acting_player as int] == deck@);
    }
    let hand_id = hand_card.id();
    let mut effects: Vec<StadiumEffect> = Vec::new();
    let mut i: usize = 0;
    while i < deck.len()
        invariant
            i <= deck@.len(),
            effects@ == tool_ids_upto(deck@, i as int).map_values(
                |t: CardId| StadiumEffect::SwitchForTool { hand_card: hand_id, tool: t },
            ),
        decreases deck@.len() - i,
    {
        let is_tool = match &deck[i] {
            Card::Trainer(t) => t.trainer_card_type == TrainerType::Tool,
            Card::Pokemon(_) => false,
        };
        if is_tool {
            effects.push(StadiumEffect::SwitchForTool { hand_card: hand_id, tool: deck[i].id() });
        }
        i = i + 1;
        proof {
            assert(effects@ =~= tool_ids_upto(deck@, i as int).map_values(
                |t: CardId| StadiumEffect::SwitchForTool { hand_card: hand_id, tool: t },
            ));
        }
    }
    if effects.len() == 0 {
        return single_stadium(StadiumEffect::ShuffleDeck);
    }
    let ghost es = effects@;
    let n = effects.len();
    assert(n <= u64::MAX);
    let r = Outcomes::from_uniform(effects);
    proof {
        assert(outcomes_view(r).1 =~= switch_for_tool_view(
            state@,
            acting_player as int,
            hand_card.id_spec(),
        ).1);
    }
    r
}

/// The game once `player` marked the Stadium as used this turn.
pub open spec fn marked_used(s: StateView, player: int) -> StateView {
    StateView { has_used_stadium: s.has_used_stadium.update(player, true), ..s }
}

/// The game once `player` drew from the top of the deck until the hand holds `n` cards or the
/// deck is empty.
pub open spec fn drawn_up_to(s: StateView, player: int, n: nat) -> StateView {
    let hand = s.hands[player];
    let deck = s.decks[player];
    let want = if hand.len() < n {
        (n - hand.len()) as int
    } else {
        0
    };
    let k = if want < deck.len() {
        want
    } else {
        deck.len() as int
    };
    StateView {
        hands: s.hands.update(player, hand + deck.take(k)),
        decks: s.decks.update(player, deck.skip(k)),
        ..s
    }
}

/// The Stadium effects that this library applies.
pub open spec fn stadium_effect_applied(e: StadiumEffect) -> bool {
    matches!(e, StadiumEffect::Nothing | StadiumEffect::MesagozaTails | StadiumEffect::ArcadeCoins { .. } | StadiumEffect::KidsRoomChoose | StadiumEffect::AreaZeroChoose | StadiumEffect::ShuffleDeck | StadiumEffect::SwitchForTool { .. })
}

/// What a Stadium effect used by `actor` does (for the effects this library applies): the
/// Stadium is marked as used, and Arcade with 3 heads draws up to 7 cards in hand.
pub open spec fn stadium_effect_done(before: StateView, after: StateView, actor: usize, e: StadiumEffect) -> bool {
    match e {
        StadiumEffect::MesagozaTails => after == marked_used(before, actor as int),
        StadiumEffect::ArcadeCoins { heads } => after == if heads == 3 {
            drawn_up_to(marked_used(before, actor as int), actor as int, 7)
        } else {
            marked_used(before, actor as int)
        },
        StadiumEffect::ShuffleDeck => deck_shuffled(before, after, actor as int),
        StadiumEffect::SwitchForTool { hand_card, tool } => exists|mid1: StateView, mid2: StateView|
            hand_to_deck_by_id(before, mid1, actor as int, hand_card) && #[trigger] drawn_by_id(
                mid1,
                mid2,
                actor as int,
                tool,
            ) && deck_shuffled(mid2, after, actor as int),
        StadiumEffect::KidsRoomChoose => {
            let m = marked_used(before, actor as int);
            let hand = before.hands[actor as int];
            if hand.len() == 0 {
                after == m
            } else {
                pushed(m, after, actor) && tool_switches_offered(top_choices(after), hand)
            }
        },
        StadiumEffect::AreaZeroChoose => {
            let m = marked_used(before, actor as int);
            let basics = pile_ids(before.hands[actor as int], CardFilter::Basic);
            if basics.len() == 0 {
                after == m
            } else {
                pushed(m, after, actor) && basic_shuffles_offered(top_choices(after), basics)
            }
        },
        _ => after == before,
    }
}

/// One choice for each card of the hand, in order, to switch it for a random Pokémon Tool card
/// of the deck.
pub open spec fn tool_switches_offered(choices: Seq<SimpleAction>, hand: Seq<Card>) -> bool {
    &&& choices.len() == hand.len()
    &&& forall|x: int|
        0 <= x < choices.len() ==> (#[trigger] choices[x] matches SimpleAction::SwitchHandCardForRandomTool {
            hand_card,
        } && hand_card.id_spec() == hand[x].id_spec())
}

/// One choice for each Basic Pokémon card of the hand, in order, to shuffle it into the deck.
pub open spec fn basic_shuffles_offered(choices: Seq<SimpleAction>, ids: Seq<CardId>) -> bool {
    &&& choices.len() == ids.len()
    &&& forall|x: int|
        0 <= x < choices.len() ==> (#[trigger] choices[x] matches SimpleAction::ShuffleOwnCardsIntoDeck {
            cards,
        } && cards@.map_values(|c: Card| c.id_spec()) == seq![ids[x]])
}

/// Kid's Room's choices: each card of `player`'s hand may be switched for a Pokémon Tool.
fn tool_switch_choices(state: &State, player: usize) -> (r: Vec<SimpleAction>)
    requires
        state.wf(),
        player < 2,
    ensures
        tool_switches_offered(r@, state@.hands[player as int]),
{
    proof {
        assert(state@.hands[player as int] == state.hands@[player as int]@);
    }
    let hand = &state.hands[player];
    let mut r: Vec<SimpleAction> = Vec::new();
    let mut i: usize = 0;
    while i < hand.len()
        invariant
            i <= hand@.len(),
            r@.len() == i,
            forall|x: int|
                0 <= x < i ==> (#[trigger] r@[x] matches SimpleAction::SwitchHandCardForRandomTool {
                    hand_card,
                } && hand_card.id_spec() == hand@[x].id_spec()),
        decreases hand@.len() - i,
    {
        r.push(SimpleAction::SwitchHandCardForRandomTool { hand_card: copy_card(&hand[i]) });
        i = i + 1;
    }
    r
}

/// Area Zero's choices: each Basic Pokémon card of `player`'s hand may be shuffled into the deck.
fn basic_shuffle_choices(state: &State, player: usize) -> (r: Vec<SimpleAction>)
    requires
        state.wf(),
        player < 2,
    ensures
        basic_shuffles_offered(r@, pile_ids(state@.hands[player as int], CardFilter::Basic)),
{
    proof {
        assert(state@.hands[player as int] == state.hands@[player as int]@);
    }
    let hand = &state.hands[player];
    let mut r: Vec<SimpleAction> = Vec::new();
    let mut i: usize = 0;
    while i < hand.len()
        invariant
            i <= hand@.len(),
            basic_shuffles_offered(r@, ids_where(hand@, CardFilter::Basic, i as int)),
        decreases hand@.len() - i,
    {
        if hand[i].is_basic() {
            let ghost before = r@;
            let mut one: Vec<Card> = Vec::new();
            one.push(copy_card(&hand[i]));
            proof {
                assert(one@.map_values(|c: Card| c.id_spec()) =~= seq![hand@[i as int].id_spec()]);
            }
            r.push(SimpleAction::ShuffleOwnCardsIntoDeck { cards: one });
            proof {
                let ids = ids_where(hand@, CardFilter::Basic, i as int + 1);
                assert forall|x: int| 0 <= x < r@.len() implies (#[trigger] r@[x] matches SimpleAction::ShuffleOwnCardsIntoDeck {
                    cards,
                } && cards@.map_values(|c: Card| c.id_spec()) == seq![ids[x]]) by {
                    if x < before.len() {
                        assert(r@[x] == before[x]);
                    }
                }
            }
        }
        i = i + 1;
    }
    r
}

/// Draws from the top of `player`'s deck until the hand holds `n` cards or the deck is empty.
fn draw_up_to(state: &mut State, player: usize, n: usize)
    requires
        old(state).wf(),
        player < 2,
    ensures
        final(state).wf(),
        final(state)@ == drawn_up_to(old(state)@, player as int, n as nat),
{
    let ghost s0 = state@;
    let ghost h0 = state.hands@[player as int]@;
    let ghost d0 = state.decks@[player as int]@;
    let mut i: usize = 0;
    while state.hands[player].len() < n && state.decks[player].len() > 0
        invariant
            state.wf(),
            player < 2,
            i <= d0.len(),
            h0.len() + i <= (if h0.len() < n {
                n as int
            } else {
                h0.len() as int
            }),
            state.hands@[player as int]@ == h0 + d0.take(i as int),
            state.decks@[player as int]@ == d0.skip(i as int),
            forall|q: int| 0 <= q < 2 && q != player ==> state.hands@[q] == old(state).hands@[q],
            forall|q: int| 0 <= q < 2 && q != player ==> state.decks@[q] == old(state).decks@[q],
            state@ == (StateView { hands: state@.hands, decks: state@.decks, ..s0 }),
            s0 == old(state)@,
            h0 == old(state)@.hands[player as int],
            d0 == old(state)@.decks[player as int],
        decreases d0.len() - i,
    {
        let c = state.decks[player].remove(0);
        state.hands[player].push(c);
        i = i + 1;
        proof {
            assert(state.hands@[player as int]@ =~= h0 + d0.take(i as int));
            assert(state.decks@[player as int]@ =~= d0.skip(i as int));
        }
    }
    proof {
        let e = drawn_up_to(s0, player as int, n as nat);
        assert(state@.hands =~~= e.hands);
        assert(state@.decks =~~= e.decks);
    }
}

/// Applies a Stadium effect used by `actor`, when it is one this library applies (`applied`);
/// otherwise nothing changes.
pub fn apply_stadium_effect(rng: &mut StdRng, state: &mut State, actor: usize, effect: StadiumEffect) -> (applied: bool)
    requires
        old(state).wf(),
        actor < 2,
    ensures
        final(state).wf(),
        applied == stadium_effect_applied(effect),
        stadium_effect_done(old(state)@, final(state)@, actor, effect),
{
    match effect {
        StadiumEffect::Nothing => true,
        StadiumEffect::MesagozaTails => {
            state.has_used_stadium.set(actor, true);
            true
        },
        StadiumEffect::ArcadeCoins { heads } => {
            state.has_used_stadium.set(actor, true);
            if heads == 3 {
                draw_up_to(state, actor, 7);
            }
            true
        },
        StadiumEffect::ShuffleDeck => {
            shuffle_deck(rng, state, actor);
            true
        },
        StadiumEffect::SwitchForTool { hand_card, tool } => {
            put_back_by_id(state, actor, hand_card);
            let ghost mid1 = state@;
            draw_by_id(state, actor, tool);
            let ghost mid2 = state@;
            shuffle_deck(rng, state, actor);
            proof {
                assert(drawn_by_id(mid1, mid2, actor as int, tool));
            }
            true
        },
        StadiumEffect::KidsRoomChoose => {
            let choices = tool_switch_choices(state, actor);
            state.has_used_stadium.set(actor, true);
            if choices.len() > 0 {
                push_for(state, actor, choices);
            }
            true
        },
        StadiumEffect::AreaZeroChoose => {
            let choices = basic_shuffle_choices(state, actor);
            state.has_used_stadium.set(actor, true);
            if choices.len() > 0 {
                push_for(state, actor, choices);
            }
            true
        },
        _ => false,
    }
}

} // verus!
