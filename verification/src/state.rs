use vstd::prelude::*;

use crate::models::{
    Attack, Card, EnergyType, GameOutcome, PlayedCard, StatusCondition, TrainerCard, TurnEffect,
};

verus! {

/// Number of slots per player: the Active Spot (index 0) and three Bench slots.
pub const IN_PLAY_SLOTS: usize = 4;

/// A move offered to a player: what a choice on the move-generation stack resolves to.
#[derive(Clone, Debug, PartialEq)]
pub enum SimpleAction {
    Activate { player: usize, in_play_idx: usize },
    ApplyDamage {
        attacking_player: usize,
        attacking_idx: usize,
        targets: Vec<(u32, usize, usize)>,
        is_from_active_attack: bool,
    },
    ApplyStatusToOpponentActive { condition: StatusCondition },
    Attach { attachments: Vec<(u32, EnergyType, usize)>, is_turn_energy: bool },
    AttachTool { in_play_idx: usize, tool_card: TrainerCard },
    Attack(Attack),
    DiscardOwnCards { cards: Vec<Card> },
    DrawCard { amount: u8 },
    EndTurn,
    Heal { in_play_idx: usize, amount: u32, cure_status: bool },
    MoveEnergy { from_in_play_idx: usize, to_in_play_idx: usize, energy_type: EnergyType, amount: u32 },
    MoveEnergiesFromActive { to_in_play_idx: usize, energies: Vec<EnergyType> },
    Noop,
    Play { trainer_card: TrainerCard },
    ReturnPokemonToHand { in_play_idx: usize },
    ShuffleInPlayPokemonIntoDeck { in_play_idx: usize },
    ShuffleOwnCardsIntoDeck { cards: Vec<Card> },
    ShufflePokemonIntoDeck { hand_pokemon: Vec<Card> },
    SwitchHandCardForRandomTool { hand_card: Card },
    UseAbility { in_play_idx: usize },
}

/// A move taken by a player.
#[derive(Clone, Debug, PartialEq)]
pub struct Action {
    pub actor: usize,
    pub action: SimpleAction,
    pub is_stack: bool,
}

/// The whole game: both boards, hands, decks, discard piles, points, and pending choices.
#[derive(Clone, Debug)]
pub struct State {
    /// `in_play_pokemon[player][slot]`: slot 0 is the Active Spot, 1..=3 the Bench.
    pub in_play_pokemon: Vec<Vec<Option<PlayedCard>>>,
    pub hands: Vec<Vec<Card>>,
    /// The top of a deck is its first card.
    pub decks: Vec<Vec<Card>>,
    pub discard_piles: Vec<Vec<Card>>,
    pub discard_energies: Vec<Vec<EnergyType>>,
    pub points: Vec<u32>,
    pub points_gained_this_turn: Vec<u32>,
    pub points_gained_last_turn: Vec<u32>,
    pub winner: Option<GameOutcome>,
    pub current_player: usize,
    pub turn_count: u32,
    /// Pending decisions, each for the given player; the last entry is resolved first.
    pub move_generation_stack: Vec<(usize, Vec<SimpleAction>)>,
    /// Effects that apply during the current turn.
    pub turn_effects: Vec<TurnEffect>,
    pub knocked_out_by_opponent_attack_this_turn: bool,
    pub knocked_out_by_opponent_attack_last_turn: bool,
    pub knocked_out_types_this_turn: Vec<Option<EnergyType>>,
    pub knocked_out_types_last_turn: Vec<Option<EnergyType>>,
    pub has_used_stadium: Vec<bool>,
    pub active_stadium: Option<TrainerCard>,
    /// The player who put the Stadium in play.
    pub active_stadium_owner: Option<usize>,
    pub has_played_support: bool,
    pub end_turn_pending: bool,
}

/// The players' in-play indices that hold a Pokémon, in increasing order, starting at `from`.
pub open spec fn occupied_from(side: Seq<Option<PlayedCard>>, from: int) -> Seq<usize>
    decreases side.len() - from,
{
    if from >= side.len() || from < 0 {
        Seq::empty()
    } else if side[from] is Some {
        seq![from as usize] + occupied_from(side, from + 1)
    } else {
        occupied_from(side, from + 1)
    }
}

/// The mathematical content of a `State`: every collection as a sequence.
pub struct StateView {
    pub board: Seq<Seq<Option<PlayedCard>>>,
    pub hands: Seq<Seq<Card>>,
    pub decks: Seq<Seq<Card>>,
    pub discard_piles: Seq<Seq<Card>>,
    pub discard_energies: Seq<Seq<EnergyType>>,
    pub points: Seq<u32>,
    pub points_gained_this_turn: Seq<u32>,
    pub points_gained_last_turn: Seq<u32>,
    pub winner: Option<GameOutcome>,
    pub current_player: usize,
    pub turn_count: u32,
    pub move_generation_stack: Seq<(usize, Vec<SimpleAction>)>,
    pub turn_effects: Seq<TurnEffect>,
    pub knocked_out_by_opponent_attack_this_turn: bool,
    pub knocked_out_by_opponent_attack_last_turn: bool,
    pub knocked_out_types_this_turn: Seq<Option<EnergyType>>,
    pub knocked_out_types_last_turn: Seq<Option<EnergyType>>,
    pub has_used_stadium: Seq<bool>,
    pub active_stadium: Option<TrainerCard>,
    pub active_stadium_owner: Option<usize>,
    pub has_played_support: bool,
    pub end_turn_pending: bool,
}

impl View for State {
    type V = StateView;

    open spec fn view(&self) -> StateView {
        StateView {
            board: self.in_play_pokemon@.map_values(|side: Vec<Option<PlayedCard>>| side@),
            hands: self.hands@.map_values(|h: Vec<Card>| h@),
            decks: self.decks@.map_values(|d: Vec<Card>| d@),
            discard_piles: self.discard_piles@.map_values(|d: Vec<Card>| d@),
            discard_energies: self.discard_energies@.map_values(|d: Vec<EnergyType>| d@),
            points: self.points@,
            points_gained_this_turn: self.points_gained_this_turn@,
            points_gained_last_turn: self.points_gained_last_turn@,
            winner: self.winner,
            current_player: self.current_player,
            turn_count: self.turn_count,
            move_generation_stack: self.move_generation_stack@,
            turn_effects: self.turn_effects@,
            knocked_out_by_opponent_attack_this_turn: self.knocked_out_by_opponent_attack_this_turn,
            knocked_out_by_opponent_attack_last_turn: self.knocked_out_by_opponent_attack_last_turn,
            knocked_out_types_this_turn: self.knocked_out_types_this_turn@,
            knocked_out_types_last_turn: self.knocked_out_types_last_turn@,
            has_used_stadium: self.has_used_stadium@,
            active_stadium: self.active_stadium,
            active_stadium_owner: self.active_stadium_owner,
            has_played_support: self.has_played_support,
            end_turn_pending: self.end_turn_pending,
        }
    }
}

impl StateView {
    /// The Pokémon in a slot.
    pub open spec fn slot(self, player: int, idx: int) -> Option<PlayedCard> {
        self.board[player][idx]
    }

    /// In-play indices of `player`'s Pokémon, Active first.
    pub open spec fn in_play_indices(self, player: int) -> Seq<usize> {
        occupied_from(self.board[player], 0)
    }

    /// In-play indices of `player`'s Benched Pokémon.
    pub open spec fn bench_indices(self, player: int) -> Seq<usize> {
        occupied_from(self.board[player], 1)
    }

    /// The same game with one slot replaced.
    pub open spec fn with_slot(self, player: int, idx: int, value: Option<PlayedCard>) -> StateView {
        StateView { board: self.board.update(player, self.board[player].update(idx, value)), ..self }
    }
}

impl State {
    /// Every per-player collection has one entry per player, and each side has four slots.
    pub open spec fn wf(&self) -> bool {
        &&& self.in_play_pokemon.len() == 2
        &&& self.in_play_pokemon[0].len() == IN_PLAY_SLOTS
        &&& self.in_play_pokemon[1].len() == IN_PLAY_SLOTS
        &&& self.hands.len() == 2
        &&& self.decks.len() == 2
        &&& self.discard_piles.len() == 2
        &&& self.discard_energies.len() == 2
        &&& self.points.len() == 2
        &&& self.points_gained_this_turn.len() == 2
        &&& self.points_gained_last_turn.len() == 2
        &&& self.has_used_stadium.len() == 2
        &&& self.current_player < 2
    }

    /// The Pokémon in a slot.
    pub open spec fn slot(&self, player: int, idx: int) -> Option<PlayedCard> {
        self.in_play_pokemon[player][idx]
    }

    /// A fresh game: empty boards, hands, decks and discard piles, no points, no winner.
    pub fn new() -> (s: State)
        ensures
            s.wf(),
            forall|p: int, i: int| 0 <= p < 2 && 0 <= i < 4 ==> #[trigger] s.slot(p, i) is None,
            s.points@ == seq![0u32, 0u32],
            s.winner is None,
            s.move_generation_stack@.len() == 0,
            s.turn_effects@.len() == 0,
            s.turn_count == 0,
            s.current_player == 0,
            forall|p: int| 0 <= p < 2 ==> (#[trigger] s.hands[p])@.len() == 0 && s.decks[p]@.len()
                == 0 && s.discard_piles[p]@.len() == 0,
    {
        let mut in_play_pokemon: Vec<Vec<Option<PlayedCard>>> = Vec::new();
        let mut p: usize = 0;
        while p < 2
            invariant
                p <= 2,
                in_play_pokemon.len() == p,
                forall|q: int, i: int|
                    0 <= q < p && 0 <= i < 4 ==> #[trigger] in_play_pokemon[q][i] is None,
                forall|q: int| 0 <= q < p ==> #[trigger] in_play_pokemon[q].len() == 4,
            decreases 2 - p,
        {
            let mut side: Vec<Option<PlayedCard>> = Vec::new();
            side.push(None);
            side.push(None);
            side.push(None);
            side.push(None);
            in_play_pokemon.push(side);
            p = p + 1;
        }
        State {
            in_play_pokemon,
            hands: vec![Vec::new(), Vec::new()],
            decks: vec![Vec::new(), Vec::new()],
            discard_piles: vec![Vec::new(), Vec::new()],
            discard_energies: vec![Vec::new(), Vec::new()],
            points: vec![0, 0],
            points_gained_this_turn: vec![0, 0],
            points_gained_last_turn: vec![0, 0],
            winner: None,
            current_player: 0,
            turn_count: 0,
            move_generation_stack: Vec::new(),
            turn_effects: Vec::new(),
            knocked_out_by_opponent_attack_this_turn: false,
            knocked_out_by_opponent_attack_last_turn: false,
            knocked_out_types_this_turn: Vec::new(),
            knocked_out_types_last_turn: Vec::new(),
            has_used_stadium: vec![false, false],
            active_stadium: None,
            active_stadium_owner: None,
            has_played_support: false,
            end_turn_pending: false,
        }
    }

    /// `player`'s Active Pokémon, if there is one.
    pub fn maybe_get_active(&self, player: usize) -> (r: Option<&PlayedCard>)
        requires
            self.wf(),
            player < 2,
        ensures
            r == (match self.slot(player as int, 0) {
                Some(c) => Some(&c),
                None => None,
            }),
    {
        self.in_play_pokemon[player][0].as_ref()
    }

    /// `player`'s Active Pokémon; the Active Spot must be occupied.
    pub fn get_active(&self, player: usize) -> (r: &PlayedCard)
        requires
            self.wf(),
            player < 2,
            self.slot(player as int, 0) is Some,
        ensures
            Some(*r) == self.slot(player as int, 0),
    {
        self.in_play_pokemon[player][0].as_ref().unwrap()
    }

    /// The occupied slots of `player`, from `from` on, in increasing order.
    fn occupied_indices_from(&self, player: usize, from: usize) -> (r: Vec<usize>)
        requires
            self.wf(),
            player < 2,
            from <= 4,
        ensures
            r@ == occupied_from(self@.board[player as int], from as int),
    {
        let side = &self.in_play_pokemon[player];
        let mut r: Vec<usize> = Vec::new();
        let mut i: usize = 4;
        let ghost s = side@;
        // Built back to front so each step prepends one index.
        let mut acc: Vec<usize> = Vec::new();
        while i > from
            invariant
                from <= i <= 4,
                s == side@,
                s.len() == 4,
                acc@ == occupied_from(s, i as int),
            decreases i,
        {
            i = i - 1;
            if side[i].is_some() {
                let mut next: Vec<usize> = Vec::new();
                next.push(i);
                let mut k: usize = 0;
                while k < acc.len()
                    invariant
                        k <= acc.len(),
                        next@ == seq![i] + acc@.subrange(0, k as int),
                    decreases acc.len() - k,
                {
                    next.push(acc[k]);
                    k = k + 1;
                    assert(next@ =~= seq![i] + acc@.subrange(0, k as int));
                }
                assert(acc@.subrange(0, acc@.len() as int) =~= acc@);
                acc = next;
            }
        }
        r = acc;
        r
    }

    /// In-play indices of `player`'s Pokémon, Active first.
    pub fn enumerate_in_play_pokemon(&self, player: usize) -> (r: Vec<usize>)
        requires
            self.wf(),
            player < 2,
        ensures
            r@ == self@.in_play_indices(player as int),
    {
        self.occupied_indices_from(player, 0)
    }

    /// In-play indices of `player`'s Benched Pokémon.
    pub fn enumerate_bench_pokemon(&self, player: usize) -> (r: Vec<usize>)
        requires
            self.wf(),
            player < 2,
        ensures
            r@ == self@.bench_indices(player as int),
    {
        self.occupied_indices_from(player, 1)
    }

    /// Puts a status condition on the Pokémon in a slot, if there is one.
    pub fn apply_status_condition(&mut self, player: usize, idx: usize, condition: StatusCondition)
        requires
            old(self).wf(),
            player < 2,
            idx < 4,
        ensures
            final(self).wf(),
            final(self)@ == old(self)@.with_slot(
                player as int,
                idx as int,
                match old(self).slot(player as int, idx as int) {
                    Some(c) => Some(status_added(c, condition)),
                    None => None,
                },
            ),
    {
        let slot = &mut self.in_play_pokemon[player][idx];
        match slot {
            Some(pokemon) => {
                match condition {
                    StatusCondition::Asleep => {
                        pokemon.asleep = true;
                        pokemon.paralyzed = false;
                        pokemon.confused = false;
                    },
                    StatusCondition::Paralyzed => {
                        pokemon.paralyzed = true;
                        pokemon.asleep = false;
                        pokemon.confused = false;
                    },
                    StatusCondition::Confused => {
                        pokemon.confused = true;
                        pokemon.asleep = false;
                        pokemon.paralyzed = false;
                    },
                    StatusCondition::Poisoned => pokemon.poisoned = true,
                    StatusCondition::Burned => pokemon.burned = true,
                }
            },
            None => {},
        }
        proof {
            assert(self@.board =~~= old(self)@.with_slot(player as int, idx as int, self.slot(player as int, idx as int)).board);
        }
    }
}

/// A Pokémon after a status condition is put on it. Asleep, Confused and Paralyzed replace one
/// another; Burned and Poisoned stack with everything.
pub open spec fn status_added(c: PlayedCard, condition: StatusCondition) -> PlayedCard {
    match condition {
        StatusCondition::Asleep => PlayedCard { asleep: true, paralyzed: false, confused: false, ..c },
        StatusCondition::Paralyzed => PlayedCard { paralyzed: true, asleep: false, confused: false, ..c },
        StatusCondition::Confused => PlayedCard { confused: true, asleep: false, paralyzed: false, ..c },
        StatusCondition::Poisoned => PlayedCard { poisoned: true, ..c },
        StatusCondition::Burned => PlayedCard { burned: true, ..c },
    }
}

} // verus!
