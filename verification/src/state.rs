//! The game record and its value objects: cards, participants, the deck,
//! and the per-round bookkeeping that lives on the single `Game` aggregate.

use vstd::prelude::*;
use crate::constants::{MAX_PLAYERS, CARD_DECK_SIZE, HAND_SIZE, TOTAL_ROUNDS, MIN_STAKE_AMOUNT,
    MAX_STAKE_AMOUNT};
use crate::error::GameError;

verus! {

/// One of the four suits of a standard deck. Suits never affect scoring.
#[derive(Clone, Copy, Debug, PartialEq, Eq, Structural)]
pub enum Suit {
    Hearts,
    Diamonds,
    Clubs,
    Spades,
}

/// A playing card, compared by equality of (suit, value).
#[derive(Clone, Copy, Debug, PartialEq, Eq, Structural)]
pub struct Card {
    pub suit: Suit,
    /// 1..=13: Ace = 1, Jack = 11, Queen = 12, King = 13.
    pub value: u8,
}

/// Comparative strength of a card: an Ace scores 14 (Ace high), every other
/// card scores its face value.
pub open spec fn spec_score(c: Card) -> int {
    if c.value == 1 {
        14
    } else {
        c.value as int
    }
}

impl Card {
    /// The card's score: 14 for an Ace, the face value otherwise.
    pub fn get_score(&self) -> (score: u8)
        ensures
            score as int == spec_score(*self),
    {
        match self.value {
            1 => 14,
            _ => self.value,
        }
    }
}

/// Where the game stands in its life cycle. The status only ever moves
/// forward: waiting, then in progress, then ended.
#[derive(Clone, Copy, Debug, PartialEq, Eq, Structural)]
pub enum GameStatus {
    WaitingForPlayer,
    InProgress,
    Ended,
}

/// A participant of one game: their identity, current hand, committed stake,
/// and what they have played this round.
#[derive(Debug)]
pub struct Player {
    /// Opaque participant identifier, already authenticated by the host.
    pub pubkey: u64,
    pub hand: Vec<Card>,
    pub stake_amount: u64,
    pub has_played: bool,
    pub played_card: Option<Card>,
}

/// The game aggregate. Every operation works on exactly one such record,
/// with exclusive access for the duration of the call.
#[derive(Debug)]
pub struct Game {
    pub game_id: u64,
    /// Identity of the participant who created the game.
    pub creator: u64,
    /// At most two participants, in join order; the creator is first.
    pub players: Vec<Player>,
    pub status: GameStatus,
    pub current_round: u8,
    pub total_rounds: u8,
    /// The stake every participant must commit.
    pub stake_amount: u64,
    /// Committed stakes not yet paid out.
    pub total_pool: u64,
    /// Identity of the game winner; `None` before the end and on a tie.
    pub winner: Option<u64>,
    pub result_claimed: bool,
    /// Cards not dealt to any hand, in draw order.
    pub deck: Vec<Card>,
    /// Index of the participant whose turn it is (modulo the player count).
    pub current_turn: u8,
}

/// Suit of the `i`-th block of thirteen cards in the freshly built deck.
pub open spec fn spec_suit_of(i: int) -> Suit {
    if i == 0 {
        Suit::Hearts
    } else if i == 1 {
        Suit::Diamonds
    } else if i == 2 {
        Suit::Clubs
    } else {
        Suit::Spades
    }
}

/// The `i`-th card of the freshly built deck: suit-major order, values
/// ascending 1..=13 within each suit.
pub open spec fn spec_card_at(i: int) -> Card {
    Card { suit: spec_suit_of(i / 13), value: (i % 13 + 1) as u8 }
}

/// The full standard deck in its deterministic construction order.
pub open spec fn spec_full_deck() -> Seq<Card> {
    Seq::new(CARD_DECK_SIZE as nat, |i: int| spec_card_at(i))
}

/// One step of the linear-congruential generator that drives the shuffle.
pub open spec fn lcg_next(state: u64) -> u64 {
    vstd::wrapping::u64_specs::wrapping_add(
        vstd::wrapping::u64_specs::wrapping_mul(state, 1103515245u64),
        12345u64,
    )
}

/// The sequence `s` with the elements at `i` and `j` exchanged.
pub open spec fn seq_swap(s: Seq<Card>, i: int, j: int) -> Seq<Card>
    recommends
        0 <= i < s.len(),
        0 <= j < s.len(),
{
    s.update(i, s[j]).update(j, s[i])
}

/// The Fisher-Yates walk from position `i` down to position 1: at each
/// position the generator is stepped and the position is exchanged with a
/// generator-chosen position at or below it.
pub open spec fn spec_shuffle_from(s: Seq<Card>, state: u64, i: int) -> Seq<Card>
    recommends
        i < s.len(),
    decreases i,
{
    if i < 1 {
        s
    } else {
        let next = lcg_next(state);
        let j = (next as int) % (i + 1);
        spec_shuffle_from(seq_swap(s, i, j), next, i - 1)
    }
}

/// The deterministic shuffle of `s` under `seed`: a pure function of its
/// arguments, so an identical seed and deck always give an identical order.
pub open spec fn spec_shuffle(s: Seq<Card>, seed: u64) -> Seq<Card> {
    spec_shuffle_from(s, seed, s.len() - 1)
}

/// Everything of the two game records is equal except possibly the players
/// and the deck.
pub open spec fn eq_except_players_and_deck(pre: Game, post: Game) -> bool {
    &&& post.game_id == pre.game_id
    &&& post.creator == pre.creator
    &&& post.status == pre.status
    &&& post.current_round == pre.current_round
    &&& post.total_rounds == pre.total_rounds
    &&& post.stake_amount == pre.stake_amount
    &&& post.total_pool == pre.total_pool
    &&& post.winner == pre.winner
    &&& post.result_claimed == pre.result_claimed
    &&& post.current_turn == pre.current_turn
}

/// Everything of the two game records is equal except possibly the deck.
pub open spec fn eq_except_deck(pre: Game, post: Game) -> bool {
    &&& eq_except_players_and_deck(pre, post)
    &&& post.players == pre.players
}

/// Everything of the two game records is equal except possibly the players.
pub open spec fn eq_except_players(pre: Game, post: Game) -> bool {
    &&& eq_except_players_and_deck(pre, post)
    &&& post.deck == pre.deck
}

/// A participant record is internally consistent: it committed the game's
/// stake, its hand never exceeds a dealt hand, and its played-card slot is
/// filled exactly while it is marked as having played this round.
pub open spec fn spec_player_wf(p: Player, stake: u64) -> bool {
    &&& p.stake_amount == stake
    &&& p.hand@.len() <= HAND_SIZE
    &&& (p.has_played <==> p.played_card is Some)
}

/// The hand with the first occurrence of `card` removed.
pub open spec fn spec_hand_after_play(hand: Seq<Card>, card: Card) -> Seq<Card>
    recommends
        hand.contains(card),
{
    hand.remove(hand.index_of_first(card).unwrap())
}

/// Exchanging two in-bounds positions of a sequence keeps its multiset of
/// elements and its length.
pub proof fn lemma_seq_swap_permutes(s: Seq<Card>, i: int, j: int)
    requires
        0 <= i < s.len(),
        0 <= j < s.len(),
    ensures
        seq_swap(s, i, j).to_multiset() == s.to_multiset(),
        seq_swap(s, i, j).len() == s.len(),
{
    broadcast use vstd::seq_lib::group_to_multiset_ensures;
    broadcast use vstd::seq_lib::to_multiset_update;

    assert(s.contains(s[i]));
    assert(s.contains(s[j]));
    let s1 = s.update(i, s[j]);
    assert(s1.to_multiset() == s.to_multiset().insert(s[j]).remove(s[i]));
    if i == j {
        assert(seq_swap(s, i, j) =~= s);
    } else {
        assert(s1[j] == s[j]);
        assert(seq_swap(s, i, j).to_multiset() == s1.to_multiset().insert(s[i]).remove(s1[j]));
        assert(seq_swap(s, i, j).to_multiset() =~= s.to_multiset());
    }
}

/// The shuffle walk is a permutation: it never duplicates and never drops a
/// card, whatever the generator state.
pub proof fn lemma_shuffle_from_permutes(s: Seq<Card>, state: u64, i: int)
    requires
        i < s.len(),
    ensures
        spec_shuffle_from(s, state, i).to_multiset() == s.to_multiset(),
        spec_shuffle_from(s, state, i).len() == s.len(),
    decreases i,
{
    if i >= 1 {
        let next = lcg_next(state);
        let j = (next as int) % (i + 1);
        assert(0 <= j <= i);
        lemma_seq_swap_permutes(s, i, j);
        lemma_shuffle_from_permutes(seq_swap(s, i, j), next, i - 1);
    }
}

impl Game {
    /// Shuffles the deck with the Fisher-Yates walk driven by a
    /// linear-congruential generator seeded with `slot`. The result is a
    /// pure function of the previous deck order and the seed, and is a
    /// permutation of the previous deck.
    pub fn shuffle_deck(&mut self, slot: u64)
        ensures
            final(self).deck@ == spec_shuffle(old(self).deck@, slot),
            final(self).deck@.to_multiset() == old(self).deck@.to_multiset(),
            final(self).deck@.len() == old(self).deck@.len(),
            eq_except_deck(*old(self), *final(self)),
    {
        let mut rng_state: u64 = slot;
        let mut i: usize = self.deck.len();
        while i > 1
            invariant
                i <= self.deck.len(),
                self.deck@.len() == old(self).deck@.len(),
                spec_shuffle_from(self.deck@, rng_state, i as int - 1) == spec_shuffle(
                    old(self).deck@,
                    slot,
                ),
                eq_except_deck(*old(self), *self),
            decreases i,
        {
            let ghost r0 = rng_state;
            let ghost pre = self.deck@;
            i = i - 1;
            rng_state = rng_state.wrapping_mul(1103515245).wrapping_add(12345);
            let j64: u64 = rng_state % ((i as u64) + 1);
            let j: usize = j64 as usize;
            proof {
                assert(rng_state == lcg_next(r0));
                assert(j64 as int == (rng_state as int) % (i as int + 1));
                assert(j <= i);
            }
            let card_i = self.deck[i];
            let card_j = self.deck[j];
            self.deck.set(i, card_j);
            self.deck.set(j, card_i);
            proof {
                assert(self.deck@ == seq_swap(pre, i as int, j as int));
                assert(spec_shuffle_from(pre, r0, i as int) == spec_shuffle_from(
                    self.deck@,
                    rng_state,
                    i as int - 1,
                ));
            }
        }
        proof {
            lemma_shuffle_from_permutes(old(self).deck@, slot, old(self).deck@.len() - 1);
        }
    }

    /// Builds the full 52-card deck in its deterministic order: all Hearts
    /// with values 1..=13, then Diamonds, Clubs, and Spades. No randomness.
    pub fn initialize_deck() -> (deck: Vec<Card>)
        ensures
            deck@ == spec_full_deck(),
    {
        let mut deck: Vec<Card> = Vec::new();
        let mut i: usize = 0;
        while i < CARD_DECK_SIZE
            invariant
                i <= CARD_DECK_SIZE,
                deck@.len() == i,
                forall|k: int| 0 <= k < i ==> deck@[k] == spec_card_at(k),
            decreases CARD_DECK_SIZE - i,
        {
            let block = i / 13;
            let suit = if block == 0 {
                Suit::Hearts
            } else if block == 1 {
                Suit::Diamonds
            } else if block == 2 {
                Suit::Clubs
            } else {
                Suit::Spades
            };
            let value = (i % 13 + 1) as u8;
            deck.push(Card { suit, value });
            i += 1;
        }
        proof {
            assert(deck@ =~= spec_full_deck());
        }
        deck
    }
}

/// The first position of `card` in `hand`, if any.
fn find_card(hand: &Vec<Card>, card: &Card) -> (r: Option<usize>)
    ensures
        match r {
            Some(k) => k < hand@.len() && hand@[k as int] == *card && (forall|t: int|
                0 <= t < k ==> hand@[t] != *card),
            None => forall|t: int| 0 <= t < hand@.len() ==> hand@[t] != *card,
        },
{
    let mut k: usize = 0;
    while k < hand.len()
        invariant
            k <= hand@.len(),
            forall|t: int| 0 <= t < k ==> hand@[t] != *card,
        decreases hand@.len() - k,
    {
        if hand[k] == *card {
            return Some(k);
        }
        k += 1;
    }
    None
}

impl Game {
    /// No two participants share an identity; with at least one participant
    /// the creator is the first. This is what lets an identity pick out at
    /// most one participant.
    pub open spec fn distinct_players(self) -> bool {
        &&& forall|i: int, j: int|
            0 <= i < j < self.players@.len() ==> (#[trigger] self.players@[i]).pubkey != (
            #[trigger] self.players@[j]).pubkey
        &&& self.players@.len() >= 1 ==> self.players@[0].pubkey == self.creator
    }

    /// Some participant of the game carries this identity.
    pub open spec fn spec_has_player(self, pubkey: u64) -> bool {
        exists|i: int|
            0 <= i < self.players@.len() && (#[trigger] self.players@[i]).pubkey == pubkey
    }

    /// Some participant carries this identity and holds this card.
    pub open spec fn spec_hand_has_card(self, pubkey: u64, card: Card) -> bool {
        exists|i: int|
            0 <= i < self.players@.len() && (#[trigger] self.players@[i]).pubkey == pubkey
                && self.players@[i].hand@.contains(card)
    }

    /// Some participant carries this identity, holds this card, and has not
    /// yet played this round.
    pub open spec fn spec_can_play(self, pubkey: u64, card: Card) -> bool {
        exists|i: int|
            0 <= i < self.players@.len() && (#[trigger] self.players@[i]).pubkey == pubkey
                && self.players@[i].hand@.contains(card) && !self.players@[i].has_played
    }

    /// The winner of a completed round, by played-card score: `Some(0)` or
    /// `Some(1)` for the participant with the strictly higher card, `None`
    /// when the round is not complete or the scores are equal (a tied round).
    pub open spec fn spec_round_winner(self) -> Option<usize> {
        if self.players@.len() != 2 {
            None
        } else if !(self.players@[0].has_played && self.players@[1].has_played) {
            None
        } else {
            match (self.players@[0].played_card, self.players@[1].played_card) {
                (Some(c1), Some(c2)) => if spec_score(c1) > spec_score(c2) {
                    Some(0usize)
                } else if spec_score(c2) > spec_score(c1) {
                    Some(1usize)
                } else {
                    None
                },
                _ => None,
            }
        }
    }

    /// The winner of an ended game, by remaining hand size alone: the
    /// participant with strictly more cards left wins; equal hand sizes are
    /// a tie (`None`).
    pub open spec fn spec_game_winner(self) -> Option<u64> {
        if self.players@.len() != 2 {
            None
        } else if self.players@[0].hand@.len() > self.players@[1].hand@.len() {
            Some(self.players@[0].pubkey)
        } else if self.players@[1].hand@.len() > self.players@[0].hand@.len() {
            Some(self.players@[1].pubkey)
        } else {
            None
        }
    }

    /// The game record is well formed. Every operation requires this of its
    /// input and re-establishes it on its output.
    pub open spec fn wf(self) -> bool {
        &&& self.players@.len() <= MAX_PLAYERS
        &&& self.distinct_players()
        &&& self.total_rounds == TOTAL_ROUNDS
        &&& MIN_STAKE_AMOUNT <= self.stake_amount <= MAX_STAKE_AMOUNT
        &&& (self.current_turn as int) < MAX_PLAYERS
        &&& forall|i: int|
            0 <= i < self.players@.len() ==> spec_player_wf(
                #[trigger] self.players@[i],
                self.stake_amount,
            )
        &&& match self.status {
            GameStatus::WaitingForPlayer => {
                &&& self.players@.len() >= 1
                &&& self.winner is None
                &&& !self.result_claimed
                &&& self.total_pool == self.stake_amount * self.players@.len()
                &&& self.deck@.len() == CARD_DECK_SIZE
                &&& self.current_round == 0
            },
            GameStatus::InProgress => {
                &&& self.players@.len() == 2
                &&& self.winner is None
                &&& !self.result_claimed
                &&& self.total_pool == 2 * self.stake_amount
                &&& self.current_round < self.total_rounds
            },
            GameStatus::Ended => {
                &&& self.players@.len() == 2
                &&& (!self.result_claimed ==> self.total_pool == 2 * self.stake_amount || (
                self.winner is None && self.total_pool == self.stake_amount))
                &&& (self.result_claimed ==> self.total_pool == 0)
            },
        }
    }

    /// The index of the participant carrying `pubkey`, if any; the ensures
    /// pin it to the first (and, with distinct identities, only) match.
    pub(crate) fn find_player(&self, pubkey: u64) -> (r: Option<usize>)
        ensures
            match r {
                Some(i) => i < self.players@.len() && self.players@[i as int].pubkey == pubkey
                    && (forall|k: int| 0 <= k < i ==> self.players@[k].pubkey != pubkey),
                None => forall|k: int|
                    0 <= k < self.players@.len() ==> self.players@[k].pubkey != pubkey,
            },
            r is Some <==> self.spec_has_player(pubkey),
    {
        let mut i: usize = 0;
        while i < self.players.len()
            invariant
                i <= self.players@.len(),
                forall|k: int| 0 <= k < i ==> self.players@[k].pubkey != pubkey,
            decreases self.players@.len() - i,
        {
            if self.players[i].pubkey == pubkey {
                return Some(i);
            }
            i += 1;
        }
        None
    }

    /// Whether the participant at `index` holds the turn: the turn counter,
    /// reduced modulo the number of participants, picks out exactly one.
    pub fn is_players_turn(&self, index: usize) -> (r: bool)
        requires
            self.players@.len() > 0,
        ensures
            r == ((self.current_turn as int) % (self.players@.len() as int) == index as int),
    {
        (self.current_turn as usize) % self.players.len() == index
    }

    /// Whether `player_pubkey` identifies a participant who holds `card` and
    /// has not yet played this round.
    pub fn can_play_card(&self, player_pubkey: u64, card: &Card) -> (r: bool)
        requires
            self.distinct_players(),
        ensures
            r == self.spec_can_play(player_pubkey, *card),
    {
        match self.find_player(player_pubkey) {
            Some(i) => {
                if self.players[i].has_played {
                    return false;
                }
                match find_card(&self.players[i].hand, card) {
                    Some(_) => true,
                    None => false,
                }
            },
            None => false,
        }
    }

    /// Scores the two played cards of a completed round; pure.
    pub fn get_round_winner(&self) -> (r: Option<usize>)
        ensures
            r == self.spec_round_winner(),
    {
        if self.players.len() != 2 {
            return None;
        }
        if !(self.players[0].has_played && self.players[1].has_played) {
            return None;
        }
        match (self.players[0].played_card, self.players[1].played_card) {
            (Some(c1), Some(c2)) => {
                let score1 = c1.get_score();
                let score2 = c2.get_score();
                if score1 > score2 {
                    Some(0)
                } else if score2 > score1 {
                    Some(1)
                } else {
                    None
                }
            },
            _ => None,
        }
    }

    /// Compares remaining hand sizes to pick the game winner; pure.
    pub fn determine_game_winner(&self) -> (r: Option<u64>)
        ensures
            r == self.spec_game_winner(),
    {
        if self.players.len() != 2 {
            return None;
        }
        let cards1 = self.players[0].hand.len();
        let cards2 = self.players[1].hand.len();
        if cards1 > cards2 {
            Some(self.players[0].pubkey)
        } else if cards2 > cards1 {
            Some(self.players[1].pubkey)
        } else {
            None
        }
    }

    /// Clears the per-round state of every participant: called after a
    /// round resolves, before the round counter is checked.
    pub fn reset_round(&mut self)
        ensures
            final(self).players@.len() == old(self).players@.len(),
            forall|i: int|
                0 <= i < old(self).players@.len() ==> {
                    let p = #[trigger] final(self).players@[i];
                    let q = old(self).players@[i];
                    &&& p.pubkey == q.pubkey
                    &&& p.hand == q.hand
                    &&& p.stake_amount == q.stake_amount
                    &&& !p.has_played
                    &&& p.played_card is None
                },
            eq_except_players(*old(self), *final(self)),
    {
        let mut i: usize = 0;
        while i < self.players.len()
            invariant
                i <= self.players@.len(),
                self.players@.len() == old(self).players@.len(),
                eq_except_players(*old(self), *self),
                forall|k: int|
                    0 <= k < i ==> {
                        let p = #[trigger] self.players@[k];
                        let q = old(self).players@[k];
                        &&& p.pubkey == q.pubkey
                        &&& p.hand == q.hand
                        &&& p.stake_amount == q.stake_amount
                        &&& !p.has_played
                        &&& p.played_card is None
                    },
                forall|k: int|
                    i <= k < self.players@.len() ==> #[trigger] self.players@[k] == old(
                        self,
                    ).players@[k],
            decreases self.players@.len() - i,
        {
            self.players[i].has_played = false;
            self.players[i].played_card = None;
            i += 1;
        }
    }

    /// Removes `card` from the identified participant's hand and records it
    /// as their play of this round. Rejects an identity that is not a
    /// participant and a card that is not in the participant's hand; on
    /// rejection the record is untouched.
    pub fn play_card(&mut self, player_pubkey: u64, card: Card) -> (r: Result<(), GameError>)
        requires
            old(self).distinct_players(),
        ensures
            r is Err ==> *final(self) == *old(self),
            r == Err::<(), GameError>(GameError::PlayerNotInGame) <==> !old(self).spec_has_player(
                player_pubkey,
            ),
            r == Err::<(), GameError>(GameError::InvalidCard) <==> (old(self).spec_has_player(
                player_pubkey,
            ) && !old(self).spec_hand_has_card(player_pubkey, card)),
            r is Ok <==> old(self).spec_hand_has_card(player_pubkey, card),
            eq_except_players(*old(self), *final(self)),
            final(self).players@.len() == old(self).players@.len(),
            r is Ok ==> exists|i: int|
                {
                    &&& 0 <= i < old(self).players@.len()
                    &&& (#[trigger] old(self).players@[i]).pubkey == player_pubkey
                    &&& final(self).players@ == old(self).players@.update(
                        i,
                        final(self).players@[i],
                    )
                    &&& final(self).players@[i].pubkey == player_pubkey
                    &&& final(self).players@[i].stake_amount == old(self).players@[i].stake_amount
                    &&& final(self).players@[i].has_played
                    &&& final(self).players@[i].played_card == Some(card)
                    &&& final(self).players@[i].hand@ == spec_hand_after_play(
                        old(self).players@[i].hand@,
                        card,
                    )
                    &&& final(self).players@[i].hand@.len() + 1 == old(self).players@[i].hand@.len()
                },
    {
        match self.find_player(player_pubkey) {
            None => Err(GameError::PlayerNotInGame),
            Some(i) => {
                match find_card(&self.players[i].hand, &card) {
                    None => Err(GameError::InvalidCard),
                    Some(pos) => {
                        let ghost old_hand = self.players@[i as int].hand@;
                        self.players[i].hand.remove(pos);
                        self.players[i].played_card = Some(card);
                        self.players[i].has_played = true;
                        proof {
                            old_hand.index_of_first_ensures(card);
                            assert(old_hand.index_of_first(card) == Some(pos as int));
                            assert(self.players@[i as int].hand@ == spec_hand_after_play(
                                old_hand,
                                card,
                            ));
                        }
                        Ok(())
                    },
                }
            },
        }
    }

    /// Slices the shuffled deck into one five-card hand per participant, in
    /// deck order and disjoint; the dealt cards leave the deck.
    pub fn deal_cards(&mut self)
        requires
            old(self).players@.len() * (HAND_SIZE as int) <= old(self).deck@.len(),
        ensures
            final(self).players@.len() == old(self).players@.len(),
            forall|i: int|
                0 <= i < old(self).players@.len() ==> {
                    let p = #[trigger] final(self).players@[i];
                    let q = old(self).players@[i];
                    &&& p.pubkey == q.pubkey
                    &&& p.stake_amount == q.stake_amount
                    &&& p.has_played == q.has_played
                    &&& p.played_card == q.played_card
                    &&& p.hand@ == old(self).deck@.subrange(
                        i * (HAND_SIZE as int),
                        i * (HAND_SIZE as int) + (HAND_SIZE as int),
                    )
                },
            final(self).deck@ == old(self).deck@.skip(
                old(self).players@.len() * (HAND_SIZE as int),
            ),
            eq_except_players_and_deck(*old(self), *final(self)),
    {
        let n = self.players.len();
        let deck_len = self.deck.len();
        let mut new_players: Vec<Player> = Vec::new();
        let mut i: usize = 0;
        while i < n
            invariant
                i <= n,
                n == self.players@.len(),
                *self == *old(self),
                deck_len == self.deck@.len(),
                n * (HAND_SIZE as int) <= self.deck@.len(),
                new_players@.len() == i,
                forall|k: int|
                    0 <= k < i ==> {
                        let p = #[trigger] new_players@[k];
                        let q = self.players@[k];
                        &&& p.pubkey == q.pubkey
                        &&& p.stake_amount == q.stake_amount
                        &&& p.has_played == q.has_played
                        &&& p.played_card == q.played_card
                        &&& p.hand@ == self.deck@.subrange(
                            k * (HAND_SIZE as int),
                            k * (HAND_SIZE as int) + (HAND_SIZE as int),
                        )
                    },
            decreases n - i,
        {
            proof {
                assert(i * (HAND_SIZE as int) + (HAND_SIZE as int) <= n * (HAND_SIZE as int))
                    by (nonlinear_arith)
                    requires
                        i + 1 <= n,
                ;
            }
            let start = i * HAND_SIZE;
            let mut hand: Vec<Card> = Vec::new();
            let mut c: usize = 0;
            while c < HAND_SIZE
                invariant
                    c <= HAND_SIZE,
                    i < n,
                    n == self.players@.len(),
                    *self == *old(self),
                    n * (HAND_SIZE as int) <= self.deck@.len(),
                    deck_len == self.deck@.len(),
                    start == i * HAND_SIZE,
                    start + HAND_SIZE <= self.deck@.len(),
                    hand@.len() == c,
                    forall|t: int| 0 <= t < c ==> hand@[t] == self.deck@[start + t],
                decreases HAND_SIZE - c,
            {
                hand.push(self.deck[start + c]);
                c += 1;
            }
            proof {
                assert(hand@ =~= self.deck@.subrange(
                    i * (HAND_SIZE as int),
                    i * (HAND_SIZE as int) + (HAND_SIZE as int),
                ));
            }
            let p = Player {
                pubkey: self.players[i].pubkey,
                hand,
                stake_amount: self.players[i].stake_amount,
                has_played: self.players[i].has_played,
                played_card: self.players[i].played_card,
            };
            new_players.push(p);
            i += 1;
        }
        self.players = new_players;
        proof {
            assert(n * (HAND_SIZE as int) <= deck_len as int);
        }
        let dealt = n * HAND_SIZE;
        let mut rest: Vec<Card> = Vec::new();
        let mut t: usize = dealt;
        while t < self.deck.len()
            invariant
                dealt <= t <= self.deck@.len(),
                self.deck@ == old(self).deck@,
                dealt == n * (HAND_SIZE as int),
                rest@.len() == t - dealt,
                forall|k: int| 0 <= k < t - dealt ==> rest@[k] == self.deck@[dealt + k],
            decreases self.deck@.len() - t,
        {
            rest.push(self.deck[t]);
            t += 1;
        }
        proof {
            assert(rest@ =~= self.deck@.skip(dealt as int));
        }
        self.deck = rest;
    }
}

} // verus!
