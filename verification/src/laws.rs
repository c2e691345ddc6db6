//! Game-wide laws, each proved once and for all inputs: the shuffle is a
//! deterministic permutation, the built deck has no repeated card, Ace-high
//! scoring, and pool conservation while a game is live.

use vstd::prelude::*;
use crate::constants::HAND_SIZE;
use crate::state::{Card, Game, GameStatus, spec_card_at, spec_full_deck, spec_score, spec_shuffle,
    lemma_shuffle_from_permutes};

verus! {

/// For any deck and any seed, the shuffle is a permutation: the multiset of
/// cards is unchanged, so no card is ever duplicated or dropped.
pub proof fn lemma_shuffle_is_permutation(deck: Seq<Card>, seed: u64)
    ensures
        spec_shuffle(deck, seed).to_multiset() == deck.to_multiset(),
        spec_shuffle(deck, seed).len() == deck.len(),
{
    lemma_shuffle_from_permutes(deck, seed, deck.len() - 1);
}

/// The shuffle is a pure function of the starting deck and the seed: equal
/// inputs give the identical ordering, run after run.
pub proof fn lemma_shuffle_deterministic(deck1: Seq<Card>, deck2: Seq<Card>, seed1: u64, seed2: u64)
    requires
        deck1 == deck2,
        seed1 == seed2,
    ensures
        spec_shuffle(deck1, seed1) == spec_shuffle(deck2, seed2),
{
}

/// The freshly built deck holds 52 cards and no (suit, value) pair twice.
pub proof fn lemma_full_deck_distinct()
    ensures
        spec_full_deck().len() == 52,
        forall|i: int, j: int|
            0 <= i < j < 52 ==> spec_full_deck()[i] != spec_full_deck()[j],
{
    assert forall|i: int, j: int|
        0 <= i < j < 52 implies spec_full_deck()[i] != spec_full_deck()[j] by {
        assert(spec_full_deck()[i] == spec_card_at(i));
        assert(spec_full_deck()[j] == spec_card_at(j));
        if i / 13 == j / 13 {
            assert(i % 13 != j % 13) by (nonlinear_arith)
                requires
                    0 <= i < j < 52,
                    i / 13 == j / 13,
            ;
        }
    }
}

/// The two dealt hands and the remaining deck partition the shuffled deck:
/// together, in order, they are exactly the deck that was dealt from, so a
/// dealt card sits in exactly one hand and never also in the deck.
pub proof fn lemma_dealt_hands_partition_deck(s: Seq<Card>)
    requires
        s.len() >= 2 * (HAND_SIZE as int),
    ensures
        s.subrange(0, HAND_SIZE as int) + s.subrange(HAND_SIZE as int, 2 * (HAND_SIZE as int))
            + s.skip(2 * (HAND_SIZE as int)) == s,
{
    assert(s.subrange(0, HAND_SIZE as int) + s.subrange(HAND_SIZE as int, 2 * (HAND_SIZE as int))
        + s.skip(2 * (HAND_SIZE as int)) =~= s);
}

/// An Ace scores 14, strictly above a King's 13: the Ace is the high card.
pub proof fn lemma_ace_outscores_king(ace: Card, king: Card)
    requires
        ace.value == 1,
        king.value == 13,
    ensures
        spec_score(ace) == 14,
        spec_score(king) == 13,
        spec_score(ace) > spec_score(king),
{
}

/// Pool conservation: while nothing has been paid out (the game is waiting
/// or in progress), the pool is exactly the sum of the committed stakes.
pub proof fn lemma_pool_is_committed_stakes(g: Game)
    requires
        g.wf(),
        g.status == GameStatus::WaitingForPlayer || g.status == GameStatus::InProgress,
    ensures
        g.players@.len() == 1 ==> g.total_pool == g.players@[0].stake_amount,
        g.players@.len() == 2 ==> g.total_pool == g.players@[0].stake_amount
            + g.players@[1].stake_amount,
{
    if g.players@.len() == 1 {
        assert(g.total_pool == g.stake_amount * 1 || g.total_pool == 2 * g.stake_amount);
        assert(g.stake_amount * 1 == g.stake_amount) by (nonlinear_arith);
    }
    if g.players@.len() == 2 {
        assert(g.total_pool == g.stake_amount * 2 || g.total_pool == 2 * g.stake_amount);
        assert(g.stake_amount * 2 == 2 * g.stake_amount) by (nonlinear_arith);
    }
}

} // verus!
