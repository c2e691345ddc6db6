//! Fixed parameters of the game variant: two players, a standard 52-card
//! deck, five-card hands, and the smallest stake a creator may post.

use vstd::prelude::*;

verus! {

/// A game holds at most this many participants.
pub const MAX_PLAYERS: usize = 2;

/// Number of cards in a full standard deck.
pub const CARD_DECK_SIZE: usize = 52;

/// Number of cards dealt to each participant when the game starts.
pub const HAND_SIZE: usize = 5;

/// Number of rounds a full game runs.
pub const TOTAL_ROUNDS: u8 = 5;

/// Smallest stake a creator may post.
pub const MIN_STAKE_AMOUNT: u64 = 1_000_000;

/// Largest stake the pool arithmetic supports: two such stakes must fit in
/// the `u64` pool.
pub const MAX_STAKE_AMOUNT: u64 = 0x7fff_ffff_ffff_ffff;

} // verus!
