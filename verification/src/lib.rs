//! A two-player, stake-backed card game: players commit equal stakes to a
//! shared pool, are dealt five-card hands from a deterministically shuffled
//! standard deck, and alternate playing cards over five rounds; the higher
//! card (Ace high) wins each round, and the final pool is paid out to the
//! game winner, or split on a tie.
//!
//! The crate is the game's state machine only. Identity of callers, durable
//! storage of the game record, and the actual movement of funds are the
//! surrounding host's concern: operations receive an already-authenticated
//! participant identifier and an exclusively borrowed game record, and report
//! how much is owed to whom.

pub mod constants;
pub mod error;
pub mod state;
pub mod lifecycle;
pub mod laws;
