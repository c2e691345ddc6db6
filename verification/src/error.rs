//! The closed set of validation failures an operation can report. Every
//! error aborts its operation with no mutation of the game record.

use vstd::prelude::*;

verus! {

/// Why an operation on a game was rejected.
#[derive(Clone, Copy, Debug, PartialEq, Eq, Structural)]
pub enum GameError {
    /// The game already has its maximum number of participants.
    GameFull,
    /// The game is no longer waiting for a second participant.
    GameAlreadyStarted,
    /// The operation needs a game that has progressed further (a play needs
    /// a game in progress; a claim needs a game that has ended).
    GameNotStarted,
    /// The game's result has already been claimed.
    GameAlreadyEnded,
    /// The caller is a participant, but it is not their turn.
    NotYourTurn,
    /// The card is not in the caller's hand, or the caller already played
    /// this round.
    InvalidCard,
    /// The offered stake is below the configured minimum.
    InsufficientStake,
    /// The caller does not identify a participant of this game. The join
    /// rule also reuses this error to reject a joiner who is already a
    /// participant.
    PlayerNotInGame,
    /// The creator may not join their own game.
    CannotJoinOwnGame,
    /// The game's winnings have already been fully claimed.
    ResultAlreadyClaimed,
    /// On a decisively won game, only the winner may claim.
    OnlyWinnerCanClaim,
}

} // verus!
