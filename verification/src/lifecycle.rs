//! The four externally invoked operations of the game: create, join, play,
//! and claim. Each is an atomic transition on one game record: every
//! precondition is checked before any field is written, and a rejected
//! operation leaves the record untouched.

use vstd::prelude::*;
use crate::constants::{MAX_PLAYERS, HAND_SIZE, TOTAL_ROUNDS, MIN_STAKE_AMOUNT, MAX_STAKE_AMOUNT};
use crate::error::GameError;
use crate::state::{Card, Game, GameStatus, Player, spec_full_deck, spec_shuffle};

verus! {

/// Creates a new game: the creator is the sole participant, their stake is
/// the whole pool, the deck is built in its deterministic order (not yet
/// shuffled), and the game waits for a second participant.
///
/// Rejects, with `InsufficientStake`, exactly the stakes below the
/// configured minimum.
pub fn create_game_handler(game_id: u64, creator: u64, stake_amount: u64) -> (r: Result<
    Game,
    GameError,
>)
    requires
        stake_amount <= MAX_STAKE_AMOUNT,
    ensures
        r is Ok <==> stake_amount >= MIN_STAKE_AMOUNT,
        r is Err ==> r == Err::<Game, GameError>(GameError::InsufficientStake),
        r is Ok ==> {
            let game = r.unwrap();
            &&& game.wf()
            &&& game.game_id == game_id
            &&& game.creator == creator
            &&& game.status == GameStatus::WaitingForPlayer
            &&& game.players@.len() == 1
            &&& game.players@[0].pubkey == creator
            &&& game.players@[0].stake_amount == stake_amount
            &&& game.players@[0].hand@.len() == 0
            &&& !game.players@[0].has_played
            &&& game.players@[0].played_card is None
            &&& game.stake_amount == stake_amount
            &&& game.total_pool == stake_amount
            &&& game.current_round == 0
            &&& game.total_rounds == TOTAL_ROUNDS
            &&& game.current_turn == 0
            &&& game.winner is None
            &&& !game.result_claimed
            &&& game.deck@ == spec_full_deck()
        },
{
    if stake_amount < MIN_STAKE_AMOUNT {
        return Err(GameError::InsufficientStake);
    }
    let deck = Game::initialize_deck();
    let creator_player = Player {
        pubkey: creator,
        hand: Vec::new(),
        stake_amount,
        has_played: false,
        played_card: None,
    };
    let mut players: Vec<Player> = Vec::new();
    players.push(creator_player);
    let game = Game {
        game_id,
        creator,
        players,
        status: GameStatus::WaitingForPlayer,
        current_round: 0,
        total_rounds: TOTAL_ROUNDS,
        stake_amount,
        total_pool: stake_amount,
        winner: None,
        result_claimed: false,
        deck,
        current_turn: 0,
    };
    Ok(game)
}

/// Adds `player` to a waiting game, committing the game's fixed stake to
/// the pool. When this fills the game, the deck is shuffled with the
/// host-supplied `seed`, both participants are dealt their five-card hands
/// from the top of the shuffled deck, and the game starts.
///
/// Rejections, in the order they are checked: a game past the waiting state
/// (`GameAlreadyStarted`), a full game (`GameFull`), the creator joining
/// their own game (`CannotJoinOwnGame`), and an identity that is already a
/// participant (rejected, by a long-standing quirk of the rule set, with
/// `PlayerNotInGame`).
#[verifier::rlimit(100)]
pub fn join_game_handler(game: &mut Game, player: u64, seed: u64) -> (r: Result<(), GameError>)
    requires
        old(game).wf(),
    ensures
        final(game).wf(),
        r is Err ==> *final(game) == *old(game),
        r == Err::<(), GameError>(GameError::GameAlreadyStarted) <==> old(game).status
            != GameStatus::WaitingForPlayer,
        r == Err::<(), GameError>(GameError::GameFull) <==> (old(game).status
            == GameStatus::WaitingForPlayer && old(game).players@.len() >= MAX_PLAYERS),
        r == Err::<(), GameError>(GameError::CannotJoinOwnGame) <==> (old(game).status
            == GameStatus::WaitingForPlayer && old(game).players@.len() < MAX_PLAYERS && player
            == old(game).creator),
        r == Err::<(), GameError>(GameError::PlayerNotInGame) <==> (old(game).status
            == GameStatus::WaitingForPlayer && old(game).players@.len() < MAX_PLAYERS && player
            != old(game).creator && old(game).spec_has_player(player)),
        r is Ok <==> (old(game).status == GameStatus::WaitingForPlayer && old(game).players@.len()
            < MAX_PLAYERS && player != old(game).creator && !old(game).spec_has_player(player)),
        r is Ok ==> {
            let joined = old(game).players@.len() + 1;
            &&& final(game).game_id == old(game).game_id
            &&& final(game).creator == old(game).creator
            &&& final(game).stake_amount == old(game).stake_amount
            &&& final(game).total_rounds == old(game).total_rounds
            &&& final(game).current_round == old(game).current_round
            &&& final(game).current_turn == old(game).current_turn
            &&& final(game).winner is None
            &&& !final(game).result_claimed
            &&& final(game).total_pool == old(game).total_pool + old(game).stake_amount
            &&& final(game).players@.len() == joined
            &&& final(game).players@[joined - 1].pubkey == player
            &&& final(game).players@[joined - 1].stake_amount == old(game).stake_amount
            &&& forall|i: int|
                0 <= i < old(game).players@.len() ==> {
                    let p = #[trigger] final(game).players@[i];
                    let q = old(game).players@[i];
                    &&& p.pubkey == q.pubkey
                    &&& p.stake_amount == q.stake_amount
                    &&& p.has_played == q.has_played
                    &&& p.played_card == q.played_card
                }
            &&& !final(game).players@[joined - 1].has_played
            &&& final(game).players@[joined - 1].played_card is None
            &&& if joined == MAX_PLAYERS {
                let shuffled = spec_shuffle(old(game).deck@, seed);
                &&& final(game).status == GameStatus::InProgress
                &&& shuffled.len() == old(game).deck@.len()
                &&& forall|i: int|
                    0 <= i < MAX_PLAYERS ==> (#[trigger] final(game).players@[i]).hand@
                        == shuffled.subrange(
                        i * (HAND_SIZE as int),
                        i * (HAND_SIZE as int) + (HAND_SIZE as int),
                    ) && final(game).players@[i].hand@.len() == HAND_SIZE
                &&& final(game).deck@ == shuffled.skip((MAX_PLAYERS as int) * (HAND_SIZE as int))
                &&& final(game).deck@.len() == old(game).deck@.len() - (MAX_PLAYERS as int) * (
                HAND_SIZE as int)
            } else {
                &&& final(game).status == GameStatus::WaitingForPlayer
                &&& final(game).deck@ == old(game).deck@
                &&& final(game).players@[joined - 1].hand@.len() == 0
                &&& forall|i: int|
                    0 <= i < old(game).players@.len() ==> (#[trigger] final(game).players@[i]).hand
                        == old(game).players@[i].hand
            }
        },
{
    if game.status != GameStatus::WaitingForPlayer {
        return Err(GameError::GameAlreadyStarted);
    }
    if game.players.len() >= MAX_PLAYERS {
        return Err(GameError::GameFull);
    }
    if game.creator == player {
        return Err(GameError::CannotJoinOwnGame);
    }
    if game.find_player(player).is_some() {
        return Err(GameError::PlayerNotInGame);
    }
    proof {
        assert(old(game).players@.len() == 1);
        assert(game.total_pool == game.stake_amount * 1) by (nonlinear_arith)
            requires
                game.total_pool == game.stake_amount * game.players@.len(),
                game.players@.len() == 1,
        ;
    }
    let stake = game.stake_amount;
    let new_player = Player {
        pubkey: player,
        hand: Vec::new(),
        stake_amount: stake,
        has_played: false,
        played_card: None,
    };
    game.players.push(new_player);
    game.total_pool = game.total_pool + stake;
    if game.players.len() == MAX_PLAYERS {
        game.status = GameStatus::InProgress;
        game.shuffle_deck(seed);
        game.deal_cards();
    }
    Ok(())
}

/// Plays `card` for `player` in a game in progress. The play must come from
/// a participant, on their turn, with a card from their hand they have not
/// yet replaced this round. When the play completes a round, the round is
/// scored: the round winner leads the next round (a tied round leaves the
/// turn where it was), the round counter advances, and the per-round state
/// is cleared; the game ends once the configured rounds are played or a
/// hand is empty, and the game winner is fixed by remaining hand size.
/// Otherwise the turn passes to the other participant.
#[verifier::rlimit(100)]
pub fn play_card_handler(game: &mut Game, player: u64, card: Card) -> (r: Result<(), GameError>)
    requires
        old(game).wf(),
    ensures
        final(game).wf(),
        r is Err ==> *final(game) == *old(game),
        r == Err::<(), GameError>(GameError::GameNotStarted) <==> old(game).status
            != GameStatus::InProgress,
        r == Err::<(), GameError>(GameError::GameAlreadyEnded) <==> (old(game).status
            == GameStatus::InProgress && old(game).result_claimed),
        r == Err::<(), GameError>(GameError::PlayerNotInGame) <==> (old(game).status
            == GameStatus::InProgress && !old(game).result_claimed && !old(game).spec_has_player(
            player,
        )),
        r == Err::<(), GameError>(GameError::NotYourTurn) <==> (old(game).status
            == GameStatus::InProgress && !old(game).result_claimed && old(game).spec_has_player(
            player,
        ) && old(game).players@[old(game).current_turn as int].pubkey != player),
        r == Err::<(), GameError>(GameError::InvalidCard) <==> (old(game).status
            == GameStatus::InProgress && !old(game).result_claimed && old(game).players@[old(
            game,
        ).current_turn as int].pubkey == player && !(old(game).players@[old(
            game,
        ).current_turn as int].hand@.contains(card) && !old(game).players@[old(
            game,
        ).current_turn as int].has_played)),
        r is Ok <==> (old(game).status == GameStatus::InProgress && !old(game).result_claimed
            && old(game).players@[old(game).current_turn as int].pubkey == player && old(
            game,
        ).players@[old(game).current_turn as int].hand@.contains(card) && !old(game).players@[old(
            game,
        ).current_turn as int].has_played),
        r is Ok ==> ({
            let pre = *old(game);
            let post = *final(game);
            let t = pre.current_turn as int;
            let oldp = pre.players@[t];
            let other = pre.players@[1 - t];
            let newp = post.players@[t];
            let complete = other.has_played;
            &&& post.game_id == pre.game_id
            &&& post.creator == pre.creator
            &&& post.stake_amount == pre.stake_amount
            &&& post.total_rounds == pre.total_rounds
            &&& post.total_pool == pre.total_pool
            &&& !post.result_claimed
            &&& post.deck == pre.deck
            &&& post.players@.len() == 2
            &&& newp.pubkey == oldp.pubkey
            &&& newp.stake_amount == oldp.stake_amount
            &&& newp.hand@ == crate::state::spec_hand_after_play(oldp.hand@, card)
            &&& newp.hand@.len() + 1 == oldp.hand@.len()
            &&& post.players@[1 - t].pubkey == other.pubkey
            &&& post.players@[1 - t].stake_amount == other.stake_amount
            &&& post.players@[1 - t].hand == other.hand
            &&& if !complete {
                &&& post.current_turn as int == (t + 1) % 2
                &&& post.current_round == pre.current_round
                &&& post.status == GameStatus::InProgress
                &&& post.winner is None
                &&& newp.has_played
                &&& newp.played_card == Some(card)
                &&& !post.players@[1 - t].has_played
                &&& post.players@[1 - t].played_card is None
            } else {
                let c2 = other.played_card.unwrap();
                &&& post.current_round == pre.current_round + 1
                &&& !newp.has_played
                &&& newp.played_card is None
                &&& !post.players@[1 - t].has_played
                &&& post.players@[1 - t].played_card is None
                &&& (crate::state::spec_score(card) > crate::state::spec_score(c2)
                    ==> post.current_turn as int == t)
                &&& (crate::state::spec_score(c2) > crate::state::spec_score(card)
                    ==> post.current_turn as int == 1 - t)
                &&& (crate::state::spec_score(card) == crate::state::spec_score(c2)
                    ==> post.current_turn == pre.current_turn)
                &&& (post.status == GameStatus::Ended <==> (pre.current_round + 1
                    >= pre.total_rounds || newp.hand@.len() == 0 || other.hand@.len() == 0))
                &&& (post.status != GameStatus::Ended ==> post.status == GameStatus::InProgress
                    && post.winner is None)
                &&& (post.status == GameStatus::Ended ==> post.winner == post.spec_game_winner())
            }
        }),
{
    if game.status != GameStatus::InProgress {
        return Err(GameError::GameNotStarted);
    }
    if game.result_claimed {
        return Err(GameError::GameAlreadyEnded);
    }
    let idx = match game.find_player(player) {
        None => {
            return Err(GameError::PlayerNotInGame);
        },
        Some(i) => i,
    };
    if (game.current_turn as usize) % game.players.len() != idx {
        return Err(GameError::NotYourTurn);
    }
    if !game.can_play_card(player, &card) {
        return Err(GameError::InvalidCard);
    }
    let ghost t = game.current_turn as int;
    proof {
        assert(idx as int == t);
        assert(forall|i: int|
            0 <= i < old(game).players@.len() && (#[trigger] old(game).players@[i]).pubkey
                == player ==> i == t);
    }
    match game.play_card(player, card) {
        Ok(()) => {},
        Err(_) => {
            // the play was validated just above, so this arm is unreachable
            return Err(GameError::InvalidCard);
        },
    }
    proof {
        assert(game.players@[1 - t] == old(game).players@[1 - t]);
        assert(game.players@[t].has_played);
    }
    let complete = game.players[0].has_played && game.players[1].has_played;
    if complete {
        match game.get_round_winner() {
            Some(widx) => {
                game.current_turn = widx as u8;
            },
            None => {},
        }
        game.current_round = game.current_round + 1;
        game.reset_round();
        let over = game.current_round >= game.total_rounds || game.players[0].hand.len() == 0
            || game.players[1].hand.len() == 0;
        if over {
            game.status = GameStatus::Ended;
            game.winner = game.determine_game_winner();
        }
        Ok(())
    } else {
        game.current_turn = (game.current_turn + 1) % (game.players.len() as u8);
        Ok(())
    }
}

/// Pays the game's winnings to `claimant` once the game has ended. A
/// decisive game pays its whole pool to the winner, exactly once. A tied
/// game pays half the pool to the first claiming participant and the
/// remainder to the next; the result counts as claimed once the pool is
/// empty. The returned amount is what the host must transfer.
pub fn claim_winnings_handler(game: &mut Game, claimant: u64) -> (r: Result<u64, GameError>)
    requires
        old(game).wf(),
    ensures
        final(game).wf(),
        r is Err ==> *final(game) == *old(game),
        r == Err::<u64, GameError>(GameError::GameNotStarted) <==> old(game).status
            != GameStatus::Ended,
        r == Err::<u64, GameError>(GameError::ResultAlreadyClaimed) <==> (old(game).status
            == GameStatus::Ended && old(game).result_claimed),
        r == Err::<u64, GameError>(GameError::OnlyWinnerCanClaim) <==> (old(game).status
            == GameStatus::Ended && !old(game).result_claimed && old(game).winner is Some && old(
            game,
        ).winner != Some(claimant)),
        r == Err::<u64, GameError>(GameError::PlayerNotInGame) <==> (old(game).status
            == GameStatus::Ended && !old(game).result_claimed && old(game).winner is None && !old(
            game,
        ).spec_has_player(claimant)),
        r is Ok <==> (old(game).status == GameStatus::Ended && !old(game).result_claimed && (old(
            game,
        ).winner == Some(claimant) || (old(game).winner is None && old(game).spec_has_player(
            claimant,
        )))),
        r is Ok ==> ({
            let pre = *old(game);
            let post = *final(game);
            let payout = r.unwrap();
            &&& post.players == pre.players
            &&& post.deck == pre.deck
            &&& post.status == GameStatus::Ended
            &&& post.winner == pre.winner
            &&& post.game_id == pre.game_id
            &&& post.creator == pre.creator
            &&& post.stake_amount == pre.stake_amount
            &&& post.total_rounds == pre.total_rounds
            &&& post.current_round == pre.current_round
            &&& post.current_turn == pre.current_turn
            &&& post.total_pool == pre.total_pool - payout
            &&& (pre.winner is Some ==> payout == pre.total_pool && post.result_claimed)
            &&& (pre.winner is None ==> {
                &&& (pre.total_pool > pre.stake_amount ==> payout == pre.total_pool / 2)
                &&& (pre.total_pool <= pre.stake_amount ==> payout == pre.total_pool)
                &&& (post.result_claimed <==> post.total_pool == 0)
            })
        }),
{
    if game.status != GameStatus::Ended {
        return Err(GameError::GameNotStarted);
    }
    if game.result_claimed {
        return Err(GameError::ResultAlreadyClaimed);
    }
    match game.winner {
        Some(winner_pubkey) => {
            if winner_pubkey != claimant {
                return Err(GameError::OnlyWinnerCanClaim);
            }
            let payout = game.total_pool;
            game.total_pool = 0;
            game.result_claimed = true;
            Ok(payout)
        },
        None => {
            if game.find_player(claimant).is_none() {
                return Err(GameError::PlayerNotInGame);
            }
            let payout = if game.total_pool > game.stake_amount {
                game.total_pool / 2
            } else {
                game.total_pool
            };
            game.total_pool = game.total_pool - payout;
            if game.total_pool == 0 {
                game.result_claimed = true;
            }
            Ok(payout)
        },
    }
}

} // verus!
