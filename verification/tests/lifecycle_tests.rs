//! The four operations end to end: creation, joining, turn-by-turn play,
//! termination, and claiming, with every reachable rejection.

use stake_card_game::error::GameError;
use stake_card_game::lifecycle::{claim_winnings_handler, create_game_handler, join_game_handler,
    play_card_handler};
use stake_card_game::state::{Card, Game, GameStatus, Player, Suit};

const STAKE: u64 = 1_000_000;

fn player(pubkey: u64, hand: Vec<Card>) -> Player {
    Player { pubkey, hand, stake_amount: STAKE, has_played: false, played_card: None }
}

fn started_game() -> Game {
    let mut game = create_game_handler(7, 10, STAKE).unwrap();
    join_game_handler(&mut game, 11, 0x5eed).unwrap();
    game
}

fn ended_game(winner: Option<u64>) -> Game {
    Game {
        game_id: 7,
        creator: 10,
        players: vec![player(10, Vec::new()), player(11, Vec::new())],
        status: GameStatus::Ended,
        current_round: 5,
        total_rounds: 5,
        stake_amount: STAKE,
        total_pool: 2 * STAKE,
        winner,
        result_claimed: false,
        deck: Vec::new(),
        current_turn: 0,
    }
}

#[test]
fn create_sets_up_waiting_game() {
    let game = create_game_handler(7, 10, STAKE).unwrap();
    assert_eq!(game.status, GameStatus::WaitingForPlayer);
    assert_eq!(game.players.len(), 1);
    assert_eq!(game.players[0].pubkey, 10);
    assert_eq!(game.players[0].stake_amount, STAKE);
    assert_eq!(game.total_pool, STAKE);
    assert_eq!(game.deck.len(), 52);
    assert_eq!(game.current_round, 0);
    assert_eq!(game.total_rounds, 5);
    assert_eq!(game.current_turn, 0);
    assert_eq!(game.winner, None);
    assert!(!game.result_claimed);
}

#[test]
fn create_rejects_insufficient_stake() {
    assert_eq!(create_game_handler(7, 10, STAKE - 1).unwrap_err(), GameError::InsufficientStake);
}

#[test]
fn join_commits_stake_and_starts_game() {
    let mut game = create_game_handler(7, 10, STAKE).unwrap();
    join_game_handler(&mut game, 11, 0x5eed).unwrap();
    assert_eq!(game.status, GameStatus::InProgress);
    assert_eq!(game.total_pool, 2 * STAKE);
    assert_eq!(game.players.len(), 2);
    assert_eq!(game.players[1].pubkey, 11);
    assert_eq!(game.players[0].hand.len(), 5);
    assert_eq!(game.players[1].hand.len(), 5);
    assert_eq!(game.deck.len(), 42);
    // the dealt hands are disjoint slices of one deck: no shared card
    for c in game.players[0].hand.iter() {
        assert!(!game.players[1].hand.contains(c));
    }
}

#[test]
fn same_seed_deals_identical_hands() {
    let mut g1 = create_game_handler(7, 10, STAKE).unwrap();
    let mut g2 = create_game_handler(8, 10, STAKE).unwrap();
    join_game_handler(&mut g1, 11, 777).unwrap();
    join_game_handler(&mut g2, 11, 777).unwrap();
    assert_eq!(g1.players[0].hand, g2.players[0].hand);
    assert_eq!(g1.players[1].hand, g2.players[1].hand);
    assert_eq!(g1.deck, g2.deck);
}

#[test]
fn join_rejects_creator_joining_own_game() {
    let mut game = create_game_handler(7, 10, STAKE).unwrap();
    assert_eq!(join_game_handler(&mut game, 10, 1).unwrap_err(), GameError::CannotJoinOwnGame);
    assert_eq!(game.players.len(), 1);
}

#[test]
fn join_rejects_started_game() {
    let mut game = started_game();
    assert_eq!(join_game_handler(&mut game, 12, 1).unwrap_err(), GameError::GameAlreadyStarted);
}

#[test]
fn join_rejects_full_game() {
    // a waiting game that already holds two participants is full
    let mut game = ended_game(None);
    game.status = GameStatus::WaitingForPlayer;
    game.current_round = 0;
    game.deck = Game::initialize_deck();
    assert_eq!(join_game_handler(&mut game, 12, 1).unwrap_err(), GameError::GameFull);
}

#[test]
fn turn_alternates_while_round_is_open() {
    let mut game = started_game();
    assert_eq!(game.current_turn, 0);
    let card = game.players[0].hand[0];
    play_card_handler(&mut game, 10, card).unwrap();
    assert_eq!(game.current_turn, 1, "turn flips 0 to 1 after an opening play");
    assert_eq!(game.players[0].hand.len(), 4);
    assert_eq!(game.players[0].played_card, Some(card));
    assert!(game.players[0].has_played);
    assert_eq!(game.current_round, 0, "round advances only once both have played");
}

#[test]
fn play_rejects_wrong_states_and_inputs() {
    let mut waiting = create_game_handler(7, 10, STAKE).unwrap();
    let some_card = Card { suit: Suit::Hearts, value: 2 };
    assert_eq!(play_card_handler(&mut waiting, 10, some_card).unwrap_err(),
        GameError::GameNotStarted);

    let mut game = started_game();
    assert_eq!(play_card_handler(&mut game, 99, some_card).unwrap_err(),
        GameError::PlayerNotInGame);
    // participant 1 moving on participant 0's turn
    let b_card = game.players[1].hand[0];
    assert_eq!(play_card_handler(&mut game, 11, b_card).unwrap_err(), GameError::NotYourTurn);
    // a card that sits in the other hand is not playable
    assert_eq!(play_card_handler(&mut game, 10, b_card).unwrap_err(), GameError::InvalidCard);
}

#[test]
fn tied_round_keeps_turn_and_tied_game_splits_pool() {
    // both participants hold one card of equal score: the round ties, the
    // game ends with equal hands, and the pool splits half and half
    let mut game = ended_game(None);
    game.status = GameStatus::InProgress;
    game.current_round = 4;
    game.players[0].hand = vec![Card { suit: Suit::Hearts, value: 5 }];
    game.players[1].hand = vec![Card { suit: Suit::Diamonds, value: 5 }];
    play_card_handler(&mut game, 10, Card { suit: Suit::Hearts, value: 5 }).unwrap();
    let turn_before_resolution = game.current_turn;
    play_card_handler(&mut game, 11, Card { suit: Suit::Diamonds, value: 5 }).unwrap();
    assert_eq!(game.current_turn, turn_before_resolution,
        "a tied round leaves the turn where it was");
    assert_eq!(game.status, GameStatus::Ended);
    assert_eq!(game.winner, None, "equal remaining hands tie the game");
    assert!(!game.players[0].has_played, "round state is cleared after resolution");
    assert_eq!(game.players[0].played_card, None);

    // first claimant takes half the pool, the second the remainder
    let pool = game.total_pool;
    let first = claim_winnings_handler(&mut game, 11).unwrap();
    assert_eq!(first, pool / 2);
    assert_eq!(game.total_pool, pool - pool / 2);
    assert!(!game.result_claimed);
    let second = claim_winnings_handler(&mut game, 10).unwrap();
    assert_eq!(second, pool - pool / 2);
    assert_eq!(game.total_pool, 0);
    assert!(game.result_claimed);
    assert_eq!(claim_winnings_handler(&mut game, 10).unwrap_err(),
        GameError::ResultAlreadyClaimed);
}

#[test]
fn round_winner_leads_the_next_round() {
    let mut game = ended_game(None);
    game.status = GameStatus::InProgress;
    game.current_round = 0;
    game.players[0].hand = vec![Card { suit: Suit::Hearts, value: 3 },
        Card { suit: Suit::Hearts, value: 4 }];
    game.players[1].hand = vec![Card { suit: Suit::Spades, value: 1 },
        Card { suit: Suit::Spades, value: 2 }];
    play_card_handler(&mut game, 10, Card { suit: Suit::Hearts, value: 3 }).unwrap();
    // the Ace (score 14) beats the 3: participant 1 wins the round and leads
    play_card_handler(&mut game, 11, Card { suit: Suit::Spades, value: 1 }).unwrap();
    assert_eq!(game.current_turn, 1);
    assert_eq!(game.current_round, 1);
    assert_eq!(game.status, GameStatus::InProgress);
}

#[test]
fn winner_takes_whole_pool_exactly_once() {
    let mut game = ended_game(Some(10));
    assert_eq!(claim_winnings_handler(&mut game, 11).unwrap_err(),
        GameError::OnlyWinnerCanClaim);
    let payout = claim_winnings_handler(&mut game, 10).unwrap();
    assert_eq!(payout, 2 * STAKE);
    assert_eq!(game.total_pool, 0);
    assert!(game.result_claimed);
    assert_eq!(claim_winnings_handler(&mut game, 10).unwrap_err(),
        GameError::ResultAlreadyClaimed);
}

#[test]
fn claim_rejections() {
    let mut in_progress = started_game();
    assert_eq!(claim_winnings_handler(&mut in_progress, 10).unwrap_err(),
        GameError::GameNotStarted);
    let mut tied = ended_game(None);
    assert_eq!(claim_winnings_handler(&mut tied, 99).unwrap_err(), GameError::PlayerNotInGame);
}

#[test]
fn full_game_runs_five_rounds_and_ties_on_equal_hands() {
    let mut game = create_game_handler(42, 10, STAKE).unwrap();
    join_game_handler(&mut game, 11, 0xdead_beef).unwrap();
    for round in 0..5u8 {
        assert_eq!(game.current_round, round);
        for _ in 0..2 {
            let t = (game.current_turn as usize) % 2;
            let pk = game.players[t].pubkey;
            let card = game.players[t].hand[0];
            play_card_handler(&mut game, pk, card).unwrap();
        }
    }
    assert_eq!(game.status, GameStatus::Ended);
    assert_eq!(game.current_round, 5);
    assert_eq!(game.players[0].hand.len(), 0);
    assert_eq!(game.players[1].hand.len(), 0);
    // both played all five cards: the winner is fixed by remaining hand
    // size alone, so the game is a tie whatever the round outcomes were
    assert_eq!(game.winner, None);
    assert_eq!(game.total_pool, 2 * STAKE);
    let first = claim_winnings_handler(&mut game, 10).unwrap();
    let second = claim_winnings_handler(&mut game, 11).unwrap();
    assert_eq!(first + second, 2 * STAKE);
    assert!(game.result_claimed);
}
