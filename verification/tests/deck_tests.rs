//! Deck construction and shuffle behaviour: a full deck of 52 distinct
//! cards, and a shuffle that is a deterministic permutation.

use stake_card_game::state::{Card, Game, GameStatus, Suit};

fn fresh_waiting_game() -> Game {
    Game {
        game_id: 1,
        creator: 10,
        players: vec![stake_card_game::state::Player {
            pubkey: 10,
            hand: Vec::new(),
            stake_amount: 1_000_000,
            has_played: false,
            played_card: None,
        }],
        status: GameStatus::WaitingForPlayer,
        current_round: 0,
        total_rounds: 5,
        stake_amount: 1_000_000,
        total_pool: 1_000_000,
        winner: None,
        result_claimed: false,
        deck: Game::initialize_deck(),
        current_turn: 0,
    }
}

#[test]
fn initialize_deck_has_52_unique_cards() {
    let deck = Game::initialize_deck();
    assert_eq!(deck.len(), 52);
    for i in 0..deck.len() {
        for j in (i + 1)..deck.len() {
            assert!(deck[i] != deck[j], "duplicate card at {} and {}", i, j);
        }
    }
    // suit-major order, values ascending 1..=13
    assert_eq!(deck[0], Card { suit: Suit::Hearts, value: 1 });
    assert_eq!(deck[12], Card { suit: Suit::Hearts, value: 13 });
    assert_eq!(deck[13], Card { suit: Suit::Diamonds, value: 1 });
    assert_eq!(deck[51], Card { suit: Suit::Spades, value: 13 });
}

#[test]
fn shuffle_same_seed_gives_same_order() {
    let mut g1 = fresh_waiting_game();
    let mut g2 = fresh_waiting_game();
    g1.shuffle_deck(0xfeed_beef);
    g2.shuffle_deck(0xfeed_beef);
    assert_eq!(g1.deck.len(), 52);
    for k in 0..52 {
        assert_eq!(g1.deck[k], g2.deck[k]);
    }
}

#[test]
fn shuffle_different_seed_gives_different_order() {
    let mut g1 = fresh_waiting_game();
    let mut g2 = fresh_waiting_game();
    g1.shuffle_deck(1);
    g2.shuffle_deck(2);
    let same = (0..52).all(|k| g1.deck[k] == g2.deck[k]);
    assert!(!same, "two different seeds gave the identical permutation");
}

#[test]
fn deal_slices_disjoint_hands_off_the_deck() {
    let mut g = fresh_waiting_game();
    g.players.push(stake_card_game::state::Player {
        pubkey: 11,
        hand: Vec::new(),
        stake_amount: 1_000_000,
        has_played: false,
        played_card: None,
    });
    g.total_pool = 2_000_000;
    let before = g.deck.clone();
    g.deal_cards();
    assert_eq!(g.players[0].hand, before[0..5].to_vec());
    assert_eq!(g.players[1].hand, before[5..10].to_vec());
    assert_eq!(g.deck, before[10..].to_vec());
}

#[test]
fn play_card_removes_exactly_the_played_card() {
    let mut g = fresh_waiting_game();
    g.players[0].hand = vec![
        Card { suit: Suit::Hearts, value: 2 },
        Card { suit: Suit::Hearts, value: 3 },
        Card { suit: Suit::Hearts, value: 4 },
    ];
    let played = Card { suit: Suit::Hearts, value: 3 };
    g.play_card(10, played).unwrap();
    assert_eq!(g.players[0].hand, vec![
        Card { suit: Suit::Hearts, value: 2 },
        Card { suit: Suit::Hearts, value: 4 },
    ]);
    assert_eq!(g.players[0].played_card, Some(played));
    assert!(g.players[0].has_played);
    assert!(g.play_card(99, played).is_err());
}

#[test]
fn shuffle_is_a_permutation() {
    let unshuffled = Game::initialize_deck();
    let mut g = fresh_waiting_game();
    g.shuffle_deck(987_654_321);
    assert_eq!(g.deck.len(), 52);
    for card in unshuffled.iter() {
        let occurrences = g.deck.iter().filter(|c| **c == *card).count();
        assert_eq!(occurrences, 1, "card {:?} {} appears {} times", card.suit, card.value, occurrences);
    }
}
