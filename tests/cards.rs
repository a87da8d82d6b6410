use blank_jack::card::{Card, Suit, SuitColor, Value};
use blank_jack::deck::{Deck, HAND_SIZE};

fn all_values() -> Vec<Value> {
    (0..13u8).map(Value::from_index).collect()
}

fn all_suits() -> Vec<Suit> {
    (0..4u8).map(Suit::from_index).collect()
}

#[test]
fn rank_labels_are_the_canonical_ones() {
    let labels: Vec<&str> = all_values().iter().map(|v| v.label()).collect();
    assert_eq!(labels, vec!["A", "2", "3", "4", "5", "6", "7", "8", "9", "10", "J", "Q", "K"]);
}

#[test]
fn suit_labels_are_the_symbols() {
    assert_eq!(Suit::Clubs.label(), "\u{2663}");
    assert_eq!(Suit::Diamonds.label(), "\u{2666}");
    assert_eq!(Suit::Hearts.label(), "\u{2665}");
    assert_eq!(Suit::Spades.label(), "\u{2660}");
}

#[test]
fn labels_are_distinct() {
    let values = all_values();
    for (i, a) in values.iter().enumerate() {
        for (j, b) in values.iter().enumerate() {
            assert_eq!(a.label() == b.label(), i == j);
        }
    }
    let suits = all_suits();
    for (i, a) in suits.iter().enumerate() {
        for (j, b) in suits.iter().enumerate() {
            assert_eq!(a.label() == b.label(), i == j);
        }
    }
}

#[test]
fn suit_colors() {
    assert_eq!(Suit::Hearts.color(), SuitColor::Red);
    assert_eq!(Suit::Diamonds.color(), SuitColor::Red);
    assert_eq!(Suit::Clubs.color(), SuitColor::White);
    assert_eq!(Suit::Spades.color(), SuitColor::White);
}

#[test]
fn indexes_round_trip() {
    for i in 0..13u8 {
        assert_eq!(Value::from_index(i).index(), i);
    }
    for i in 0..4u8 {
        assert_eq!(Suit::from_index(i).index(), i);
    }
    assert!(Value::Ace.is_ace());
    assert!(!Value::King.is_ace());
}

#[test]
fn codes_round_trip() {
    for k in 0..52u8 {
        assert_eq!(Card::from_code(k).code(), k);
    }
    assert_eq!(Card::new(Value::Ace, Suit::Clubs).code(), 0);
    assert_eq!(Card::new(Value::Two, Suit::Diamonds).code(), 5);
    assert_eq!(Card::new(Value::King, Suit::Spades).code(), 51);
}

#[test]
fn random_draws_are_uniform_and_independent() {
    let n = 52_000usize;
    let mut ranks = [0usize; 13];
    let mut suits = [0usize; 4];
    let mut pairs = [0usize; 52];
    for _ in 0..n {
        let c = Card::random();
        ranks[c.value.index() as usize] += 1;
        suits[c.suit.index() as usize] += 1;
        pairs[c.code() as usize] += 1;
    }
    let chi = |counts: &[usize], total: usize| -> f64 {
        let e = total as f64 / counts.len() as f64;
        counts.iter().map(|&o| (o as f64 - e) * (o as f64 - e) / e).sum::<f64>()
    };
    // Critical values at p = 0.0001 for 12, 3 and 51 degrees of freedom.
    assert!(chi(&ranks, n) < 42.6, "ranks {:?}", ranks);
    assert!(chi(&suits, n) < 21.2, "suits {:?}", suits);
    assert!(chi(&pairs, n) < 106.0, "pairs {:?}", pairs);
}

#[test]
fn dealt_hand_holds_at_most_the_count() {
    for _ in 0..50 {
        let d = Deck::deal(2);
        let cards = d.cards();
        assert!(!cards.is_empty() && cards.len() <= 2);
    }
    assert!(Deck::deal(0).cards().is_empty());
}

#[test]
fn fresh_hand_has_up_to_two_cards() {
    assert_eq!(HAND_SIZE, 2);
    for _ in 0..50 {
        let n = Deck::deal_hand().cards().len();
        assert!(n == 1 || n == 2);
    }
}
