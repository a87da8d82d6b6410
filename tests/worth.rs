use blank_jack::blackjack::Worth;
use blank_jack::card::{Card, Suit, Value};
use blank_jack::deck::Deck;

fn card(value: Value, suit: Suit) -> Card {
    Card::new(value, suit)
}

#[test]
fn empty_hand_is_worth_zero() {
    assert_eq!(Deck::empty().worth(), 0);
    assert_eq!(Deck::new(vec![]).worth(), 0);
}

#[test]
fn single_ace_is_worth_eleven() {
    let d = Deck::new(vec![card(Value::Ace, Suit::Spades)]);
    assert_eq!(d.worth(), 11);
}

#[test]
fn ace_and_king_make_twenty_one() {
    let d = Deck::new(vec![card(Value::Ace, Suit::Hearts), card(Value::King, Suit::Clubs)]);
    assert_eq!(d.worth(), 21);
}

#[test]
fn ace_and_two_kings_make_twenty_one() {
    let d = Deck::new(vec![
        card(Value::Ace, Suit::Hearts),
        card(Value::King, Suit::Clubs),
        card(Value::King, Suit::Spades),
    ]);
    assert_eq!(d.worth(), 21);
}

#[test]
fn two_aces_make_twelve() {
    let d = Deck::new(vec![card(Value::Ace, Suit::Hearts), card(Value::Ace, Suit::Clubs)]);
    assert_eq!(d.worth(), 12);
}

#[test]
fn two_aces_and_a_ten_stay_greedy_in_every_order() {
    let a = card(Value::Ace, Suit::Hearts);
    let b = card(Value::Ace, Suit::Diamonds);
    let t = card(Value::Ten, Suit::Spades);
    let orders = vec![
        vec![a, b, t],
        vec![a, t, b],
        vec![b, a, t],
        vec![b, t, a],
        vec![t, a, b],
        vec![t, b, a],
    ];
    for order in orders {
        assert_eq!(Deck::new(order).worth(), 22);
    }
}

#[test]
fn hand_without_aces_sums_card_values() {
    let cards = vec![
        card(Value::Two, Suit::Clubs),
        card(Value::Seven, Suit::Hearts),
        card(Value::Queen, Suit::Diamonds),
        card(Value::Jack, Suit::Spades),
        card(Value::Ten, Suit::Hearts),
        card(Value::Nine, Suit::Clubs),
    ];
    let sum: usize = cards.iter().map(|c| c.worth()).sum();
    assert_eq!(sum, 2 + 7 + 10 + 10 + 10 + 9);
    assert_eq!(Deck::new(cards).worth(), 48);
}

#[test]
fn every_card_alone_counts_its_fixed_value() {
    let expected = [1usize, 2, 3, 4, 5, 6, 7, 8, 9, 10, 10, 10, 10];
    for (i, want) in expected.iter().enumerate() {
        let v = Value::from_index(i as u8);
        let c = card(v, Suit::Clubs);
        assert_eq!(c.worth(), *want);
        assert_eq!(v.points() as usize, *want);
    }
}

#[test]
fn ace_counts_one_once_total_passes_ten() {
    let d = Deck::new(vec![
        card(Value::Ace, Suit::Clubs),
        card(Value::Six, Suit::Hearts),
        card(Value::Five, Suit::Hearts),
    ]);
    assert_eq!(d.worth(), 12);
    let d = Deck::new(vec![card(Value::Ace, Suit::Clubs), card(Value::Nine, Suit::Hearts)]);
    assert_eq!(d.worth(), 20);
}

#[test]
fn four_aces_and_full_deck() {
    let aces = vec![
        card(Value::Ace, Suit::Clubs),
        card(Value::Ace, Suit::Diamonds),
        card(Value::Ace, Suit::Hearts),
        card(Value::Ace, Suit::Spades),
    ];
    assert_eq!(Deck::new(aces).worth(), 14);
    let mut all = Vec::new();
    for k in 0..52u8 {
        all.push(Card::from_code(k));
    }
    // 4 * (2 + ... + 9) + 16 * 10 = 336, then the four Aces count 1 each.
    assert_eq!(Deck::new(all).worth(), 340);
}

#[test]
fn equal_cards_count_once() {
    let k = card(Value::King, Suit::Clubs);
    let d = Deck::new(vec![k, k, k]);
    assert_eq!(d.worth(), 10);
    assert_eq!(d.cards(), vec![k]);
    let mut d = Deck::empty();
    assert!(d.insert(k));
    assert!(!d.insert(k));
    assert!(d.contains(k));
    assert!(!d.contains(card(Value::King, Suit::Hearts)));
}

#[test]
fn cards_come_out_in_insertion_order() {
    let a = card(Value::King, Suit::Spades);
    let b = card(Value::Ace, Suit::Hearts);
    let c = card(Value::Five, Suit::Clubs);
    let d = Deck::new(vec![a, b, c]);
    assert_eq!(d.cards(), vec![a, b, c]);
    let d = Deck::new(vec![c, a, c, b, a]);
    assert_eq!(d.cards(), vec![c, a, b]);
    let mut d = Deck::empty();
    assert!(d.insert(b));
    assert!(d.insert(a));
    assert!(!d.insert(b));
    assert_eq!(d.cards(), vec![b, a]);
}
