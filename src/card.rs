//! Playing cards: ranks, suits, their labels, and uniform random draws.

use vstd::prelude::*;

verus! {

/// One of the thirteen card ranks.
#[derive(Debug, Clone, Copy, PartialEq, Eq, Structural)]
pub enum Value {
    Ace,
    Two,
    Three,
    Four,
    Five,
    Six,
    Seven,
    Eight,
    Nine,
    Ten,
    Jack,
    Queen,
    King,
}

/// One of the four suits.
#[derive(Debug, Clone, Copy, PartialEq, Eq, Structural)]
pub enum Suit {
    Clubs,
    Diamonds,
    Hearts,
    Spades,
}

/// The display colour class of a suit.
#[derive(Debug, Clone, Copy, PartialEq, Eq, Structural)]
pub enum SuitColor {
    White,
    Red,
}

/// A playing card: exactly one rank and one suit.
#[derive(Debug, Clone, Copy, PartialEq, Eq, Structural)]
pub struct Card {
    pub suit: Suit,
    pub value: Value,
}

/// Position of a rank in the order Ace, Two, ..., King (0 to 12).
pub open spec fn rank_index(v: Value) -> nat {
    match v {
        Value::Ace => 0,
        Value::Two => 1,
        Value::Three => 2,
        Value::Four => 3,
        Value::Five => 4,
        Value::Six => 5,
        Value::Seven => 6,
        Value::Eight => 7,
        Value::Nine => 8,
        Value::Ten => 9,
        Value::Jack => 10,
        Value::Queen => 11,
        Value::King => 12,
    }
}

/// Position of a suit in the order Clubs, Diamonds, Hearts, Spades (0 to 3).
pub open spec fn suit_index(s: Suit) -> nat {
    match s {
        Suit::Clubs => 0,
        Suit::Diamonds => 1,
        Suit::Hearts => 2,
        Suit::Spades => 3,
    }
}

/// The rank at a position (the inverse of `rank_index` below 13).
pub open spec fn rank_at(i: nat) -> Value {
    if i == 0 {
        Value::Ace
    } else if i == 1 {
        Value::Two
    } else if i == 2 {
        Value::Three
    } else if i == 3 {
        Value::Four
    } else if i == 4 {
        Value::Five
    } else if i == 5 {
        Value::Six
    } else if i == 6 {
        Value::Seven
    } else if i == 7 {
        Value::Eight
    } else if i == 8 {
        Value::Nine
    } else if i == 9 {
        Value::Ten
    } else if i == 10 {
        Value::Jack
    } else if i == 11 {
        Value::Queen
    } else {
        Value::King
    }
}

/// The suit at a position (the inverse of `suit_index` below 4).
pub open spec fn suit_at(i: nat) -> Suit {
    if i == 0 {
        Suit::Clubs
    } else if i == 1 {
        Suit::Diamonds
    } else if i == 2 {
        Suit::Hearts
    } else {
        Suit::Spades
    }
}

/// The fixed point value of a rank: Ace 1, Two to Nine their number,
/// Ten and the face cards 10.
pub open spec fn rank_points(v: Value) -> nat {
    if rank_index(v) >= 9 {
        10
    } else {
        rank_index(v) + 1
    }
}

/// The short label of a rank: "A", "2" to "10", "J", "Q", "K".
pub open spec fn rank_label(v: Value) -> Seq<char> {
    match v {
        Value::Ace => "A"@,
        Value::Two => "2"@,
        Value::Three => "3"@,
        Value::Four => "4"@,
        Value::Five => "5"@,
        Value::Six => "6"@,
        Value::Seven => "7"@,
        Value::Eight => "8"@,
        Value::Nine => "9"@,
        Value::Ten => "10"@,
        Value::Jack => "J"@,
        Value::Queen => "Q"@,
        Value::King => "K"@,
    }
}

/// The symbol of a suit.
pub open spec fn suit_label(s: Suit) -> Seq<char> {
    match s {
        Suit::Clubs => "\u{2663}"@,
        Suit::Diamonds => "\u{2666}"@,
        Suit::Hearts => "\u{2665}"@,
        Suit::Spades => "\u{2660}"@,
    }
}

/// Hearts and Diamonds are red; Clubs and Spades are white.
pub open spec fn suit_color_of(s: Suit) -> SuitColor {
    match s {
        Suit::Hearts | Suit::Diamonds => SuitColor::Red,
        Suit::Clubs | Suit::Spades => SuitColor::White,
    }
}

/// The code of a card: `4 * rank_index + suit_index`, one of 0 to 51.
pub open spec fn card_code(c: Card) -> nat {
    4 * rank_index(c.value) + suit_index(c.suit)
}

/// The card with a given code (the inverse of `card_code` below 52).
pub open spec fn card_of_code(k: nat) -> Card {
    Card { suit: suit_at(k % 4), value: rank_at(k / 4) }
}

/// Every card code lies below 52, and decoding it gives the card back.
pub proof fn lemma_card_code(c: Card)
    ensures
        card_code(c) < 52,
        card_of_code(card_code(c)) == c,
{
    let k = card_code(c);
    assert(k % 4 == suit_index(c.suit));
    assert(k / 4 == rank_index(c.value));
}

/// Two cards with the same code are the same card.
pub proof fn lemma_card_code_injective(a: Card, b: Card)
    ensures
        card_code(a) == card_code(b) <==> a == b,
{
    lemma_card_code(a);
    lemma_card_code(b);
}

/// Labels tell ranks apart: no two distinct ranks share a label.
pub proof fn lemma_rank_label_injective(a: Value, b: Value)
    ensures
        rank_label(a) == rank_label(b) <==> a == b,
{
    reveal_strlit("A");
    reveal_strlit("2");
    reveal_strlit("3");
    reveal_strlit("4");
    reveal_strlit("5");
    reveal_strlit("6");
    reveal_strlit("7");
    reveal_strlit("8");
    reveal_strlit("9");
    reveal_strlit("10");
    reveal_strlit("J");
    reveal_strlit("Q");
    reveal_strlit("K");
    if rank_label(a) == rank_label(b) {
        assert(rank_label(a)[0] == rank_label(b)[0]);
        assert(rank_label(a).len() == rank_label(b).len());
    }
}

/// Symbols tell suits apart: no two distinct suits share a symbol.
pub proof fn lemma_suit_label_injective(a: Suit, b: Suit)
    ensures
        suit_label(a) == suit_label(b) <==> a == b,
{
    reveal_strlit("\u{2663}");
    reveal_strlit("\u{2666}");
    reveal_strlit("\u{2665}");
    reveal_strlit("\u{2660}");
    if suit_label(a) == suit_label(b) {
        assert(suit_label(a)[0] == suit_label(b)[0]);
    }
}

impl Value {
    /// The fixed point value of this rank.
    pub fn points(&self) -> (r: u8)
        ensures
            r as nat == rank_points(*self),
            1 <= r <= 10,
    {
        match self {
            Value::Ace => 1,
            Value::Two => 2,
            Value::Three => 3,
            Value::Four => 4,
            Value::Five => 5,
            Value::Six => 6,
            Value::Seven => 7,
            Value::Eight => 8,
            Value::Nine => 9,
            Value::Ten | Value::Jack | Value::Queen | Value::King => 10,
        }
    }

    /// The short label of this rank.
    pub fn label(&self) -> (r: &'static str)
        ensures
            r@ == rank_label(*self),
    {
        match self {
            Value::Ace => "A",
            Value::Two => "2",
            Value::Three => "3",
            Value::Four => "4",
            Value::Five => "5",
            Value::Six => "6",
            Value::Seven => "7",
            Value::Eight => "8",
            Value::Nine => "9",
            Value::Ten => "10",
            Value::Jack => "J",
            Value::Queen => "Q",
            Value::King => "K",
        }
    }
}

impl Suit {
    /// The symbol of this suit.
    pub fn label(&self) -> (r: &'static str)
        ensures
            r@ == suit_label(*self),
    {
        match self {
            Suit::Clubs => "\u{2663}",
            Suit::Diamonds => "\u{2666}",
            Suit::Hearts => "\u{2665}",
            Suit::Spades => "\u{2660}",
        }
    }

    /// The display colour class of this suit.
    pub fn color(&self) -> (r: SuitColor)
        ensures
            r == suit_color_of(*self),
    {
        match self {
            Suit::Hearts | Suit::Diamonds => SuitColor::Red,
            Suit::Clubs | Suit::Spades => SuitColor::White,
        }
    }

    /// The suit at position `i` in the order Clubs, Diamonds, Hearts, Spades.
    pub fn from_index(i: u8) -> (r: Suit)
        requires
            i < 4,
        ensures
            r == suit_at(i as nat),
            suit_index(r) == i,
    {
        if i == 0 {
            Suit::Clubs
        } else if i == 1 {
            Suit::Diamonds
        } else if i == 2 {
            Suit::Hearts
        } else {
            Suit::Spades
        }
    }

    /// The position of this suit (0 to 3).
    pub fn index(&self) -> (r: u8)
        ensures
            r as nat == suit_index(*self),
            r < 4,
    {
        match self {
            Suit::Clubs => 0,
            Suit::Diamonds => 1,
            Suit::Hearts => 2,
            Suit::Spades => 3,
        }
    }

    /// A suit drawn uniformly at random.
    pub fn random() -> (r: Suit) {
        let i = draw_below(4);
        Suit::from_index(i)
    }
}

impl Value {
    /// The rank at position `i` in the order Ace, Two, ..., King.
    pub fn from_index(i: u8) -> (r: Value)
        requires
            i < 13,
        ensures
            r == rank_at(i as nat),
            rank_index(r) == i,
    {
        if i == 0 {
            Value::Ace
        } else if i == 1 {
            Value::Two
        } else if i == 2 {
            Value::Three
        } else if i == 3 {
            Value::Four
        } else if i == 4 {
            Value::Five
        } else if i == 5 {
            Value::Six
        } else if i == 6 {
            Value::Seven
        } else if i == 7 {
            Value::Eight
        } else if i == 8 {
            Value::Nine
        } else if i == 9 {
            Value::Ten
        } else if i == 10 {
            Value::Jack
        } else if i == 11 {
            Value::Queen
        } else {
            Value::King
        }
    }

    /// The position of this rank (0 to 12).
    pub fn index(&self) -> (r: u8)
        ensures
            r as nat == rank_index(*self),
            r < 13,
    {
        match self {
            Value::Ace => 0,
            Value::Two => 1,
            Value::Three => 2,
            Value::Four => 3,
            Value::Five => 4,
            Value::Six => 5,
            Value::Seven => 6,
            Value::Eight => 7,
            Value::Nine => 8,
            Value::Ten => 9,
            Value::Jack => 10,
            Value::Queen => 11,
            Value::King => 12,
        }
    }

    /// Whether this rank is the Ace.
    pub fn is_ace(&self) -> (r: bool)
        ensures
            r == (*self == Value::Ace),
    {
        match self {
            Value::Ace => true,
            _ => false,
        }
    }

    /// A rank drawn uniformly at random.
    pub fn random() -> (r: Value) {
        let i = draw_below(13);
        Value::from_index(i)
    }
}

impl Card {
    /// The card of the given rank and suit.
    pub fn new(value: Value, suit: Suit) -> (r: Card)
        ensures
            r.value == value,
            r.suit == suit,
    {
        Card { suit, value }
    }

    /// The code of this card, `4 * rank position + suit position`.
    pub fn code(&self) -> (r: u8)
        ensures
            r as nat == card_code(*self),
            r < 52,
    {
        4 * self.value.index() + self.suit.index()
    }

    /// The card with code `k`.
    pub fn from_code(k: u8) -> (r: Card)
        requires
            k < 52,
        ensures
            r == card_of_code(k as nat),
            card_code(r) == k,
    {
        Card { suit: Suit::from_index(k % 4), value: Value::from_index(k / 4) }
    }

    /// A card whose rank and suit are drawn uniformly and independently.
    pub fn random() -> (r: Card) {
        let suit = Suit::random();
        let value = Value::random();
        Card { suit, value }
    }
}

/// Relies on rand's `rng()` and `Rng::random_range`: a number drawn from
/// `0..n`, which panics only on an empty range.
#[verifier::external_body]
fn draw_below(n: u8) -> (r: u8)
    requires
        n > 0,
    ensures
        r < n,
{
    rand::Rng::random_range(&mut rand::rng(), 0..n)
}

} // verus!
