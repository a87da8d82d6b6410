//! A hand of cards ("deck"), held as a hash set of card codes.

use vstd::prelude::*;
use crate::card::{Card, card_code, lemma_card_code};

verus! {

/// A hash set of card codes, kept in a `hashish::HashSet`.
#[verifier::external_body]
pub struct CardSet {
    set: hashish::HashSet<u8>,
}

/// The codes that a `CardSet` holds.
pub uninterp spec fn set_codes(s: CardSet) -> Set<u8>;

impl CardSet {
    /// Relies on `hashish::HashSet::new`: an empty set.
    #[verifier::external_body]
    fn new() -> (r: CardSet)
        ensures
            set_codes(r) == Set::<u8>::empty(),
    {
        CardSet { set: hashish::HashSet::new() }
    }

    /// Relies on `hashish::HashSet::insert`: the code is in the set afterwards,
    /// nothing else changes, and the result says whether it was new.
    #[verifier::external_body]
    fn insert(&mut self, code: u8) -> (r: bool)
        ensures
            set_codes(*final(self)) == set_codes(*old(self)).insert(code),
            r == !set_codes(*old(self)).contains(code),
    {
        self.set.insert(code)
    }

    /// Relies on `hashish::HashSet::contains`: membership of a code.
    #[verifier::external_body]
    fn contains(&self, code: u8) -> (r: bool)
        ensures
            r == set_codes(*self).contains(code),
    {
        self.set.contains(&code)
    }
}

/// The cards whose codes a set of codes holds.
pub open spec fn cards_of_codes(s: Set<u8>) -> Set<Card> {
    Set::new(|c: Card| s.contains(card_code(c) as u8))
}

/// The distinct cards of `s`, each at its first occurrence.
pub open spec fn first_occurrences(s: Seq<Card>) -> Seq<Card>
    decreases s.len(),
{
    if s.len() == 0 {
        Seq::<Card>::empty()
    } else {
        let prev = first_occurrences(s.drop_last());
        if prev.contains(s.last()) {
            prev
        } else {
            prev.push(s.last())
        }
    }
}

/// The number of cards in a freshly dealt hand.
pub const HAND_SIZE: usize = 2;

/// A hand of cards. Two equal cards count once; the hand remembers the order
/// in which its distinct cards first came in.
pub struct Deck {
    cards: CardSet,
    order: Vec<Card>,
}

impl View for Deck {
    type V = Set<Card>;

    closed spec fn view(&self) -> Set<Card> {
        cards_of_codes(set_codes(self.cards))
    }
}

impl Deck {
    /// Every code held is the code of a card, and the order lists each card
    /// of the hand exactly once.
    pub closed spec fn wf(&self) -> bool {
        &&& forall|k: u8| set_codes(self.cards).contains(k) ==> k < 52
        &&& self.order@.no_duplicates()
        &&& forall|c: Card| #[trigger] self.order@.contains(c) <==> self@.contains(c)
    }

    /// The distinct cards of the hand in the order they first came in.
    pub closed spec fn order(&self) -> Seq<Card> {
        self.order@
    }

    /// The order of a hand lists each of its cards exactly once.
    pub proof fn lemma_order_is_hand(&self)
        requires
            self.wf(),
        ensures
            self.order().no_duplicates(),
            self.order().to_set() == self@,
    {
        assert(self.order().to_set() =~= self@);
    }

    /// The empty hand.
    pub fn empty() -> (r: Deck)
        ensures
            r.wf(),
            r@ == Set::<Card>::empty(),
            r.order() == Seq::<Card>::empty(),
    {
        let r = Deck { cards: CardSet::new(), order: Vec::new() };
        assert(r@ =~= Set::<Card>::empty());
        assert(r.order@ =~= Seq::<Card>::empty());
        r
    }

    /// Adds a card to the hand; returns whether it was not there yet. A new
    /// card goes to the end of the order.
    pub fn insert(&mut self, card: Card) -> (r: bool)
        requires
            old(self).wf(),
        ensures
            final(self).wf(),
            final(self)@ == old(self)@.insert(card),
            r == !old(self)@.contains(card),
            final(self).order() == if r {
                old(self).order().push(card)
            } else {
                old(self).order()
            },
    {
        proof {
            lemma_card_code(card);
        }
        let code = card.code();
        let r = self.cards.insert(code);
        if r {
            self.order.push(card);
        }
        proof {
            assert forall|c: Card| #[trigger] self@.contains(c) == old(self)@.insert(card).contains(c) by {
                crate::card::lemma_card_code_injective(c, card);
                lemma_card_code(c);
            }
            assert(self@ =~= old(self)@.insert(card));
            if r {
                assert(!old(self).order@.contains(card));
                assert(self.order@ == old(self).order@.push(card));
                assert forall|i: int, j: int|
                    0 <= i < self.order@.len() && 0 <= j < self.order@.len() && i != j
                    implies self.order@[i] != self.order@[j] by {
                    if i == self.order@.len() - 1 {
                        assert(old(self).order@.contains(self.order@[j]) || j == i);
                    } else if j == self.order@.len() - 1 {
                        assert(old(self).order@.contains(self.order@[i]));
                    }
                }
                assert forall|c: Card| #[trigger] self.order@.contains(c) <==> self@.contains(c) by {
                    if self.order@.contains(c) && c != card {
                        let i = choose|i: int| 0 <= i < self.order@.len() && self.order@[i] == c;
                        assert(old(self).order@[i] == c);
                    }
                    if old(self).order@.contains(c) {
                        let i = choose|i: int| 0 <= i < old(self).order@.len() && old(self).order@[i] == c;
                        assert(self.order@[i] == c);
                    }
                    if c == card {
                        assert(self.order@[self.order@.len() - 1] == c);
                    }
                }
            }
        }
        r
    }

    /// The hand that holds exactly the given cards, ordered by their first
    /// occurrence in `cards`.
    pub fn new(cards: Vec<Card>) -> (r: Deck)
        ensures
            r.wf(),
            r@ == cards@.to_set(),
            r.order() == first_occurrences(cards@),
    {
        let mut deck = Deck::empty();
        let mut i: usize = 0;
        while i < cards.len()
            invariant
                i <= cards.len(),
                deck.wf(),
                deck@ == cards@.subrange(0, i as int).to_set(),
                deck.order() == first_occurrences(cards@.subrange(0, i as int)),
            decreases cards.len() - i,
        {
            proof {
                deck.lemma_order_is_hand();
            }
            deck.insert(cards[i]);
            proof {
                let s = cards@.subrange(0, i as int + 1);
                assert(s == cards@.subrange(0, i as int).push(cards@[i as int]));
                assert(s.drop_last() == cards@.subrange(0, i as int));
                cards@.subrange(0, i as int).lemma_push_to_set_commute(cards@[i as int]);
                assert(deck@ =~= s.to_set());
            }
            i = i + 1;
        }
        assert(cards@.subrange(0, i as int) == cards@);
        deck
    }

    /// Whether the hand holds the card.
    pub fn contains(&self, card: Card) -> (r: bool)
        ensures
            r == self@.contains(card),
    {
        let code = card.code();
        self.cards.contains(code)
    }

    /// The cards of the hand, each once, in the order they first came in.
    pub fn cards(&self) -> (r: Vec<Card>)
        ensures
            r@ == self.order(),
    {
        let mut out: Vec<Card> = Vec::new();
        let mut i: usize = 0;
        while i < self.order.len()
            invariant
                i <= self.order@.len(),
                out@ == self.order@.subrange(0, i as int),
            decreases self.order@.len() - i,
        {
            out.push(self.order[i]);
            i = i + 1;
        }
        assert(out@ == self.order@.subrange(0, i as int));
        assert(self.order@.subrange(0, i as int) =~= self.order@);
        out
    }

    /// A hand of `count` cards drawn at random; equal draws count once.
    pub fn deal(count: usize) -> (r: Deck)
        ensures
            r.wf(),
            exists|drawn: Seq<Card>|
                drawn.len() == count && r@ == drawn.to_set() && r.order() == first_occurrences(drawn),
    {
        let mut drawn: Vec<Card> = Vec::new();
        let mut i: usize = 0;
        while i < count
            invariant
                i <= count,
                drawn@.len() == i,
            decreases count - i,
        {
            drawn.push(Card::random());
            i = i + 1;
        }
        let r = Deck::new(drawn);
        assert(r@ == drawn@.to_set() && r.order() == first_occurrences(drawn@));
        r
    }

    /// A fresh hand of `HAND_SIZE` random cards; equal draws count once.
    pub fn deal_hand() -> (r: Deck)
        ensures
            r.wf(),
            exists|drawn: Seq<Card>|
                drawn.len() == HAND_SIZE && r@ == drawn.to_set() && r.order() == first_occurrences(drawn),
    {
        Deck::deal(HAND_SIZE)
    }
}

} // verus!
