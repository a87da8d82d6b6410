//! Blackjack point totals: the fixed value of a card and the total of a hand
//! under the greedy soft/hard Ace rule.

use vstd::prelude::*;
use crate::card::{Card, Value, card_of_code, rank_points};
use crate::deck::Deck;

verus! {

/// The player's moves.
#[derive(Debug, Clone, Copy, PartialEq, Eq, Structural)]
pub enum Action {
    Hit,
    Double,
    Split,
    Stand,
}

/// Sum of the point values of the non-Ace cards of `h` whose code is below `n`.
pub open spec fn non_ace_points(h: Set<Card>, n: nat) -> nat
    decreases n,
{
    if n == 0 {
        0
    } else {
        let c = card_of_code((n - 1) as nat);
        non_ace_points(h, (n - 1) as nat) + if h.contains(c) && c.value != Value::Ace {
            rank_points(c.value)
        } else {
            0
        }
    }
}

/// Number of Aces of `h` whose code is below `n`.
pub open spec fn ace_count(h: Set<Card>, n: nat) -> nat
    decreases n,
{
    if n == 0 {
        0
    } else {
        let c = card_of_code((n - 1) as nat);
        ace_count(h, (n - 1) as nat) + if h.contains(c) && c.value == Value::Ace {
            1nat
        } else {
            0
        }
    }
}

/// Sum of the fixed point values of all cards of `h` whose code is below `n`.
pub open spec fn points_sum(h: Set<Card>, n: nat) -> nat
    decreases n,
{
    if n == 0 {
        0
    } else {
        let c = card_of_code((n - 1) as nat);
        points_sum(h, (n - 1) as nat) + if h.contains(c) {
            rank_points(c.value)
        } else {
            0
        }
    }
}

/// Adds `aces` Aces to a running total, one at a time: an Ace counts 11
/// while the total is at most 10, and 1 otherwise.
pub open spec fn resolve_aces(total: nat, aces: nat) -> nat
    decreases aces,
{
    if aces == 0 {
        total
    } else {
        resolve_aces(if total <= 10 { total + 11 } else { total + 1 }, (aces - 1) as nat)
    }
}

/// The Blackjack total of a hand: the non-Ace cards summed, then each Ace
/// resolved greedily against the running total.
pub open spec fn hand_worth(h: Set<Card>) -> nat {
    resolve_aces(non_ace_points(h, 52), ace_count(h, 52))
}

/// Below any bound, a hand without Aces has no Aces counted and its non-Ace
/// sum is the sum of all its cards.
proof fn lemma_sums_without_aces(h: Set<Card>, n: nat)
    requires
        forall|c: Card| h.contains(c) ==> c.value != Value::Ace,
    ensures
        ace_count(h, n) == 0,
        non_ace_points(h, n) == points_sum(h, n),
    decreases n,
{
    if n > 0 {
        lemma_sums_without_aces(h, (n - 1) as nat);
    }
}

/// A hand without Aces is worth exactly the sum of the fixed point values of
/// its cards.
pub proof fn lemma_worth_without_aces(h: Set<Card>)
    requires
        forall|c: Card| h.contains(c) ==> c.value != Value::Ace,
    ensures
        hand_worth(h) == points_sum(h, 52),
{
    lemma_sums_without_aces(h, 52);
}

/// The total of a hand built from a list of cards does not depend on the
/// order of that list: any reordering gives the same total.
pub proof fn lemma_worth_order_independent(a: Seq<Card>, b: Seq<Card>)
    requires
        a.to_multiset() == b.to_multiset(),
    ensures
        hand_worth(a.to_set()) == hand_worth(b.to_set()),
{
    assert forall|c: Card| a.to_set().contains(c) == b.to_set().contains(c) by {
        vstd::seq_lib::to_multiset_contains(a, c);
        vstd::seq_lib::to_multiset_contains(b, c);
    }
    assert(a.to_set() =~= b.to_set());
}

/// The point value that `Worth` computes.
pub trait Worth {
    spec fn worth_spec(&self) -> nat;

    fn worth(&self) -> (r: usize)
        ensures
            r as nat == self.worth_spec(),
    ;
}

impl Worth for Card {
    /// The fixed point value of the card's rank (an Ace alone counts 1).
    open spec fn worth_spec(&self) -> nat {
        rank_points(self.value)
    }

    fn worth(&self) -> (r: usize) {
        self.value.points() as usize
    }
}

impl Worth for Deck {
    open spec fn worth_spec(&self) -> nat {
        hand_worth(self@)
    }

    fn worth(&self) -> (r: usize) {
        let mut total: usize = 0;
        let mut aces: usize = 0;
        let mut k: u8 = 0;
        while k < 52
            invariant
                k <= 52,
                total as nat == non_ace_points(self@, k as nat),
                aces as nat == ace_count(self@, k as nat),
                total <= 10 * k,
                aces <= k,
            decreases 52 - k,
        {
            let card = Card::from_code(k);
            if self.contains(card) {
                if card.value.is_ace() {
                    aces = aces + 1;
                } else {
                    total = total + card.value.points() as usize;
                }
            }
            k = k + 1;
        }
        let mut i: usize = 0;
        while i < aces
            invariant
                i <= aces <= 52,
                total <= 520 + 11 * i,
                resolve_aces(total as nat, (aces - i) as nat) == hand_worth(self@),
            decreases aces - i,
        {
            if total <= 10 {
                total = total + 11;
            } else {
                total = total + 1;
            }
            i = i + 1;
        }
        total
    }
}

} // verus!
