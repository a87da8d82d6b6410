//! A small Blackjack hand model: cards, hands, and the hand total under the
//! greedy soft/hard Ace rule.

pub mod card;
pub mod deck;
pub mod blackjack;
pub mod face;
pub mod layout;
pub mod control;
