//! What each key does in the interactive loop.

use vstd::prelude::*;
use crate::blackjack::Action;

verus! {

/// A key press, reduced to what the loop tells apart.
#[derive(Debug, Clone, Copy, PartialEq, Eq, Structural)]
pub enum Key {
    Char(char),
    Enter,
    Other,
}

/// What the loop does in answer to a key.
#[derive(Debug, Clone, Copy, PartialEq, Eq, Structural)]
pub enum Command {
    /// Leave the loop.
    Quit,
    /// Deal a fresh hand.
    Shuffle,
    /// A move of the player; accepted, with no effect yet.
    Play(Action),
    /// Nothing.
    Ignore,
}

/// The command bound to a key: `q` quits, Enter deals again, `a`, `d`, `s`
/// and `f` are Hit, Double, Split and Stand, and any other key is ignored.
pub open spec fn command_of(key: Key) -> Command {
    match key {
        Key::Char('q') => Command::Quit,
        Key::Char('a') => Command::Play(Action::Hit),
        Key::Char('d') => Command::Play(Action::Double),
        Key::Char('s') => Command::Play(Action::Split),
        Key::Char('f') => Command::Play(Action::Stand),
        Key::Enter => Command::Shuffle,
        _ => Command::Ignore,
    }
}

/// The command bound to a key.
pub fn command_for(key: Key) -> (r: Command)
    ensures
        r == command_of(key),
{
    match key {
        Key::Char('q') => Command::Quit,
        Key::Char('a') => Command::Play(Action::Hit),
        Key::Char('d') => Command::Play(Action::Double),
        Key::Char('s') => Command::Play(Action::Split),
        Key::Char('f') => Command::Play(Action::Stand),
        Key::Enter => Command::Shuffle,
        _ => Command::Ignore,
    }
}

} // verus!
