//! What the player can ask of the game, and the keys that ask it.

use vstd::prelude::*;

use crate::Direction;

verus! {

/// A key press, as far as the game tells keys apart.
#[derive(PartialEq, Eq, Debug, Clone, Copy, Structural)]
pub enum Key {
    /// A key that types a character.
    Char(char),
    Left,
    Right,
    Up,
    Down,
    /// Any other key.
    Other,
}

/// One item of the input: nothing to do, a request to quit, or a new
/// direction for the snake.
#[derive(PartialEq, Eq, Debug, Clone, Copy, Structural)]
pub enum Event {
    /// Nothing to do.
    Idle,
    Quit,
    Direction(Direction),
}

impl Event {
    /// What a key asks for: `q` quits; the arrow keys and `h`, `j`, `k`, `l`
    /// steer left, down, up and right; every other key asks for nothing.
    pub open spec fn of_key(key: Key) -> Event {
        if key == Key::Char('q') {
            Event::Quit
        } else if key == Key::Char('h') || key == Key::Left {
            Event::Direction(Direction::Left)
        } else if key == Key::Char('j') || key == Key::Down {
            Event::Direction(Direction::Down)
        } else if key == Key::Char('k') || key == Key::Up {
            Event::Direction(Direction::Up)
        } else if key == Key::Char('l') || key == Key::Right {
            Event::Direction(Direction::Right)
        } else {
            Event::Idle
        }
    }

    /// Classifies a key press.
    pub fn from_key(key: Key) -> (event: Event)
        ensures
            event == Event::of_key(key),
    {
        match key {
            Key::Char('q') => Event::Quit,
            Key::Char('h') | Key::Left => Event::Direction(Direction::Left),
            Key::Char('j') | Key::Down => Event::Direction(Direction::Down),
            Key::Char('k') | Key::Up => Event::Direction(Direction::Up),
            Key::Char('l') | Key::Right => Event::Direction(Direction::Right),
            _ => Event::Idle,
        }
    }
}

} // verus!
