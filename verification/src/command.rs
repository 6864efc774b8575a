//! The directional and clear commands a drawing session accepts.

use vstd::prelude::*;

verus! {

/// One recognised command: a single-step movement direction, or the request
/// to clear the canvas.
#[derive(PartialEq, Eq, Structural, Copy, Clone, Debug)]
pub enum Command {
    UP,
    DOWN,
    LEFT,
    RIGHT,
    CLEAR,
}

/// The single-character code a command is saved as.
pub open spec fn char_of(c: Command) -> char {
    match c {
        Command::UP => 'W',
        Command::LEFT => 'A',
        Command::DOWN => 'S',
        Command::RIGHT => 'D',
        Command::CLEAR => 'C',
    }
}

/// The command a single (already upper-cased) movement character stands for.
/// Characters outside `W`, `A`, `S`, `D` are no movement and yield `None`;
/// in particular `C` is a whole-line command, not a movement character.
pub open spec fn command_of_char(c: char) -> Option<Command> {
    match c {
        'W' => Some(Command::UP),
        'A' => Some(Command::LEFT),
        'S' => Some(Command::DOWN),
        'D' => Some(Command::RIGHT),
        _ => None,
    }
}

/// The direction a drawn segment enters the destination cell from: the
/// reverse of the direction it was drawn in. `CLEAR` has no opposite.
pub open spec fn opposite_of(c: Command) -> Command
    recommends
        c is UP || c is DOWN || c is LEFT || c is RIGHT,
{
    match c {
        Command::UP => Command::DOWN,
        Command::DOWN => Command::UP,
        Command::LEFT => Command::RIGHT,
        Command::RIGHT => Command::LEFT,
        Command::CLEAR => Command::CLEAR,
    }
}

impl Command {
    /// Whether this command is a movement direction (everything but `CLEAR`).
    pub open spec fn is_movement(self) -> bool {
        self != Command::CLEAR
    }

    /// The single-character code this command is saved as.
    pub fn to_char(&self) -> (r: char)
        ensures
            r == char_of(*self),
    {
        match self {
            Command::UP => 'W',
            Command::LEFT => 'A',
            Command::DOWN => 'S',
            Command::RIGHT => 'D',
            Command::CLEAR => 'C',
        }
    }

    /// The opposite movement direction, or `None` for `CLEAR`.
    pub fn opposite(&self) -> (r: Option<Command>)
        ensures
            self.is_movement() ==> r == Some(opposite_of(*self)),
            !self.is_movement() ==> r is None,
    {
        match self {
            Command::UP => Some(Command::DOWN),
            Command::DOWN => Some(Command::UP),
            Command::LEFT => Some(Command::RIGHT),
            Command::RIGHT => Some(Command::LEFT),
            _ => None,
        }
    }

    /// Parses one movement character (upper-cased input) into its command.
    pub fn from_char(c: char) -> (r: Option<Command>)
        ensures
            r == command_of_char(c),
    {
        match c {
            'W' => Some(Command::UP),
            'A' => Some(Command::LEFT),
            'S' => Some(Command::DOWN),
            'D' => Some(Command::RIGHT),
            _ => None,
        }
    }
}

} // verus!
