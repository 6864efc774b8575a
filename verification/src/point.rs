//! Grid positions and bounded single-step cursor movement.

use vstd::prelude::*;

use crate::command::{opposite_of, Command};

verus! {

/// One character cell of the viewport, identified by column `x` and row `y`.
#[derive(PartialEq, Eq, Structural, Copy, Clone, Debug, Hash)]
pub struct Point {
    pub x: i32,
    pub y: i32,
}

/// The largest column the cursor may occupy: the viewport keeps its last
/// column free.
pub open spec fn max_x(width: u16) -> int {
    width - 2
}

/// The largest row the cursor may occupy: the viewport reserves its trailing
/// rows for status text.
pub open spec fn max_y(height: u16) -> int {
    height - 6
}

/// Whether `p` lies inside the movement bounds of a `width` by `height`
/// viewport.
pub open spec fn in_bounds(p: Point, width: u16, height: u16) -> bool {
    0 <= p.x <= max_x(width) && 0 <= p.y <= max_y(height)
}

/// Whether a single step from `p` in direction `d` stays inside the
/// movement bounds. `CLEAR` is no direction and never moves.
pub open spec fn move_allowed(p: Point, d: Command, width: u16, height: u16) -> bool {
    match d {
        Command::UP => p.y > 0,
        Command::DOWN => p.y < max_y(height),
        Command::LEFT => p.x > 0,
        Command::RIGHT => p.x < max_x(width),
        Command::CLEAR => false,
    }
}

/// The position one step from `p` in direction `d`.
pub open spec fn stepped(p: Point, d: Command) -> Point
    recommends
        d.is_movement(),
{
    match d {
        Command::UP => Point { x: p.x, y: (p.y - 1) as i32 },
        Command::DOWN => Point { x: p.x, y: (p.y + 1) as i32 },
        Command::LEFT => Point { x: (p.x - 1) as i32, y: p.y },
        Command::RIGHT => Point { x: (p.x + 1) as i32, y: p.y },
        Command::CLEAR => p,
    }
}

/// Where the cursor stands after attempting one step from `p` in direction
/// `d`: one step away if the bounds allow it, unchanged otherwise.
pub open spec fn move_result(p: Point, d: Command, width: u16, height: u16) -> Point {
    if move_allowed(p, d, width, height) {
        stepped(p, d)
    } else {
        p
    }
}

/// A move attempt never leaves the movement bounds: from any in-bounds
/// position, in any direction, the resulting position is in bounds again.
pub proof fn lemma_move_stays_in_bounds(p: Point, d: Command, width: u16, height: u16)
    requires
        width >= 2,
        height >= 6,
        in_bounds(p, width, height),
    ensures
        in_bounds(move_result(p, d, width, height), width, height),
{
}

/// Two moves in opposite directions cancel: whenever a step from `p` in
/// direction `d` is allowed, the opposite step is allowed from the new
/// position, and it returns the cursor to `p`.
pub proof fn lemma_opposite_moves_cancel(p: Point, d: Command, width: u16, height: u16)
    requires
        d.is_movement(),
        in_bounds(p, width, height),
        move_allowed(p, d, width, height),
    ensures
        move_allowed(stepped(p, d), opposite_of(d), width, height),
        stepped(stepped(p, d), opposite_of(d)) == p,
{
}

impl Point {
    /// Attempts one step in `command`'s direction, clamped to the movement
    /// bounds of a `width` by `height` viewport: the position changes along
    /// exactly one axis when the step is legal, and stays put otherwise.
    /// Returns whether the cursor moved.
    pub fn mve(&mut self, command: Command, width: u16, height: u16) -> (moved: bool)
        requires
            command.is_movement(),
            width >= 2,
            height >= 6,
        ensures
            moved == move_allowed(*old(self), command, width, height),
            *final(self) == move_result(*old(self), command, width, height),
    {
        let mut moved = false;
        if self.y > 0 && command == Command::UP {
            self.y = self.y - 1;
            moved = true;
        } else if self.y < (height - 6) as i32 && command == Command::DOWN {
            self.y = self.y + 1;
            moved = true;
        } else if self.x > 0 && command == Command::LEFT {
            self.x = self.x - 1;
            moved = true;
        } else if self.x < (width - 2) as i32 && command == Command::RIGHT {
            self.x = self.x + 1;
            moved = true;
        }
        moved
    }
}

} // verus!
