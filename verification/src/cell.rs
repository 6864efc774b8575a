//! One canvas cell: four edge flags and the box-drawing glyph they select.

use vstd::prelude::*;

use crate::command::Command;

verus! {

/// The edge record of one grid cell. Each flag means "a drawn line segment
/// exits this cell toward that side". A record with all flags false is
/// semantically empty and renders as a blank.
#[derive(PartialEq, Eq, Structural, Copy, Clone, Debug)]
pub struct Cell {
    pub top: bool,
    pub right: bool,
    pub bottom: bool,
    pub left: bool,
}

/// The all-false edge record.
pub open spec fn blank_cell() -> Cell {
    Cell { top: false, right: false, bottom: false, left: false }
}

/// Whether a cell has at least one edge flag set, i.e. is visible.
pub open spec fn has_edge(c: Cell) -> bool {
    c.top || c.right || c.bottom || c.left
}

/// `c` with the flag for direction `d` set; `CLEAR` changes nothing.
pub open spec fn with_flag(c: Cell, d: Command) -> Cell {
    match d {
        Command::UP => Cell { top: true, ..c },
        Command::RIGHT => Cell { right: true, ..c },
        Command::DOWN => Cell { bottom: true, ..c },
        Command::LEFT => Cell { left: true, ..c },
        Command::CLEAR => c,
    }
}

/// The flag of `c` for direction `d` (`false` for `CLEAR`).
pub open spec fn flag_of(c: Cell, d: Command) -> bool {
    match d {
        Command::UP => c.top,
        Command::RIGHT => c.right,
        Command::DOWN => c.bottom,
        Command::LEFT => c.left,
        Command::CLEAR => false,
    }
}

/// The glyph a cell displays as, determined by its four edge flags alone.
/// Three- and four-sided records give tees and the cross; two adjacent
/// sides give a corner; anything touching only the vertical axis draws the
/// vertical bar, only the horizontal axis the horizontal bar; an empty
/// record is blank. All sixteen flag combinations are covered.
pub open spec fn glyph_of(c: Cell) -> char {
    if c.top && c.right && c.bottom && c.left {
        '┼'
    } else if c.top && c.right && c.bottom {
        '├'
    } else if c.right && c.bottom && c.left {
        '┬'
    } else if c.top && c.bottom && c.left {
        '┤'
    } else if c.top && c.right && c.left {
        '┴'
    } else if c.top && c.right {
        '└'
    } else if c.right && c.bottom {
        '┌'
    } else if c.bottom && c.left {
        '┐'
    } else if c.top && c.left {
        '┘'
    } else if c.top || c.bottom {
        '│'
    } else if c.right || c.left {
        '─'
    } else {
        ' '
    }
}

/// Every one of the sixteen flag combinations maps to exactly one defined
/// glyph: `glyph_of` is total, and a cell with an edge is never blank.
pub proof fn lemma_glyph_totality(c: Cell)
    ensures
        glyph_of(c) == '┼' || glyph_of(c) == '├' || glyph_of(c) == '┬' || glyph_of(c) == '┤'
            || glyph_of(c) == '┴' || glyph_of(c) == '└' || glyph_of(c) == '┌' || glyph_of(c)
            == '┐' || glyph_of(c) == '┘' || glyph_of(c) == '│' || glyph_of(c) == '─' || glyph_of(c)
            == ' ',
        glyph_of(c) == ' ' <==> !has_edge(c),
{
}

impl Cell {
    /// Sets the edge flag for `command`'s direction (`CLEAR` is ignored) and
    /// returns the updated record.
    pub fn modify_with_command(&mut self, command: Command) -> (r: Self)
        ensures
            *final(self) == with_flag(*old(self), command),
            r == *final(self),
    {
        match command {
            Command::UP => self.top = true,
            Command::RIGHT => self.right = true,
            Command::DOWN => self.bottom = true,
            Command::LEFT => self.left = true,
            _ => (),
        }
        *self
    }

    /// The glyph this cell displays as.
    pub fn to_glyph(&self) -> (r: char)
        ensures
            r == glyph_of(*self),
    {
        if self.top && self.right && self.bottom && self.left {
            '┼'
        } else if self.top && self.right && self.bottom {
            '├'
        } else if self.right && self.bottom && self.left {
            '┬'
        } else if self.top && self.bottom && self.left {
            '┤'
        } else if self.top && self.right && self.left {
            '┴'
        } else if self.top && self.right {
            '└'
        } else if self.right && self.bottom {
            '┌'
        } else if self.bottom && self.left {
            '┐'
        } else if self.top && self.left {
            '┘'
        } else if self.top || self.bottom {
            '│'
        } else if self.right || self.left {
            '─'
        } else {
            ' '
        }
    }
}

impl core::default::Default for Cell {
    /// The empty record: no edges drawn.
    fn default() -> (r: Self)
        ensures
            r == blank_cell(),
    {
        Cell { top: false, right: false, bottom: false, left: false }
    }
}

} // verus!
