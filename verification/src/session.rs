//! One drawing session: the cursor, the canvas and the command history,
//! driven by movement characters and the clear command.

use vstd::prelude::*;

use crate::canvas::{record_move_spec, Canvas};
use crate::cell::Cell;
use crate::command::{command_of_char, Command};
use crate::point::{move_allowed, move_result, stepped, Point};

verus! {

/// The session state after one input character `c` is processed: a movement
/// character is appended to the history and, when the bounds allow the step,
/// moves the cursor and records the drawn segment on both cells; any other
/// character changes nothing.
pub open spec fn step_state(
    cursor: Point,
    m: Map<Point, Cell>,
    hist: Seq<Command>,
    c: char,
    width: u16,
    height: u16,
) -> (Point, Map<Point, Cell>, Seq<Command>) {
    match command_of_char(c) {
        Some(d) => if move_allowed(cursor, d, width, height) {
            (stepped(cursor, d), record_move_spec(m, cursor, stepped(cursor, d), d), hist.push(d))
        } else {
            (cursor, m, hist.push(d))
        },
        None => (cursor, m, hist),
    }
}

/// The session state after a whole sequence of input characters, processed
/// left to right, each against the then-current cursor position.
pub open spec fn run_chars(
    cursor: Point,
    m: Map<Point, Cell>,
    hist: Seq<Command>,
    cs: Seq<char>,
    width: u16,
    height: u16,
) -> (Point, Map<Point, Cell>, Seq<Command>)
    decreases cs.len(),
{
    if cs.len() == 0 {
        (cursor, m, hist)
    } else {
        let prev = run_chars(cursor, m, hist, cs.drop_last(), width, height);
        step_state(prev.0, prev.1, prev.2, cs.last(), width, height)
    }
}

/// A drawing session: where the next stroke begins, what has been drawn,
/// and which commands were issued.
pub struct Session {
    /// Where the next stroke begins. Mutated only by successful moves;
    /// unaffected by clear.
    pub cursor: Point,
    /// The accumulated drawing.
    pub canvas: Canvas,
    /// Every recognised command, in issuance order — clear commands
    /// included, failed move attempts included.
    pub history: Vec<Command>,
}

impl Session {
    /// The canvas is well-formed.
    pub open spec fn wf(self) -> bool {
        self.canvas.wf()
    }

    /// A fresh session: cursor at the origin, nothing drawn, no history.
    pub fn new() -> (r: Session)
        ensures
            r.wf(),
            r.cursor == (Point { x: 0, y: 0 }),
            r.canvas@ == Map::<Point, Cell>::empty(),
            r.history@ == Seq::<Command>::empty(),
    {
        Session { cursor: Point { x: 0, y: 0 }, canvas: Canvas::new(), history: Vec::new() }
    }

    /// Clears the canvas and records that a clear was issued. The cursor
    /// stays where it is; the history keeps its record of the discarded
    /// drawing's commands.
    pub fn apply_clear(&mut self)
        requires
            old(self).wf(),
        ensures
            final(self).wf(),
            final(self).cursor == old(self).cursor,
            final(self).canvas@ == Map::<Point, Cell>::empty(),
            final(self).history@ == old(self).history@.push(Command::CLEAR),
    {
        self.canvas.clear();
        self.history.push(Command::CLEAR);
    }

    /// Attempts one movement: the command joins the history whether or not
    /// the step is legal; a legal step moves the cursor and records the
    /// drawn segment on the vacated and the occupied cell.
    pub fn apply_move(&mut self, d: Command, width: u16, height: u16) -> (moved: bool)
        requires
            old(self).wf(),
            d.is_movement(),
            width >= 2,
            height >= 6,
        ensures
            final(self).wf(),
            moved == move_allowed(old(self).cursor, d, width, height),
            final(self).cursor == move_result(old(self).cursor, d, width, height),
            final(self).history@ == old(self).history@.push(d),
            moved ==> final(self).canvas@ == record_move_spec(
                old(self).canvas@,
                old(self).cursor,
                stepped(old(self).cursor, d),
                d,
            ),
            !moved ==> final(self).canvas@ == old(self).canvas@,
    {
        self.history.push(d);
        let from = self.cursor;
        let moved = self.cursor.mve(d, width, height);
        if moved {
            self.canvas.record_move(from, self.cursor, d);
        }
        moved
    }

    /// Processes one line of (already upper-cased) input characters, left to
    /// right: each movement character causes one move-attempt-and-record
    /// cycle against the then-current cursor position; every other
    /// character is silently ignored.
    pub fn process_chars(&mut self, input: &Vec<char>, width: u16, height: u16)
        requires
            old(self).wf(),
            width >= 2,
            height >= 6,
        ensures
            final(self).wf(),
            final(self).cursor == run_chars(
                old(self).cursor,
                old(self).canvas@,
                old(self).history@,
                input@,
                width,
                height,
            ).0,
            final(self).canvas@ == run_chars(
                old(self).cursor,
                old(self).canvas@,
                old(self).history@,
                input@,
                width,
                height,
            ).1,
            final(self).history@ == run_chars(
                old(self).cursor,
                old(self).canvas@,
                old(self).history@,
                input@,
                width,
                height,
            ).2,
    {
        let ghost cursor0 = self.cursor;
        let ghost m0 = self.canvas@;
        let ghost hist0 = self.history@;
        let mut i: usize = 0;
        while i < input.len()
            invariant
                self.wf(),
                i <= input@.len(),
                width >= 2,
                height >= 6,
                self.cursor == run_chars(cursor0, m0, hist0, input@.take(i as int), width, height).0,
                self.canvas@ == run_chars(
                    cursor0,
                    m0,
                    hist0,
                    input@.take(i as int),
                    width,
                    height,
                ).1,
                self.history@ == run_chars(
                    cursor0,
                    m0,
                    hist0,
                    input@.take(i as int),
                    width,
                    height,
                ).2,
            decreases input@.len() - i,
        {
            proof {
                assert(input@.take(i + 1).drop_last() =~= input@.take(i as int));
                assert(input@.take(i + 1).last() == input@[i as int]);
            }
            match Command::from_char(input[i]) {
                Some(d) => {
                    self.apply_move(d, width, height);
                },
                None => {},
            }
            i = i + 1;
        }
        proof {
            assert(input@.take(input@.len() as int) =~= input@);
        }
    }
}

} // verus!
