//! The sparse canvas: a mapping from grid position to edge record.
//!
//! Entries are created lazily — a position is present only once a drawn line
//! has touched it — and every stored record has at least one edge flag set.

use vstd::prelude::*;

use crate::cell::{blank_cell, flag_of, has_edge, with_flag, Cell};
use crate::command::{opposite_of, Command};
use crate::point::Point;

verus! {

/// The mapping a sequence of position/record pairs stands for, later pairs
/// taking precedence (the pairs are kept unique, so precedence never
/// matters).
pub open spec fn map_of(s: Seq<(Point, Cell)>) -> Map<Point, Cell>
    decreases s.len(),
{
    if s.len() == 0 {
        Map::empty()
    } else {
        map_of(s.drop_last()).insert(s.last().0, s.last().1)
    }
}

/// No two pairs of `s` share a position.
pub open spec fn unique_keys(s: Seq<(Point, Cell)>) -> bool {
    forall|i: int, j: int| 0 <= i < j < s.len() ==> s[i].0 != s[j].0
}

/// Each stored pair is found in the mapping, with its own record.
proof fn lemma_map_of_index(s: Seq<(Point, Cell)>, i: int)
    requires
        unique_keys(s),
        0 <= i < s.len(),
    ensures
        map_of(s).contains_key(s[i].0),
        map_of(s)[s[i].0] == s[i].1,
    decreases s.len(),
{
    if i < s.len() - 1 {
        lemma_map_of_index(s.drop_last(), i);
    }
}

/// A position no pair holds is absent from the mapping.
proof fn lemma_map_of_absent(s: Seq<(Point, Cell)>, p: Point)
    requires
        forall|i: int| 0 <= i < s.len() ==> s[i].0 != p,
    ensures
        !map_of(s).contains_key(p),
    decreases s.len(),
{
    if s.len() > 0 {
        lemma_map_of_absent(s.drop_last(), p);
    }
}

/// Every position of the mapping comes from some pair.
proof fn lemma_map_of_contains(s: Seq<(Point, Cell)>, p: Point)
    requires
        map_of(s).contains_key(p),
    ensures
        exists|i: int| 0 <= i < s.len() && s[i].0 == p,
    decreases s.len(),
{
    if s.len() > 0 && s.last().0 != p {
        lemma_map_of_contains(s.drop_last(), p);
        let i = choose|i: int| 0 <= i < s.drop_last().len() && s.drop_last()[i].0 == p;
        assert(s[i].0 == p);
    }
}

/// Appending a pair inserts it into the mapping.
proof fn lemma_map_of_push(s: Seq<(Point, Cell)>, p: Point, c: Cell)
    ensures
        map_of(s.push((p, c))) == map_of(s).insert(p, c),
{
    assert(s.push((p, c)).drop_last() =~= s);
}

/// Replacing the record of the pair at `i` updates that position alone.
proof fn lemma_map_of_update(s: Seq<(Point, Cell)>, i: int, c: Cell)
    requires
        unique_keys(s),
        0 <= i < s.len(),
    ensures
        map_of(s.update(i, (s[i].0, c))) =~= map_of(s).insert(s[i].0, c),
    decreases s.len(),
{
    let t = s.update(i, (s[i].0, c));
    if i == s.len() - 1 {
        assert(t.drop_last() =~= s.drop_last());
    } else {
        assert(t.drop_last() =~= s.drop_last().update(i, (s[i].0, c)));
        lemma_map_of_update(s.drop_last(), i, c);
    }
}

/// The first half of recording a move: the vacated position's record gains
/// the flag for the movement direction. On an empty canvas a fresh record is
/// inserted; on a populated canvas an existing record is merged into, and a
/// missing one is left missing.
pub open spec fn leave_mark(m: Map<Point, Cell>, from: Point, d: Command) -> Map<Point, Cell> {
    if m =~= Map::<Point, Cell>::empty() {
        m.insert(from, with_flag(blank_cell(), d))
    } else if m.contains_key(from) {
        m.insert(from, with_flag(m[from], d))
    } else {
        m
    }
}

/// The canvas after recording one drawn segment from `from` to `to` in
/// direction `d`: `from`'s record gains the flag for `d`, and `to`'s record
/// gains the flag for the opposite of `d` — merged into an existing record,
/// or set in a fresh one.
pub open spec fn record_move_spec(m: Map<Point, Cell>, from: Point, to: Point, d: Command) -> Map<
    Point,
    Cell,
> {
    let m1 = leave_mark(m, from, d);
    if m1.contains_key(to) {
        m1.insert(to, with_flag(m1[to], opposite_of(d)))
    } else {
        m1.insert(to, with_flag(blank_cell(), opposite_of(d)))
    }
}

/// Drawn segments land symmetrically on both endpoints: after recording a
/// move from `from` to `to` in direction `d` (on an empty canvas, or on one
/// where the cursor's cell has already been drawn on), `from`'s flag for `d`
/// is set and `to`'s flag for the opposite of `d` is set.
pub proof fn lemma_record_move_symmetry(m: Map<Point, Cell>, from: Point, to: Point, d: Command)
    requires
        d.is_movement(),
        m =~= Map::<Point, Cell>::empty() || m.contains_key(from),
    ensures
        record_move_spec(m, from, to, d).contains_key(from),
        flag_of(record_move_spec(m, from, to, d)[from], d),
        record_move_spec(m, from, to, d).contains_key(to),
        flag_of(record_move_spec(m, from, to, d)[to], opposite_of(d)),
{
}

/// Recording a move never creates a blank record: if every record of the
/// canvas has an edge, so does every record after the move.
pub proof fn lemma_record_move_keeps_edges(m: Map<Point, Cell>, from: Point, to: Point, d: Command)
    requires
        d.is_movement(),
        forall|p: Point| #[trigger] m.contains_key(p) ==> has_edge(m[p]),
    ensures
        forall|p: Point| #[trigger]
            record_move_spec(m, from, to, d).contains_key(p) ==> has_edge(
                record_move_spec(m, from, to, d)[p],
            ),
{
}

/// The sparse canvas. Its view is the mapping from position to edge record;
/// a well-formed canvas stores each position once and stores no blank
/// record.
pub struct Canvas {
    cells: Vec<(Point, Cell)>,
}

impl View for Canvas {
    type V = Map<Point, Cell>;

    closed spec fn view(&self) -> Map<Point, Cell> {
        map_of(self.cells@)
    }
}

impl Canvas {
    /// Positions are unique and every stored record is visible.
    pub closed spec fn wf(self) -> bool {
        unique_keys(self.cells@) && forall|i: int|
            0 <= i < self.cells@.len() ==> has_edge(self.cells@[i].1)
    }

    /// In a well-formed canvas, every present entry has at least one edge
    /// flag set: no entry is ever fully blank.
    pub proof fn lemma_entries_visible(self)
        requires
            self.wf(),
        ensures
            forall|p: Point| #[trigger] self@.contains_key(p) ==> has_edge(self@[p]),
    {
        assert forall|p: Point| #[trigger] self@.contains_key(p) implies has_edge(self@[p]) by {
            lemma_map_of_contains(self.cells@, p);
            let i = choose|i: int| 0 <= i < self.cells@.len() && self.cells@[i].0 == p;
            lemma_map_of_index(self.cells@, i);
        }
    }

    /// The empty canvas.
    pub fn new() -> (r: Canvas)
        ensures
            r.wf(),
            r@ == Map::<Point, Cell>::empty(),
    {
        Canvas { cells: Vec::new() }
    }

    /// Discards every entry: the canvas becomes empty, whether it was
    /// populated or already empty.
    pub fn clear(&mut self)
        ensures
            final(self).wf(),
            final(self)@ == Map::<Point, Cell>::empty(),
    {
        self.cells.clear();
    }

    /// The index of the pair holding `p`, if one does.
    fn find_idx(&self, p: Point) -> (r: Option<usize>)
        ensures
            match r {
                Some(i) => i < self.cells@.len() && self.cells@[i as int].0 == p,
                None => forall|j: int| 0 <= j < self.cells@.len() ==> self.cells@[j].0 != p,
            },
    {
        let mut i: usize = 0;
        while i < self.cells.len()
            invariant
                i <= self.cells@.len(),
                forall|j: int| 0 <= j < i ==> self.cells@[j].0 != p,
            decreases self.cells@.len() - i,
        {
            if self.cells[i].0 == p {
                return Some(i);
            }
            i = i + 1;
        }
        None
    }

    /// Looks a position up: its record if a line has touched the cell,
    /// `None` otherwise.
    pub fn get(&self, p: Point) -> (r: Option<Cell>)
        requires
            self.wf(),
        ensures
            r is Some <==> self@.contains_key(p),
            r is Some ==> r->0 == self@[p],
    {
        match self.find_idx(p) {
            Some(i) => {
                proof {
                    lemma_map_of_index(self.cells@, i as int);
                }
                Some(self.cells[i].1)
            },
            None => {
                proof {
                    lemma_map_of_absent(self.cells@, p);
                }
                None
            },
        }
    }

    /// Records one drawn segment: the vacated cell `from` gains the flag for
    /// `d`, the occupied cell `to` gains the flag for the opposite
    /// direction. Only to be called for a successful move.
    pub fn record_move(&mut self, from: Point, to: Point, d: Command)
        requires
            old(self).wf(),
            d.is_movement(),
        ensures
            final(self).wf(),
            final(self)@ == record_move_spec(old(self)@, from, to, d),
    {
        let ghost m0 = self@;
        if self.cells.len() == 0 {
            let mut cell = Cell::default();
            cell.modify_with_command(d);
            self.cells.push((from, cell));
            proof {
                lemma_map_of_push(old(self).cells@, from, cell);
            }
        } else {
            proof {
                lemma_map_of_index(self.cells@, self.cells@.len() - 1);
                assert(!(m0 =~= Map::<Point, Cell>::empty()));
            }
            match self.find_idx(from) {
                Some(i) => {
                    proof {
                        lemma_map_of_index(self.cells@, i as int);
                        lemma_map_of_update(self.cells@, i as int, with_flag(m0[from], d));
                    }
                    let mut pair = self.cells[i];
                    pair.1.modify_with_command(d);
                    self.cells[i] = pair;
                },
                None => {
                    proof {
                        lemma_map_of_absent(self.cells@, from);
                    }
                },
            }
        }
        proof {
            assert(self@ =~= leave_mark(m0, from, d));
        }
        let ghost m1 = self@;
        let opp = d.opposite().unwrap();
        match self.find_idx(to) {
            Some(i) => {
                proof {
                    lemma_map_of_index(self.cells@, i as int);
                    lemma_map_of_update(self.cells@, i as int, with_flag(m1[to], opp));
                }
                let mut pair = self.cells[i];
                pair.1.modify_with_command(opp);
                self.cells[i] = pair;
            },
            None => {
                proof {
                    lemma_map_of_absent(self.cells@, to);
                }
                let ghost pre = self.cells@;
                let mut cell = Cell::default();
                cell.modify_with_command(opp);
                self.cells.push((to, cell));
                proof {
                    lemma_map_of_push(pre, to, cell);
                }
            },
        }
        proof {
            assert(self@ =~= record_move_spec(m0, from, to, d));
        }
    }
}

} // verus!
