//! Rendering the canvas to a full-screen text buffer.
//!
//! The buffer holds `height - 4` rows of `width` characters, each row
//! terminated by a newline. A cell shows the cursor marker if the cursor
//! stands on it, the glyph of its edge record if one exists, and a blank
//! space otherwise.

use vstd::prelude::*;

use crate::canvas::Canvas;
use crate::cell::{glyph_of, Cell};
use crate::point::Point;

verus! {

/// The character cell `(x, y)` displays as: the cursor marker where the
/// cursor stands, the glyph of the cell's edge record where one exists, a
/// blank space otherwise.
pub open spec fn cell_char(m: Map<Point, Cell>, cursor: Option<Point>, x: int, y: int) -> char {
    if cursor is Some && cursor->0.x == x && cursor->0.y == y {
        '#'
    } else if m.contains_key(Point { x: x as i32, y: y as i32 }) {
        glyph_of(m[Point { x: x as i32, y: y as i32 }])
    } else {
        ' '
    }
}

/// Row `y` of the rendered buffer: `width` cell characters and a newline.
pub open spec fn row_chars(m: Map<Point, Cell>, cursor: Option<Point>, y: int, width: int) -> Seq<
    char,
> {
    Seq::new(width as nat, |x: int| cell_char(m, cursor, x, y)).push('\n')
}

/// The first `nrows` rows of the rendered buffer, concatenated.
pub open spec fn render_chars(
    m: Map<Point, Cell>,
    cursor: Option<Point>,
    width: int,
    nrows: int,
) -> Seq<char>
    decreases nrows,
{
    if nrows <= 0 {
        Seq::empty()
    } else {
        render_chars(m, cursor, width, nrows - 1) + row_chars(m, cursor, nrows - 1, width)
    }
}

/// The rendered buffer holds exactly `nrows` rows of `width + 1` characters
/// (the newline included).
pub proof fn lemma_render_len(m: Map<Point, Cell>, cursor: Option<Point>, width: int, nrows: int)
    requires
        width >= 0,
        nrows >= 0,
    ensures
        render_chars(m, cursor, width, nrows).len() == nrows * (width + 1),
    decreases nrows,
{
    if nrows == 0 {
        assert(render_chars(m, cursor, width, 0).len() == 0);
        assert(nrows * (width + 1) == 0);
    } else {
        lemma_render_len(m, cursor, width, nrows - 1);
        assert(render_chars(m, cursor, width, nrows) == render_chars(m, cursor, width, nrows - 1)
            + row_chars(m, cursor, nrows - 1, width));
        assert(row_chars(m, cursor, nrows - 1, width).len() == width + 1);
        assert((nrows - 1) * (width + 1) + (width + 1) == nrows * (width + 1)) by (nonlinear_arith);
    }
}

/// Rendering an empty canvas gives an all-blank grid: every character is a
/// space or a row-ending newline — plus the cursor marker where a cursor is
/// supplied.
pub proof fn lemma_render_empty_blank(cursor: Option<Point>, width: int, nrows: int)
    requires
        width >= 0,
        nrows >= 0,
    ensures
        forall|i: int|
            0 <= i < render_chars(Map::<Point, Cell>::empty(), cursor, width, nrows).len()
                ==> render_chars(Map::<Point, Cell>::empty(), cursor, width, nrows)[i] == ' '
                || render_chars(Map::<Point, Cell>::empty(), cursor, width, nrows)[i] == '\n' || (
            cursor is Some && render_chars(Map::<Point, Cell>::empty(), cursor, width, nrows)[i]
                == '#'),
    decreases nrows,
{
    if nrows > 0 {
        lemma_render_empty_blank(cursor, width, nrows - 1);
        let m = Map::<Point, Cell>::empty();
        let prev = render_chars(m, cursor, width, nrows - 1);
        let row = row_chars(m, cursor, nrows - 1, width);
        let whole = render_chars(m, cursor, width, nrows);
        assert(whole == prev + row);
        assert forall|i: int| 0 <= i < whole.len() implies whole[i] == ' ' || whole[i] == '\n' || (
        cursor is Some && whole[i] == '#') by {
            if i < prev.len() {
                assert(whole[i] == prev[i]);
            } else {
                let j = i - prev.len();
                assert(whole[i] == row[j]);
                if j < width {
                    assert(row[j] == cell_char(m, cursor, j, nrows - 1));
                    assert(!m.contains_key(
                        Point { x: j as i32, y: (nrows - 1) as i32 },
                    ));
                } else {
                    assert(row[j] == '\n');
                }
            }
        }
    }
}

/// Relies on std's `FromIterator` impl for `String` over `char`: collecting
/// an iterator of characters yields the string of exactly those characters,
/// in order.
#[verifier::external_body]
pub(crate) fn chars_to_string(v: &Vec<char>) -> (r: String)
    ensures
        r@ == v@,
{
    v.iter().collect()
}

/// Renders the canvas for a `width` by `height` viewport: `height - 4` rows
/// of `width` characters each, newline-terminated. With a cursor position
/// the cursor cell shows the marker (live display); without one the drawing
/// alone is shown (persistence).
pub fn get_canvas_string(canvas: &Canvas, cursor: Option<Point>, width: u16, height: u16) -> (r:
    String)
    requires
        canvas.wf(),
        width >= 1,
        height >= 5,
    ensures
        r@ == render_chars(canvas@, cursor, width as int, height - 4),
{
    let nrows: u16 = height - 4;
    let mut out: Vec<char> = Vec::new();
    let ghost m = canvas@;
    let mut y: u16 = 0;
    while y < nrows
        invariant
            canvas.wf(),
            m == canvas@,
            y <= nrows,
            out@ == render_chars(m, cursor, width as int, y as int),
        decreases nrows - y,
    {
        let mut x: u16 = 0;
        while x < width
            invariant
                canvas.wf(),
                m == canvas@,
                x <= width,
                y < nrows,
                out@ == render_chars(m, cursor, width as int, y as int) + Seq::new(
                    x as nat,
                    |i: int| cell_char(m, cursor, i, y as int),
                ),
            decreases width - x,
        {
            let at_cursor = match cursor {
                Some(c) => x as i32 == c.x && y as i32 == c.y,
                None => false,
            };
            let ch: char = if at_cursor {
                '#'
            } else {
                match canvas.get(Point { x: x as i32, y: y as i32 }) {
                    Some(cell) => cell.to_glyph(),
                    None => ' ',
                }
            };
            assert(ch == cell_char(m, cursor, x as int, y as int));
            out.push(ch);
            proof {
                assert(Seq::new((x + 1) as nat, |i: int| cell_char(m, cursor, i, y as int))
                    =~= Seq::new(x as nat, |i: int| cell_char(m, cursor, i, y as int)).push(
                    cell_char(m, cursor, x as int, y as int),
                ));
            }
            x = x + 1;
        }
        out.push('\n');
        proof {
            assert(out@ =~= render_chars(m, cursor, width as int, y as int) + row_chars(
                m,
                cursor,
                y as int,
                width as int,
            ));
            assert(render_chars(m, cursor, width as int, y + 1) == render_chars(
                m,
                cursor,
                width as int,
                y as int,
            ) + row_chars(m, cursor, y as int, width as int));
        }
        y = y + 1;
    }
    chars_to_string(&out)
}

} // verus!
