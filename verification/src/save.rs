//! Serialising a session for persistence: the replay line of command codes,
//! the final render, and the save file's name.

use vstd::prelude::*;
use vstd::string::StringExecFns;

use crate::canvas::Canvas;
use crate::command::{char_of, Command};
use crate::render::{chars_to_string, get_canvas_string, render_chars};

verus! {

/// The single-character codes of a command history, in issuance order.
pub open spec fn codes_of(h: Seq<Command>) -> Seq<char> {
    h.map_values(|c: Command| char_of(c))
}

/// Whether a file name already carries the `.txt` extension.
pub open spec fn has_txt_extension(s: Seq<char>) -> bool {
    s.len() >= 4 && s.subrange(s.len() - 4, s.len() as int) == seq!['.', 't', 'x', 't']
}

/// The replay line: one code character per issued command, newline-ended.
pub fn history_line(history: &Vec<Command>) -> (r: String)
    ensures
        r@ == codes_of(history@).push('\n'),
{
    let mut out: Vec<char> = Vec::new();
    let mut i: usize = 0;
    while i < history.len()
        invariant
            i <= history@.len(),
            out@ == codes_of(history@.take(i as int)),
        decreases history@.len() - i,
    {
        out.push(history[i].to_char());
        proof {
            assert(codes_of(history@.take(i + 1)) =~= codes_of(history@.take(i as int)).push(
                char_of(history@[i as int]),
            ));
        }
        i = i + 1;
    }
    proof {
        assert(history@.take(history@.len() as int) =~= history@);
    }
    out.push('\n');
    chars_to_string(&out)
}

/// The full contents of a save file: the replay line of command codes,
/// followed by the rendered drawing without a cursor marker.
pub fn save_contents(history: &Vec<Command>, canvas: &Canvas, width: u16, height: u16) -> (r:
    String)
    requires
        canvas.wf(),
        width >= 1,
        height >= 5,
    ensures
        r@ == codes_of(history@).push('\n') + render_chars(canvas@, None, width as int, height - 4),
{
    let line = history_line(history);
    let grid = get_canvas_string(canvas, None, width, height);
    line.concat(grid.as_str())
}

/// The name the drawing is saved under: the given (trimmed, lower-cased)
/// name, with `.txt` appended unless it is already the extension.
pub fn save_file_name(name: Vec<char>) -> (r: Vec<char>)
    ensures
        has_txt_extension(name@) ==> r@ == name@,
        !has_txt_extension(name@) ==> r@ == name@ + seq!['.', 't', 'x', 't'],
{
    let n = name.len();
    if n >= 4 && name[n - 4] == '.' && name[n - 3] == 't' && name[n - 2] == 'x' && name[n - 1]
        == 't' {
        proof {
            assert(name@.subrange(name@.len() - 4, name@.len() as int) =~= seq![
                '.',
                't',
                'x',
                't',
            ]);
        }
        name
    } else {
        proof {
            if has_txt_extension(name@) {
                let tail = name@.subrange(name@.len() - 4, name@.len() as int);
                assert(tail[0] == '.' && tail[1] == 't' && tail[2] == 'x' && tail[3] == 't');
            }
        }
        let ghost orig = name@;
        let mut out = name;
        out.push('.');
        out.push('t');
        out.push('x');
        out.push('t');
        proof {
            assert(out@ =~= orig + seq!['.', 't', 'x', 't']);
        }
        out
    }
}

} // verus!
