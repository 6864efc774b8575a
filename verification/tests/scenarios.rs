use linedraw::cell::Cell;
use linedraw::command::Command;
use linedraw::point::Point;
use linedraw::render::get_canvas_string;
use linedraw::session::Session;

const W: u16 = 10;
const H: u16 = 10;

fn cell(top: bool, right: bool, bottom: bool, left: bool) -> Cell {
    Cell { top, right, bottom, left }
}

fn at(x: i32, y: i32) -> Point {
    Point { x, y }
}

#[test]
fn one_move_right_draws_symmetric_segment() {
    let mut s = Session::new();
    s.process_chars(&vec!['D'], W, H);
    assert_eq!(s.cursor, at(1, 0));
    assert_eq!(s.canvas.get(at(0, 0)), Some(cell(false, true, false, false)));
    assert_eq!(s.canvas.get(at(1, 0)), Some(cell(false, false, false, true)));
    let text = get_canvas_string(&s.canvas, None, 4, 6);
    assert_eq!(text, "──  \n    \n");
}

#[test]
fn right_then_down_bends_the_line() {
    let mut s = Session::new();
    s.process_chars(&vec!['D', 'S'], W, H);
    assert_eq!(s.cursor, at(1, 1));
    assert_eq!(s.canvas.get(at(0, 0)), Some(cell(false, true, false, false)));
    assert_eq!(s.canvas.get(at(1, 0)), Some(cell(false, false, true, true)));
    assert_eq!(s.canvas.get(at(1, 1)), Some(cell(true, false, false, false)));
    assert_eq!(s.history, vec![Command::RIGHT, Command::DOWN]);
    let text = get_canvas_string(&s.canvas, None, 4, 6);
    assert_eq!(text, "─┐  \n │  \n");
}

#[test]
fn down_move_marks_both_cells() {
    let mut s = Session::new();
    s.process_chars(&vec!['S'], W, H);
    assert_eq!(s.canvas.get(at(0, 0)), Some(cell(false, false, true, false)));
    assert_eq!(s.canvas.get(at(0, 1)), Some(cell(true, false, false, false)));
}

#[test]
fn clear_empties_canvas_and_is_recorded() {
    let mut s = Session::new();
    s.process_chars(&vec!['D'], W, H);
    assert!(s.canvas.get(at(0, 0)).is_some());
    s.apply_clear();
    assert_eq!(s.canvas.get(at(0, 0)), None);
    assert_eq!(s.canvas.get(at(1, 0)), None);
    assert_eq!(s.history, vec![Command::RIGHT, Command::CLEAR]);
    assert_eq!(s.cursor, at(1, 0));
    let text = get_canvas_string(&s.canvas, None, 4, 6);
    assert_eq!(text, "    \n    \n");
}

#[test]
fn clear_on_empty_canvas_is_harmless() {
    let mut s = Session::new();
    s.apply_clear();
    s.apply_clear();
    assert_eq!(s.canvas.get(at(0, 0)), None);
    assert_eq!(s.history, vec![Command::CLEAR, Command::CLEAR]);
}

#[test]
fn first_stroke_after_clear_starts_fresh() {
    let mut s = Session::new();
    s.process_chars(&vec!['D'], W, H);
    s.apply_clear();
    s.process_chars(&vec!['S'], W, H);
    assert_eq!(s.canvas.get(at(1, 0)), Some(cell(false, false, true, false)));
    assert_eq!(s.canvas.get(at(1, 1)), Some(cell(true, false, false, false)));
    assert_eq!(s.canvas.get(at(0, 0)), None);
}

#[test]
fn created_records_are_never_blank() {
    let mut s = Session::new();
    s.process_chars(&vec!['D', 'D', 'S', 'A', 'A', 'W', 'W', 'S'], W, H);
    for x in 0..9 {
        for y in 0..5 {
            if let Some(c) = s.canvas.get(at(x, y)) {
                assert!(c.top || c.right || c.bottom || c.left);
            }
        }
    }
}

#[test]
fn unrecognised_characters_are_ignored() {
    let mut s = Session::new();
    s.process_chars(&vec!['X', 'd', '3', ' ', 'C'], W, H);
    assert_eq!(s.cursor, at(0, 0));
    assert_eq!(s.history, vec![]);
    assert_eq!(s.canvas.get(at(0, 0)), None);
}

#[test]
fn blocked_moves_record_command_but_draw_nothing() {
    let mut s = Session::new();
    s.process_chars(&vec!['A', 'W'], W, H);
    assert_eq!(s.cursor, at(0, 0));
    assert_eq!(s.history, vec![Command::LEFT, Command::UP]);
    assert_eq!(s.canvas.get(at(0, 0)), None);
}

#[test]
fn cursor_marker_overrides_glyph() {
    let mut s = Session::new();
    s.process_chars(&vec!['D'], W, H);
    let text = get_canvas_string(&s.canvas, Some(s.cursor), 4, 6);
    assert_eq!(text, "─#  \n    \n");
}

#[test]
fn empty_render_shows_only_cursor() {
    let s = Session::new();
    let text = get_canvas_string(&s.canvas, Some(s.cursor), 4, 6);
    assert_eq!(text, "#   \n    \n");
}

#[test]
fn render_dimensions_follow_viewport() {
    let s = Session::new();
    let text = get_canvas_string(&s.canvas, None, 7, 9);
    let rows: Vec<&str> = text.split_terminator('\n').collect();
    assert_eq!(rows.len(), 5);
    for row in rows {
        assert_eq!(row.chars().count(), 7);
        assert!(row.chars().all(|c| c == ' '));
    }
}

#[test]
fn drawing_a_box_closes_the_loop() {
    let mut s = Session::new();
    s.process_chars(&vec!['S', 'S', 'D', 'D', 'W', 'W', 'A', 'A'], W, H);
    assert_eq!(s.cursor, at(0, 0));
    assert_eq!(s.canvas.get(at(0, 0)), Some(cell(false, true, true, false)));
    assert_eq!(s.canvas.get(at(2, 0)), Some(cell(false, false, true, true)));
    assert_eq!(s.canvas.get(at(2, 2)), Some(cell(true, false, false, true)));
    assert_eq!(s.canvas.get(at(0, 2)), Some(cell(true, true, false, false)));
    let text = get_canvas_string(&s.canvas, None, 4, 7);
    assert_eq!(text, "┌─┐ \n│ │ \n└─┘ \n");
}
