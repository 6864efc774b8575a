use linedraw::save::{history_line, save_contents, save_file_name};
use linedraw::session::Session;

const W: u16 = 10;
const H: u16 = 10;

fn chars(s: &str) -> Vec<char> {
    s.chars().collect()
}

#[test]
fn save_file_name_appends_extension() {
    assert_eq!(save_file_name(chars("art")), chars("art.txt"));
    assert_eq!(save_file_name(chars("")), chars(".txt"));
    assert_eq!(save_file_name(chars("txt")), chars("txt.txt"));
}

#[test]
fn save_file_name_keeps_existing_extension() {
    assert_eq!(save_file_name(chars("art.txt")), chars("art.txt"));
    assert_eq!(save_file_name(chars(".txt")), chars(".txt"));
}

#[test]
fn history_line_holds_one_code_per_command() {
    let mut s = Session::new();
    s.process_chars(&chars("DS"), W, H);
    s.apply_clear();
    s.process_chars(&chars("WA"), W, H);
    // W and A are blocked at the origin but still recorded.
    assert_eq!(history_line(&s.history), "DSCWA\n");
}

#[test]
fn history_line_of_empty_history() {
    let s = Session::new();
    assert_eq!(history_line(&s.history), "\n");
}

#[test]
fn save_contents_holds_codes_then_render() {
    let mut s = Session::new();
    s.process_chars(&chars("DS"), W, H);
    let contents = save_contents(&s.history, &s.canvas, 4, 6);
    assert_eq!(contents, "DS\n─┐  \n │  \n");
    let mut lines = contents.lines();
    assert_eq!(lines.next(), Some("DS"));
    assert_eq!(lines.next(), Some("─┐  "));
    assert_eq!(lines.next(), Some(" │  "));
    assert_eq!(lines.next(), None);
}

#[test]
fn save_contents_of_fresh_session_is_blank_grid() {
    let s = Session::new();
    let contents = save_contents(&s.history, &s.canvas, 3, 5);
    assert_eq!(contents, "\n   \n");
}
