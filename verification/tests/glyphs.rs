use linedraw::cell::Cell;
use linedraw::command::Command;

fn cell(top: bool, right: bool, bottom: bool, left: bool) -> Cell {
    Cell { top, right, bottom, left }
}

#[test]
fn glyph_all_sixteen_combinations() {
    let table = [
        (false, false, false, false, ' '),
        (true, false, false, false, '│'),
        (false, false, true, false, '│'),
        (true, false, true, false, '│'),
        (false, true, false, false, '─'),
        (false, false, false, true, '─'),
        (false, true, false, true, '─'),
        (true, true, false, false, '└'),
        (false, true, true, false, '┌'),
        (false, false, true, true, '┐'),
        (true, false, false, true, '┘'),
        (true, true, true, false, '├'),
        (false, true, true, true, '┬'),
        (true, false, true, true, '┤'),
        (true, true, false, true, '┴'),
        (true, true, true, true, '┼'),
    ];
    assert_eq!(table.len(), 16);
    for (t, r, b, l, glyph) in table {
        assert_eq!(cell(t, r, b, l).to_glyph(), glyph);
    }
}

#[test]
fn default_cell_is_blank() {
    let c: Cell = Default::default();
    assert_eq!(c, cell(false, false, false, false));
    assert_eq!(c.to_glyph(), ' ');
}

#[test]
fn modify_with_command_sets_one_flag() {
    let mut c: Cell = Default::default();
    let returned = c.modify_with_command(Command::UP);
    assert_eq!(c, cell(true, false, false, false));
    assert_eq!(returned, c);
    c.modify_with_command(Command::RIGHT);
    assert_eq!(c, cell(true, true, false, false));
    c.modify_with_command(Command::DOWN);
    assert_eq!(c, cell(true, true, true, false));
    c.modify_with_command(Command::LEFT);
    assert_eq!(c, cell(true, true, true, true));
}

#[test]
fn modify_with_clear_changes_nothing() {
    let mut c = cell(true, false, true, false);
    c.modify_with_command(Command::CLEAR);
    assert_eq!(c, cell(true, false, true, false));
}

#[test]
fn command_codes() {
    assert_eq!(Command::UP.to_char(), 'W');
    assert_eq!(Command::LEFT.to_char(), 'A');
    assert_eq!(Command::DOWN.to_char(), 'S');
    assert_eq!(Command::RIGHT.to_char(), 'D');
    assert_eq!(Command::CLEAR.to_char(), 'C');
}

#[test]
fn command_opposites() {
    assert_eq!(Command::UP.opposite(), Some(Command::DOWN));
    assert_eq!(Command::DOWN.opposite(), Some(Command::UP));
    assert_eq!(Command::LEFT.opposite(), Some(Command::RIGHT));
    assert_eq!(Command::RIGHT.opposite(), Some(Command::LEFT));
    assert_eq!(Command::CLEAR.opposite(), None);
}

#[test]
fn command_from_char() {
    assert_eq!(Command::from_char('W'), Some(Command::UP));
    assert_eq!(Command::from_char('A'), Some(Command::LEFT));
    assert_eq!(Command::from_char('S'), Some(Command::DOWN));
    assert_eq!(Command::from_char('D'), Some(Command::RIGHT));
    assert_eq!(Command::from_char('C'), None);
    assert_eq!(Command::from_char('w'), None);
    assert_eq!(Command::from_char('X'), None);
}
