use enigma::app::App;
use enigma::enigma::EnigmaBuilder;

#[test]
fn typing_encrypts_after_the_first_character_of_a_line() {
    let m = EnigmaBuilder::new().with_enigma_i().build();
    let mut a = App::new(m);
    a.enter_char('a');
    a.enter_char('b');
    assert_eq!(a.raw_text().len(), 1);
    assert_eq!(a.raw_text()[0], vec!['a', 'b']);
    // the character that opens a fresh line lands unencrypted on the
    // encrypted side; later characters are encrypted ('b' becomes 'n')
    assert_eq!(a.encrypted_text()[0], vec!['a', 'n']);
    assert_eq!(a.cursor_position(), (2, 0));
    assert_eq!(a.line_count(), 1);
    assert_eq!(a.line_len(0), 2);
}

#[test]
fn new_line_moves_cursor_down_and_home() {
    let m = EnigmaBuilder::new().build();
    let mut a = App::new(m);
    a.enter_char('a');
    a.new_line();
    assert_eq!(a.line_count(), 2);
    assert_eq!(a.cursor_position(), (0, 1));
}

#[test]
fn new_line_clamps_the_downward_step_to_the_line_length() {
    let m = EnigmaBuilder::new().build();
    let mut a = App::new(m);
    a.enter_char('a');
    a.new_line();
    // the cursor stands on the empty second line; the next downward step
    // clamps to that line's length, zero, so the cursor goes back to the
    // first line
    a.new_line();
    assert_eq!(a.line_count(), 3);
    assert_eq!(a.cursor_position(), (0, 0));
}

#[test]
fn delete_at_top_left_does_nothing() {
    let m = EnigmaBuilder::new().build();
    let mut a = App::new(m);
    a.enter_char('a');
    a.move_cursor_left();
    a.move_cursor_left();
    assert_eq!(a.cursor_position(), (0, 0));
    a.delete_char();
    assert_eq!(a.raw_text()[0], vec!['a']);
    assert_eq!(a.cursor_position(), (0, 0));
}

#[test]
fn delete_removes_the_character_before_the_cursor() {
    let m = EnigmaBuilder::new().with_enigma_i().build();
    let mut a = App::new(m);
    a.enter_char('a');
    a.enter_char('b');
    a.enter_char('c');
    assert_eq!(a.encrypted_text()[0], vec!['a', 'n', 'o']);
    a.move_cursor_left();
    // the cursor stands between 'b' and 'c': deleting removes 'b' and its
    // encrypted counterpart
    a.delete_char();
    assert_eq!(a.raw_text()[0], vec!['a', 'c']);
    assert_eq!(a.encrypted_text()[0], vec!['a', 'o']);
    assert_eq!(a.cursor_position(), (1, 0));
}

#[test]
fn delete_removes_an_empty_line_between_lines() {
    let m = EnigmaBuilder::new().build();
    let mut a = App::new(m);
    a.enter_char('a');
    a.new_line();
    a.new_line();
    a.move_cursor_down();
    assert_eq!(a.cursor_position(), (0, 1));
    // line 1 is empty and not the last line: deleting removes it; the
    // cursor moves up (clamped to the length of the line that slid into
    // place) and to the end of the line it then stands on
    a.delete_char();
    assert_eq!(a.line_count(), 2);
    assert_eq!(a.cursor_position(), (1, 0));
}

#[test]
fn cursor_moves_clamp_to_line_bounds() {
    let m = EnigmaBuilder::new().build();
    let mut a = App::new(m);
    a.enter_char('h');
    a.enter_char('i');
    a.move_cursor_right();
    assert_eq!(a.cursor_position(), (2, 0));
    a.move_cursor_left();
    a.move_cursor_left();
    a.move_cursor_left();
    assert_eq!(a.cursor_position(), (0, 0));
    a.move_cursor_up();
    assert_eq!(a.cursor_position(), (0, 0));
    // moving down clamps against the current line's length, not the line
    // count: with a two-character line the cursor may step to line one
    a.move_cursor_down();
    assert_eq!(a.cursor_position(), (0, 1));
}
