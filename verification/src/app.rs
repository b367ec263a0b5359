//! State of the split-pane editor: the typed lines, their encrypted
//! counterparts, and the cursor. Every keystroke that inserts a character
//! runs it through the cipher engine once; the terminal itself is driven
//! by the surrounding program.

use vstd::prelude::*;

use crate::enigma::machine::{spec_encrypt_char, EnigmaMachine};

verus! {

/// The cursor position `pos` clamped to the length of line `y`.
pub open spec fn clamp_to_line(lines: Seq<Seq<char>>, y: int, pos: usize) -> usize {
    if pos > lines[y].len() {
        lines[y].len() as usize
    } else {
        pos
    }
}

/// Addition on cursor indices that stops at the greatest usize.
pub open spec fn sat_add(a: usize, b: usize) -> usize {
    if a + b > usize::MAX {
        usize::MAX
    } else {
        (a + b) as usize
    }
}

/// Subtraction on cursor indices that stops at zero.
pub open spec fn sat_sub(a: usize, b: usize) -> usize {
    if a >= b {
        (a - b) as usize
    } else {
        0
    }
}

/// The state of the editor: the typed text, its encrypted counterpart,
/// the cursor, and the cipher engine the text runs through.
pub struct App {
    raw_input: Vec<Vec<char>>,
    encrypted_input: Vec<Vec<char>>,
    cursor_x_index: usize,
    cursor_y_index: usize,
    enigma: EnigmaMachine,
}

impl App {
    /// The raw and the encrypted text always match up: the same number of
    /// lines, and lines of the same length.
    pub closed spec fn well_formed(self) -> bool {
        &&& self.raw_input@.len() == self.encrypted_input@.len()
        &&& forall|k: int|
            0 <= k < self.raw_input@.len() ==> #[trigger] self.raw_input@[k]@.len()
                == self.encrypted_input@[k]@.len()
    }

    /// The typed lines.
    pub closed spec fn raw_lines(self) -> Seq<Seq<char>> {
        self.raw_input@.map_values(|l: Vec<char>| l@)
    }

    /// The encrypted lines.
    pub closed spec fn encrypted_lines(self) -> Seq<Seq<char>> {
        self.encrypted_input@.map_values(|l: Vec<char>| l@)
    }

    /// The cursor column.
    pub closed spec fn cursor_x(self) -> usize {
        self.cursor_x_index
    }

    /// The cursor line.
    pub closed spec fn cursor_y(self) -> usize {
        self.cursor_y_index
    }

    /// The rotor stack of the engine the editor encrypts with.
    pub closed spec fn engine_rotors(self) -> Seq<Seq<usize>> {
        self.enigma.rotors_view()
    }

    /// A fresh editor around the given engine: no text, cursor at the
    /// top left.
    pub fn new(enigma: EnigmaMachine) -> (r: Self)
        ensures
            r.well_formed(),
            r.raw_lines() == Seq::<Seq<char>>::empty(),
            r.encrypted_lines() == Seq::<Seq<char>>::empty(),
            r.cursor_x() == 0usize,
            r.cursor_y() == 0usize,
            r.engine_rotors() == enigma.rotors_view(),
    {
        let a = App {
            raw_input: Vec::new(),
            encrypted_input: Vec::new(),
            cursor_x_index: 0,
            cursor_y_index: 0,
            enigma,
        };
        proof {
            assert(a.raw_lines() =~= Seq::<Seq<char>>::empty());
            assert(a.encrypted_lines() =~= Seq::<Seq<char>>::empty());
        }
        a
    }

    /// The typed lines, for display.
    pub fn raw_text(&self) -> (r: &Vec<Vec<char>>)
        ensures
            r@.len() == self.raw_lines().len(),
            forall|k: int| 0 <= k < r@.len() ==> #[trigger] r@[k]@ == self.raw_lines()[k],
    {
        &self.raw_input
    }

    /// The encrypted lines, for display.
    pub fn encrypted_text(&self) -> (r: &Vec<Vec<char>>)
        ensures
            r@.len() == self.encrypted_lines().len(),
            forall|k: int| 0 <= k < r@.len() ==> #[trigger] r@[k]@ == self.encrypted_lines()[k],
    {
        &self.encrypted_input
    }

    /// The cursor position: column, then line.
    pub fn cursor_position(&self) -> (r: (usize, usize))
        ensures
            r.0 == self.cursor_x(),
            r.1 == self.cursor_y(),
    {
        (self.cursor_x_index, self.cursor_y_index)
    }

    /// The number of lines.
    pub fn line_count(&self) -> (r: usize)
        ensures
            r == self.raw_lines().len(),
    {
        self.raw_input.len()
    }

    /// The length of line `y`.
    pub fn line_len(&self, y: usize) -> (r: usize)
        requires
            y < self.raw_lines().len(),
        ensures
            r == self.raw_lines()[y as int].len(),
    {
        self.raw_input[y].len()
    }

    /// The given column clamped to the length of the cursor's line.
    fn clamp_cursor(&self, new_cursor_pos: usize) -> (r: usize)
        requires
            self.cursor_y() < self.raw_lines().len(),
        ensures
            r == clamp_to_line(self.raw_lines(), self.cursor_y() as int, new_cursor_pos),
    {
        let line_len = self.raw_input[self.cursor_y_index].len();
        if new_cursor_pos > line_len {
            line_len
        } else {
            new_cursor_pos
        }
    }

    /// Moves the cursor one column to the left, clamped to the cursor's
    /// line.
    pub fn move_cursor_left(&mut self)
        requires
            old(self).cursor_y() < old(self).raw_lines().len(),
        ensures
            final(self).cursor_x() == clamp_to_line(
                old(self).raw_lines(),
                old(self).cursor_y() as int,
                sat_sub(old(self).cursor_x(), 1),
            ),
            final(self).cursor_y() == old(self).cursor_y(),
            final(self).raw_lines() == old(self).raw_lines(),
            final(self).encrypted_lines() == old(self).encrypted_lines(),
            final(self).engine_rotors() == old(self).engine_rotors(),
            old(self).well_formed() ==> final(self).well_formed(),
    {
        let cursor_moved_left = self.cursor_x_index.saturating_sub(1);
        let clamped = self.clamp_cursor(cursor_moved_left);
        self.cursor_x_index = clamped;
    }

    /// Moves the cursor one column to the right, clamped to the cursor's
    /// line.
    pub fn move_cursor_right(&mut self)
        requires
            old(self).cursor_y() < old(self).raw_lines().len(),
        ensures
            final(self).cursor_x() == clamp_to_line(
                old(self).raw_lines(),
                old(self).cursor_y() as int,
                sat_add(old(self).cursor_x(), 1),
            ),
            final(self).cursor_y() == old(self).cursor_y(),
            final(self).raw_lines() == old(self).raw_lines(),
            final(self).encrypted_lines() == old(self).encrypted_lines(),
            final(self).engine_rotors() == old(self).engine_rotors(),
            old(self).well_formed() ==> final(self).well_formed(),
    {
        let cursor_moved_right = self.cursor_x_index.saturating_add(1);
        let clamped = self.clamp_cursor(cursor_moved_right);
        self.cursor_x_index = clamped;
    }

    /// Moves the cursor one line up — clamped, deliberately, to the
    /// length of the cursor's current line rather than to the line count.
    pub fn move_cursor_up(&mut self)
        requires
            old(self).cursor_y() < old(self).raw_lines().len(),
        ensures
            final(self).cursor_y() == clamp_to_line(
                old(self).raw_lines(),
                old(self).cursor_y() as int,
                sat_sub(old(self).cursor_y(), 1),
            ),
            final(self).cursor_x() == old(self).cursor_x(),
            final(self).raw_lines() == old(self).raw_lines(),
            final(self).encrypted_lines() == old(self).encrypted_lines(),
            final(self).engine_rotors() == old(self).engine_rotors(),
            old(self).well_formed() ==> final(self).well_formed(),
    {
        let cursor_moved_up = self.cursor_y_index.saturating_sub(1);
        let clamped = self.clamp_cursor(cursor_moved_up);
        self.cursor_y_index = clamped;
    }

    /// Moves the cursor one line down — clamped, deliberately, to the
    /// length of the cursor's current line rather than to the line count.
    pub fn move_cursor_down(&mut self)
        requires
            old(self).cursor_y() < old(self).raw_lines().len(),
        ensures
            final(self).cursor_y() == clamp_to_line(
                old(self).raw_lines(),
                old(self).cursor_y() as int,
                sat_add(old(self).cursor_y(), 1),
            ),
            final(self).cursor_x() == old(self).cursor_x(),
            final(self).raw_lines() == old(self).raw_lines(),
            final(self).encrypted_lines() == old(self).encrypted_lines(),
            final(self).engine_rotors() == old(self).engine_rotors(),
            old(self).well_formed() ==> final(self).well_formed(),
    {
        let cursor_moved_down = self.cursor_y_index.saturating_add(1);
        let clamped = self.clamp_cursor(cursor_moved_down);
        self.cursor_y_index = clamped;
    }

    /// Types one character at the cursor. On an existing line the
    /// character is inserted there and its encrypted counterpart at the
    /// same place of the encrypted line; one position past the last line a
    /// new line is started, holding the character itself on both sides —
    /// the character that opens a line is shown as typed. The cursor moves
    /// one column right.
    pub fn enter_char(&mut self, new_char: char)
        requires
            old(self).well_formed(),
            old(self).cursor_y() <= old(self).raw_lines().len(),
            old(self).cursor_y() < old(self).raw_lines().len() ==> old(self).cursor_x() <= old(
                self,
            ).raw_lines()[old(self).cursor_y() as int].len(),
        ensures
            final(self).well_formed(),
            final(self).cursor_y() == old(self).cursor_y(),
            final(self).engine_rotors() == old(self).engine_rotors(),
            old(self).cursor_y() < old(self).raw_lines().len() ==> ({
                let y = old(self).cursor_y() as int;
                let x = old(self).cursor_x() as int;
                &&& final(self).raw_lines() == old(self).raw_lines().update(
                    y,
                    old(self).raw_lines()[y].insert(x, new_char),
                )
                &&& final(self).encrypted_lines() == old(self).encrypted_lines().update(
                    y,
                    old(self).encrypted_lines()[y].insert(
                        x,
                        spec_encrypt_char(old(self).engine_rotors(), new_char),
                    ),
                )
                &&& final(self).cursor_x() == sat_add(old(self).cursor_x(), 1)
            }),
            old(self).cursor_y() >= old(self).raw_lines().len() ==> ({
                &&& final(self).raw_lines() == old(self).raw_lines().push(seq![new_char])
                &&& final(self).encrypted_lines() == old(self).encrypted_lines().push(
                    seq![new_char],
                )
                &&& final(self).cursor_x() == 1usize
            }),
    {
        let y = self.cursor_y_index;
        if y < self.raw_input.len() {
            let mut line = self.raw_input.remove(y);
            line.insert(self.cursor_x_index, new_char);
            self.raw_input.insert(y, line);
            let encrypted = self.enigma.encrypt_char(new_char);
            let mut eline = self.encrypted_input.remove(y);
            eline.insert(self.cursor_x_index, encrypted);
            self.encrypted_input.insert(y, eline);
            proof {
                assert(self.raw_lines() =~= old(self).raw_lines().update(
                    y as int,
                    old(self).raw_lines()[y as int].insert(old(self).cursor_x() as int, new_char),
                ));
                assert(self.encrypted_lines() =~= old(self).encrypted_lines().update(
                    y as int,
                    old(self).encrypted_lines()[y as int].insert(
                        old(self).cursor_x() as int,
                        spec_encrypt_char(old(self).engine_rotors(), new_char),
                    ),
                ));
            }
        } else {
            let mut line: Vec<char> = Vec::new();
            line.push(new_char);
            self.raw_input.push(line);
            let mut eline: Vec<char> = Vec::new();
            eline.push(new_char);
            self.encrypted_input.push(eline);
            proof {
                assert(self.raw_lines() =~= old(self).raw_lines().push(seq![new_char]));
                assert(self.encrypted_lines() =~= old(self).encrypted_lines().push(
                    seq![new_char],
                ));
            }
        }
        self.move_cursor_right();
    }

    /// Starts a new empty line after the last one and moves the cursor —
    /// down by one, clamped to the length of the cursor's current line —
    /// and to column zero.
    pub fn new_line(&mut self)
        requires
            old(self).cursor_y() <= old(self).raw_lines().len(),
        ensures
            old(self).well_formed() ==> final(self).well_formed(),
            final(self).raw_lines() == old(self).raw_lines().push(Seq::<char>::empty()),
            final(self).encrypted_lines() == old(self).encrypted_lines().push(
                Seq::<char>::empty(),
            ),
            final(self).cursor_y() == clamp_to_line(
                final(self).raw_lines(),
                old(self).cursor_y() as int,
                sat_add(old(self).cursor_y(), 1),
            ),
            final(self).cursor_x() == 0usize,
            final(self).engine_rotors() == old(self).engine_rotors(),
    {
        self.raw_input.push(Vec::new());
        self.encrypted_input.push(Vec::new());
        proof {
            assert(self.raw_lines() =~= old(self).raw_lines().push(Seq::<char>::empty()));
            assert(self.encrypted_lines() =~= old(self).encrypted_lines().push(
                Seq::<char>::empty(),
            ));
        }
        self.move_cursor_down();
        self.cursor_x_index = 0;
    }

    /// Deletes at the cursor: at the top left, nothing; on an empty line,
    /// the line itself, the cursor moving up (clamped to the length of the
    /// line that slides into its place) and to the end of the line it then
    /// stands on; otherwise the character before the cursor on both sides,
    /// the cursor moving one column left.
    pub fn delete_char(&mut self)
        requires
            old(self).well_formed(),
            (old(self).cursor_y() != 0 || old(self).cursor_x() != 0) ==> ({
                let y = old(self).cursor_y() as int;
                &&& old(self).cursor_y() < old(self).raw_lines().len()
                &&& (old(self).raw_lines()[y].len() == 0 ==> old(self).cursor_y() + 1 < old(
                    self,
                ).raw_lines().len())
                &&& (old(self).raw_lines()[y].len() != 0 ==> 1 <= old(self).cursor_x() <= old(
                    self,
                ).raw_lines()[y].len())
            }),
        ensures
            final(self).well_formed(),
            final(self).engine_rotors() == old(self).engine_rotors(),
            (old(self).cursor_y() == 0 && old(self).cursor_x() == 0) ==> *final(self) == *old(
                self,
            ),
            (!(old(self).cursor_y() == 0 && old(self).cursor_x() == 0) && old(self).raw_lines()[old(
                self,
            ).cursor_y() as int].len() == 0) ==> ({
                let y = old(self).cursor_y() as int;
                &&& final(self).raw_lines() == old(self).raw_lines().remove(y)
                &&& final(self).encrypted_lines() == old(self).encrypted_lines().remove(y)
                &&& final(self).cursor_y() == clamp_to_line(
                    final(self).raw_lines(),
                    y,
                    sat_sub(old(self).cursor_y(), 1),
                )
                &&& final(self).cursor_x() == final(self).raw_lines()[final(self).cursor_y() as int].len()
            }),
            (!(old(self).cursor_y() == 0 && old(self).cursor_x() == 0) && old(self).raw_lines()[old(
                self,
            ).cursor_y() as int].len() != 0) ==> ({
                let y = old(self).cursor_y() as int;
                let x = old(self).cursor_x() as int;
                &&& final(self).raw_lines() == old(self).raw_lines().update(
                    y,
                    old(self).raw_lines()[y].remove(x - 1),
                )
                &&& final(self).encrypted_lines() == old(self).encrypted_lines().update(
                    y,
                    old(self).encrypted_lines()[y].remove(x - 1),
                )
                &&& final(self).cursor_y() == old(self).cursor_y()
                &&& final(self).cursor_x() == old(self).cursor_x() - 1
            }),
    {
        let is_not_cursor_top_left = self.cursor_y_index != 0 || self.cursor_x_index != 0;
        if is_not_cursor_top_left {
            let y = self.cursor_y_index;
            if self.raw_input[y].is_empty() {
                self.raw_input.remove(y);
                self.encrypted_input.remove(y);
                proof {
                    assert(self.raw_lines() =~= old(self).raw_lines().remove(y as int));
                    assert(self.encrypted_lines() =~= old(self).encrypted_lines().remove(
                        y as int,
                    ));
                }
                self.move_cursor_up();
                let y2 = self.cursor_y_index;
                self.cursor_x_index = self.raw_input[y2].len();
            } else {
                let char_before_cursor = self.cursor_x_index - 1;
                let mut line = self.raw_input.remove(y);
                line.remove(char_before_cursor);
                self.raw_input.insert(y, line);
                let mut eline = self.encrypted_input.remove(y);
                eline.remove(char_before_cursor);
                self.encrypted_input.insert(y, eline);
                proof {
                    assert(self.raw_lines() =~= old(self).raw_lines().update(
                        y as int,
                        old(self).raw_lines()[y as int].remove(char_before_cursor as int),
                    ));
                    assert(self.encrypted_lines() =~= old(self).encrypted_lines().update(
                        y as int,
                        old(self).encrypted_lines()[y as int].remove(char_before_cursor as int),
                    ));
                }
                self.move_cursor_left();
            }
        }
    }
}

} // verus!

