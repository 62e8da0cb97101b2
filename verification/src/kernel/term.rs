use vstd::prelude::*;
use vstd::string::StringSliceAdditionalSpecFns;
use crate::kernel::devices::vga::{VgaChar, VgaColor, VgaPos, VgaTextColor, text_color_byte};

verus! {

/// The last column.
pub const MAX_X: u8 = 79;

/// The last row.
pub const MAX_Y: u8 = 24;

/// The byte that moves the cursor to the next line.
pub const NEWLINE: u8 = 0x0a;

/// The tab byte, which the terminal ignores.
pub const TAB: u8 = 0x09;

/// The byte that a deleted character is overwritten with.
pub const SPACE: u8 = 0x20;

/// A text terminal on the VGA buffer: a cursor, its color, and how many
/// characters were typed on each of the first 24 rows.
pub struct Terminal {
    pub cursor_pos: VgaPos,
    pub cursor_color: VgaTextColor,
    line_widths: [u8; 24],
}

/// The cursor position at the start of the next line, wrapping from the
/// last row to the first.
pub open spec fn next_line(pos: VgaPos) -> VgaPos {
    VgaPos { x: 0, y: if pos.y == MAX_Y { 0 } else { (pos.y + 1) as u8 } }
}

/// The cursor position after a character is written at `pos`.
pub open spec fn advance(pos: VgaPos) -> VgaPos {
    if pos.x == MAX_X {
        next_line(pos)
    } else {
        VgaPos { x: (pos.x + 1) as u8, y: pos.y }
    }
}

/// The row that deleting moves to: the row above when the cursor is at the
/// start of a row (staying on the first row), else the cursor's row.
pub open spec fn delete_row(pos: VgaPos) -> u8 {
    if pos.x == 0 {
        if pos.y == 0 {
            0
        } else {
            (pos.y - 1) as u8
        }
    } else {
        pos.y
    }
}

impl Terminal {
    /// The cursor position.
    pub closed spec fn cursor(&self) -> VgaPos {
        self.cursor_pos
    }

    /// The color that characters are written in.
    pub closed spec fn color(&self) -> VgaTextColor {
        self.cursor_color
    }

    /// How many characters were typed on each of the first 24 rows.
    pub closed spec fn line_widths(&self) -> Seq<u8> {
        self.line_widths@
    }

    /// The cursor lies on the screen.
    pub open spec fn wf(&self) -> bool {
        &&& self.cursor().x <= MAX_X
        &&& self.cursor().y <= MAX_Y
        &&& self.line_widths().len() == 24
    }

    /// Whether `char` can be written now: a printable byte is recorded in
    /// the width of the cursor's row, which must be one of the first 24 and
    /// hold fewer than 255 characters.
    pub open spec fn can_write_char(&self, char: u8) -> bool {
        char != NEWLINE && char != TAB ==> self.cursor().y < MAX_Y
            && self.line_widths()[self.cursor().y as int] < 255
    }

    /// Whether a character can be deleted now: the cell that deleting moves
    /// to must lie on the screen and, off the start of a row, the cursor's
    /// row must be one of the first 24.
    pub open spec fn can_delete_char(&self) -> bool {
        &&& self.cursor().x == 0 ==> self.line_widths()[delete_row(self.cursor()) as int] <= MAX_X
        &&& self.cursor().x != 0 ==> self.cursor().y < MAX_Y
    }

    /// The terminal after `char` is written (see [`Terminal::write_char`]).
    pub closed spec fn after_char(self, char: u8) -> Terminal {
        if char == NEWLINE {
            Terminal {
                cursor_pos: next_line(self.cursor_pos),
                cursor_color: self.cursor_color,
                line_widths: self.line_widths,
            }
        } else if char == TAB {
            self
        } else {
            Terminal {
                cursor_pos: advance(self.cursor_pos),
                cursor_color: self.cursor_color,
                line_widths: vstd::array::spec_array_update(
                    self.line_widths,
                    self.cursor_pos.y as int,
                    (self.line_widths@[self.cursor_pos.y as int] + 1) as u8,
                ),
            }
        }
    }

    /// The cursor position after a character is deleted.
    pub open spec fn position_after_delete(self) -> VgaPos {
        let row = delete_row(self.cursor());
        if self.cursor().x == 0 {
            VgaPos { x: self.line_widths()[row as int], y: row }
        } else {
            VgaPos { x: (self.cursor().x - 1) as u8, y: row }
        }
    }

    /// The terminal after a character is deleted (see [`Terminal::delete_char`]).
    pub closed spec fn after_delete(self) -> Terminal {
        let row = delete_row(self.cursor_pos);
        let width = self.line_widths@[row as int];
        Terminal {
            cursor_pos: self.position_after_delete(),
            cursor_color: self.cursor_color,
            line_widths: vstd::array::spec_array_update(
                self.line_widths,
                row as int,
                if width == 0 {
                    0u8
                } else {
                    (width - 1) as u8
                },
            ),
        }
    }

    /// The blank cell that deleting a character draws.
    pub open spec fn deleted_cell(self) -> (VgaChar, VgaPos) {
        (VgaChar { char: SPACE, color: self.color() }, self.position_after_delete())
    }

    /// The cell that writing `char` draws, if any.
    pub open spec fn drawn_cell(self, char: u8) -> Option<(VgaChar, VgaPos)> {
        if char == NEWLINE || char == TAB {
            None
        } else {
            Some((VgaChar { char, color: self.color() }, self.cursor()))
        }
    }

    /// The terminal after every byte of `bytes` is written, in order.
    pub open spec fn after_bytes(self, bytes: Seq<u8>) -> Terminal
        decreases bytes.len(),
    {
        if bytes.len() == 0 {
            self
        } else {
            self.after_bytes(bytes.drop_last()).after_char(bytes.last())
        }
    }

    /// Whether every byte of `bytes` can be written, in order.
    pub open spec fn can_write_bytes(self, bytes: Seq<u8>) -> bool
        decreases bytes.len(),
    {
        bytes.len() == 0 || (self.can_write_bytes(bytes.drop_last()) && self.after_bytes(
            bytes.drop_last(),
        ).can_write_char(bytes.last()))
    }

    /// The cells that writing `bytes` draws, in order.
    pub open spec fn drawn_cells(self, bytes: Seq<u8>) -> Seq<(VgaChar, VgaPos)>
        decreases bytes.len(),
    {
        if bytes.len() == 0 {
            Seq::empty()
        } else {
            let before = self.drawn_cells(bytes.drop_last());
            match self.after_bytes(bytes.drop_last()).drawn_cell(bytes.last()) {
                Some(cell) => before.push(cell),
                None => before,
            }
        }
    }

    /// Writing a byte keeps the cursor on the screen.
    pub proof fn lemma_after_char_wf(self, char: u8)
        requires
            self.wf(),
            self.can_write_char(char),
        ensures
            self.after_char(char).wf(),
    {
        broadcast use vstd::array::axiom_spec_array_update;

    }

    /// Writing bytes keeps the cursor on the screen.
    pub proof fn lemma_after_bytes_wf(self, bytes: Seq<u8>)
        requires
            self.wf(),
            self.can_write_bytes(bytes),
        ensures
            self.after_bytes(bytes).wf(),
        decreases bytes.len(),
    {
        if bytes.len() > 0 {
            self.lemma_after_bytes_wf(bytes.drop_last());
            self.after_bytes(bytes.drop_last()).lemma_after_char_wf(bytes.last());
        }
    }

    /// A terminal with the cursor at the top left, gray on black, and no
    /// character typed.
    pub fn new() -> (r: Self)
        ensures
            r.wf(),
            r.cursor() == (VgaPos { x: 0, y: 0 }),
            r.color()@ == text_color_byte(VgaColor::Gray, VgaColor::Black),
            r.line_widths() == Seq::new(24, |i: int| 0u8),
    {
        let r = Self {
            cursor_pos: VgaPos { x: 0, y: 0 },
            cursor_color: VgaTextColor::new(VgaColor::Gray, VgaColor::Black),
            line_widths: [0u8; 24],
        };
        assert(r.line_widths() =~= Seq::new(24, |i: int| 0u8));
        r
    }

    /// Whether `char` can be written now (see [`Terminal::can_write_char`]).
    pub fn can_write(&self, char: u8) -> (r: bool)
        requires
            self.wf(),
        ensures
            r == self.can_write_char(char),
    {
        if char == NEWLINE || char == TAB {
            true
        } else {
            self.cursor_pos.y < MAX_Y && self.line_widths[self.cursor_pos.y as usize] < 255
        }
    }

    /// Whether a character can be deleted now (see [`Terminal::can_delete_char`]).
    pub fn can_delete(&self) -> (r: bool)
        requires
            self.wf(),
        ensures
            r == self.can_delete_char(),
    {
        if self.cursor_pos.x == 0 {
            let row = if self.cursor_pos.y == 0 {
                0
            } else {
                self.cursor_pos.y - 1
            };
            self.line_widths[row as usize] <= MAX_X
        } else {
            self.cursor_pos.y < MAX_Y
        }
    }

    /// Writes `char` at the cursor and advances it: a newline moves to the
    /// next line, a tab does nothing, any other byte is returned with the
    /// cursor's color and position as the cell to draw, counted in the row's
    /// width, and the cursor moves one column, wrapping after the last.
    pub fn write_char(&mut self, char: u8) -> (r: Option<(VgaChar, VgaPos)>)
        requires
            old(self).wf(),
            old(self).can_write_char(char),
        ensures
            final(self).wf(),
            *final(self) == old(self).after_char(char),
            r == old(self).drawn_cell(char),
            final(self).color() == old(self).color(),
            char == NEWLINE ==> r is None && final(self).cursor() == next_line(old(self).cursor())
                && final(self).line_widths() == old(self).line_widths(),
            char == TAB ==> r is None && final(self).cursor() == old(self).cursor()
                && final(self).line_widths() == old(self).line_widths(),
            char != NEWLINE && char != TAB ==> {
                let pos = old(self).cursor();
                &&& r == Some((VgaChar { char, color: old(self).color() }, pos))
                &&& final(self).cursor() == advance(pos)
                &&& final(self).line_widths() == old(self).line_widths().update(
                    pos.y as int,
                    (old(self).line_widths()[pos.y as int] + 1) as u8,
                )
            },
    {
        if char == NEWLINE {
            self.newline();
            return None;
        } else if char == TAB {
            return None;
        }
        let vga_char = VgaChar { char, color: self.cursor_color };
        let pos = self.cursor_pos;
        let y = pos.y as usize;
        self.line_widths[y] = self.line_widths[y] + 1;
        if pos.x == MAX_X {
            self.newline();
        } else {
            self.cursor_pos.x = pos.x + 1;
        }
        proof {
            broadcast use vstd::array::axiom_spec_array_update, vstd::array::axiom_array_ext_equal;

            assert(self.line_widths =~= old(self).after_char(char).line_widths);
        }
        Some((vga_char, pos))
    }

    /// Writes every byte of the UTF-8 encoding of `s` in order (see
    /// [`Terminal::write_char`]) and returns the cells to draw, in order.
    pub fn write_str(&mut self, s: &str) -> (r: Vec<(VgaChar, VgaPos)>)
        requires
            old(self).wf(),
            old(self).can_write_bytes(s.spec_bytes()),
        ensures
            final(self).wf(),
            *final(self) == old(self).after_bytes(s.spec_bytes()),
            r@ == old(self).drawn_cells(s.spec_bytes()),
    {
        self.write_bytes(s.as_bytes())
    }

    /// Writes every byte of `bytes` in order (see [`Terminal::write_char`])
    /// and returns the cells to draw, in order.
    pub fn write_bytes(&mut self, bytes: &[u8]) -> (r: Vec<(VgaChar, VgaPos)>)
        requires
            old(self).wf(),
            old(self).can_write_bytes(bytes@),
        ensures
            final(self).wf(),
            *final(self) == old(self).after_bytes(bytes@),
            r@ == old(self).drawn_cells(bytes@),
    {
        let mut cells: Vec<(VgaChar, VgaPos)> = Vec::new();
        let mut i: usize = 0;
        while i < bytes.len()
            invariant
                i <= bytes@.len(),
                old(self).wf(),
                old(self).can_write_bytes(bytes@),
                *self == old(self).after_bytes(bytes@.take(i as int)),
                cells@ == old(self).drawn_cells(bytes@.take(i as int)),
            decreases bytes@.len() - i,
        {
            let ghost prefix = bytes@.take(i as int + 1);
            proof {
                assert(prefix.drop_last() =~= bytes@.take(i as int));
                assert(prefix.last() == bytes@[i as int]);
                lemma_prefix_can_write(*old(self), bytes@, i as int + 1);
                old(self).lemma_after_bytes_wf(bytes@.take(i as int));
            }
            let cell = self.write_char(bytes[i]);
            match cell {
                Some(cell) => cells.push(cell),
                None => {},
            }
            i = i + 1;
        }
        proof {
            assert(bytes@.take(bytes@.len() as int) =~= bytes@);
            old(self).lemma_after_bytes_wf(bytes@);
        }
        cells
    }

    /// Moves the cursor to the start of the next line.
    fn newline(&mut self)
        requires
            old(self).wf(),
        ensures
            final(self).wf(),
            final(self).cursor() == next_line(old(self).cursor()),
            final(self).color() == old(self).color(),
            final(self).line_widths() == old(self).line_widths(),
            final(self).line_widths == old(self).line_widths,
    {
        self.cursor_pos.x = 0;
        self.cursor_pos.y = if self.cursor_pos.y == MAX_Y {
            0
        } else {
            self.cursor_pos.y + 1
        };
    }

    /// Deletes the character before the cursor: moves back one column, or
    /// from the start of a row to the end of the text on the row above, takes
    /// one from that row's width (not below zero) and returns a blank cell in
    /// the cursor's color at the new position to draw.
    pub fn delete_char(&mut self) -> (r: (VgaChar, VgaPos))
        requires
            old(self).wf(),
            old(self).can_delete_char(),
        ensures
            final(self).wf(),
            *final(self) == old(self).after_delete(),
            r == old(self).deleted_cell(),
            final(self).color() == old(self).color(),
            ({
                let pos = old(self).cursor();
                let row = delete_row(pos);
                let width = old(self).line_widths()[row as int];
                let new_pos = if pos.x == 0 {
                    VgaPos { x: width, y: row }
                } else {
                    VgaPos { x: (pos.x - 1) as u8, y: row }
                };
                &&& final(self).cursor() == new_pos
                &&& final(self).line_widths() == old(self).line_widths().update(
                    row as int,
                    if width == 0 {
                        0u8
                    } else {
                        (width - 1) as u8
                    },
                )
                &&& r == (VgaChar { char: SPACE, color: old(self).color() }, new_pos)
            }),
    {
        if self.cursor_pos.x == 0 {
            self.cursor_pos.y = if self.cursor_pos.y == 0 {
                0
            } else {
                self.cursor_pos.y - 1
            };
            self.cursor_pos.x = self.line_widths[self.cursor_pos.y as usize];
        } else {
            self.cursor_pos.x = self.cursor_pos.x - 1;
        }
        let y = self.cursor_pos.y as usize;
        let width = self.line_widths[y];
        self.line_widths[y] = if width == 0 {
            0
        } else {
            width - 1
        };
        proof {
            broadcast use vstd::array::axiom_spec_array_update, vstd::array::axiom_array_ext_equal;

            assert(self.line_widths =~= old(self).after_delete().line_widths);
        }
        (VgaChar { char: SPACE, color: self.cursor_color }, self.cursor_pos)
    }
}

/// Deleting right after writing a character in the middle of a row puts the
/// terminal back as it was, blanking the cell that the character was drawn in.
pub proof fn law_delete_undoes_write(terminal: Terminal, char: u8)
    requires
        terminal.wf(),
        terminal.can_write_char(char),
        char != NEWLINE,
        char != TAB,
        terminal.cursor().x < MAX_X,
    ensures
        terminal.after_char(char).wf(),
        terminal.after_char(char).can_delete_char(),
        terminal.after_char(char).after_delete() == terminal,
        terminal.after_char(char).deleted_cell().1 == terminal.cursor(),
{
    broadcast use vstd::array::axiom_spec_array_update, vstd::array::axiom_array_ext_equal;

    terminal.lemma_after_char_wf(char);
    let written = terminal.after_char(char);
    assert(written.after_delete().line_widths =~= terminal.line_widths);
}

/// Bytes that can be written can be written up to any point.
proof fn lemma_prefix_can_write(terminal: Terminal, bytes: Seq<u8>, n: int)
    requires
        0 <= n <= bytes.len(),
        terminal.can_write_bytes(bytes),
    ensures
        terminal.can_write_bytes(bytes.take(n)),
    decreases bytes.len(),
{
    if n < bytes.len() {
        assert(bytes.drop_last().take(n) =~= bytes.take(n));
        lemma_prefix_can_write(terminal, bytes.drop_last(), n);
    } else {
        assert(bytes.take(n) =~= bytes);
    }
}

/// Writing moves the cursor to the next cell in reading order, from the
/// last cell of the screen back to the first; a newline moves it to the
/// start of the following row, from the last row back to the first.
pub proof fn law_cursor_moves_in_reading_order(pos: VgaPos)
    requires
        pos.x <= MAX_X,
        pos.y <= MAX_Y,
    ensures
        advance(pos).y * 80 + advance(pos).x == (pos.y * 80 + pos.x + 1) % 2000,
        next_line(pos).x == 0,
        next_line(pos).y == (pos.y + 1) % 25,
{
}

} // verus!
