use vstd::prelude::*;
use crate::bootstrap::vga::{VgaChar, VgaPos, VgaTextColor};

verus! {

/// The last column.
pub const MAX_X: u8 = 79;

/// The last row.
pub const MAX_Y: u8 = 24;

/// A text terminal on the VGA buffer: a cursor and its color.
pub struct Terminal {
    pub cursor_pos: VgaPos,
    pub cursor_color: VgaTextColor,
}

/// The start of the next line, wrapping from the last row to the first.
pub open spec fn next_line(pos: VgaPos) -> VgaPos {
    VgaPos { x: 0, y: if pos.y == MAX_Y { 0 } else { (pos.y + 1) as u8 } }
}

impl Terminal {
    /// The cursor lies on the screen.
    pub open spec fn wf(&self) -> bool {
        self.cursor_pos.x <= MAX_X && self.cursor_pos.y <= MAX_Y
    }

    /// Writes `char` at the cursor: a newline moves to the next line; any
    /// other byte is returned with the cursor's color and position as the
    /// cell to draw, and the cursor moves one column, wrapping after the last.
    pub fn write_char(&mut self, char: u8) -> (r: Option<(VgaChar, VgaPos)>)
        requires
            old(self).wf(),
        ensures
            final(self).wf(),
            final(self).cursor_color == old(self).cursor_color,
            char == 0x0a ==> r is None && final(self).cursor_pos == next_line(old(self).cursor_pos),
            char != 0x0a ==> {
                let pos = old(self).cursor_pos;
                &&& r matches Some((cell, at)) && at == pos && cell@ == char + 256 * old(
                    self,
                ).cursor_color@
                &&& final(self).cursor_pos == if pos.x == MAX_X {
                    next_line(pos)
                } else {
                    VgaPos { x: (pos.x + 1) as u8, y: pos.y }
                }
            },
    {
        if char == 0x0a {
            self.newline();
            return None;
        }
        let vga_char = VgaChar::new(char, self.cursor_color);
        let pos = self.cursor_pos;
        if pos.x == MAX_X {
            self.newline();
        } else {
            self.cursor_pos.x = pos.x + 1;
        }
        Some((vga_char, pos))
    }

    /// Moves the cursor to the start of the next line.
    fn newline(&mut self)
        requires
            old(self).wf(),
        ensures
            final(self).wf(),
            final(self).cursor_pos == next_line(old(self).cursor_pos),
            final(self).cursor_color == old(self).cursor_color,
    {
        self.cursor_pos.x = 0;
        self.cursor_pos.y = if self.cursor_pos.y == MAX_Y {
            0
        } else {
            self.cursor_pos.y + 1
        };
    }
}

} // verus!
