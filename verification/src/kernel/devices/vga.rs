use vstd::prelude::*;

verus! {

/// Columns of the text buffer.
pub const BUFFER_WIDTH: u8 = 80;

/// Rows of the text buffer.
pub const BUFFER_HEIGHT: u8 = 25;

/// The number of cells of the text buffer.
pub const BUFFER_SIZE: usize = 2000;

/// The sixteen colors of VGA text mode.
#[derive(Debug, Clone, Copy, PartialEq, Eq, Structural)]
pub enum VgaColor {
    Black,
    Blue,
    Green,
    Cyan,
    Red,
    Magenta,
    Brown,
    Gray,
    DarkGray,
    LightBlue,
    LightGreen,
    LightCyan,
    LightRed,
    LightMagenta,
    Yellow,
    White,
}

impl VgaColor {
    /// The color's four-bit code.
    pub open spec fn value(self) -> u8 {
        match self {
            VgaColor::Black => 0,
            VgaColor::Blue => 1,
            VgaColor::Green => 2,
            VgaColor::Cyan => 3,
            VgaColor::Red => 4,
            VgaColor::Magenta => 5,
            VgaColor::Brown => 6,
            VgaColor::Gray => 7,
            VgaColor::DarkGray => 8,
            VgaColor::LightBlue => 9,
            VgaColor::LightGreen => 10,
            VgaColor::LightCyan => 11,
            VgaColor::LightRed => 12,
            VgaColor::LightMagenta => 13,
            VgaColor::Yellow => 14,
            VgaColor::White => 15,
        }
    }

    /// The color's four-bit code.
    pub fn bits(self) -> (r: u8)
        ensures
            r == self.value(),
    {
        match self {
            VgaColor::Black => 0,
            VgaColor::Blue => 1,
            VgaColor::Green => 2,
            VgaColor::Cyan => 3,
            VgaColor::Red => 4,
            VgaColor::Magenta => 5,
            VgaColor::Brown => 6,
            VgaColor::Gray => 7,
            VgaColor::DarkGray => 8,
            VgaColor::LightBlue => 9,
            VgaColor::LightGreen => 10,
            VgaColor::LightCyan => 11,
            VgaColor::LightRed => 12,
            VgaColor::LightMagenta => 13,
            VgaColor::Yellow => 14,
            VgaColor::White => 15,
        }
    }

    /// The color with code `bits`, if `bits` is below 16.
    pub fn from_bits(bits: u8) -> (r: Option<Self>)
        ensures
            r is Some <==> bits < 16,
            r is Some ==> r->0.value() == bits,
    {
        match bits {
            0 => Some(VgaColor::Black),
            1 => Some(VgaColor::Blue),
            2 => Some(VgaColor::Green),
            3 => Some(VgaColor::Cyan),
            4 => Some(VgaColor::Red),
            5 => Some(VgaColor::Magenta),
            6 => Some(VgaColor::Brown),
            7 => Some(VgaColor::Gray),
            8 => Some(VgaColor::DarkGray),
            9 => Some(VgaColor::LightBlue),
            10 => Some(VgaColor::LightGreen),
            11 => Some(VgaColor::LightCyan),
            12 => Some(VgaColor::LightRed),
            13 => Some(VgaColor::LightMagenta),
            14 => Some(VgaColor::Yellow),
            15 => Some(VgaColor::White),
            _ => None,
        }
    }
}

/// A foreground and background color packed in one byte: foreground in the
/// low four bits, background in the high four.
#[derive(Debug, Clone, Copy, PartialEq, Eq, Structural)]
pub struct VgaTextColor(u8);

/// The byte of the color pair `fg_color` on `bg_color`.
pub open spec fn text_color_byte(fg_color: VgaColor, bg_color: VgaColor) -> u8 {
    (16 * bg_color.value() + fg_color.value()) as u8
}

impl VgaTextColor {
    /// The color byte.
    pub closed spec fn view(&self) -> u8 {
        self.0
    }

    /// `fg_color` on `bg_color`.
    pub fn new(fg_color: VgaColor, bg_color: VgaColor) -> (r: Self)
        ensures
            r@ == text_color_byte(fg_color, bg_color),
    {
        let fg = fg_color.bits();
        let bg = bg_color.bits();
        let byte = bg << 4 | fg;
        assert(byte == 16 * bg + fg) by (bit_vector)
            requires
                fg < 16,
                bg < 16,
                byte == bg << 4 | fg,
        ;
        Self(byte)
    }

    /// The color byte.
    pub fn byte(self) -> (r: u8)
        ensures
            r == self@,
    {
        self.0
    }

    /// The foreground color.
    pub fn fg_color(self) -> (r: VgaColor)
        ensures
            r.value() == self@ % 16,
    {
        let byte = self.0;
        assert(byte & 0xf == byte % 16) by (bit_vector);
        VgaColor::from_bits(byte & 0xf).unwrap()
    }

    /// The background color.
    pub fn bg_color(self) -> (r: VgaColor)
        ensures
            r.value() == self@ / 16,
    {
        let byte = self.0;
        assert(byte >> 4 == byte / 16) by (bit_vector);
        VgaColor::from_bits(byte >> 4).unwrap()
    }
}

/// A character cell: the code point in the low byte, the color in the high one.
#[derive(Clone, Copy)]
pub struct VgaChar {
    pub char: u8,
    pub color: VgaTextColor,
}

/// The 16-bit value of a character cell.
pub open spec fn char_bits(char: VgaChar) -> u16 {
    (char.char + 256 * char.color@) as u16
}

impl VgaChar {
    /// The 16-bit value stored in the text buffer.
    pub fn bits(self) -> (r: u16)
        ensures
            r == char_bits(self),
    {
        let low = self.char as u16;
        let high = self.color.byte() as u16;
        let r = low | (high << 8);
        assert(r == low + 256 * high) by (bit_vector)
            requires
                low < 256,
                high < 256,
                r == low | (high << 8),
        ;
        r
    }
}

/// A cell position: column `x`, row `y`.
#[derive(Debug, Clone, Copy, PartialEq, Eq, Structural)]
pub struct VgaPos {
    pub x: u8,
    pub y: u8,
}

/// Whether `pos` lies on the screen.
pub open spec fn on_screen(pos: VgaPos) -> bool {
    pos.x < BUFFER_WIDTH && pos.y < BUFFER_HEIGHT
}

/// The index of the cell at `pos`, rows first.
pub open spec fn cell_index(pos: VgaPos) -> int {
    pos.y * BUFFER_WIDTH + pos.x
}

/// One 16-bit store into the text buffer, at a cell index.
#[derive(Debug, Clone, Copy, PartialEq, Eq, Structural)]
pub struct VgaCellWrite {
    pub offset: usize,
    pub bits: u16,
}

/// The VGA text buffer.
pub struct VgaBuffer {
    _private: (),
}

impl VgaBuffer {
    /// The text buffer.
    pub fn new() -> (r: Self) {
        VgaBuffer { _private: () }
    }

    /// The store that puts `char` at `pos`, which must lie on the screen.
    pub fn write(&self, char: VgaChar, pos: VgaPos) -> (r: VgaCellWrite)
        requires
            on_screen(pos),
        ensures
            r.offset == cell_index(pos),
            r.bits == char_bits(char),
    {
        let width = BUFFER_WIDTH as usize;
        assert(pos.y as usize * width <= 24 * 80) by (nonlinear_arith)
            requires
                pos.y < 25,
                width == 80,
        ;
        let offset = (pos.y as usize * width) + pos.x as usize;
        VgaCellWrite { offset, bits: char.bits() }
    }

    /// The stores that put `char` in every cell, in cell order.
    pub fn fill(&self, char: VgaChar) -> (r: Vec<VgaCellWrite>)
        ensures
            r@.len() == BUFFER_SIZE,
            forall|i: int|
                0 <= i < BUFFER_SIZE ==> #[trigger] r@[i] == (VgaCellWrite {
                    offset: i as usize,
                    bits: char_bits(char),
                }),
    {
        let bits = char.bits();
        let mut writes: Vec<VgaCellWrite> = Vec::new();
        let mut i: usize = 0;
        while i < BUFFER_SIZE
            invariant
                i <= BUFFER_SIZE,
                bits == char_bits(char),
                writes@.len() == i,
                forall|j: int|
                    0 <= j < i ==> #[trigger] writes@[j] == (VgaCellWrite {
                        offset: j as usize,
                        bits: char_bits(char),
                    }),
            decreases BUFFER_SIZE - i,
        {
            writes.push(VgaCellWrite { offset: i, bits });
            i = i + 1;
        }
        writes
    }
}

/// The colors of a packed color pair come back out of it unchanged.
pub proof fn law_text_color_round_trip(fg_color: VgaColor, bg_color: VgaColor)
    ensures
        text_color_byte(fg_color, bg_color) % 16 == fg_color.value(),
        text_color_byte(fg_color, bg_color) / 16 == bg_color.value(),
{
}

/// Distinct on-screen positions are distinct cells of the buffer.
pub proof fn law_cells_are_distinct(pos: VgaPos, other: VgaPos)
    requires
        on_screen(pos),
        on_screen(other),
    ensures
        0 <= cell_index(pos) < BUFFER_SIZE,
        cell_index(pos) == cell_index(other) ==> pos == other,
{
}

/// The colors carry the VGA text-mode palette indices, Black 0 through
/// White 15; distinct colors have distinct codes, and every code below 16
/// is some color.
pub proof fn law_vga_palette(color: VgaColor, other: VgaColor)
    ensures
        VgaColor::Black.value() == 0,
        VgaColor::Blue.value() == 1,
        VgaColor::Green.value() == 2,
        VgaColor::Cyan.value() == 3,
        VgaColor::Red.value() == 4,
        VgaColor::Magenta.value() == 5,
        VgaColor::Brown.value() == 6,
        VgaColor::Gray.value() == 7,
        VgaColor::DarkGray.value() == 8,
        VgaColor::LightBlue.value() == 9,
        VgaColor::LightGreen.value() == 10,
        VgaColor::LightCyan.value() == 11,
        VgaColor::LightRed.value() == 12,
        VgaColor::LightMagenta.value() == 13,
        VgaColor::Yellow.value() == 14,
        VgaColor::White.value() == 15,
        color.value() < 16,
        color.value() == other.value() ==> color == other,
        text_color_byte(VgaColor::Green, VgaColor::Black) == 0x02,
        text_color_byte(VgaColor::White, VgaColor::Blue) == 0x1f,
{
}

/// A packed color keeps the foreground in bits 0-3 and the background in
/// bits 4-7; a cell keeps the code point in its low byte and the color
/// byte in its high byte; cells are laid out row by row, 80 to a row.
pub proof fn law_vga_layout(fg_color: VgaColor, bg_color: VgaColor, char: VgaChar, pos: VgaPos)
    ensures
        text_color_byte(fg_color, bg_color) % 16 == fg_color.value(),
        text_color_byte(fg_color, bg_color) / 16 == bg_color.value(),
        char_bits(char) % 256 == char.char,
        char_bits(char) / 256 == char.color@,
        on_screen(pos) ==> cell_index(pos) % 80 == pos.x && cell_index(pos) / 80 == pos.y,
{
}

} // verus!
