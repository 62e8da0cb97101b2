use vstd::prelude::*;

verus! {

/// Columns of the text buffer.
pub const WIDTH: usize = 80;

/// Rows of the text buffer.
pub const HEIGHT: usize = 25;

/// The sixteen colors of the text buffer, as four-bit codes.
#[derive(Debug, Clone, Copy, PartialEq, Eq, Structural)]
pub enum VgaColor {
    Black,
    Blue,
    Green,
    Cyan,
    Red,
    Magenta,
    Brown,
    White,
    Gray,
    LightBlue,
    LightGreen,
    LightCyan,
    LightRed,
    LightMagenta,
    Yellow,
    BrightYellow,
}

impl VgaColor {
    /// The color's four-bit code.
    pub open spec fn value(self) -> u8 {
        match self {
            VgaColor::Black => 0,
            VgaColor::Blue => 1,
            VgaColor::Green => 2,
            VgaColor::Cyan => 3,
            VgaColor::Red => 4,
            VgaColor::Magenta => 5,
            VgaColor::Brown => 6,
            VgaColor::White => 7,
            VgaColor::Gray => 8,
            VgaColor::LightBlue => 9,
            VgaColor::LightGreen => 10,
            VgaColor::LightCyan => 11,
            VgaColor::LightRed => 12,
            VgaColor::LightMagenta => 13,
            VgaColor::Yellow => 14,
            VgaColor::BrightYellow => 15,
        }
    }

    /// The color's four-bit code.
    pub fn bits(self) -> (r: u8)
        ensures
            r == self.value(),
    {
        match self {
            VgaColor::Black => 0,
            VgaColor::Blue => 1,
            VgaColor::Green => 2,
            VgaColor::Cyan => 3,
            VgaColor::Red => 4,
            VgaColor::Magenta => 5,
            VgaColor::Brown => 6,
            VgaColor::White => 7,
            VgaColor::Gray => 8,
            VgaColor::LightBlue => 9,
            VgaColor::LightGreen => 10,
            VgaColor::LightCyan => 11,
            VgaColor::LightRed => 12,
            VgaColor::LightMagenta => 13,
            VgaColor::Yellow => 14,
            VgaColor::BrightYellow => 15,
        }
    }

    /// The color whose code is the low four bits of `bits`.
    pub fn from_bits(bits: u8) -> (r: Self)
        ensures
            r.value() == bits % 16,
    {
        let code = bits & 0xf;
        assert(code == bits % 16) by (bit_vector)
            requires
                code == bits & 0xf,
        ;
        match code {
            0 => VgaColor::Black,
            1 => VgaColor::Blue,
            2 => VgaColor::Green,
            3 => VgaColor::Cyan,
            4 => VgaColor::Red,
            5 => VgaColor::Magenta,
            6 => VgaColor::Brown,
            7 => VgaColor::White,
            8 => VgaColor::Gray,
            9 => VgaColor::LightBlue,
            10 => VgaColor::LightGreen,
            11 => VgaColor::LightCyan,
            12 => VgaColor::LightRed,
            13 => VgaColor::LightMagenta,
            14 => VgaColor::Yellow,
            _ => VgaColor::BrightYellow,
        }
    }
}

/// A color pair in one byte: foreground in bits 0-3, background in bits 4-7.
#[derive(Debug, Clone, Copy, PartialEq, Eq, Structural)]
pub struct VgaTextColor {
    value: u8,
}

impl VgaTextColor {
    /// The color byte.
    pub closed spec fn view(&self) -> u8 {
        self.value
    }

    /// `fg_color` on `bg_color`.
    pub fn new(fg_color: VgaColor, bg_color: VgaColor) -> (r: Self)
        ensures
            r@ == fg_color.value() + 16 * bg_color.value(),
    {
        let fg = fg_color.bits();
        let bg = bg_color.bits();
        let value = fg | (bg << 4);
        assert(value == fg + 16 * bg) by (bit_vector)
            requires
                fg < 16,
                bg < 16,
                value == fg | (bg << 4),
        ;
        Self { value }
    }

    /// The foreground color.
    pub fn fg_color(self) -> (r: VgaColor)
        ensures
            r.value() == self@ % 16,
    {
        VgaColor::from_bits(self.value)
    }

    /// The background color.
    pub fn bg_color(self) -> (r: VgaColor)
        ensures
            r.value() == self@ / 16,
    {
        let value = self.value;
        let high = value >> 4;
        assert(high == value / 16) by (bit_vector)
            requires
                high == value >> 4,
        ;
        VgaColor::from_bits(high)
    }
}

/// A character cell in 16 bits: code point in bits 0-7, color in bits 8-15.
#[derive(Debug, Clone, Copy, PartialEq, Eq, Structural)]
pub struct VgaChar {
    value: u16,
}

impl VgaChar {
    /// The cell's 16 bits.
    pub closed spec fn view(&self) -> u16 {
        self.value
    }

    /// The cell showing `code_point` in `color`.
    pub fn new(code_point: u8, color: VgaTextColor) -> (r: Self)
        ensures
            r@ == code_point + 256 * color@,
    {
        let low = code_point as u16;
        let high = color.value as u16;
        let value = low | (high << 8);
        assert(value == low + 256 * high) by (bit_vector)
            requires
                low < 256,
                high < 256,
                value == low | (high << 8),
        ;
        Self { value }
    }

    /// The cell's 16 bits.
    pub fn bits(self) -> (r: u16)
        ensures
            r == self@,
    {
        self.value
    }

    /// The code point.
    pub fn code_point(self) -> (r: u8)
        ensures
            r == self@ % 256,
    {
        let value = self.value;
        let low = (value & 0xff) as u8;
        assert(low == value % 256) by (bit_vector)
            requires
                low == (value & 0xff) as u8,
        ;
        low
    }

    /// The color.
    pub fn color(self) -> (r: VgaTextColor)
        ensures
            r@ == self@ / 256,
    {
        let value = self.value;
        let high = (value >> 8) as u8;
        assert(high == value / 256) by (bit_vector)
            requires
                high == (value >> 8) as u8,
        ;
        VgaTextColor { value: high }
    }
}

/// A cell position: column `x`, row `y`.
#[derive(Debug, Clone, Copy, PartialEq, Eq, Structural)]
pub struct VgaPos {
    pub x: u8,
    pub y: u8,
}

/// One cell of the text buffer to overwrite.
#[derive(Debug, Clone, Copy, PartialEq, Eq, Structural)]
pub struct CellWrite {
    pub row: usize,
    pub column: usize,
    pub char: VgaChar,
}

/// The store that puts `char` at `pos`, which must lie on the screen.
pub fn put_char(char: VgaChar, pos: VgaPos) -> (r: CellWrite)
    requires
        pos.x < WIDTH,
        pos.y < HEIGHT,
    ensures
        r == (CellWrite { row: pos.y as usize, column: pos.x as usize, char }),
{
    CellWrite { row: pos.y as usize, column: pos.x as usize, char }
}

/// A cell gives back its code point and colors.
pub proof fn law_cell_fields(code_point: u8, fg: VgaColor, bg: VgaColor)
    ensures
        ({
            let color = fg.value() + 16 * bg.value();
            let cell = code_point + 256 * color;
            &&& cell % 256 == code_point
            &&& cell / 256 == color
            &&& color % 16 == fg.value()
            &&& color / 16 == bg.value()
        }),
{
}

/// The four-bit color codes, Black 0 through BrightYellow 15; distinct
/// colors have distinct codes.
pub proof fn law_bootstrap_palette(color: VgaColor, other: VgaColor)
    ensures
        VgaColor::Black.value() == 0,
        VgaColor::Blue.value() == 1,
        VgaColor::Green.value() == 2,
        VgaColor::Cyan.value() == 3,
        VgaColor::Red.value() == 4,
        VgaColor::Magenta.value() == 5,
        VgaColor::Brown.value() == 6,
        VgaColor::White.value() == 7,
        VgaColor::Gray.value() == 8,
        VgaColor::LightBlue.value() == 9,
        VgaColor::LightGreen.value() == 10,
        VgaColor::LightCyan.value() == 11,
        VgaColor::LightRed.value() == 12,
        VgaColor::LightMagenta.value() == 13,
        VgaColor::Yellow.value() == 14,
        VgaColor::BrightYellow.value() == 15,
        color.value() < 16,
        color.value() == other.value() ==> color == other,
{
}

} // verus!
