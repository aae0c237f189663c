use vstd::prelude::*;

verus! {

/// The sixteen standard terminal foreground colors: the eight base colors
/// and their bright counterparts. The set is closed; no other colors exist.
#[derive(Debug, Clone, Copy, PartialEq, Eq, Structural)]
pub enum Color {
    Black,
    Red,
    Green,
    Yellow,
    Blue,
    Magenta,
    Cyan,
    White,
    BrightBlack,
    BrightRed,
    BrightGreen,
    BrightYellow,
    BrightBlue,
    BrightMagenta,
    BrightCyan,
    BrightWhite,
}

/// The fixed SGR (Select Graphic Rendition) foreground code of each color:
/// 30 through 37 for the base colors, 90 through 97 for the bright ones.
pub open spec fn color_code(c: Color) -> u8 {
    match c {
        Color::Black => 30,
        Color::Red => 31,
        Color::Green => 32,
        Color::Yellow => 33,
        Color::Blue => 34,
        Color::Magenta => 35,
        Color::Cyan => 36,
        Color::White => 37,
        Color::BrightBlack => 90,
        Color::BrightRed => 91,
        Color::BrightGreen => 92,
        Color::BrightYellow => 93,
        Color::BrightBlue => 94,
        Color::BrightMagenta => 95,
        Color::BrightCyan => 96,
        Color::BrightWhite => 97,
    }
}

impl Color {
    /// Returns the SGR foreground code of this color.
    pub fn code(&self) -> (r: u8)
        ensures
            r == color_code(*self),
    {
        match self {
            Color::Black => 30,
            Color::Red => 31,
            Color::Green => 32,
            Color::Yellow => 33,
            Color::Blue => 34,
            Color::Magenta => 35,
            Color::Cyan => 36,
            Color::White => 37,
            Color::BrightBlack => 90,
            Color::BrightRed => 91,
            Color::BrightGreen => 92,
            Color::BrightYellow => 93,
            Color::BrightBlue => 94,
            Color::BrightMagenta => 95,
            Color::BrightCyan => 96,
            Color::BrightWhite => 97,
        }
    }
}

/// The color table is injective: no two colors share an SGR code.
pub proof fn lemma_color_code_injective(a: Color, b: Color)
    requires
        color_code(a) == color_code(b),
    ensures
        a == b,
{
}

} // verus!
