use crate::color::Color;
use vstd::prelude::*;

verus! {

/// An immutable descriptor of desired text attributes: at most one
/// foreground color. A style with no foreground color renders as
/// "reset only" (no color change).
#[derive(Debug, Clone, Copy, PartialEq, Eq)]
pub struct Style {
    pub fg_color: Option<Color>,
}

impl Default for Style {
    /// The default style is the neutral one: no foreground color set.
    fn default() -> (r: Self)
        ensures
            r.fg_color is None,
    {
        Self::new()
    }
}

impl Style {
    /// The neutral style: no foreground color set.
    pub fn new() -> (r: Self)
        ensures
            r.fg_color is None,
    {
        Self { fg_color: None }
    }

    /// Returns a new style identical to this one except that its
    /// foreground color is set to the given color.
    pub fn fg(self, color: Color) -> (r: Self)
        ensures
            r.fg_color == Some(color),
    {
        Self { fg_color: Some(color) }
    }
}

/// The neutral style: the entry point for fluent composition.
pub fn style() -> (r: Style)
    ensures
        r.fg_color is None,
{
    Style::new()
}

/// A style whose foreground color is `Black`.
pub fn fg_black() -> (r: Style)
    ensures
        r.fg_color == Some(Color::Black),
{
    style().fg(Color::Black)
}

/// A style whose foreground color is `Red`.
pub fn fg_red() -> (r: Style)
    ensures
        r.fg_color == Some(Color::Red),
{
    style().fg(Color::Red)
}

/// A style whose foreground color is `Green`.
pub fn fg_green() -> (r: Style)
    ensures
        r.fg_color == Some(Color::Green),
{
    style().fg(Color::Green)
}

/// A style whose foreground color is `Yellow`.
pub fn fg_yellow() -> (r: Style)
    ensures
        r.fg_color == Some(Color::Yellow),
{
    style().fg(Color::Yellow)
}

/// A style whose foreground color is `Blue`.
pub fn fg_blue() -> (r: Style)
    ensures
        r.fg_color == Some(Color::Blue),
{
    style().fg(Color::Blue)
}

/// A style whose foreground color is `Magenta`.
pub fn fg_magenta() -> (r: Style)
    ensures
        r.fg_color == Some(Color::Magenta),
{
    style().fg(Color::Magenta)
}

/// A style whose foreground color is `Cyan`.
pub fn fg_cyan() -> (r: Style)
    ensures
        r.fg_color == Some(Color::Cyan),
{
    style().fg(Color::Cyan)
}

/// A style whose foreground color is `White`.
pub fn fg_white() -> (r: Style)
    ensures
        r.fg_color == Some(Color::White),
{
    style().fg(Color::White)
}

/// A style whose foreground color is `BrightBlack`.
pub fn fg_bright_black() -> (r: Style)
    ensures
        r.fg_color == Some(Color::BrightBlack),
{
    style().fg(Color::BrightBlack)
}

/// A style whose foreground color is `BrightRed`.
pub fn fg_bright_red() -> (r: Style)
    ensures
        r.fg_color == Some(Color::BrightRed),
{
    style().fg(Color::BrightRed)
}

/// A style whose foreground color is `BrightGreen`.
pub fn fg_bright_green() -> (r: Style)
    ensures
        r.fg_color == Some(Color::BrightGreen),
{
    style().fg(Color::BrightGreen)
}

/// A style whose foreground color is `BrightYellow`.
pub fn fg_bright_yellow() -> (r: Style)
    ensures
        r.fg_color == Some(Color::BrightYellow),
{
    style().fg(Color::BrightYellow)
}

/// A style whose foreground color is `BrightBlue`.
pub fn fg_bright_blue() -> (r: Style)
    ensures
        r.fg_color == Some(Color::BrightBlue),
{
    style().fg(Color::BrightBlue)
}

/// A style whose foreground color is `BrightMagenta`.
pub fn fg_bright_magenta() -> (r: Style)
    ensures
        r.fg_color == Some(Color::BrightMagenta),
{
    style().fg(Color::BrightMagenta)
}

/// A style whose foreground color is `BrightCyan`.
pub fn fg_bright_cyan() -> (r: Style)
    ensures
        r.fg_color == Some(Color::BrightCyan),
{
    style().fg(Color::BrightCyan)
}

/// A style whose foreground color is `BrightWhite`.
pub fn fg_bright_white() -> (r: Style)
    ensures
        r.fg_color == Some(Color::BrightWhite),
{
    style().fg(Color::BrightWhite)
}

} // verus!
