use crate::color::Color;
use crate::encode::reset_seq;
use crate::encode::reset_str;
use crate::encode::set_fg_seq;
use crate::encode::set_fg_str;
use crate::style::style;
use crate::style::Style;
use vstd::prelude::*;

verus! {

/// What rendering a styled text produces: the set-foreground sequence if
/// the style has a foreground color, then the content, then the reset
/// sequence. Unlike the stream path there is no leading reset: a freshly
/// rendered string has no prior state to clear.
pub open spec fn rendered_seq(style: Style, content: Seq<char>) -> Seq<char> {
    match style.fg_color {
        Some(c) => set_fg_seq(c) + content + reset_seq(),
        None => content + reset_seq(),
    }
}

/// A style paired with textual content, rendered on demand: producing its
/// text form performs no I/O, cannot fail, and never changes the value.
pub struct StyledText {
    pub style: Style,
    pub value: String,
}

impl StyledText {
    /// Pairs a style with content; pure construction, no I/O.
    pub fn new(style: Style, value: String) -> (r: Self)
        ensures
            r.style == style,
            r.value == value,
    {
        Self { style, value }
    }

    /// Produces the escape-wrapped text form of this value. Rendering only
    /// reads the fields, so it may be repeated at will and always yields
    /// the same string.
    pub fn render(&self) -> (r: String)
        ensures
            r@ == rendered_seq(self.style, self.value@),
    {
        let mut out = String::new();
        match self.style.fg_color {
            Some(c) => out.append(set_fg_str(c)),
            None => {},
        }
        out.append(self.value.as_str());
        out.append(reset_str());
        proof {
            assert(out@ =~= rendered_seq(self.style, self.value@));
        }
        out
    }
}

/// The rendered form is a function of the style and the content alone: two
/// styled texts that agree on both render to the same character sequence.
/// In particular, rendering one value any number of times yields identical
/// strings, and any constructor that sets the same style and content is
/// interchangeable with any other.
pub proof fn lemma_render_deterministic(a: StyledText, b: StyledText)
    requires
        a.style == b.style,
        a.value@ == b.value@,
    ensures
        rendered_seq(a.style, a.value@) == rendered_seq(b.style, b.value@),
{
}

/// Pairs the given foreground color with the content.
pub fn color(c: Color, value: String) -> (r: StyledText)
    ensures
        r.style.fg_color == Some(c),
        r.value == value,
{
    StyledText::new(style().fg(c), value)
}

/// Content with a `Black` foreground.
pub fn black(value: String) -> (r: StyledText)
    ensures
        r.style.fg_color == Some(Color::Black),
        r.value == value,
{
    color(Color::Black, value)
}

/// Content with a `Red` foreground.
pub fn red(value: String) -> (r: StyledText)
    ensures
        r.style.fg_color == Some(Color::Red),
        r.value == value,
{
    color(Color::Red, value)
}

/// Content with a `Green` foreground.
pub fn green(value: String) -> (r: StyledText)
    ensures
        r.style.fg_color == Some(Color::Green),
        r.value == value,
{
    color(Color::Green, value)
}

/// Content with a `Yellow` foreground.
pub fn yellow(value: String) -> (r: StyledText)
    ensures
        r.style.fg_color == Some(Color::Yellow),
        r.value == value,
{
    color(Color::Yellow, value)
}

/// Content with a `Blue` foreground.
pub fn blue(value: String) -> (r: StyledText)
    ensures
        r.style.fg_color == Some(Color::Blue),
        r.value == value,
{
    color(Color::Blue, value)
}

/// Content with a `Magenta` foreground.
pub fn magenta(value: String) -> (r: StyledText)
    ensures
        r.style.fg_color == Some(Color::Magenta),
        r.value == value,
{
    color(Color::Magenta, value)
}

/// Content with a `Cyan` foreground.
pub fn cyan(value: String) -> (r: StyledText)
    ensures
        r.style.fg_color == Some(Color::Cyan),
        r.value == value,
{
    color(Color::Cyan, value)
}

/// Content with a `White` foreground.
pub fn white(value: String) -> (r: StyledText)
    ensures
        r.style.fg_color == Some(Color::White),
        r.value == value,
{
    color(Color::White, value)
}

/// Content with a `BrightBlack` foreground.
pub fn bright_black(value: String) -> (r: StyledText)
    ensures
        r.style.fg_color == Some(Color::BrightBlack),
        r.value == value,
{
    color(Color::BrightBlack, value)
}

/// Content with a `BrightRed` foreground.
pub fn bright_red(value: String) -> (r: StyledText)
    ensures
        r.style.fg_color == Some(Color::BrightRed),
        r.value == value,
{
    color(Color::BrightRed, value)
}

/// Content with a `BrightGreen` foreground.
pub fn bright_green(value: String) -> (r: StyledText)
    ensures
        r.style.fg_color == Some(Color::BrightGreen),
        r.value == value,
{
    color(Color::BrightGreen, value)
}

/// Content with a `BrightYellow` foreground.
pub fn bright_yellow(value: String) -> (r: StyledText)
    ensures
        r.style.fg_color == Some(Color::BrightYellow),
        r.value == value,
{
    color(Color::BrightYellow, value)
}

/// Content with a `BrightBlue` foreground.
pub fn bright_blue(value: String) -> (r: StyledText)
    ensures
        r.style.fg_color == Some(Color::BrightBlue),
        r.value == value,
{
    color(Color::BrightBlue, value)
}

/// Content with a `BrightMagenta` foreground.
pub fn bright_magenta(value: String) -> (r: StyledText)
    ensures
        r.style.fg_color == Some(Color::BrightMagenta),
        r.value == value,
{
    color(Color::BrightMagenta, value)
}

/// Content with a `BrightCyan` foreground.
pub fn bright_cyan(value: String) -> (r: StyledText)
    ensures
        r.style.fg_color == Some(Color::BrightCyan),
        r.value == value,
{
    color(Color::BrightCyan, value)
}

/// Content with a `BrightWhite` foreground.
pub fn bright_white(value: String) -> (r: StyledText)
    ensures
        r.style.fg_color == Some(Color::BrightWhite),
        r.value == value,
{
    color(Color::BrightWhite, value)
}

} // verus!
