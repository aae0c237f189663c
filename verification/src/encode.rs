use crate::color::color_code;
use crate::color::Color;
use crate::style::Style;
use vstd::prelude::*;

verus! {

/// The ASCII digit character for a single decimal digit.
pub open spec fn digit_char(d: int) -> char
    recommends
        0 <= d <= 9,
{
    if d == 0 {
        '0'
    } else if d == 1 {
        '1'
    } else if d == 2 {
        '2'
    } else if d == 3 {
        '3'
    } else if d == 4 {
        '4'
    } else if d == 5 {
        '5'
    } else if d == 6 {
        '6'
    } else if d == 7 {
        '7'
    } else if d == 8 {
        '8'
    } else {
        '9'
    }
}

/// The SGR code of a color rendered as ASCII decimal digits. Every code in
/// the table is two digits long.
pub open spec fn code_digits(c: Color) -> Seq<char> {
    seq![
        digit_char(color_code(c) as int / 10),
        digit_char(color_code(c) as int % 10),
    ]
}

/// The reset escape sequence `ESC [ 0 m`: clears all terminal attributes.
pub open spec fn reset_seq() -> Seq<char> {
    seq!['\u{1b}', '[', '0', 'm']
}

/// The set-foreground escape sequence `ESC [ <code> m` for a color, with
/// the code rendered as decimal digits.
pub open spec fn set_fg_seq(c: Color) -> Seq<char> {
    seq!['\u{1b}', '['] + code_digits(c) + seq!['m']
}

/// Everything the stream path writes to apply a style: the reset sequence,
/// then, only if the style has a foreground color, that color's
/// set-foreground sequence.
pub open spec fn style_set_seq(s: Style) -> Seq<char> {
    match s.fg_color {
        Some(c) => reset_seq() + set_fg_seq(c),
        None => reset_seq(),
    }
}

/// A style with no foreground color applies as the reset sequence alone.
pub proof fn lemma_style_set_seq_no_fg(s: Style)
    requires
        s.fg_color is None,
    ensures
        style_set_seq(s) == reset_seq(),
{
}

/// A style with a foreground color applies as the reset sequence
/// immediately followed by that color's set-foreground sequence, with
/// nothing in between or after.
pub proof fn lemma_style_set_seq_with_fg(s: Style, c: Color)
    requires
        s.fg_color == Some(c),
    ensures
        style_set_seq(s) == reset_seq() + set_fg_seq(c),
{
}

/// The reset string: `ESC [ 0 m`.
pub fn reset_str() -> (r: &'static str)
    ensures
        r@ == reset_seq(),
{
    proof {
        reveal_strlit("\u{1b}[0m");
        assert("\u{1b}[0m"@ =~= reset_seq());
    }
    "\u{1b}[0m"
}

/// The set-foreground string `ESC [ <code> m` for the given color.
pub fn set_fg_str(c: Color) -> (r: &'static str)
    ensures
        r@ == set_fg_seq(c),
{
    match c {
        Color::Black => {
            proof {
                reveal_strlit("\u{1b}[30m");
                assert("\u{1b}[30m"@ =~= set_fg_seq(Color::Black));
            }
            "\u{1b}[30m"
        },
        Color::Red => {
            proof {
                reveal_strlit("\u{1b}[31m");
                assert("\u{1b}[31m"@ =~= set_fg_seq(Color::Red));
            }
            "\u{1b}[31m"
        },
        Color::Green => {
            proof {
                reveal_strlit("\u{1b}[32m");
                assert("\u{1b}[32m"@ =~= set_fg_seq(Color::Green));
            }
            "\u{1b}[32m"
        },
        Color::Yellow => {
            proof {
                reveal_strlit("\u{1b}[33m");
                assert("\u{1b}[33m"@ =~= set_fg_seq(Color::Yellow));
            }
            "\u{1b}[33m"
        },
        Color::Blue => {
            proof {
                reveal_strlit("\u{1b}[34m");
                assert("\u{1b}[34m"@ =~= set_fg_seq(Color::Blue));
            }
            "\u{1b}[34m"
        },
        Color::Magenta => {
            proof {
                reveal_strlit("\u{1b}[35m");
                assert("\u{1b}[35m"@ =~= set_fg_seq(Color::Magenta));
            }
            "\u{1b}[35m"
        },
        Color::Cyan => {
            proof {
                reveal_strlit("\u{1b}[36m");
                assert("\u{1b}[36m"@ =~= set_fg_seq(Color::Cyan));
            }
            "\u{1b}[36m"
        },
        Color::White => {
            proof {
                reveal_strlit("\u{1b}[37m");
                assert("\u{1b}[37m"@ =~= set_fg_seq(Color::White));
            }
            "\u{1b}[37m"
        },
        Color::BrightBlack => {
            proof {
                reveal_strlit("\u{1b}[90m");
                assert("\u{1b}[90m"@ =~= set_fg_seq(Color::BrightBlack));
            }
            "\u{1b}[90m"
        },
        Color::BrightRed => {
            proof {
                reveal_strlit("\u{1b}[91m");
                assert("\u{1b}[91m"@ =~= set_fg_seq(Color::BrightRed));
            }
            "\u{1b}[91m"
        },
        Color::BrightGreen => {
            proof {
                reveal_strlit("\u{1b}[92m");
                assert("\u{1b}[92m"@ =~= set_fg_seq(Color::BrightGreen));
            }
            "\u{1b}[92m"
        },
        Color::BrightYellow => {
            proof {
                reveal_strlit("\u{1b}[93m");
                assert("\u{1b}[93m"@ =~= set_fg_seq(Color::BrightYellow));
            }
            "\u{1b}[93m"
        },
        Color::BrightBlue => {
            proof {
                reveal_strlit("\u{1b}[94m");
                assert("\u{1b}[94m"@ =~= set_fg_seq(Color::BrightBlue));
            }
            "\u{1b}[94m"
        },
        Color::BrightMagenta => {
            proof {
                reveal_strlit("\u{1b}[95m");
                assert("\u{1b}[95m"@ =~= set_fg_seq(Color::BrightMagenta));
            }
            "\u{1b}[95m"
        },
        Color::BrightCyan => {
            proof {
                reveal_strlit("\u{1b}[96m");
                assert("\u{1b}[96m"@ =~= set_fg_seq(Color::BrightCyan));
            }
            "\u{1b}[96m"
        },
        Color::BrightWhite => {
            proof {
                reveal_strlit("\u{1b}[97m");
                assert("\u{1b}[97m"@ =~= set_fg_seq(Color::BrightWhite));
            }
            "\u{1b}[97m"
        },
    }
}

} // verus!
