use term_style::{
    black, blue, bright_black, bright_blue, bright_cyan, bright_green, bright_magenta, bright_red,
    bright_white, bright_yellow, color, cyan, fg_black, fg_blue, fg_bright_black, fg_bright_blue,
    fg_bright_cyan, fg_bright_green, fg_bright_magenta, fg_bright_red, fg_bright_white,
    fg_bright_yellow, fg_cyan, fg_green, fg_magenta, fg_red, fg_white, fg_yellow, green, magenta,
    print_styled, println_styled, red, reset_style, set_style, style, white, yellow, BufferSink,
    Color, LimitedSink, Style, StyledText, WriteError,
};

#[test]
fn color_codes_match_the_table() {
    assert_eq!(Color::Black.code(), 30);
    assert_eq!(Color::Red.code(), 31);
    assert_eq!(Color::Green.code(), 32);
    assert_eq!(Color::Yellow.code(), 33);
    assert_eq!(Color::Blue.code(), 34);
    assert_eq!(Color::Magenta.code(), 35);
    assert_eq!(Color::Cyan.code(), 36);
    assert_eq!(Color::White.code(), 37);
    assert_eq!(Color::BrightBlack.code(), 90);
    assert_eq!(Color::BrightRed.code(), 91);
    assert_eq!(Color::BrightGreen.code(), 92);
    assert_eq!(Color::BrightYellow.code(), 93);
    assert_eq!(Color::BrightBlue.code(), 94);
    assert_eq!(Color::BrightMagenta.code(), 95);
    assert_eq!(Color::BrightCyan.code(), 96);
    assert_eq!(Color::BrightWhite.code(), 97);
}

#[test]
fn color_codes_are_injective() {
    let all = [
        Color::Black,
        Color::Red,
        Color::Green,
        Color::Yellow,
        Color::Blue,
        Color::Magenta,
        Color::Cyan,
        Color::White,
        Color::BrightBlack,
        Color::BrightRed,
        Color::BrightGreen,
        Color::BrightYellow,
        Color::BrightBlue,
        Color::BrightMagenta,
        Color::BrightCyan,
        Color::BrightWhite,
    ];
    for i in 0..all.len() {
        for j in 0..all.len() {
            if i != j {
                assert_ne!(all[i].code(), all[j].code());
            }
        }
    }
}

#[test]
fn reset_writes_exactly_the_reset_sequence() {
    let mut sink = BufferSink::new();
    reset_style(&mut sink).unwrap();
    assert_eq!(sink.as_str(), "\x1b[0m");
}

#[test]
fn set_style_without_color_writes_reset_only() {
    let mut sink = BufferSink::new();
    set_style(&mut sink, style()).unwrap();
    assert_eq!(sink.as_str(), "\x1b[0m");

    let mut reset_sink = BufferSink::new();
    reset_style(&mut reset_sink).unwrap();
    assert_eq!(sink.as_str(), reset_sink.as_str());
}

#[test]
fn set_style_with_color_writes_reset_then_set() {
    let mut sink = BufferSink::new();
    set_style(&mut sink, fg_red()).unwrap();
    assert_eq!(sink.as_str(), "\x1b[0m\x1b[31m");

    let mut bright = BufferSink::new();
    set_style(&mut bright, fg_bright_white()).unwrap();
    assert_eq!(bright.as_str(), "\x1b[0m\x1b[97m");
}

#[test]
fn set_style_writes_every_color_code_in_decimal() {
    let cases = [
        (Color::Black, "30"),
        (Color::Red, "31"),
        (Color::Green, "32"),
        (Color::Yellow, "33"),
        (Color::Blue, "34"),
        (Color::Magenta, "35"),
        (Color::Cyan, "36"),
        (Color::White, "37"),
        (Color::BrightBlack, "90"),
        (Color::BrightRed, "91"),
        (Color::BrightGreen, "92"),
        (Color::BrightYellow, "93"),
        (Color::BrightBlue, "94"),
        (Color::BrightMagenta, "95"),
        (Color::BrightCyan, "96"),
        (Color::BrightWhite, "97"),
    ];
    for (c, digits) in cases {
        let mut sink = BufferSink::new();
        set_style(&mut sink, style().fg(c)).unwrap();
        assert_eq!(sink.as_str(), format!("\x1b[0m\x1b[{}m", digits));
        assert_eq!(sink.as_str(), format!("\x1b[0m\x1b[{}m", c.code()));
    }
}

#[test]
fn print_styled_frames_the_content() {
    let mut sink = BufferSink::new();
    print_styled(&mut sink, fg_red(), "X").unwrap();
    assert_eq!(sink.as_str(), "\x1b[0m\x1b[31mX\x1b[0m");
}

#[test]
fn print_styled_without_color_frames_with_resets_only() {
    let mut sink = BufferSink::new();
    print_styled(&mut sink, style(), "X").unwrap();
    assert_eq!(sink.as_str(), "\x1b[0mX\x1b[0m");
}

#[test]
fn println_styled_puts_the_newline_before_the_final_reset() {
    let mut sink = BufferSink::new();
    println_styled(&mut sink, fg_red(), "X").unwrap();
    assert_eq!(sink.as_str(), "\x1b[0m\x1b[31mX\n\x1b[0m");
}

#[test]
fn print_styled_with_empty_content_still_frames() {
    let mut sink = BufferSink::new();
    print_styled(&mut sink, fg_green(), "").unwrap();
    assert_eq!(sink.as_str(), "\x1b[0m\x1b[32m\x1b[0m");
}

#[test]
fn rendering_red_wraps_in_set_and_reset() {
    let t = red("hi".to_string());
    assert_eq!(t.render(), "\x1b[31mhi\x1b[0m");
}

#[test]
fn rendering_without_color_has_no_leading_escape() {
    let t = StyledText::new(style(), "hi".to_string());
    assert_eq!(t.render(), "hi\x1b[0m");
}

#[test]
fn rendering_twice_is_byte_identical() {
    let t = bright_magenta("twice".to_string());
    let first = t.render();
    let second = t.render();
    assert_eq!(first, second);

    let plain = StyledText::new(style(), "twice".to_string());
    assert_eq!(plain.render(), plain.render());
}

#[test]
fn named_constructors_match_color_by_rendered_bytes() {
    let cases: [(fn(String) -> StyledText, Color); 16] = [
        (black, Color::Black),
        (red, Color::Red),
        (green, Color::Green),
        (yellow, Color::Yellow),
        (blue, Color::Blue),
        (magenta, Color::Magenta),
        (cyan, Color::Cyan),
        (white, Color::White),
        (bright_black, Color::BrightBlack),
        (bright_red, Color::BrightRed),
        (bright_green, Color::BrightGreen),
        (bright_yellow, Color::BrightYellow),
        (bright_blue, Color::BrightBlue),
        (bright_magenta, Color::BrightMagenta),
        (bright_cyan, Color::BrightCyan),
        (bright_white, Color::BrightWhite),
    ];
    for (ctor, c) in cases {
        let named = ctor("same".to_string());
        let direct = color(c, "same".to_string());
        assert_eq!(named.render(), direct.render());
    }
}

#[test]
fn named_style_constructors_set_the_matching_color() {
    let cases: [(fn() -> Style, Color); 16] = [
        (fg_black, Color::Black),
        (fg_red, Color::Red),
        (fg_green, Color::Green),
        (fg_yellow, Color::Yellow),
        (fg_blue, Color::Blue),
        (fg_magenta, Color::Magenta),
        (fg_cyan, Color::Cyan),
        (fg_white, Color::White),
        (fg_bright_black, Color::BrightBlack),
        (fg_bright_red, Color::BrightRed),
        (fg_bright_green, Color::BrightGreen),
        (fg_bright_yellow, Color::BrightYellow),
        (fg_bright_blue, Color::BrightBlue),
        (fg_bright_magenta, Color::BrightMagenta),
        (fg_bright_cyan, Color::BrightCyan),
        (fg_bright_white, Color::BrightWhite),
    ];
    for (ctor, c) in cases {
        assert_eq!(ctor(), style().fg(c));
        assert_eq!(ctor().fg_color, Some(c));
    }
}

#[test]
fn style_composition_replaces_the_foreground() {
    let s = style().fg(Color::Red).fg(Color::Blue);
    assert_eq!(s.fg_color, Some(Color::Blue));
    assert_eq!(Style::new().fg_color, None);
    assert_eq!(Style::default(), Style::new());
}

#[test]
fn stream_and_deferred_paths_use_the_same_set_sequence() {
    let mut sink = BufferSink::new();
    print_styled(&mut sink, fg_cyan(), "z").unwrap();
    let deferred = cyan("z".to_string()).render();
    assert_eq!(sink.as_str(), format!("\x1b[0m{}", deferred));
}

#[test]
fn a_failing_write_aborts_the_rest_of_the_call() {
    // the leading reset is accepted; the color write fails
    let mut sink = LimitedSink::new(1);
    let r = set_style(&mut sink, fg_red());
    assert_eq!(r, Err(WriteError));
    assert_eq!(sink.as_str(), "\x1b[0m");

    // the whole set sequence and the content go through; the final reset fails
    let mut sink = LimitedSink::new(3);
    let r = print_styled(&mut sink, fg_red(), "X");
    assert_eq!(r, Err(WriteError));
    assert_eq!(sink.as_str(), "\x1b[0m\x1b[31mX");

    // a sink that rejects everything leaves nothing behind
    let mut sink = LimitedSink::new(0);
    let r = reset_style(&mut sink);
    assert_eq!(r, Err(WriteError));
    assert_eq!(sink.as_str(), "");
}
