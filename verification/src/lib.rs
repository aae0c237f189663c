pub mod color;
pub mod encode;
pub mod sink;
pub mod stream;
pub mod style;
pub mod styled;

pub use crate::color::color_code;
pub use crate::color::lemma_color_code_injective;
pub use crate::color::Color;
pub use crate::encode::code_digits;
pub use crate::encode::digit_char;
pub use crate::encode::lemma_style_set_seq_no_fg;
pub use crate::encode::lemma_style_set_seq_with_fg;
pub use crate::encode::reset_seq;
pub use crate::encode::reset_str;
pub use crate::encode::set_fg_seq;
pub use crate::encode::set_fg_str;
pub use crate::encode::style_set_seq;
pub use crate::sink::BufferSink;
pub use crate::sink::first_rejected_from;
pub use crate::sink::flush_count;
pub use crate::sink::lemma_events_concat;
pub use crate::sink::lemma_events_push;
pub use crate::sink::lemma_first_rejected_facts;
pub use crate::sink::lemma_first_rejected_is;
pub use crate::sink::written_chars;
pub use crate::sink::LimitedSink;
pub use crate::sink::SinkEvent;
pub use crate::sink::Sink;
pub use crate::sink::WriteError;
pub use crate::stream::lemma_print_styled_writes;
pub use crate::stream::lemma_println_styled_writes;
pub use crate::stream::lemma_set_style_writes;
pub use crate::stream::print_events;
pub use crate::stream::print_styled;
pub use crate::stream::print_write_count;
pub use crate::stream::println_events;
pub use crate::stream::println_write_count;
pub use crate::stream::set_events;
pub use crate::stream::set_write_count;
pub use crate::stream::println_styled;
pub use crate::stream::reset_style;
pub use crate::stream::set_style;
pub use crate::style::fg_black;
pub use crate::style::fg_blue;
pub use crate::style::fg_bright_black;
pub use crate::style::fg_bright_blue;
pub use crate::style::fg_bright_cyan;
pub use crate::style::fg_bright_green;
pub use crate::style::fg_bright_magenta;
pub use crate::style::fg_bright_red;
pub use crate::style::fg_bright_white;
pub use crate::style::fg_bright_yellow;
pub use crate::style::fg_cyan;
pub use crate::style::fg_green;
pub use crate::style::fg_magenta;
pub use crate::style::fg_red;
pub use crate::style::fg_white;
pub use crate::style::fg_yellow;
pub use crate::style::style;
pub use crate::style::Style;
pub use crate::styled::black;
pub use crate::styled::blue;
pub use crate::styled::bright_black;
pub use crate::styled::bright_blue;
pub use crate::styled::bright_cyan;
pub use crate::styled::bright_green;
pub use crate::styled::bright_magenta;
pub use crate::styled::bright_red;
pub use crate::styled::bright_white;
pub use crate::styled::bright_yellow;
pub use crate::styled::color;
pub use crate::styled::cyan;
pub use crate::styled::green;
pub use crate::styled::lemma_render_deterministic;
pub use crate::styled::magenta;
pub use crate::styled::red;
pub use crate::styled::rendered_seq;
pub use crate::styled::white;
pub use crate::styled::yellow;
pub use crate::styled::StyledText;
