use crate::encode::reset_seq;
use crate::encode::reset_str;
use crate::encode::set_fg_seq;
use crate::encode::set_fg_str;
use crate::encode::style_set_seq;
use crate::sink::first_rejected_from;
use crate::sink::flush_count;
use crate::sink::lemma_events_concat;
use crate::sink::lemma_events_push;
use crate::sink::lemma_first_rejected_facts;
use crate::sink::lemma_first_rejected_is;
use crate::sink::written_chars;
use crate::sink::Sink;
use crate::sink::SinkEvent;
use crate::sink::WriteError;
use crate::style::Style;
use vstd::prelude::*;

verus! {

/// The sink interactions a successful `set_style` call makes: the reset
/// write, then, only if the style has a foreground color, the
/// set-foreground write.
pub open spec fn set_events(s: Style) -> Seq<SinkEvent> {
    match s.fg_color {
        Some(c) => seq![SinkEvent::Wrote(reset_seq()), SinkEvent::Wrote(set_fg_seq(c))],
        None => seq![SinkEvent::Wrote(reset_seq())],
    }
}

/// How many writes a `set_style` call attempts.
pub open spec fn set_write_count(s: Style) -> nat {
    set_events(s).len()
}

/// The sink interactions a successful `print_styled` call makes: the
/// style's escape writes, the content, the closing reset, then one flush.
pub open spec fn print_events(s: Style, content: Seq<char>) -> Seq<SinkEvent> {
    set_events(s) + seq![
        SinkEvent::Wrote(content),
        SinkEvent::Wrote(reset_seq()),
        SinkEvent::Flushed,
    ]
}

/// How many writes a `print_styled` call attempts.
pub open spec fn print_write_count(s: Style) -> nat {
    set_write_count(s) + 2
}

/// The sink interactions a successful `println_styled` call makes: as for
/// `print_styled`, with a newline write between the content and the
/// closing reset.
pub open spec fn println_events(s: Style, content: Seq<char>) -> Seq<SinkEvent> {
    set_events(s) + seq![
        SinkEvent::Wrote(content),
        SinkEvent::Wrote(seq!['\n']),
        SinkEvent::Wrote(reset_seq()),
        SinkEvent::Flushed,
    ]
}

/// How many writes a `println_styled` call attempts.
pub open spec fn println_write_count(s: Style) -> nat {
    set_write_count(s) + 3
}

/// Writes the reset escape sequence and nothing else, terminating any
/// styled region on the sink. Succeeds exactly when the sink accepts its
/// next write; a rejected write leaves the sink untouched.
pub fn reset_style<S: Sink>(sink: &mut S) -> (r: Result<(), WriteError>)
    ensures
        r is Ok <==> old(sink).accepts_write_at(0),
        r is Ok ==> final(sink).history() == old(sink).history().push(
            SinkEvent::Wrote(reset_seq()),
        ),
        r is Ok ==> (forall|i: nat|
            final(sink).accepts_write_at(i) <==> old(sink).accepts_write_at(i + 1)),
        r is Ok ==> final(sink).accepts_flush() == old(sink).accepts_flush(),
        r is Err ==> *final(sink) == *old(sink),
{
    sink.write_str(reset_str())
}

/// Applies a style to the sink: writes the reset sequence first, so that
/// any prior styling is cleared, then, only if the style has a foreground
/// color, that color's set-foreground sequence.
///
/// The call succeeds exactly when the sink accepts both writes (one write
/// for a style with no foreground color). On failure the history grows by
/// exactly the writes before the first rejected one, so the sink may be
/// left mid-sequence (the reset written, the color write refused); no
/// recovery is attempted.
pub fn set_style<S: Sink>(sink: &mut S, style: Style) -> (r: Result<(), WriteError>)
    ensures
        r is Ok <==> first_rejected_from(old(sink), 0, set_write_count(style)) == set_write_count(
            style,
        ),
        r is Ok ==> final(sink).history() == old(sink).history() + set_events(style),
        r is Err ==> final(sink).history() == old(sink).history() + set_events(style).take(
            first_rejected_from(old(sink), 0, set_write_count(style)) as int,
        ),
        forall|i: nat|
            final(sink).accepts_write_at(i) <==> old(sink).accepts_write_at(
                i + first_rejected_from(old(sink), 0, set_write_count(style)),
            ),
        final(sink).accepts_flush() == old(sink).accepts_flush(),
{
    let ghost sink0 = *sink;
    let ghost wc = set_write_count(style);
    match sink.write_str(reset_str()) {
        Err(e) => {
            proof {
                lemma_first_rejected_is(&sink0, 0, wc, 0);
                assert(set_events(style).take(0) =~= Seq::<SinkEvent>::empty());
                assert(sink0.history() + Seq::<SinkEvent>::empty() =~= sink0.history());
            }
            return Err(e);
        },
        Ok(()) => {},
    }
    let ghost mid = *sink;
    match style.fg_color {
        None => {
            proof {
                lemma_first_rejected_is(&sink0, 0, wc, 1);
                assert(sink0.history().push(SinkEvent::Wrote(reset_seq())) =~= sink0.history()
                    + set_events(style));
            }
            Ok(())
        },
        Some(c) => {
            let r = sink.write_str(set_fg_str(c));
            proof {
                if r is Ok {
                    lemma_first_rejected_is(&sink0, 0, wc, 2);
                    assert(sink0.history().push(SinkEvent::Wrote(reset_seq())).push(
                        SinkEvent::Wrote(set_fg_seq(c)),
                    ) =~= sink0.history() + set_events(style));
                } else {
                    lemma_first_rejected_is(&sink0, 0, wc, 1);
                    assert(set_events(style).take(1) =~= seq![SinkEvent::Wrote(reset_seq())]);
                    assert(sink0.history().push(SinkEvent::Wrote(reset_seq())) =~= sink0.history()
                        + set_events(style).take(1));
                }
            }
            r
        },
    }
}

/// Writes the style's escape sequences, then the content with no trailing
/// newline, then the reset sequence, and flushes the sink.
///
/// The call succeeds exactly when the sink accepts all the writes and the
/// flush. The first rejected step aborts the rest of the call: on failure
/// the history grows by exactly the writes before the first rejected one
/// (all of them, when only the flush was rejected).
pub fn print_styled<S: Sink>(sink: &mut S, style: Style, value: &str) -> (r: Result<
    (),
    WriteError,
>)
    ensures
        r is Ok <==> (first_rejected_from(old(sink), 0, print_write_count(style))
            == print_write_count(style) && old(sink).accepts_flush()),
        r is Ok ==> final(sink).history() == old(sink).history() + print_events(style, value@),
        r is Err ==> final(sink).history() == old(sink).history() + print_events(
            style,
            value@,
        ).take(first_rejected_from(old(sink), 0, print_write_count(style)) as int),
        forall|i: nat|
            final(sink).accepts_write_at(i) <==> old(sink).accepts_write_at(
                i + first_rejected_from(old(sink), 0, print_write_count(style)),
            ),
        final(sink).accepts_flush() == old(sink).accepts_flush(),
{
    let ghost sink0 = *sink;
    let ghost swc = set_write_count(style);
    let ghost wc = print_write_count(style);
    let ghost ev = print_events(style, value@);
    proof {
        assert(set_events(style).len() == swc);
    }
    match set_style(sink, style) {
        Err(e) => {
            proof {
                let k = first_rejected_from(&sink0, 0, swc);
                lemma_first_rejected_facts(&sink0, 0, swc);
                lemma_first_rejected_is(&sink0, 0, wc, k);
                assert(ev.take(k as int) =~= set_events(style).take(k as int));
            }
            return Err(e);
        },
        Ok(()) => {},
    }
    proof {
        lemma_first_rejected_facts(&sink0, 0, swc);
    }
    let ghost mid1 = *sink;
    match sink.write_str(value) {
        Err(e) => {
            proof {
                lemma_first_rejected_is(&sink0, 0, wc, swc);
                assert(ev.take(swc as int) =~= set_events(style));
            }
            return Err(e);
        },
        Ok(()) => {},
    }
    let ghost mid2 = *sink;
    match reset_style(sink) {
        Err(e) => {
            proof {
                lemma_first_rejected_is(&sink0, 0, wc, swc + 1);
                assert(ev.take(swc + 1 as int) =~= set_events(style) + seq![
                    SinkEvent::Wrote(value@),
                ]);
                assert(mid2.history() =~= sink0.history() + ev.take(swc + 1 as int));
            }
            return Err(e);
        },
        Ok(()) => {},
    }
    let ghost mid3 = *sink;
    let r = sink.flush();
    proof {
        lemma_first_rejected_is(&sink0, 0, wc, wc);
        if r is Ok {
            assert(sink.history() =~= sink0.history() + ev);
        } else {
            assert(ev.take(wc as int) =~= set_events(style) + seq![
                SinkEvent::Wrote(value@),
                SinkEvent::Wrote(reset_seq()),
            ]);
            assert(mid3.history() =~= sink0.history() + ev.take(wc as int));
        }
    }
    r
}

/// As `print_styled`, but a newline follows the content, before the final
/// reset sequence. Success and failure behave as for `print_styled`, over
/// this call's own writes.
pub fn println_styled<S: Sink>(sink: &mut S, style: Style, value: &str) -> (r: Result<
    (),
    WriteError,
>)
    ensures
        r is Ok <==> (first_rejected_from(old(sink), 0, println_write_count(style))
            == println_write_count(style) && old(sink).accepts_flush()),
        r is Ok ==> final(sink).history() == old(sink).history() + println_events(style, value@),
        r is Err ==> final(sink).history() == old(sink).history() + println_events(
            style,
            value@,
        ).take(first_rejected_from(old(sink), 0, println_write_count(style)) as int),
        forall|i: nat|
            final(sink).accepts_write_at(i) <==> old(sink).accepts_write_at(
                i + first_rejected_from(old(sink), 0, println_write_count(style)),
            ),
        final(sink).accepts_flush() == old(sink).accepts_flush(),
{
    let ghost sink0 = *sink;
    let ghost swc = set_write_count(style);
    let ghost wc = println_write_count(style);
    let ghost ev = println_events(style, value@);
    proof {
        assert(set_events(style).len() == swc);
    }
    match set_style(sink, style) {
        Err(e) => {
            proof {
                let k = first_rejected_from(&sink0, 0, swc);
                lemma_first_rejected_facts(&sink0, 0, swc);
                lemma_first_rejected_is(&sink0, 0, wc, k);
                assert(ev.take(k as int) =~= set_events(style).take(k as int));
            }
            return Err(e);
        },
        Ok(()) => {},
    }
    proof {
        lemma_first_rejected_facts(&sink0, 0, swc);
    }
    let ghost mid1 = *sink;
    match sink.write_str(value) {
        Err(e) => {
            proof {
                lemma_first_rejected_is(&sink0, 0, wc, swc);
                assert(ev.take(swc as int) =~= set_events(style));
            }
            return Err(e);
        },
        Ok(()) => {},
    }
    let ghost mid2 = *sink;
    match sink.write_str(newline_str()) {
        Err(e) => {
            proof {
                lemma_first_rejected_is(&sink0, 0, wc, swc + 1);
                assert(ev.take(swc + 1 as int) =~= set_events(style) + seq![
                    SinkEvent::Wrote(value@),
                ]);
                assert(mid2.history() =~= sink0.history() + ev.take(swc + 1 as int));
            }
            return Err(e);
        },
        Ok(()) => {},
    }
    let ghost mid3 = *sink;
    match reset_style(sink) {
        Err(e) => {
            proof {
                lemma_first_rejected_is(&sink0, 0, wc, swc + 2);
                assert(ev.take(swc + 2 as int) =~= set_events(style) + seq![
                    SinkEvent::Wrote(value@),
                    SinkEvent::Wrote(seq!['\n']),
                ]);
                assert(mid3.history() =~= sink0.history() + ev.take(swc + 2 as int));
            }
            return Err(e);
        },
        Ok(()) => {},
    }
    let ghost mid4 = *sink;
    let r = sink.flush();
    proof {
        lemma_first_rejected_is(&sink0, 0, wc, wc);
        if r is Ok {
            assert(sink.history() =~= sink0.history() + ev);
        } else {
            assert(ev.take(wc as int) =~= set_events(style) + seq![
                SinkEvent::Wrote(value@),
                SinkEvent::Wrote(seq!['\n']),
                SinkEvent::Wrote(reset_seq()),
            ]);
            assert(mid4.history() =~= sink0.history() + ev.take(wc as int));
        }
    }
    r
}

/// What a successful `set_style` puts on the sink: exactly the style's
/// escape characters — the reset sequence alone for a style with no
/// foreground color, the reset sequence immediately followed by the
/// set-foreground sequence otherwise — and no flush.
pub proof fn lemma_set_style_writes(s: Style)
    ensures
        written_chars(set_events(s)) == style_set_seq(s),
        flush_count(set_events(s)) == 0,
{
    let empty = Seq::<SinkEvent>::empty();
    assert(written_chars(empty) == Seq::<char>::empty());
    assert(flush_count(empty) == 0);
    match s.fg_color {
        Some(c) => {
            let one = empty.push(SinkEvent::Wrote(reset_seq()));
            lemma_events_push(empty, SinkEvent::Wrote(reset_seq()));
            lemma_events_push(one, SinkEvent::Wrote(set_fg_seq(c)));
            assert(set_events(s) =~= one.push(SinkEvent::Wrote(set_fg_seq(c))));
            assert(written_chars(set_events(s)) =~= style_set_seq(s));
        },
        None => {
            lemma_events_push(empty, SinkEvent::Wrote(reset_seq()));
            assert(set_events(s) =~= empty.push(SinkEvent::Wrote(reset_seq())));
            assert(written_chars(set_events(s)) =~= style_set_seq(s));
        },
    }
}

/// What a successful `print_styled` puts on the sink: exactly the style's
/// escape characters, the content, and the closing reset sequence; and the
/// sink is flushed exactly once, by the last interaction, after every
/// write.
pub proof fn lemma_print_styled_writes(s: Style, content: Seq<char>)
    ensures
        written_chars(print_events(s, content)) == style_set_seq(s) + content + reset_seq(),
        flush_count(print_events(s, content)) == 1,
        print_events(s, content).last() == SinkEvent::Flushed,
        forall|i: int|
            0 <= i < print_events(s, content).len() - 1 ==> print_events(s, content)[i] is Wrote,
{
    let tail = seq![SinkEvent::Wrote(content), SinkEvent::Wrote(reset_seq()), SinkEvent::Flushed];
    lemma_set_style_writes(s);
    lemma_events_concat(set_events(s), tail);
    let empty = Seq::<SinkEvent>::empty();
    assert(written_chars(empty) == Seq::<char>::empty());
    assert(flush_count(empty) == 0);
    let one = empty.push(SinkEvent::Wrote(content));
    let two = one.push(SinkEvent::Wrote(reset_seq()));
    lemma_events_push(empty, SinkEvent::Wrote(content));
    lemma_events_push(one, SinkEvent::Wrote(reset_seq()));
    lemma_events_push(two, SinkEvent::Flushed);
    assert(tail =~= two.push(SinkEvent::Flushed));
    assert(written_chars(tail) =~= content + reset_seq());
    assert(written_chars(print_events(s, content)) =~= style_set_seq(s) + content + reset_seq());
}

/// What a successful `println_styled` puts on the sink: as for
/// `print_styled`, with a newline between the content and the closing
/// reset; the sink is flushed exactly once, by the last interaction.
pub proof fn lemma_println_styled_writes(s: Style, content: Seq<char>)
    ensures
        written_chars(println_events(s, content)) == style_set_seq(s) + content + seq!['\n']
            + reset_seq(),
        flush_count(println_events(s, content)) == 1,
        println_events(s, content).last() == SinkEvent::Flushed,
        forall|i: int|
            0 <= i < println_events(s, content).len() - 1 ==> println_events(s, content)[i]
                is Wrote,
{
    let tail = seq![
        SinkEvent::Wrote(content),
        SinkEvent::Wrote(seq!['\n']),
        SinkEvent::Wrote(reset_seq()),
        SinkEvent::Flushed,
    ];
    lemma_set_style_writes(s);
    lemma_events_concat(set_events(s), tail);
    let empty = Seq::<SinkEvent>::empty();
    assert(written_chars(empty) == Seq::<char>::empty());
    assert(flush_count(empty) == 0);
    let one = empty.push(SinkEvent::Wrote(content));
    let two = one.push(SinkEvent::Wrote(seq!['\n']));
    let three = two.push(SinkEvent::Wrote(reset_seq()));
    lemma_events_push(empty, SinkEvent::Wrote(content));
    lemma_events_push(one, SinkEvent::Wrote(seq!['\n']));
    lemma_events_push(two, SinkEvent::Wrote(reset_seq()));
    lemma_events_push(three, SinkEvent::Flushed);
    assert(tail =~= three.push(SinkEvent::Flushed));
    assert(written_chars(tail) =~= content + seq!['\n'] + reset_seq());
    assert(written_chars(println_events(s, content)) =~= style_set_seq(s) + content + seq!['\n']
        + reset_seq());
}

/// The newline string, a single line-feed character.
fn newline_str() -> (r: &'static str)
    ensures
        r@ == seq!['\n'],
{
    proof {
        reveal_strlit("\n");
        assert("\n"@ =~= seq!['\n']);
    }
    "\n"
}

} // verus!
