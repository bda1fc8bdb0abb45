//! The decoration renderer: draws a header line into the output with its
//! frame — box, underline, overline, or combinations — sized to the text (or
//! to a fixed width), with the frame painted in the decoration's own style.

use vstd::prelude::*;

use crate::ansi::paint_seg;
use crate::ansi::painted_seg;
use crate::config::Width;
use crate::strings::char_run;
use crate::strings::repeat_char;
use crate::strings::spec_trimmed_len;
use crate::strings::trimmed_len;
use crate::style::AnsiStyle;
use crate::style::DecorationStyle;
use crate::style::Style;

verus! {

/// A horizontal frame line of `n` columns.
pub open spec fn spec_hline(n: int) -> Seq<char> {
    char_run('\u{2500}', n)
}

/// The columns a decoration spans: the fixed width where one is configured,
/// else the given text width.
pub open spec fn spec_deco_width(width: Width, n: int) -> int {
    match width {
        Width::Fixed(f) => f as int,
        Width::Variable => n,
    }
}

/// The body of a decorated line: the raw input under a raw style, else the
/// text painted with the style's color — falling back to the syntax color
/// where the style is syntax-highlighted.
pub open spec fn spec_content_line(
    text: Seq<char>,
    raw: Seq<char>,
    style: Style,
    syn: Option<u8>,
) -> Seq<char> {
    if style.is_raw {
        raw
    } else {
        let fg = if style.ansi.fg is Some {
            style.ansi.fg
        } else if style.is_syntax_highlighted {
            syn
        } else {
            None
        };
        painted_seg(fg, style.ansi.bg, text)
    }
}

/// One painted frame piece, in the decoration's own style.
pub open spec fn spec_frame(d: AnsiStyle, piece: Seq<char>) -> Seq<char> {
    painted_seg(d.fg, d.bg, piece)
}

/// What the decoration draws for the given text: the body alone without a
/// decoration; the body above a frame line for an underline (and below /
/// around for over- and under-overlines), the frame sized to the text with
/// trailing spaces dropped; a frame of the text's full width with corner
/// pieces for the boxes, where the box-with-underline's bottom line runs on.
/// Box kinds whose extra frame parts are not drawn render as the plain box.
pub open spec fn spec_draw(
    text: Seq<char>,
    raw: Seq<char>,
    style: Style,
    syn: Option<u8>,
    width: Width,
) -> Seq<char> {
    let body = spec_content_line(text, raw, style, syn) + seq!['\n'];
    let w = spec_deco_width(width, text.len() as int);
    let uw = spec_deco_width(width, spec_trimmed_len(text));
    match style.decoration_style {
        DecorationStyle::NoDecoration => body,
        DecorationStyle::Boxed(d) => spec_box(body, d, w, "\u{2518}"@),
        DecorationStyle::BoxWithOverline(d) => spec_box(body, d, w, "\u{2518}"@),
        DecorationStyle::BoxWithUnderOverline(d) => spec_box(body, d, w, "\u{2518}"@),
        DecorationStyle::BoxWithUnderline(d) => spec_box(body, d, w, "\u{2534}\u{2500}"@),
        DecorationStyle::Underline(d) => body + spec_frame(d, spec_hline(uw)) + seq!['\n'],
        DecorationStyle::Overline(d) => spec_frame(d, spec_hline(uw)) + seq!['\n'] + body,
        DecorationStyle::UnderOverline(d) => spec_frame(d, spec_hline(uw)) + seq!['\n'] + body
            + spec_frame(d, spec_hline(uw)) + seq!['\n'],
    }
}

/// A box: a top frame line ending in a corner, the body with the frame's
/// right edge, and a bottom frame line ending in the given corner piece.
pub open spec fn spec_box(
    body: Seq<char>,
    d: AnsiStyle,
    w: int,
    bottom_corner: Seq<char>,
) -> Seq<char> {
    spec_frame(d, spec_hline(w) + "\u{2510}"@) + seq!['\n'] + body.take(body.len() - 1)
        + spec_frame(d, "\u{2502}"@) + seq!['\n'] + spec_frame(d, spec_hline(w) + bottom_corner)
        + seq!['\n']
}

/// Append the body of a decorated line to `out`.
fn push_content_line(out: &mut String, text: &str, raw: &str, style: &Style, syn: Option<u8>)
    ensures
        final(out)@ == old(out)@ + spec_content_line(text@, raw@, *style, syn),
{
    if style.is_raw {
        out.append(raw);
    } else {
        let fg: Option<u8> = if style.ansi.fg.is_some() {
            style.ansi.fg
        } else if style.is_syntax_highlighted {
            syn
        } else {
            None
        };
        let seg = paint_seg(fg, style.ansi.bg, text);
        out.append(seg.as_str());
    }
}

/// Append one painted frame piece to `out`.
fn push_frame(out: &mut String, d: AnsiStyle, piece: &str)
    ensures
        final(out)@ == old(out)@ + spec_frame(d, piece@),
{
    let seg = paint_seg(d.fg, d.bg, piece);
    out.append(seg.as_str());
}

/// Draw `text` (or, under a raw style, `raw`) into `out` with the style's
/// decoration around it.
pub fn draw_decorated(
    out: &mut String,
    text: &str,
    raw: &str,
    style: &Style,
    syn: Option<u8>,
    width: Width,
)
    ensures
        final(out)@ == old(out)@ + spec_draw(text@, raw@, *style, syn, width),
{
    let n = text.unicode_len();
    let w: usize = match width {
        Width::Fixed(f) => f,
        Width::Variable => n,
    };
    let tl = trimmed_len(text);
    let uw: usize = match width {
        Width::Fixed(f) => f,
        Width::Variable => tl,
    };
    match &style.decoration_style {
        DecorationStyle::NoDecoration => {
            push_content_line(out, text, raw, style, syn);
            out.push('\n');
        },
        DecorationStyle::Boxed(d) => draw_box(out, text, raw, style, syn, *d, w, "\u{2518}"),
        DecorationStyle::BoxWithOverline(d) => draw_box(
            out,
            text,
            raw,
            style,
            syn,
            *d,
            w,
            "\u{2518}",
        ),
        DecorationStyle::BoxWithUnderOverline(d) => draw_box(
            out,
            text,
            raw,
            style,
            syn,
            *d,
            w,
            "\u{2518}",
        ),
        DecorationStyle::BoxWithUnderline(d) => draw_box(
            out,
            text,
            raw,
            style,
            syn,
            *d,
            w,
            "\u{2534}\u{2500}",
        ),
        DecorationStyle::Underline(d) => {
            push_content_line(out, text, raw, style, syn);
            out.push('\n');
            let hl = repeat_char('\u{2500}', uw);
            push_frame(out, *d, hl.as_str());
            out.push('\n');
        },
        DecorationStyle::Overline(d) => {
            let hl = repeat_char('\u{2500}', uw);
            push_frame(out, *d, hl.as_str());
            out.push('\n');
            push_content_line(out, text, raw, style, syn);
            out.push('\n');
        },
        DecorationStyle::UnderOverline(d) => {
            let hl = repeat_char('\u{2500}', uw);
            push_frame(out, *d, hl.as_str());
            out.push('\n');
            push_content_line(out, text, raw, style, syn);
            out.push('\n');
            push_frame(out, *d, hl.as_str());
            out.push('\n');
        },
    }
}

/// Draw the box frame around the body.
fn draw_box(
    out: &mut String,
    text: &str,
    raw: &str,
    style: &Style,
    syn: Option<u8>,
    d: AnsiStyle,
    w: usize,
    bottom_corner: &str,
)
    ensures
        final(out)@ == old(out)@ + spec_box(
            spec_content_line(text@, raw@, *style, syn) + seq!['\n'],
            d,
            w as int,
            bottom_corner@,
        ),
{
    let ghost body = spec_content_line(text@, raw@, *style, syn) + seq!['\n'];
    proof {
        assert(body.take(body.len() - 1) =~= spec_content_line(text@, raw@, *style, syn));
    }
    let mut top = repeat_char('\u{2500}', w);
    top.append("\u{2510}");
    push_frame(out, d, top.as_str());
    out.push('\n');
    push_content_line(out, text, raw, style, syn);
    push_frame(out, d, "\u{2502}");
    out.push('\n');
    let mut bot = repeat_char('\u{2500}', w);
    bot.append(bottom_corner);
    push_frame(out, d, bot.as_str());
    out.push('\n');
}

} // verus!
