//! The two terminal-text capabilities the renderer relies on outside crates
//! for: stripping pre-existing ANSI escape sequences from input lines, and
//! wrapping a piece of text in the escape codes of a fixed 256-color style.

use vstd::prelude::*;

verus! {

/// What `console::strip_ansi_codes` returns for the given text.
pub uninterp spec fn ansi_stripped_of(s: Seq<char>) -> Seq<char>;

/// What `ansi_term` produces when text is painted with the given foreground
/// and background 256-color codes.
pub uninterp spec fn painted_of(fg: Option<u8>, bg: Option<u8>, text: Seq<char>) -> Seq<char>;

/// Relies on `console::strip_ansi_codes`: removes ANSI escape sequences; a
/// string holding neither an ESC (U+001B) nor a CSI (U+009B) character holds
/// no such sequence and comes back unchanged.
#[verifier::external_body]
pub fn strip_ansi_codes(s: &str) -> (r: String)
    ensures
        r@ == ansi_stripped_of(s@),
        (forall|i: int| 0 <= i < s@.len() ==> s@[i] != '\u{1b}' && s@[i] != '\u{9b}') ==> r@
            == s@,
{
    console::strip_ansi_codes(s).to_string()
}

/// Relies on `ansi_term::Style::paint`: wraps the text in the style's escape
/// prefix and reset suffix; a style with no color set is plain and paints no
/// escape codes at all.
#[verifier::external_body]
pub fn paint_text(fg: Option<u8>, bg: Option<u8>, text: &str) -> (r: String)
    ensures
        r@ == painted_of(fg, bg, text@),
        fg is None && bg is None ==> r@ == text@,
{
    let mut style = ansi_term::Style::new();
    if let Some(code) = fg {
        style = style.fg(ansi_term::Colour::Fixed(code));
    }
    if let Some(code) = bg {
        style = style.on(ansi_term::Colour::Fixed(code));
    }
    style.paint(text).to_string()
}

/// One styled segment of an output line: empty text paints nothing, colorless
/// text is passed through, and otherwise the escape codes wrap the text.
pub open spec fn painted_seg(fg: Option<u8>, bg: Option<u8>, text: Seq<char>) -> Seq<char> {
    if text.len() == 0 {
        Seq::empty()
    } else if fg is None && bg is None {
        text
    } else {
        painted_of(fg, bg, text)
    }
}

/// Paint one segment: nothing for empty text, the text itself when the style
/// holds no color, the painted text otherwise.
pub fn paint_seg(fg: Option<u8>, bg: Option<u8>, text: &str) -> (r: String)
    ensures
        r@ == painted_seg(fg, bg, text@),
{
    if text.unicode_len() == 0 {
        String::new()
    } else if fg.is_none() && bg.is_none() {
        text.to_owned()
    } else {
        paint_text(fg, bg, text)
    }
}

} // verus!
