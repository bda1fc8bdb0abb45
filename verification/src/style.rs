//! Styles: a plain 256-color pair, the decoration kinds a header line can be
//! framed with, and the per-region style record, together with the resolution
//! of the human-readable style and decoration strings.

use vstd::prelude::*;

use crate::strings::str_eq;

verus! {

/// A terminal style as plain values: optional foreground and background
/// 256-color codes.
#[derive(Clone, Copy, Debug)]
pub struct AnsiStyle {
    pub fg: Option<u8>,
    pub bg: Option<u8>,
}

impl AnsiStyle {
    /// The style that paints nothing.
    pub fn plain() -> (r: AnsiStyle)
        ensures
            r == (AnsiStyle { fg: None, bg: None }),
    {
        AnsiStyle { fg: None, bg: None }
    }
}

/// The frame drawn around a header line, each variant carrying the style of
/// the frame itself.
#[derive(Clone, Copy, Debug)]
pub enum DecorationStyle {
    Boxed(AnsiStyle),
    BoxWithUnderline(AnsiStyle),
    BoxWithOverline(AnsiStyle),
    BoxWithUnderOverline(AnsiStyle),
    Underline(AnsiStyle),
    Overline(AnsiStyle),
    UnderOverline(AnsiStyle),
    NoDecoration,
}

impl DecorationStyle {
    /// The decoration's own paint style; none when there is no decoration.
    pub open spec fn spec_ansi(self) -> Option<AnsiStyle> {
        match self {
            DecorationStyle::Boxed(s) => Some(s),
            DecorationStyle::BoxWithUnderline(s) => Some(s),
            DecorationStyle::BoxWithOverline(s) => Some(s),
            DecorationStyle::BoxWithUnderOverline(s) => Some(s),
            DecorationStyle::Underline(s) => Some(s),
            DecorationStyle::Overline(s) => Some(s),
            DecorationStyle::UnderOverline(s) => Some(s),
            DecorationStyle::NoDecoration => None,
        }
    }

    /// The decoration's own paint style; none when there is no decoration.
    pub fn ansi(&self) -> (r: Option<AnsiStyle>)
        ensures
            r == self.spec_ansi(),
    {
        match self {
            DecorationStyle::Boxed(s) => Some(*s),
            DecorationStyle::BoxWithUnderline(s) => Some(*s),
            DecorationStyle::BoxWithOverline(s) => Some(*s),
            DecorationStyle::BoxWithUnderOverline(s) => Some(*s),
            DecorationStyle::Underline(s) => Some(*s),
            DecorationStyle::Overline(s) => Some(*s),
            DecorationStyle::UnderOverline(s) => Some(*s),
            DecorationStyle::NoDecoration => None,
        }
    }

    /// Whether the decoration is one of the box kinds, which pad the text
    /// with one interior margin space.
    pub open spec fn spec_is_box(self) -> bool {
        match self {
            DecorationStyle::Boxed(_) => true,
            DecorationStyle::BoxWithUnderline(_) => true,
            DecorationStyle::BoxWithOverline(_) => true,
            DecorationStyle::BoxWithUnderOverline(_) => true,
            _ => false,
        }
    }

    /// Whether the decoration is one of the box kinds.
    pub fn is_box(&self) -> (r: bool)
        ensures
            r == self.spec_is_box(),
    {
        match self {
            DecorationStyle::Boxed(_) => true,
            DecorationStyle::BoxWithUnderline(_) => true,
            DecorationStyle::BoxWithOverline(_) => true,
            DecorationStyle::BoxWithUnderOverline(_) => true,
            _ => false,
        }
    }
}

/// How one region of the diff is rendered: its paint style, whether the raw
/// input is passed through, whether the region is dropped entirely, whether
/// its text is syntax-highlighted, and the frame around it.
#[derive(Clone, Copy, Debug)]
pub struct Style {
    pub ansi: AnsiStyle,
    pub is_raw: bool,
    pub is_omitted: bool,
    pub is_syntax_highlighted: bool,
    pub decoration_style: DecorationStyle,
}

impl Style {
    /// A plain style: processed, kept, unhighlighted, unframed.
    pub open spec fn spec_plain() -> Style {
        Style {
            ansi: AnsiStyle { fg: None, bg: None },
            is_raw: false,
            is_omitted: false,
            is_syntax_highlighted: false,
            decoration_style: DecorationStyle::NoDecoration,
        }
    }

    /// A plain style: processed, kept, unhighlighted, unframed.
    pub fn plain() -> (r: Style)
        ensures
            r == Style::spec_plain(),
    {
        Style {
            ansi: AnsiStyle { fg: None, bg: None },
            is_raw: false,
            is_omitted: false,
            is_syntax_highlighted: false,
            decoration_style: DecorationStyle::NoDecoration,
        }
    }
}

/// The 256-color code a color name resolves to, if it names one of the eight
/// base terminal colors.
pub open spec fn spec_color_code(w: Seq<char>) -> Option<u8> {
    if w == "black"@ {
        Some(0u8)
    } else if w == "red"@ {
        Some(1u8)
    } else if w == "green"@ {
        Some(2u8)
    } else if w == "yellow"@ {
        Some(3u8)
    } else if w == "blue"@ {
        Some(4u8)
    } else if w == "magenta"@ || w == "purple"@ {
        Some(5u8)
    } else if w == "cyan"@ {
        Some(6u8)
    } else if w == "white"@ {
        Some(7u8)
    } else {
        None
    }
}

/// Resolve a color name to its base 256-color code.
pub fn color_code(w: &str) -> (r: Option<u8>)
    ensures
        r == spec_color_code(w@),
{
    if str_eq(w, "black") {
        Some(0u8)
    } else if str_eq(w, "red") {
        Some(1u8)
    } else if str_eq(w, "green") {
        Some(2u8)
    } else if str_eq(w, "yellow") {
        Some(3u8)
    } else if str_eq(w, "blue") {
        Some(4u8)
    } else if str_eq(w, "magenta") || str_eq(w, "purple") {
        Some(5u8)
    } else if str_eq(w, "cyan") {
        Some(6u8)
    } else if str_eq(w, "white") {
        Some(7u8)
    } else {
        None
    }
}

/// What a region style string resolves to: `raw`, `omit`, `syntax` and the
/// plain spellings are keywords, a color name sets the foreground, and
/// anything else is the plain style.
pub open spec fn spec_resolve_style(s: Seq<char>) -> Style {
    if s == "raw"@ {
        Style { is_raw: true, ..Style::spec_plain() }
    } else if s == "omit"@ {
        Style { is_omitted: true, ..Style::spec_plain() }
    } else if s == "syntax"@ {
        Style { is_syntax_highlighted: true, ..Style::spec_plain() }
    } else {
        match spec_color_code(s) {
            Some(c) => Style {
                ansi: AnsiStyle { fg: Some(c), bg: None },
                ..Style::spec_plain()
            },
            None => Style::spec_plain(),
        }
    }
}

/// Resolve a region style string (without its decoration part).
pub fn resolve_style(s: &str) -> (r: Style)
    ensures
        r == spec_resolve_style(s@),
{
    if str_eq(s, "raw") {
        let mut st = Style::plain();
        st.is_raw = true;
        st
    } else if str_eq(s, "omit") {
        let mut st = Style::plain();
        st.is_omitted = true;
        st
    } else if str_eq(s, "syntax") {
        let mut st = Style::plain();
        st.is_syntax_highlighted = true;
        st
    } else {
        match color_code(s) {
            Some(c) => {
                let mut st = Style::plain();
                st.ansi = AnsiStyle { fg: Some(c), bg: None };
                st
            },
            None => Style::plain(),
        }
    }
}

/// The flags a decoration string's words fold into.
pub struct DecorationFlags {
    pub color: Option<u8>,
    pub boxed: bool,
    pub underline: bool,
    pub overline: bool,
}

/// One word of a decoration string folded into the flags gathered so far.
pub open spec fn spec_deco_word(acc: DecorationFlags, w: Seq<char>) -> DecorationFlags {
    match spec_color_code(w) {
        Some(c) => DecorationFlags { color: Some(c), ..acc },
        None => {
            if w == "box"@ {
                DecorationFlags { boxed: true, ..acc }
            } else if w == "ul"@ || w == "underline"@ {
                DecorationFlags { underline: true, ..acc }
            } else if w == "ol"@ || w == "overline"@ {
                DecorationFlags { overline: true, ..acc }
            } else {
                acc
            }
        },
    }
}

/// The flags of a decoration string: its words folded left to right, where a
/// word is a maximal run without a space.
pub open spec fn spec_deco_flags(s: Seq<char>, acc: DecorationFlags) -> DecorationFlags
    decreases s.len(),
    via spec_deco_flags_dec
{
    if s.len() == 0 {
        acc
    } else {
        match crate::strings::spec_find_char(s, ' ', 0) {
            Some(j) => spec_deco_flags(
                s.subrange(j + 1, s.len() as int),
                spec_deco_word(acc, s.subrange(0, j)),
            ),
            None => spec_deco_word(acc, s),
        }
    }
}

#[via_fn]
proof fn spec_deco_flags_dec(s: Seq<char>, acc: DecorationFlags) {
    if s.len() != 0 {
        crate::strings::lemma_find_char_props(s, ' ', 0);
    }
}

/// The decoration the gathered flags select.
pub open spec fn spec_deco_of_flags(f: DecorationFlags) -> DecorationStyle {
    let ansi = AnsiStyle { fg: f.color, bg: None };
    if f.boxed && f.underline && f.overline {
        DecorationStyle::BoxWithUnderOverline(ansi)
    } else if f.boxed && f.underline {
        DecorationStyle::BoxWithUnderline(ansi)
    } else if f.boxed && f.overline {
        DecorationStyle::BoxWithOverline(ansi)
    } else if f.boxed {
        DecorationStyle::Boxed(ansi)
    } else if f.underline && f.overline {
        DecorationStyle::UnderOverline(ansi)
    } else if f.underline {
        DecorationStyle::Underline(ansi)
    } else if f.overline {
        DecorationStyle::Overline(ansi)
    } else {
        DecorationStyle::NoDecoration
    }
}

/// What a decoration string resolves to.
pub open spec fn spec_resolve_decoration(s: Seq<char>) -> DecorationStyle {
    spec_deco_of_flags(
        spec_deco_flags(
            s,
            DecorationFlags { color: None, boxed: false, underline: false, overline: false },
        ),
    )
}

/// Fold one word into the decoration flags.
fn deco_word(acc: DecorationFlags, w: &str) -> (r: DecorationFlags)
    ensures
        r == spec_deco_word(acc, w@),
{
    match color_code(w) {
        Some(c) => DecorationFlags { color: Some(c), ..acc },
        None => {
            if str_eq(w, "box") {
                DecorationFlags { boxed: true, ..acc }
            } else if str_eq(w, "ul") || str_eq(w, "underline") {
                DecorationFlags { underline: true, ..acc }
            } else if str_eq(w, "ol") || str_eq(w, "overline") {
                DecorationFlags { overline: true, ..acc }
            } else {
                acc
            }
        },
    }
}

/// Resolve a decoration string: words separated by spaces, where a color name
/// styles the frame, `box` / `ul` / `ol` (or their long spellings) pick the
/// frame's parts, and anything else — `none`, `omit`, the empty string — adds
/// nothing.
pub fn resolve_decoration(s: &str) -> (r: DecorationStyle)
    ensures
        r == spec_resolve_decoration(s@),
{
    let ghost flags0 = DecorationFlags {
        color: None,
        boxed: false,
        underline: false,
        overline: false,
    };
    let mut acc = DecorationFlags { color: None, boxed: false, underline: false, overline: false };
    let mut rest: &str = s;
    let mut done: bool = false;
    while !done
        invariant
            spec_deco_flags(s@, flags0) == spec_deco_flags(rest@, acc),
            done ==> rest@.len() == 0,
        decreases rest@.len() + (if done {
            0int
        } else {
            1int
        }),
    {
        let n = rest.unicode_len();
        if n == 0 {
            done = true;
        } else {
            match crate::strings::find_char(rest, ' ', 0) {
                Some(j) => {
                    let word = rest.substring_char(0, j);
                    let next = rest.substring_char(j + 1, n);
                    acc = deco_word(acc, word);
                    rest = next;
                },
                None => {
                    acc = deco_word(acc, rest);
                    let next = rest.substring_char(n, n);
                    assert(next@ =~= Seq::<char>::empty());
                    rest = next;
                    done = true;
                },
            }
        }
    }
    deco_of_flags(acc)
}

/// The decoration the gathered flags select.
fn deco_of_flags(f: DecorationFlags) -> (r: DecorationStyle)
    ensures
        r == spec_deco_of_flags(f),
{
    let ansi = AnsiStyle { fg: f.color, bg: None };
    if f.boxed && f.underline && f.overline {
        DecorationStyle::BoxWithUnderOverline(ansi)
    } else if f.boxed && f.underline {
        DecorationStyle::BoxWithUnderline(ansi)
    } else if f.boxed && f.overline {
        DecorationStyle::BoxWithOverline(ansi)
    } else if f.boxed {
        DecorationStyle::Boxed(ansi)
    } else if f.underline && f.overline {
        DecorationStyle::UnderOverline(ansi)
    } else if f.underline {
        DecorationStyle::Underline(ansi)
    } else if f.overline {
        DecorationStyle::Overline(ansi)
    } else {
        DecorationStyle::NoDecoration
    }
}

} // verus!
