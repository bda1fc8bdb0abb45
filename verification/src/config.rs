//! The resolved configuration the core consumes: one `Style` per header
//! region, paint styles for the hunk content lines, the syntax-theme switch,
//! and the numeric knobs.

use vstd::prelude::*;

use crate::options::Opt;
use crate::strings::opt_view;
use crate::style::AnsiStyle;
use crate::style::DecorationStyle;
use crate::style::Style;
use crate::style::resolve_decoration;
use crate::style::resolve_style;
use crate::style::spec_color_code;
use crate::style::spec_resolve_decoration;
use crate::style::spec_resolve_style;

verus! {

/// Background color of removed lines.
pub const MINUS_BG: u8 = 52;

/// Background color of the changed part of a removed line.
pub const MINUS_EMPH_BG: u8 = 88;

/// Background color of added lines.
pub const PLUS_BG: u8 = 22;

/// Background color of the changed part of an added line.
pub const PLUS_EMPH_BG: u8 = 28;

/// Foreground color of code under the theme when the language is recognized.
pub const SYNTAX_CODE_FG: u8 = 186;

/// Foreground color of code under the theme when no grammar fits: the
/// plain-text fallback.
pub const SYNTAX_PLAIN_FG: u8 = 253;

/// The width decorations are drawn to: a fixed column count, or the width of
/// the decorated text itself.
#[derive(Clone, Copy, Debug)]
pub enum Width {
    Fixed(usize),
    Variable,
}

/// The resolved configuration.
#[derive(Clone, Copy, Debug)]
pub struct Config {
    pub commit_style: Style,
    pub file_style: Style,
    pub hunk_header_style: Style,
    pub minus_style: AnsiStyle,
    pub minus_emph_style: AnsiStyle,
    pub plus_style: AnsiStyle,
    pub plus_emph_style: AnsiStyle,
    pub zero_style: AnsiStyle,
    pub theme_on: bool,
    pub tab_width: usize,
    pub max_buffered_lines: usize,
    pub keep_markers: bool,
    pub decorations_width: Width,
}

/// What a region's style and decoration strings resolve to. The legacy
/// spellings `box`, `underline` and `plain` as the style string select the
/// old behavior: the deprecated color option styles both the text and the
/// frame, and `box` frames with a box whose bottom runs on as an underline.
/// A deprecated style option, where set, overrides the decoration string the
/// same way.
pub open spec fn spec_resolve_region(
    style_str: Seq<char>,
    deco_str: Seq<char>,
    depr_color: Option<Seq<char>>,
    depr_style: Option<Seq<char>>,
) -> Style {
    if style_str == "box"@ || style_str == "underline"@ || style_str == "plain"@ {
        let color = spec_depr_color_code(depr_color);
        let ansi = AnsiStyle { fg: color, bg: None };
        Style {
            ansi: ansi,
            is_raw: false,
            is_omitted: false,
            is_syntax_highlighted: false,
            decoration_style: if style_str == "box"@ {
                DecorationStyle::BoxWithUnderline(ansi)
            } else if style_str == "underline"@ {
                DecorationStyle::Underline(ansi)
            } else {
                DecorationStyle::NoDecoration
            },
        }
    } else {
        let st = spec_resolve_style(style_str);
        let deco = match depr_style {
            Some(ds) => {
                let ansi = AnsiStyle { fg: spec_depr_color_code(depr_color), bg: None };
                if ds == "box"@ {
                    DecorationStyle::Boxed(ansi)
                } else if ds == "underline"@ {
                    DecorationStyle::Underline(ansi)
                } else {
                    DecorationStyle::NoDecoration
                }
            },
            None => spec_resolve_decoration(deco_str),
        };
        Style { decoration_style: deco, ..st }
    }
}

/// The color a deprecated color option names, if any.
pub open spec fn spec_depr_color_code(depr_color: Option<Seq<char>>) -> Option<u8> {
    match depr_color {
        Some(c) => spec_color_code(c),
        None => None,
    }
}

/// Resolve one region's style from its style string, decoration string, and
/// deprecated options.
pub fn resolve_region(
    style_str: &str,
    deco_str: &str,
    depr_color: &Option<String>,
    depr_style: &Option<String>,
) -> (r: Style)
    ensures
        r == spec_resolve_region(
            style_str@,
            deco_str@,
            opt_view(*depr_color),
            opt_view(*depr_style),
        ),
{
    let color: Option<u8> = match depr_color {
        Some(c) => crate::style::color_code(c.as_str()),
        None => None,
    };
    if crate::strings::str_eq(style_str, "box") || crate::strings::str_eq(style_str, "underline")
        || crate::strings::str_eq(style_str, "plain") {
        let ansi = AnsiStyle { fg: color, bg: None };
        Style {
            ansi: ansi,
            is_raw: false,
            is_omitted: false,
            is_syntax_highlighted: false,
            decoration_style: if crate::strings::str_eq(style_str, "box") {
                DecorationStyle::BoxWithUnderline(ansi)
            } else if crate::strings::str_eq(style_str, "underline") {
                DecorationStyle::Underline(ansi)
            } else {
                DecorationStyle::NoDecoration
            },
        }
    } else {
        let st = resolve_style(style_str);
        let deco: DecorationStyle = match depr_style {
            Some(ds) => {
                let ansi = AnsiStyle { fg: color, bg: None };
                if crate::strings::str_eq(ds.as_str(), "box") {
                    DecorationStyle::Boxed(ansi)
                } else if crate::strings::str_eq(ds.as_str(), "underline") {
                    DecorationStyle::Underline(ansi)
                } else {
                    DecorationStyle::NoDecoration
                }
            },
            None => resolve_decoration(deco_str),
        };
        Style { decoration_style: deco, ..st }
    }
}

/// A raw, undecorated style: its region is passed through untouched.
pub open spec fn spec_raw_style() -> Style {
    Style {
        ansi: AnsiStyle { fg: None, bg: None },
        is_raw: true,
        is_omitted: false,
        is_syntax_highlighted: false,
        decoration_style: DecorationStyle::NoDecoration,
    }
}

/// The numeric value of a short decimal width string of one to four digits;
/// none if the string is not of that shape.
pub open spec fn spec_small_number(s: Seq<char>) -> Option<int>
    decreases s.len(),
{
    if s.len() == 0 || s.len() > 4 {
        None
    } else if s.len() == 1 {
        spec_digit(s[0])
    } else {
        match (spec_small_number(s.drop_last()), spec_digit(s[s.len() - 1])) {
            (Some(h), Some(d)) => Some(h * 10 + d),
            _ => None,
        }
    }
}

/// The value of one decimal digit.
pub open spec fn spec_digit(c: char) -> Option<int> {
    if c == '0' {
        Some(0int)
    } else if c == '1' {
        Some(1int)
    } else if c == '2' {
        Some(2int)
    } else if c == '3' {
        Some(3int)
    } else if c == '4' {
        Some(4int)
    } else if c == '5' {
        Some(5int)
    } else if c == '6' {
        Some(6int)
    } else if c == '7' {
        Some(7int)
    } else if c == '8' {
        Some(8int)
    } else {
        if c == '9' {
            Some(9int)
        } else {
            None
        }
    }
}

/// The value of one decimal digit.
fn digit(c: char) -> (r: Option<u8>)
    ensures
        match r {
            Some(d) => Some(d as int) == spec_digit(c),
            None => spec_digit(c) is None,
        },
{
    if c == '0' {
        Some(0u8)
    } else if c == '1' {
        Some(1u8)
    } else if c == '2' {
        Some(2u8)
    } else if c == '3' {
        Some(3u8)
    } else if c == '4' {
        Some(4u8)
    } else if c == '5' {
        Some(5u8)
    } else if c == '6' {
        Some(6u8)
    } else if c == '7' {
        Some(7u8)
    } else if c == '8' {
        Some(8u8)
    } else if c == '9' {
        Some(9u8)
    } else {
        None
    }
}

/// The width a width option resolves to: absent, `variable`, or anything but
/// a short decimal number means the text's own width.
pub open spec fn spec_resolve_width(w: Option<Seq<char>>) -> Width {
    match w {
        None => Width::Variable,
        Some(s) => if s == "variable"@ {
            Width::Variable
        } else {
            match spec_small_number(s) {
                Some(v) => Width::Fixed(v as usize),
                None => Width::Variable,
            }
        },
    }
}

/// Resolve the width option.
fn resolve_width(w: &Option<String>) -> (r: Width)
    ensures
        r == spec_resolve_width(opt_view(*w)),
{
    match w {
        None => Width::Variable,
        Some(s) => {
            if crate::strings::str_eq(s.as_str(), "variable") {
                Width::Variable
            } else {
                match small_number(s.as_str()) {
                    Some(v) => Width::Fixed(v),
                    None => Width::Variable,
                }
            }
        },
    }
}

/// Parse a one-to-four digit decimal number.
fn small_number(s: &str) -> (r: Option<usize>)
    ensures
        match r {
            Some(v) => Some(v as int) == spec_small_number(s@),
            None => spec_small_number(s@) is None,
        },
{
    let n = s.unicode_len();
    if n == 0 || n > 4 {
        return None;
    }
    let mut i: usize = 0;
    let mut acc: usize = 0;
    while i < n
        invariant
            0 <= i <= n,
            1 <= n <= 4,
            n == s@.len(),
            i == 0 ==> acc == 0,
            i == 1 ==> acc <= 9,
            i == 2 ==> acc <= 99,
            i == 3 ==> acc <= 999,
            i == 4 ==> acc <= 9999,
            i > 0 ==> Some(acc as int) == spec_small_number(s@.subrange(0, i as int)),
        decreases n - i,
    {
        match digit(s.get_char(i)) {
            Some(d) => {
                proof {
                    let t = s@.subrange(0, i as int + 1);
                    assert(t.drop_last() =~= s@.subrange(0, i as int));
                    assert(t[t.len() - 1] == s@[i as int]);
                }
                if i == 0 {
                    acc = d as usize;
                    proof {
                        assert(s@.subrange(0, 1int).len() == 1);
                    }
                } else {
                    acc = acc * 10 + d as usize;
                }
            },
            None => {
                proof {
                    lemma_small_number_digit(s@, i as int);
                }
                return None;
            },
        }
        i += 1;
    }
    proof {
        assert(s@.subrange(0, n as int) =~= s@);
    }
    Some(acc)
}

proof fn lemma_small_number_digit(s: Seq<char>, i: int)
    requires
        0 <= i < s.len(),
        spec_digit(s[i]) is None,
    ensures
        spec_small_number(s) is None,
    decreases s.len(),
{
    if s.len() > 1 && i < s.len() - 1 {
        lemma_small_number_digit(s.drop_last(), i);
    }
}

/// Resolve the raw options into the configuration the core consumes. Under
/// `color_only`, every header region is passed through raw and undecorated,
/// tabs are kept, and the change markers are restored on output, so that the
/// text of the stream survives unchanged and only colors are added.
pub fn make_config(opt: &Opt) -> (r: Config)
    ensures
        !opt.color_only ==> r.commit_style == spec_resolve_region(
            opt.commit_style@,
            opt.commit_decoration_style@,
            opt_view(opt.deprecated_commit_color),
            None,
        ),
        !opt.color_only ==> r.file_style == spec_resolve_region(
            opt.file_style@,
            opt.file_decoration_style@,
            opt_view(opt.deprecated_file_color),
            None,
        ),
        !opt.color_only ==> r.hunk_header_style == spec_resolve_region(
            opt.hunk_header_style@,
            opt.hunk_header_decoration_style@,
            opt_view(opt.deprecated_hunk_color),
            opt_view(opt.deprecated_hunk_style),
        ),
        !opt.color_only ==> r.tab_width == opt.tab_width && r.keep_markers == false,
        opt.color_only ==> r.commit_style == spec_raw_style() && r.file_style == spec_raw_style()
            && r.hunk_header_style == spec_raw_style() && r.tab_width == 0 && r.keep_markers
            == true,
        r.theme_on == !(opt_view(opt.theme) == Some("none"@)),
        r.minus_style == (AnsiStyle { fg: None, bg: Some(MINUS_BG) }),
        r.minus_emph_style == (AnsiStyle { fg: None, bg: Some(MINUS_EMPH_BG) }),
        r.plus_style == (AnsiStyle { fg: None, bg: Some(PLUS_BG) }),
        r.plus_emph_style == (AnsiStyle { fg: None, bg: Some(PLUS_EMPH_BG) }),
        r.zero_style == (AnsiStyle { fg: None, bg: None }),
        r.max_buffered_lines == opt.max_buffered_lines,
        r.decorations_width == spec_resolve_width(opt_view(opt.width)),
{
    let theme_on: bool = match &opt.theme {
        Some(t) => !crate::strings::str_eq(t.as_str(), "none"),
        None => true,
    };
    let mut config = Config {
        commit_style: resolve_region(
            opt.commit_style.as_str(),
            opt.commit_decoration_style.as_str(),
            &opt.deprecated_commit_color,
            &None,
        ),
        file_style: resolve_region(
            opt.file_style.as_str(),
            opt.file_decoration_style.as_str(),
            &opt.deprecated_file_color,
            &None,
        ),
        hunk_header_style: resolve_region(
            opt.hunk_header_style.as_str(),
            opt.hunk_header_decoration_style.as_str(),
            &opt.deprecated_hunk_color,
            &opt.deprecated_hunk_style,
        ),
        minus_style: AnsiStyle { fg: None, bg: Some(MINUS_BG) },
        minus_emph_style: AnsiStyle { fg: None, bg: Some(MINUS_EMPH_BG) },
        plus_style: AnsiStyle { fg: None, bg: Some(PLUS_BG) },
        plus_emph_style: AnsiStyle { fg: None, bg: Some(PLUS_EMPH_BG) },
        zero_style: AnsiStyle { fg: None, bg: None },
        theme_on: theme_on,
        tab_width: opt.tab_width,
        max_buffered_lines: opt.max_buffered_lines,
        keep_markers: false,
        decorations_width: resolve_width(&opt.width),
    };
    if opt.color_only {
        let raw = Style {
            ansi: AnsiStyle { fg: None, bg: None },
            is_raw: true,
            is_omitted: false,
            is_syntax_highlighted: false,
            decoration_style: DecorationStyle::NoDecoration,
        };
        config.commit_style = raw;
        config.file_style = raw;
        config.hunk_header_style = raw;
        config.tab_width = 0;
        config.keep_markers = true;
    }
    config
}

} // verus!
