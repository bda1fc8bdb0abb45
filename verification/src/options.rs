//! The command-line-shaped options the renderer is configured from. A caller
//! fills this record with the human-readable style strings; `make_config`
//! resolves it into the concrete `Config` the core consumes.

use vstd::prelude::*;

verus! {

/// Raw options: per-region style and decoration strings, the deprecated
/// single-purpose color/style options they replaced, the syntax theme, the
/// decoration width, and the plain numeric knobs.
pub struct Opt {
    pub commit_style: String,
    pub commit_decoration_style: String,
    pub file_style: String,
    pub file_decoration_style: String,
    pub hunk_header_style: String,
    pub hunk_header_decoration_style: String,
    pub deprecated_commit_color: Option<String>,
    pub deprecated_file_color: Option<String>,
    pub deprecated_hunk_color: Option<String>,
    pub deprecated_hunk_style: Option<String>,
    pub theme: Option<String>,
    pub width: Option<String>,
    pub color_only: bool,
    pub tab_width: usize,
    pub max_buffered_lines: usize,
}

/// The default options: commit lines passed through raw, file headers blue
/// and underlined, hunk headers syntax-highlighted in a blue box, a syntax
/// theme on, variable width, four-space tabs, and at most 32 buffered lines
/// per side.
pub fn default_options() -> (r: Opt)
    ensures
        r.commit_style@ == "raw"@,
        r.commit_decoration_style@ == "none"@,
        r.file_style@ == "blue"@,
        r.file_decoration_style@ == "blue ul"@,
        r.hunk_header_style@ == "syntax"@,
        r.hunk_header_decoration_style@ == "blue box"@,
        r.deprecated_commit_color is None,
        r.deprecated_file_color is None,
        r.deprecated_hunk_color is None,
        r.deprecated_hunk_style is None,
        r.theme is None,
        r.width is None,
        r.color_only == false,
        r.tab_width == 4,
        r.max_buffered_lines == 32,
{
    Opt {
        commit_style: String::from_str("raw"),
        commit_decoration_style: String::from_str("none"),
        file_style: String::from_str("blue"),
        file_decoration_style: String::from_str("blue ul"),
        hunk_header_style: String::from_str("syntax"),
        hunk_header_decoration_style: String::from_str("blue box"),
        deprecated_commit_color: None,
        deprecated_file_color: None,
        deprecated_hunk_color: None,
        deprecated_hunk_style: None,
        theme: None,
        width: None,
        color_only: false,
        tab_width: 4,
        max_buffered_lines: 32,
    }
}

} // verus!
