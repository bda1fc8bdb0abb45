//! The painter: owns the output text, the two hunk-line buffers, and the
//! syntax selection; pairs buffered removed/added lines positionally and
//! paints them with base, emphasis, and syntax colors.

use vstd::prelude::*;

use crate::ansi::paint_seg;
use crate::ansi::painted_seg;
use crate::config::Config;
use crate::config::SYNTAX_CODE_FG;
use crate::config::SYNTAX_PLAIN_FG;
use crate::strings::opt_view;
use crate::strings::str_eq;
use crate::style::AnsiStyle;

verus! {

/// The painter's state: the sink the finished text goes to, the growing
/// buffer a flush appends to before `emit` moves it to the sink, the two
/// hunk-line buffers, and the selected file extension.
pub struct Painter {
    pub minus_lines: Vec<String>,
    pub plus_lines: Vec<String>,
    pub output_buffer: String,
    pub output: String,
    pub syntax: Option<String>,
}

/// The painter as the contracts see it: the buffered lines, the selected
/// extension, and the total text produced so far (sink and pending buffer
/// together, in order).
#[verifier::ext_equal]
pub struct PainterModel {
    pub syntax: Option<Seq<char>>,
    pub minus_lines: Seq<Seq<char>>,
    pub plus_lines: Seq<Seq<char>>,
    pub total: Seq<char>,
}

impl Painter {
    /// The painter's model.
    pub open spec fn model(&self) -> PainterModel {
        PainterModel {
            syntax: opt_view(self.syntax),
            minus_lines: self.minus_lines.deep_view(),
            plus_lines: self.plus_lines.deep_view(),
            total: self.output@ + self.output_buffer@,
        }
    }

    /// A fresh painter: everything empty, no extension selected.
    pub fn new() -> (r: Painter)
        ensures
            r.model() =~= (PainterModel {
                syntax: None,
                minus_lines: Seq::empty(),
                plus_lines: Seq::empty(),
                total: Seq::empty(),
            }),
            r.output@ == Seq::<char>::empty(),
            r.output_buffer@ == Seq::<char>::empty(),
    {
        let p = Painter {
            minus_lines: Vec::new(),
            plus_lines: Vec::new(),
            output_buffer: String::new(),
            output: String::new(),
            syntax: None,
        };
        assert(p.minus_lines.deep_view() =~= Seq::<Seq<char>>::empty());
        assert(p.plus_lines.deep_view() =~= Seq::<Seq<char>>::empty());
        p
    }

    /// Select the grammar for the given file extension; an unrecognized or
    /// missing extension falls back to plain text.
    pub fn set_syntax(&mut self, extension: Option<String>)
        ensures
            final(self).model() == (PainterModel {
                syntax: opt_view(extension),
                ..old(self).model()
            }),
            final(self).output@ == old(self).output@,
            final(self).output_buffer@ == old(self).output_buffer@,
    {
        self.syntax = extension;
    }

    /// Restart highlighting at a hunk boundary. The built-in highlighter
    /// holds no cross-line state, so there is nothing to reset.
    pub fn set_highlighter(&mut self)
        ensures
            *final(self) == *old(self),
    {
    }

    /// Move the pending buffer to the sink.
    pub fn emit(&mut self)
        ensures
            final(self).model() == old(self).model(),
            final(self).output_buffer@ == Seq::<char>::empty(),
            final(self).output@ == old(self).output@ + old(self).output_buffer@,
    {
        let buf = self.output_buffer.clone();
        self.output.append(buf.as_str());
        self.output_buffer = String::new();
        assert(final(self).model() =~= old(self).model());
    }

    /// The syntax foreground color for the current selection: none without a
    /// theme, the code color for a recognized extension, the plain-text
    /// fallback color otherwise.
    pub fn syn_color(&self, config: &Config) -> (r: Option<u8>)
        ensures
            r == spec_syn_color(opt_view(self.syntax), *config),
    {
        if !config.theme_on {
            None
        } else {
            match &self.syntax {
                Some(e) => if is_recognized(e.as_str()) {
                    Some(SYNTAX_CODE_FG)
                } else {
                    Some(SYNTAX_PLAIN_FG)
                },
                None => Some(SYNTAX_PLAIN_FG),
            }
        }
    }

    /// Pair and paint the buffered removed/added lines, appending the result
    /// to the pending buffer and emptying both line buffers. A no-op when
    /// both buffers are empty.
    pub fn paint_buffered_lines(&mut self, config: &Config)
        ensures
            final(self).model() == spec_flushed(old(self).model(), *config),
            final(self).output@ == old(self).output@,
    {
        let syn = self.syn_color(config);
        let ghost minus0 = self.minus_lines.deep_view();
        let ghost plus0 = self.plus_lines.deep_view();
        let ghost buf0 = self.output_buffer@;
        let mut i: usize = 0;
        while i < self.minus_lines.len()
            invariant
                0 <= i <= self.minus_lines.len(),
                self.minus_lines.deep_view() == minus0,
                self.plus_lines.deep_view() == plus0,
                self.output@ == old(self).output@,
                self.syntax == old(self).syntax,
                syn == spec_syn_color(opt_view(self.syntax), *config),
                self.output_buffer@ + spec_minus_painted(minus0, plus0, *config, syn, i as int)
                    == buf0 + spec_minus_painted(minus0, plus0, *config, syn, 0),
            decreases self.minus_lines.len() - i,
        {
            let a_full = self.minus_lines[i].clone();
            let a = strip_newline(a_full.as_str());
            let na = a.unicode_len();
            let ghost av = spec_strip_nl(minus0[i as int]);
            assert(av == a@);
            let seg: String;
            if i < self.plus_lines.len() {
                let b_full = self.plus_lines[i].clone();
                let b = strip_newline(b_full.as_str());
                let p = common_prefix_len(a, b);
                let asuf = a.substring_char(p, na);
                let bsuf = b.substring_char(p, b.unicode_len());
                let s = common_suffix_len(asuf, bsuf);
                seg = paint_line_text(
                    a,
                    config.minus_style,
                    config.minus_emph_style,
                    p,
                    na - s,
                    syn,
                    '-',
                    config.keep_markers,
                );
            } else {
                seg = paint_line_text(
                    a,
                    config.minus_style,
                    config.minus_emph_style,
                    na,
                    na,
                    syn,
                    '-',
                    config.keep_markers,
                );
            }
            proof {
                lemma_minus_painted_step(minus0, plus0, *config, syn, i as int);
            }
            self.output_buffer.append(seg.as_str());
            self.output_buffer.push('\n');
            i += 1;
        }
        proof {
            assert(spec_minus_painted(minus0, plus0, *config, syn, minus0.len() as int)
                =~= Seq::<char>::empty());
        }
        let ghost buf1 = self.output_buffer@;
        let mut j: usize = 0;
        while j < self.plus_lines.len()
            invariant
                0 <= j <= self.plus_lines.len(),
                self.minus_lines.deep_view() == minus0,
                self.plus_lines.deep_view() == plus0,
                self.output@ == old(self).output@,
                self.syntax == old(self).syntax,
                syn == spec_syn_color(opt_view(self.syntax), *config),
                self.output_buffer@ + spec_plus_painted(minus0, plus0, *config, syn, j as int)
                    == buf1 + spec_plus_painted(minus0, plus0, *config, syn, 0),
            decreases self.plus_lines.len() - j,
        {
            let b_full = self.plus_lines[j].clone();
            let b = strip_newline(b_full.as_str());
            let nb = b.unicode_len();
            let seg: String;
            if j < self.minus_lines.len() {
                let a_full = self.minus_lines[j].clone();
                let a = strip_newline(a_full.as_str());
                let p = common_prefix_len(a, b);
                let asuf = a.substring_char(p, a.unicode_len());
                let bsuf = b.substring_char(p, nb);
                let s = common_suffix_len(asuf, bsuf);
                seg = paint_line_text(
                    b,
                    config.plus_style,
                    config.plus_emph_style,
                    p,
                    nb - s,
                    syn,
                    '+',
                    config.keep_markers,
                );
            } else {
                seg = paint_line_text(
                    b,
                    config.plus_style,
                    config.plus_emph_style,
                    nb,
                    nb,
                    syn,
                    '+',
                    config.keep_markers,
                );
            }
            proof {
                lemma_plus_painted_step(minus0, plus0, *config, syn, j as int);
            }
            self.output_buffer.append(seg.as_str());
            self.output_buffer.push('\n');
            j += 1;
        }
        proof {
            assert(spec_plus_painted(minus0, plus0, *config, syn, plus0.len() as int)
                =~= Seq::<char>::empty());
        }
        self.minus_lines = Vec::new();
        self.plus_lines = Vec::new();
        proof {
            assert(self.minus_lines.deep_view() =~= Seq::<Seq<char>>::empty());
            assert(self.plus_lines.deep_view() =~= Seq::<Seq<char>>::empty());
            assert(final(self).model() =~= spec_flushed(old(self).model(), *config));
        }
    }
}

/// Whether the extension names a grammar of the built-in set.
pub open spec fn spec_recognized(ext: Seq<char>) -> bool {
    ext == "py"@ || ext == "rs"@ || ext == "c"@ || ext == "h"@ || ext == "hs"@ || ext == "md"@
        || ext == "rb"@ || ext == "go"@ || ext == "js"@ || ext == "json"@ || ext == "sh"@ || ext
        == "toml"@ || ext == "txt"@
}

/// Whether the extension names a grammar of the built-in set.
pub fn is_recognized(ext: &str) -> (r: bool)
    ensures
        r == spec_recognized(ext@),
{
    str_eq(ext, "py") || str_eq(ext, "rs") || str_eq(ext, "c") || str_eq(ext, "h") || str_eq(
        ext,
        "hs",
    ) || str_eq(ext, "md") || str_eq(ext, "rb") || str_eq(ext, "go") || str_eq(ext, "js")
        || str_eq(ext, "json") || str_eq(ext, "sh") || str_eq(ext, "toml") || str_eq(ext, "txt")
}

/// The syntax foreground for a selection under the configuration.
pub open spec fn spec_syn_color(syntax: Option<Seq<char>>, config: Config) -> Option<u8> {
    if !config.theme_on {
        None
    } else {
        match syntax {
            Some(e) => if spec_recognized(e) {
                Some(SYNTAX_CODE_FG)
            } else {
                Some(SYNTAX_PLAIN_FG)
            },
            None => Some(SYNTAX_PLAIN_FG),
        }
    }
}

/// `s` with one trailing newline removed.
pub open spec fn spec_strip_nl(s: Seq<char>) -> Seq<char> {
    if s.len() > 0 && s[s.len() - 1] == '\n' {
        s.drop_last()
    } else {
        s
    }
}

/// Drop one trailing newline.
pub fn strip_newline<'a>(s: &'a str) -> (r: &'a str)
    ensures
        r@ == spec_strip_nl(s@),
{
    let n = s.unicode_len();
    if n > 0 && s.get_char(n - 1) == '\n' {
        let r = s.substring_char(0, n - 1);
        assert(r@ =~= s@.drop_last());
        r
    } else {
        s
    }
}

/// The line with its first column replaced by the change marker, where the
/// configuration keeps markers.
pub open spec fn spec_restore_marker(line: Seq<char>, marker: char, keep: bool) -> Seq<char> {
    if keep && line.len() > 0 {
        line.update(0, marker)
    } else {
        line
    }
}

/// The base foreground, or the syntax color where the base sets none.
pub open spec fn spec_fg_or(fg: Option<u8>, syn: Option<u8>) -> Option<u8> {
    if fg is Some {
        fg
    } else {
        syn
    }
}

/// A hunk content line painted in three segments: the base style up to `p`,
/// the emphasis style over the changed range `p..q`, and the base style
/// after it, each with the syntax foreground underneath.
pub open spec fn spec_painted_text(
    line: Seq<char>,
    base: AnsiStyle,
    emph: AnsiStyle,
    p: int,
    q: int,
    syn: Option<u8>,
) -> Seq<char> {
    painted_seg(spec_fg_or(base.fg, syn), base.bg, line.subrange(0, p)) + painted_seg(
        spec_fg_or(emph.fg, syn),
        emph.bg,
        line.subrange(p, q),
    ) + painted_seg(spec_fg_or(base.fg, syn), base.bg, line.subrange(q, line.len() as int))
}

/// Paint one line (no trailing newline) in three segments, restoring the
/// change marker first where configured.
pub fn paint_line_text(
    line: &str,
    base: AnsiStyle,
    emph: AnsiStyle,
    p: usize,
    q: usize,
    syn: Option<u8>,
    marker: char,
    keep: bool,
) -> (r: String)
    requires
        p <= q <= line@.len(),
    ensures
        r@ == spec_painted_text(
            spec_restore_marker(line@, marker, keep),
            base,
            emph,
            p as int,
            q as int,
            syn,
        ),
{
    let n = line.unicode_len();
    let mut d = String::new();
    if keep && n > 0 {
        d.push(marker);
        d.append(line.substring_char(1, n));
        assert(d@ =~= line@.update(0, marker));
    } else {
        d = line.to_owned();
    }
    let s1 = paint_seg(
        if base.fg.is_some() {
            base.fg
        } else {
            syn
        },
        base.bg,
        d.as_str().substring_char(0, p),
    );
    let s2 = paint_seg(
        if emph.fg.is_some() {
            emph.fg
        } else {
            syn
        },
        emph.bg,
        d.as_str().substring_char(p, q),
    );
    let s3 = paint_seg(
        if base.fg.is_some() {
            base.fg
        } else {
            syn
        },
        base.bg,
        d.as_str().substring_char(q, n),
    );
    let mut out = s1;
    out.append(s2.as_str());
    out.append(s3.as_str());
    out
}

/// The length of the longest common prefix.
pub open spec fn spec_prefix_len(a: Seq<char>, b: Seq<char>) -> int
    decreases a.len(),
{
    if a.len() == 0 || b.len() == 0 || a[0] != b[0] {
        0
    } else {
        1 + spec_prefix_len(a.skip(1), b.skip(1))
    }
}

/// The length of the longest common suffix.
pub open spec fn spec_suffix_len(a: Seq<char>, b: Seq<char>) -> int
    decreases a.len(),
{
    if a.len() == 0 || b.len() == 0 || a[a.len() - 1] != b[b.len() - 1] {
        0
    } else {
        1 + spec_suffix_len(a.drop_last(), b.drop_last())
    }
}

/// The common prefix is never longer than either sequence.
pub proof fn lemma_prefix_len_bounds(a: Seq<char>, b: Seq<char>)
    ensures
        0 <= spec_prefix_len(a, b) <= a.len(),
        spec_prefix_len(a, b) <= b.len(),
    decreases a.len(),
{
    if !(a.len() == 0 || b.len() == 0 || a[0] != b[0]) {
        lemma_prefix_len_bounds(a.skip(1), b.skip(1));
    }
}

/// The common suffix is never longer than either sequence.
pub proof fn lemma_suffix_len_bounds(a: Seq<char>, b: Seq<char>)
    ensures
        0 <= spec_suffix_len(a, b) <= a.len(),
        spec_suffix_len(a, b) <= b.len(),
    decreases a.len(),
{
    if !(a.len() == 0 || b.len() == 0 || a[a.len() - 1] != b[b.len() - 1]) {
        lemma_suffix_len_bounds(a.drop_last(), b.drop_last());
    }
}

proof fn lemma_prefix_len_char(a: Seq<char>, b: Seq<char>, i: int)
    requires
        0 <= i <= a.len(),
        i <= b.len(),
        forall|j: int| 0 <= j < i ==> a[j] == b[j],
        i == a.len() || i == b.len() || a[i] != b[i],
    ensures
        spec_prefix_len(a, b) == i,
    decreases i,
{
    if i == 0 {
    } else {
        assert(a[0] == b[0]);
        lemma_prefix_len_char(a.skip(1), b.skip(1), i - 1);
    }
}

proof fn lemma_suffix_len_char(a: Seq<char>, b: Seq<char>, i: int)
    requires
        0 <= i <= a.len(),
        i <= b.len(),
        forall|j: int| 0 <= j < i ==> #[trigger] a[a.len() - 1 - j] == b[b.len() - 1 - j],
        i == a.len() || i == b.len() || a[a.len() - 1 - i] != b[b.len() - 1 - i],
    ensures
        spec_suffix_len(a, b) == i,
    decreases i,
{
    if i == 0 {
    } else {
        assert(a[a.len() - 1 - 0] == b[b.len() - 1 - 0]);
        let ad = a.drop_last();
        let bd = b.drop_last();
        assert forall|j: int| 0 <= j < i - 1 implies #[trigger] ad[ad.len() - 1 - j] == bd[bd.len()
            - 1 - j] by {
            assert(a[a.len() - 1 - (j + 1)] == b[b.len() - 1 - (j + 1)]);
        }
        lemma_suffix_len_char(ad, bd, i - 1);
    }
}

/// Count the characters the two strings share at the start.
pub fn common_prefix_len(a: &str, b: &str) -> (r: usize)
    ensures
        r as int == spec_prefix_len(a@, b@),
        r <= a@.len(),
        r <= b@.len(),
{
    let na = a.unicode_len();
    let nb = b.unicode_len();
    let m = if na < nb {
        na
    } else {
        nb
    };
    let mut i: usize = 0;
    while i < m
        invariant
            0 <= i <= m,
            m <= na,
            m <= nb,
            m == (if na < nb {
                na as int
            } else {
                nb as int
            }),
            na == a@.len(),
            nb == b@.len(),
            forall|j: int| 0 <= j < i ==> a@[j] == b@[j],
        decreases m - i,
    {
        if a.get_char(i) != b.get_char(i) {
            proof {
                lemma_prefix_len_char(a@, b@, i as int);
            }
            return i;
        }
        i += 1;
    }
    proof {
        lemma_prefix_len_char(a@, b@, m as int);
    }
    m
}

/// Count the characters the two strings share at the end.
pub fn common_suffix_len(a: &str, b: &str) -> (r: usize)
    ensures
        r as int == spec_suffix_len(a@, b@),
        r <= a@.len(),
        r <= b@.len(),
{
    let na = a.unicode_len();
    let nb = b.unicode_len();
    let m = if na < nb {
        na
    } else {
        nb
    };
    let mut i: usize = 0;
    while i < m
        invariant
            0 <= i <= m,
            m <= na,
            m <= nb,
            na == a@.len(),
            nb == b@.len(),
            forall|j: int| 0 <= j < i ==> #[trigger] a@[na - 1 - j] == b@[nb - 1 - j],
        decreases m - i,
    {
        if a.get_char(na - 1 - i) != b.get_char(nb - 1 - i) {
            proof {
                lemma_suffix_len_char(a@, b@, i as int);
            }
            return i;
        }
        i += 1;
    }
    proof {
        lemma_suffix_len_char(a@, b@, m as int);
    }
    m
}

/// The removed line at position `i` of a flushed block, as painted: paired
/// with the added line at the same position while one exists, its changed
/// middle is painted with the emphasis style; an unpaired line is painted in
/// the base style alone.
pub open spec fn spec_minus_line_painted(
    minus: Seq<Seq<char>>,
    plus: Seq<Seq<char>>,
    config: Config,
    syn: Option<u8>,
    i: int,
) -> Seq<char> {
    let a = spec_strip_nl(minus[i]);
    let d = spec_restore_marker(a, '-', config.keep_markers);
    if i < plus.len() {
        let b = spec_strip_nl(plus[i]);
        let p = spec_prefix_len(a, b);
        let s = spec_suffix_len(a.skip(p), b.skip(p));
        spec_painted_text(d, config.minus_style, config.minus_emph_style, p, a.len() - s, syn)
    } else {
        spec_painted_text(
            d,
            config.minus_style,
            config.minus_emph_style,
            a.len() as int,
            a.len() as int,
            syn,
        )
    }
}

/// The added line at position `i` of a flushed block, as painted.
pub open spec fn spec_plus_line_painted(
    minus: Seq<Seq<char>>,
    plus: Seq<Seq<char>>,
    config: Config,
    syn: Option<u8>,
    i: int,
) -> Seq<char> {
    let b = spec_strip_nl(plus[i]);
    let d = spec_restore_marker(b, '+', config.keep_markers);
    if i < minus.len() {
        let a = spec_strip_nl(minus[i]);
        let p = spec_prefix_len(a, b);
        let s = spec_suffix_len(a.skip(p), b.skip(p));
        spec_painted_text(d, config.plus_style, config.plus_emph_style, p, b.len() - s, syn)
    } else {
        spec_painted_text(
            d,
            config.plus_style,
            config.plus_emph_style,
            b.len() as int,
            b.len() as int,
            syn,
        )
    }
}

/// The painted removed lines from position `i` on, newline-terminated.
pub open spec fn spec_minus_painted(
    minus: Seq<Seq<char>>,
    plus: Seq<Seq<char>>,
    config: Config,
    syn: Option<u8>,
    i: int,
) -> Seq<char>
    decreases minus.len() - i,
{
    if i < 0 || i >= minus.len() {
        Seq::empty()
    } else {
        spec_minus_line_painted(minus, plus, config, syn, i) + seq!['\n'] + spec_minus_painted(
            minus,
            plus,
            config,
            syn,
            i + 1,
        )
    }
}

/// The painted added lines from position `i` on, newline-terminated.
pub open spec fn spec_plus_painted(
    minus: Seq<Seq<char>>,
    plus: Seq<Seq<char>>,
    config: Config,
    syn: Option<u8>,
    i: int,
) -> Seq<char>
    decreases plus.len() - i,
{
    if i < 0 || i >= plus.len() {
        Seq::empty()
    } else {
        spec_plus_line_painted(minus, plus, config, syn, i) + seq!['\n'] + spec_plus_painted(
            minus,
            plus,
            config,
            syn,
            i + 1,
        )
    }
}

/// What a flush paints: all removed lines, then all added lines.
pub open spec fn spec_paint_buffered(
    minus: Seq<Seq<char>>,
    plus: Seq<Seq<char>>,
    config: Config,
    syn: Option<u8>,
) -> Seq<char> {
    spec_minus_painted(minus, plus, config, syn, 0) + spec_plus_painted(
        minus,
        plus,
        config,
        syn,
        0,
    )
}

/// The painter's model after a flush: both buffers empty, the painted block
/// appended to the total.
pub open spec fn spec_flushed(m: PainterModel, config: Config) -> PainterModel {
    PainterModel {
        minus_lines: Seq::empty(),
        plus_lines: Seq::empty(),
        total: m.total + spec_paint_buffered(
            m.minus_lines,
            m.plus_lines,
            config,
            spec_syn_color(m.syntax, config),
        ),
        ..m
    }
}

proof fn lemma_minus_painted_step(
    minus: Seq<Seq<char>>,
    plus: Seq<Seq<char>>,
    config: Config,
    syn: Option<u8>,
    i: int,
)
    requires
        0 <= i < minus.len(),
    ensures
        spec_minus_painted(minus, plus, config, syn, i) == spec_minus_line_painted(
            minus,
            plus,
            config,
            syn,
            i,
        ) + seq!['\n'] + spec_minus_painted(minus, plus, config, syn, i + 1),
{
}

proof fn lemma_plus_painted_step(
    minus: Seq<Seq<char>>,
    plus: Seq<Seq<char>>,
    config: Config,
    syn: Option<u8>,
    i: int,
)
    requires
        0 <= i < plus.len(),
    ensures
        spec_plus_painted(minus, plus, config, syn, i) == spec_plus_line_painted(
            minus,
            plus,
            config,
            syn,
            i,
        ) + seq!['\n'] + spec_plus_painted(minus, plus, config, syn, i + 1),
{
}

} // verus!
