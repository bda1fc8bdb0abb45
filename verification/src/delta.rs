//! The streaming line classifier and its driver: consumes one raw line at a
//! time, keeps the region state and the detected source format, buffers hunk
//! lines through the painter, and renders headers through the decoration
//! renderer.

use vstd::prelude::*;

use crate::ansi::ansi_stripped_of;
use crate::ansi::paint_seg;
use crate::ansi::painted_seg;
use crate::ansi::strip_ansi_codes;
use crate::config::Config;
use crate::draw::draw_decorated;
use crate::draw::spec_draw;
use crate::paint::Painter;
use crate::paint::PainterModel;
use crate::paint::paint_line_text;
use crate::paint::spec_flushed;
use crate::paint::spec_painted_text;
use crate::paint::spec_restore_marker;
use crate::paint::spec_strip_nl;
use crate::paint::spec_syn_color;
use crate::paint::strip_newline;
use crate::parse::get_file_change_description_from_file_paths;
use crate::parse::get_file_extension_from_file_meta_line_file_path;
use crate::parse::get_file_extension_from_marker_line;
use crate::parse::get_file_path_from_file_meta_line;
use crate::parse::parse_hunk_metadata;
use crate::parse::spec_change_description;
use crate::parse::spec_file_extension;
use crate::parse::spec_file_path;
use crate::parse::spec_hunk_metadata;
use crate::segment::graphemes_of;
use crate::segment::split_graphemes;
use crate::strings::char_run;
use crate::strings::has_prefix;
use crate::strings::opt_view;
use crate::strings::repeat_char;
use crate::strings::starts_with;
use crate::style::Style;

verus! {

/// The region of the diff the classifier is currently in.
#[derive(Clone, Copy, Debug, PartialEq, Eq, Structural)]
pub enum State {
    CommitMeta,
    FileMeta,
    HunkHeader,
    HunkZero,
    HunkMinus,
    HunkPlus,
    Unknown,
}

/// What produced the input: a commit-oriented diff tool or a generic
/// unified-diff tool. Frozen at the first line that settles it.
#[derive(Clone, Copy, Debug, PartialEq, Eq, Structural)]
pub enum Source {
    GitDiff,
    DiffUnified,
    Unknown,
}

impl State {
    /// Whether the state is one of the four hunk states.
    pub open spec fn spec_is_in_hunk(self) -> bool {
        self is HunkHeader || self is HunkZero || self is HunkMinus || self is HunkPlus
    }

    /// Whether the state is one of the four hunk states.
    pub fn is_in_hunk(&self) -> (r: bool)
        ensures
            r == self.spec_is_in_hunk(),
    {
        match self {
            State::HunkHeader | State::HunkZero | State::HunkMinus | State::HunkPlus => true,
            _ => false,
        }
    }
}

/// The style record that governs a region state: the three header regions
/// carry configured styles; the remaining states have none.
pub open spec fn spec_get_style(config: Config, state: State) -> Style {
    match state {
        State::CommitMeta => config.commit_style,
        State::FileMeta => config.file_style,
        State::HunkHeader => config.hunk_header_style,
        _ => Style::spec_plain(),
    }
}

/// The style record that governs a region state.
pub fn get_style(config: &Config, state: &State) -> (r: Style)
    ensures
        r == spec_get_style(*config, *state),
{
    match state {
        State::CommitMeta => config.commit_style,
        State::FileMeta => config.file_style,
        State::HunkHeader => config.hunk_header_style,
        _ => Style::plain(),
    }
}

/// A region is handled unless its style is raw with no decoration; in that
/// case its lines are passed through verbatim.
pub open spec fn spec_should_handle(config: Config, state: State) -> bool {
    let style = spec_get_style(config, state);
    !(style.is_raw && style.decoration_style is NoDecoration)
}

/// Should a handler be called for this region state?
pub fn should_handle(state: &State, config: &Config) -> (r: bool)
    ensures
        r == spec_should_handle(*config, *state),
{
    let style = get_style(config, state);
    let no_deco = match style.decoration_style {
        crate::style::DecorationStyle::NoDecoration => true,
        _ => false,
    };
    !(style.is_raw && no_deco)
}

/// What a line says about the input's origin: a commit block or a
/// commit-style file header means the commit-oriented format; a unified-diff
/// invocation or a bare `---` marker means the unified format.
pub open spec fn spec_detect_source(line: Seq<char>) -> Source {
    if has_prefix(line, "commit "@) || has_prefix(line, "diff --git "@) {
        Source::GitDiff
    } else if has_prefix(line, "diff -u "@) || has_prefix(line, "diff -U"@) || has_prefix(
        line,
        "--- "@,
    ) {
        Source::DiffUnified
    } else {
        Source::Unknown
    }
}

/// Try to detect what is producing the input.
pub fn detect_source(line: &str) -> (r: Source)
    ensures
        r == spec_detect_source(line@),
{
    if starts_with(line, "commit ") || starts_with(line, "diff --git ") {
        Source::GitDiff
    } else if starts_with(line, "diff -u ") || starts_with(line, "diff -U") || starts_with(
        line,
        "--- ",
    ) {
        Source::DiffUnified
    } else {
        Source::Unknown
    }
}

/// Grapheme clusters concatenated, a tab cluster replaced by that many
/// spaces; a tab width of zero leaves tabs alone.
pub open spec fn spec_expand_tabs(gs: Seq<Seq<char>>, tab: int) -> Seq<char>
    decreases gs.len(),
{
    if gs.len() == 0 {
        Seq::empty()
    } else {
        (if tab > 0 && gs[0] == seq!['\t'] {
            char_run(' ', tab)
        } else {
            gs[0]
        }) + spec_expand_tabs(gs.skip(1), tab)
    }
}

/// Expand tab clusters from position `start` on.
fn expand_tabs_from(graphemes: &Vec<String>, start: usize, tab_width: usize) -> (r: String)
    requires
        start <= graphemes.len(),
    ensures
        r@ == spec_expand_tabs(graphemes.deep_view().skip(start as int), tab_width as int),
{
    let ghost dv = graphemes.deep_view();
    let mut out = String::new();
    let mut i: usize = start;
    proof {
        assert(dv.len() == graphemes@.len());
    }
    while i < graphemes.len()
        invariant
            start <= i <= graphemes.len(),
            dv == graphemes.deep_view(),
            dv.len() == graphemes@.len(),
            out@ + spec_expand_tabs(dv.skip(i as int), tab_width as int) == spec_expand_tabs(
                dv.skip(start as int),
                tab_width as int,
            ),
        decreases graphemes.len() - i,
    {
        let g = &graphemes[i];
        proof {
            reveal_strlit("\t");
            assert("\t"@ =~= seq!['\t']);
            assert(dv.skip(i as int)[0] == dv[i as int]);
            assert(dv.skip(i as int).skip(1) =~= dv.skip(i as int + 1));
            assert(dv[i as int] == graphemes@[i as int]@);
        }
        if tab_width > 0 && crate::strings::str_eq(g.as_str(), "\t") {
            let spaces = repeat_char(' ', tab_width);
            out.append(spaces.as_str());
        } else {
            out.append(g.as_str());
        }
        i += 1;
    }
    proof {
        assert(spec_expand_tabs(dv.skip(graphemes@.len() as int), tab_width as int)
            =~= Seq::<char>::empty());
    }
    assert(out@ =~= spec_expand_tabs(dv.skip(start as int), tab_width as int));
    out
}

/// Expand tabs as spaces; a tab width of zero means tabs are kept.
pub fn expand_tabs(graphemes: &Vec<String>, tab_width: usize) -> (r: String)
    ensures
        r@ == spec_expand_tabs(graphemes.deep_view(), tab_width as int),
{
    let r = expand_tabs_from(graphemes, 0, tab_width);
    proof {
        assert(graphemes.deep_view().skip(0) =~= graphemes.deep_view());
    }
    r
}

/// A hunk line prepared for buffering: the change-marker column replaced by
/// a space, tabs expanded, and optionally a newline appended. An empty line
/// keeps only the terminator.
pub open spec fn spec_prepare(line: Seq<char>, append_newline: bool, tab: int) -> Seq<char> {
    let terminator: Seq<char> = if append_newline {
        seq!['\n']
    } else {
        Seq::empty()
    };
    if line.len() == 0 {
        terminator
    } else {
        seq![' '] + spec_expand_tabs(graphemes_of(line).skip(1), tab) + terminator
    }
}

/// Replace the leading change marker with a space, expand tabs, and
/// optionally terminate with a newline.
pub fn prepare(line: &str, append_newline: bool, config: &Config) -> (r: String)
    ensures
        r@ == spec_prepare(line@, append_newline, config.tab_width as int),
{
    let mut out = String::new();
    if line.unicode_len() != 0 {
        let graphemes = split_graphemes(line);
        out.push(' ');
        if graphemes.len() >= 1 {
            let expanded = expand_tabs_from(&graphemes, 1, config.tab_width);
            out.append(expanded.as_str());
        } else {
            proof {
                assert(graphemes_of(line@).skip(1) =~= Seq::<Seq<char>>::empty());
            }
        }
    }
    if append_newline {
        out.push('\n');
    }
    assert(out@ =~= spec_prepare(line@, append_newline, config.tab_width as int));
    out
}

/// A painter model with text appended to its total.
pub open spec fn spec_add_total(pm: PainterModel, t: Seq<char>) -> PainterModel {
    PainterModel { total: pm.total + t, ..pm }
}

/// Text padded with the box's interior margin where the decoration is a box.
pub open spec fn spec_pad(text: Seq<char>, style: Style) -> Seq<char> {
    if style.decoration_style.spec_is_box() {
        text + " "@
    } else {
        text
    }
}

/// What the commit header handler renders: nothing when omitted, else the
/// decorated commit line.
pub open spec fn spec_commit_rendered(line: Seq<char>, raw: Seq<char>, config: Config) -> Seq<
    char,
> {
    let st = config.commit_style;
    if st.is_omitted {
        Seq::empty()
    } else {
        spec_draw(spec_pad(line, st), spec_pad(raw, st), st, None, config.decorations_width)
    }
}

/// What a generic file-meta header renders: nothing when omitted, else a
/// blank line and the decorated text.
pub open spec fn spec_generic_header_rendered(
    line: Seq<char>,
    raw: Seq<char>,
    config: Config,
) -> Seq<char> {
    let st = config.file_style;
    if st.is_omitted {
        Seq::empty()
    } else {
        seq!['\n'] + spec_draw(
            spec_pad(line, st),
            spec_pad(raw, st),
            st,
            None,
            config.decorations_width,
        )
    }
}

/// What the file header renders: the change description built from the two
/// paths, through the generic header renderer.
pub open spec fn spec_file_header_rendered(
    minus_file: Seq<char>,
    plus_file: Seq<char>,
    comparing: bool,
    config: Config,
) -> Seq<char> {
    let line = spec_change_description(minus_file, plus_file, comparing);
    spec_generic_header_rendered(line, line, config)
}

/// What the hunk header handler renders: nothing when omitted; under a raw
/// style the decorated raw line; otherwise the prepared code fragment,
/// decorated and syntax-highlighted, skipped entirely when empty; and in
/// both cases the line number after it, painted in the decoration's style
/// where there is one.
pub open spec fn spec_hunk_header_rendered(
    line: Seq<char>,
    raw: Seq<char>,
    config: Config,
    syn: Option<u8>,
) -> Seq<char> {
    let st = config.hunk_header_style;
    if st.is_omitted {
        Seq::empty()
    } else {
        let num = spec_hunk_metadata(line).1;
        let num_part: Seq<char> = match st.decoration_style.spec_ansi() {
            Some(d) => painted_seg(d.fg, d.bg, num),
            None => num,
        };
        spec_hunk_header_part1(line, raw, config, syn) + num_part + seq!['\n']
    }
}

/// What a context (unchanged) hunk line renders: the prepared line painted
/// in the zero style with the syntax color underneath.
pub open spec fn spec_zero_rendered(line: Seq<char>, config: Config, syn: Option<u8>) -> Seq<
    char,
> {
    let body = spec_strip_nl(spec_prepare(line, true, config.tab_width as int));
    spec_painted_text(
        spec_restore_marker(body, ' ', config.keep_markers),
        config.zero_style,
        config.zero_style,
        body.len() as int,
        body.len() as int,
        syn,
    ) + seq!['\n']
}

/// Render the commit line, decorated per the commit style. Omitted styles
/// render nothing. The driver emits the pending buffer before any header is
/// rendered, so the handler starts from an empty buffer.
pub fn handle_commit_meta_header_line(
    painter: &mut Painter,
    line: &str,
    raw_line: &str,
    config: &Config,
)
    requires
        old(painter).output_buffer@ == Seq::<char>::empty(),
    ensures
        final(painter).model() == spec_add_total(
            old(painter).model(),
            spec_commit_rendered(line@, raw_line@, *config),
        ),
        final(painter).output_buffer@ == Seq::<char>::empty(),
{
    if config.commit_style.is_omitted {
        assert(final(painter).model() =~= spec_add_total(
            old(painter).model(),
            spec_commit_rendered(line@, raw_line@, *config),
        ));
        return ;
    }
    let pad = config.commit_style.decoration_style.is_box();
    let mut text = line.to_owned();
    let mut rawp = raw_line.to_owned();
    if pad {
        text.push(' ');
        rawp.push(' ');
    }
    proof {
        reveal_strlit(" ");
        assert(text@ =~= spec_pad(line@, config.commit_style));
        assert(rawp@ =~= spec_pad(raw_line@, config.commit_style));
    }
    draw_decorated(
        &mut painter.output,
        text.as_str(),
        rawp.as_str(),
        &config.commit_style,
        None,
        config.decorations_width,
    );
    assert(final(painter).model() =~= spec_add_total(
        old(painter).model(),
        spec_commit_rendered(line@, raw_line@, *config),
    ));
}

/// Render `line` with file-meta styling: a blank separator line, then the
/// decorated text. Omitted styles render nothing. As with every header
/// handler, the pending buffer has been emitted first.
pub fn handle_generic_file_meta_header_line(
    painter: &mut Painter,
    line: &str,
    raw_line: &str,
    config: &Config,
)
    requires
        old(painter).output_buffer@ == Seq::<char>::empty(),
    ensures
        final(painter).model() == spec_add_total(
            old(painter).model(),
            spec_generic_header_rendered(line@, raw_line@, *config),
        ),
        final(painter).output_buffer@ == Seq::<char>::empty(),
{
    if config.file_style.is_omitted {
        assert(final(painter).model() =~= spec_add_total(
            old(painter).model(),
            spec_generic_header_rendered(line@, raw_line@, *config),
        ));
        return ;
    }
    let pad = config.file_style.decoration_style.is_box();
    let mut text = line.to_owned();
    let mut rawp = raw_line.to_owned();
    if pad {
        text.push(' ');
        rawp.push(' ');
    }
    proof {
        reveal_strlit(" ");
        assert(text@ =~= spec_pad(line@, config.file_style));
        assert(rawp@ =~= spec_pad(raw_line@, config.file_style));
    }
    painter.output.push('\n');
    draw_decorated(
        &mut painter.output,
        text.as_str(),
        rawp.as_str(),
        &config.file_style,
        None,
        config.decorations_width,
    );
    assert(final(painter).model() =~= spec_add_total(
        old(painter).model(),
        spec_generic_header_rendered(line@, raw_line@, *config),
    ));
}

/// Construct the file change description from the two paths and render it
/// with file-meta styling.
pub fn handle_file_meta_header_line(
    painter: &mut Painter,
    minus_file: &str,
    plus_file: &str,
    config: &Config,
    comparing: bool,
)
    requires
        old(painter).output_buffer@ == Seq::<char>::empty(),
    ensures
        final(painter).model() == spec_add_total(
            old(painter).model(),
            spec_file_header_rendered(minus_file@, plus_file@, comparing, *config),
        ),
        final(painter).output_buffer@ == Seq::<char>::empty(),
{
    let line = get_file_change_description_from_file_paths(minus_file, plus_file, comparing);
    handle_generic_file_meta_header_line(painter, line.as_str(), line.as_str(), config);
}

/// Render the hunk header: the decorated raw line under a raw style, else
/// the syntax-highlighted code fragment, then the line number. As with every
/// header handler, the pending buffer has been emitted first.
pub fn handle_hunk_header_line(painter: &mut Painter, line: &str, raw_line: &str, config: &Config)
    requires
        old(painter).output_buffer@ == Seq::<char>::empty(),
    ensures
        final(painter).model() == spec_add_total(
            old(painter).model(),
            spec_hunk_header_rendered(
                line@,
                raw_line@,
                *config,
                spec_syn_color(opt_view(old(painter).syntax), *config),
            ),
        ),
        final(painter).output_buffer@ == Seq::<char>::empty(),
{
    let ghost syn0 = spec_syn_color(opt_view(old(painter).syntax), *config);
    if config.hunk_header_style.is_omitted {
        assert(final(painter).model() =~= spec_add_total(
            old(painter).model(),
            spec_hunk_header_rendered(line@, raw_line@, *config, syn0),
        ));
        return ;
    }
    let frag_num = parse_hunk_metadata(line);
    let syn = painter.syn_color(config);
    let ghost out0 = old(painter).output@;
    let ghost st = config.hunk_header_style;
    let ghost part1 = spec_hunk_header_part1(line@, raw_line@, *config, syn0);
    if config.hunk_header_style.is_raw {
        let mut text = line.to_owned();
        text.push(' ');
        let mut rawp = raw_line.to_owned();
        rawp.push(' ');
        proof {
            reveal_strlit(" ");
            assert(text@ =~= line@ + " "@);
            assert(rawp@ =~= raw_line@ + " "@);
        }
        painter.output.push('\n');
        draw_decorated(
            &mut painter.output,
            text.as_str(),
            rawp.as_str(),
            &config.hunk_header_style,
            None,
            config.decorations_width,
        );
        proof {
            assert(painter.output@ =~= out0 + part1);
        }
    } else {
        let prepared = prepare(frag_num.0.as_str(), false, config);
        let mut l2 = prepared;
        if l2.unicode_len() > 0 {
            l2.push(' ');
        }
        proof {
            reveal_strlit(" ");
            let prep = spec_prepare(frag_num.0@, false, config.tab_width as int);
            if prep.len() > 0 {
                assert(l2@ =~= prep + " "@);
            } else {
                assert(l2@ =~= prep);
            }
        }
        painter.output.push('\n');
        if l2.unicode_len() > 0 {
            draw_decorated(
                &mut painter.output,
                l2.as_str(),
                l2.as_str(),
                &config.hunk_header_style,
                syn,
                config.decorations_width,
            );
        }
        proof {
            assert(painter.output@ =~= out0 + part1);
        }
    }
    match config.hunk_header_style.decoration_style.ansi() {
        Some(d) => {
            let seg = paint_seg(d.fg, d.bg, frag_num.1.as_str());
            painter.output.append(seg.as_str());
        },
        None => {
            painter.output.append(frag_num.1.as_str());
        },
    }
    painter.output.push('\n');
    proof {
        assert(painter.output@ =~= out0 + spec_hunk_header_rendered(
            line@,
            raw_line@,
            *config,
            syn0,
        ));
        assert(final(painter).model() =~= spec_add_total(
            old(painter).model(),
            spec_hunk_header_rendered(line@, raw_line@, *config, syn0),
        ));
    }
}

/// The first part of the rendered hunk header: the blank separator and the
/// decorated raw line or code fragment, without the line number.
pub open spec fn spec_hunk_header_part1(
    line: Seq<char>,
    raw: Seq<char>,
    config: Config,
    syn: Option<u8>,
) -> Seq<char> {
    let st = config.hunk_header_style;
    if st.is_raw {
        seq!['\n'] + spec_draw(line + " "@, raw + " "@, st, None, config.decorations_width)
    } else {
        let prepared = spec_prepare(line_frag(line), false, config.tab_width as int);
        let l2: Seq<char> = if prepared.len() > 0 {
            prepared + " "@
        } else {
            prepared
        };
        seq!['\n'] + if l2.len() > 0 {
            spec_draw(l2, l2, st, syn, config.decorations_width)
        } else {
            Seq::empty()
        }
    }
}

/// The code fragment of a hunk header line.
pub open spec fn line_frag(line: Seq<char>) -> Seq<char> {
    spec_hunk_metadata(line).0
}

/// The painter and state after one hunk line. A full buffer flushes first;
/// a removed line after added lines closes the block and flushes; a context
/// line flushes and is painted at once; a line with no marker flushes and is
/// passed through with tabs expanded.
pub open spec fn spec_hunk_line(
    pm: PainterModel,
    state: State,
    line: Seq<char>,
    raw: Seq<char>,
    config: Config,
) -> (PainterModel, State) {
    let syn = spec_syn_color(pm.syntax, config);
    let pm1 = if pm.minus_lines.len() > config.max_buffered_lines || pm.plus_lines.len()
        > config.max_buffered_lines {
        spec_flushed(pm, config)
    } else {
        pm
    };
    if line.len() > 0 && line[0] == '-' {
        let pm2 = if state is HunkPlus {
            spec_flushed(pm1, config)
        } else {
            pm1
        };
        (
            PainterModel {
                minus_lines: pm2.minus_lines.push(
                    spec_prepare(line, true, config.tab_width as int),
                ),
                ..pm2
            },
            State::HunkMinus,
        )
    } else if line.len() > 0 && line[0] == '+' {
        (
            PainterModel {
                plus_lines: pm1.plus_lines.push(
                    spec_prepare(line, true, config.tab_width as int),
                ),
                ..pm1
            },
            State::HunkPlus,
        )
    } else if line.len() > 0 && line[0] == ' ' {
        let pm2 = spec_flushed(pm1, config);
        (spec_add_total(pm2, spec_zero_rendered(line, config, syn)), State::HunkZero)
    } else {
        let pm2 = spec_flushed(pm1, config);
        (
            spec_add_total(
                pm2,
                spec_expand_tabs(graphemes_of(raw), config.tab_width as int) + seq!['\n'],
            ),
            State::HunkZero,
        )
    }
}

/// Handle a hunk line: buffer a removed or added line, paint a context line
/// at once, and flush at block boundaries and on overflow.
#[verifier::rlimit(60)]
pub fn handle_hunk_line(
    painter: &mut Painter,
    line: &str,
    raw_line: &str,
    state: State,
    config: &Config,
) -> (new_state: State)
    ensures
        final(painter).model() == spec_hunk_line(
            old(painter).model(),
            state,
            line@,
            raw_line@,
            *config,
        ).0,
        new_state == spec_hunk_line(old(painter).model(), state, line@, raw_line@, *config).1,
{
    let ghost pm0 = old(painter).model();
    if painter.minus_lines.len() > config.max_buffered_lines || painter.plus_lines.len()
        > config.max_buffered_lines {
        painter.paint_buffered_lines(config);
    }
    let n = line.unicode_len();
    if n > 0 && line.get_char(0) == '-' {
        if state == State::HunkPlus {
            painter.paint_buffered_lines(config);
        }
        let prepared = prepare(line, true, config);
        painter.minus_lines.push(prepared);
        proof {
            let target = spec_hunk_line(pm0, state, line@, raw_line@, *config).0;
            assert(final(painter).model().syntax == target.syntax);
            assert(final(painter).model().minus_lines =~~= target.minus_lines);
            assert(final(painter).model().plus_lines =~~= target.plus_lines);
            assert(final(painter).model().total =~= target.total);
            assert(final(painter).model() =~~= target);
        }
        State::HunkMinus
    } else if n > 0 && line.get_char(0) == '+' {
        let prepared = prepare(line, true, config);
        painter.plus_lines.push(prepared);
        proof {
            let target = spec_hunk_line(pm0, state, line@, raw_line@, *config).0;
            assert(final(painter).model().syntax == target.syntax);
            assert(final(painter).model().minus_lines =~~= target.minus_lines);
            assert(final(painter).model().plus_lines =~~= target.plus_lines);
            assert(final(painter).model().total =~= target.total);
            assert(final(painter).model() =~~= target);
        }
        State::HunkPlus
    } else if n > 0 && line.get_char(0) == ' ' {
        painter.paint_buffered_lines(config);
        let syn = painter.syn_color(config);
        let prepared = prepare(line, true, config);
        let body = strip_newline(prepared.as_str());
        let nb = body.unicode_len();
        let seg = paint_line_text(
            body,
            config.zero_style,
            config.zero_style,
            nb,
            nb,
            syn,
            ' ',
            config.keep_markers,
        );
        painter.output_buffer.append(seg.as_str());
        painter.output_buffer.push('\n');
        proof {
            let target = spec_hunk_line(pm0, state, line@, raw_line@, *config).0;
            assert(final(painter).model().syntax == target.syntax);
            assert(final(painter).model().minus_lines =~~= target.minus_lines);
            assert(final(painter).model().plus_lines =~~= target.plus_lines);
            assert(final(painter).model().total =~= target.total);
            assert(final(painter).model() =~~= target);
        }
        State::HunkZero
    } else {
        painter.paint_buffered_lines(config);
        let graphemes = split_graphemes(raw_line);
        let expanded = expand_tabs(&graphemes, config.tab_width);
        painter.output_buffer.append(expanded.as_str());
        painter.output_buffer.push('\n');
        proof {
            let target = spec_hunk_line(pm0, state, line@, raw_line@, *config).0;
            assert(final(painter).model().syntax == target.syntax);
            assert(final(painter).model().minus_lines =~~= target.minus_lines);
            assert(final(painter).model().plus_lines =~~= target.plus_lines);
            assert(final(painter).model().total =~= target.total);
            assert(final(painter).model() =~~= target);
        }
        State::HunkZero
    }
}


/// The classifier and painter as one machine: the region state, the frozen
/// source format, the captured old-side file path, and the painter.
#[verifier::ext_equal]
pub struct MachineSpec {
    pub state: State,
    pub source: Source,
    pub minus_file: Seq<char>,
    pub painter: PainterModel,
}

/// The machine at the start of a stream: everything unknown and empty.
pub open spec fn spec_machine_init() -> MachineSpec {
    MachineSpec {
        state: State::Unknown,
        source: Source::Unknown,
        minus_file: Seq::empty(),
        painter: PainterModel {
            syntax: None,
            minus_lines: Seq::empty(),
            plus_lines: Seq::empty(),
            total: Seq::empty(),
        },
    }
}

/// The machine with its hunk-line buffers flushed.
pub open spec fn spec_flush_machine(m: MachineSpec, config: Config) -> MachineSpec {
    MachineSpec { painter: spec_flushed(m.painter, config), ..m }
}

/// The machine with text appended to its output.
pub open spec fn spec_add_machine(m: MachineSpec, t: Seq<char>) -> MachineSpec {
    MachineSpec { painter: spec_add_total(m.painter, t), ..m }
}

/// The shared tail of a step: a line that ends in a handled file-meta region
/// is dropped (the raw metadata block is not shown); any other line that no
/// handler consumed is passed through verbatim.
pub open spec fn spec_bottom(m: MachineSpec, raw: Seq<char>, config: Config) -> MachineSpec {
    if m.state is FileMeta && spec_should_handle(config, State::FileMeta) {
        m
    } else {
        spec_add_machine(m, raw + seq!['\n'])
    }
}

/// One step of the classifier on the ANSI-stripped line and its raw
/// original: the source format is settled first, then the line is matched
/// against the structural prefixes in order, falling back to the hunk-line
/// handler inside a hunk and to passthrough outside one.
pub open spec fn spec_step(
    m0: MachineSpec,
    line: Seq<char>,
    raw: Seq<char>,
    config: Config,
) -> MachineSpec {
    let src = if m0.source is Unknown {
        spec_detect_source(line)
    } else {
        m0.source
    };
    let m = MachineSpec { source: src, ..m0 };
    if has_prefix(line, "commit "@) {
        let m1 = MachineSpec { state: State::CommitMeta, ..spec_flush_machine(m, config) };
        if spec_should_handle(config, State::CommitMeta) {
            spec_add_machine(m1, spec_commit_rendered(line, raw, config))
        } else {
            spec_bottom(m1, raw, config)
        }
    } else if has_prefix(line, "diff "@) {
        spec_bottom(
            MachineSpec { state: State::FileMeta, ..spec_flush_machine(m, config) },
            raw,
            config,
        )
    } else if (m.state is FileMeta || src is DiffUnified) && (has_prefix(line, "--- "@)
        || has_prefix(line, "rename from "@)) && spec_should_handle(config, State::FileMeta) {
        let mf = spec_file_path(line, src is GitDiff);
        let m1 = MachineSpec {
            state: State::FileMeta,
            minus_file: mf,
            painter: PainterModel { syntax: spec_file_extension(mf), ..m.painter },
            ..m
        };
        spec_bottom(m1, raw, config)
    } else if (has_prefix(line, "+++ "@) || has_prefix(line, "rename to "@))
        && spec_should_handle(config, State::FileMeta) {
        let pf = spec_file_path(line, src is GitDiff);
        let m1 = MachineSpec {
            painter: PainterModel { syntax: spec_file_extension(pf), ..m.painter },
            ..m
        };
        let m2 = spec_add_machine(
            m1,
            spec_file_header_rendered(m1.minus_file, pf, src is DiffUnified, config),
        );
        spec_bottom(m2, raw, config)
    } else if has_prefix(line, "@@"@) {
        let m1 = MachineSpec { state: State::HunkHeader, ..m };
        if spec_should_handle(config, State::HunkHeader) {
            spec_add_machine(
                m1,
                spec_hunk_header_rendered(
                    line,
                    raw,
                    config,
                    spec_syn_color(m1.painter.syntax, config),
                ),
            )
        } else {
            spec_bottom(m1, raw, config)
        }
    } else if (src is DiffUnified && has_prefix(line, "Only in "@)) || has_prefix(
        line,
        "Submodule "@,
    ) || has_prefix(line, "Binary files "@) {
        let m1 = spec_flush_machine(MachineSpec { state: State::FileMeta, ..m }, config);
        if spec_should_handle(config, State::FileMeta) {
            spec_add_machine(m1, spec_generic_header_rendered(line, raw, config))
        } else {
            spec_bottom(m1, raw, config)
        }
    } else if m.state.spec_is_in_hunk() {
        let res = spec_hunk_line(m.painter, m.state, line, raw, config);
        MachineSpec { state: res.1, painter: res.0, ..m }
    } else {
        spec_bottom(m, raw, config)
    }
}

/// Feed one raw line to the classifier: strip its ANSI coloring, settle the
/// source format, dispatch on the structural prefixes, and return the new
/// region state, source, and old-side file path.
#[verifier::rlimit(100)]
pub fn process_line(
    painter: &mut Painter,
    state: State,
    source: Source,
    minus_file: String,
    raw_line: &str,
    config: &Config,
) -> (r: (State, Source, String))
    ensures
        ({
            let m0 = MachineSpec {
                state: state,
                source: source,
                minus_file: minus_file@,
                painter: old(painter).model(),
            };
            spec_step(m0, ansi_stripped_of(raw_line@), raw_line@, *config) == MachineSpec {
                state: r.0,
                source: r.1,
                minus_file: r.2@,
                painter: final(painter).model(),
            }
        }),
{
    let ghost m0 = MachineSpec {
        state: state,
        source: source,
        minus_file: minus_file@,
        painter: old(painter).model(),
    };
    let stripped = strip_ansi_codes(raw_line);
    let line = stripped.as_str();
    let ghost target = spec_step(m0, line@, raw_line@, *config);
    let mut state = state;
    let mut source = source;
    let mut minus_file = minus_file;
    if source == Source::Unknown {
        source = detect_source(line);
    }
    if starts_with(line, "commit ") {
        painter.paint_buffered_lines(config);
        state = State::CommitMeta;
        if should_handle(&state, config) {
            painter.emit();
            handle_commit_meta_header_line(painter, line, raw_line, config);
            proof {
                assert(target.painter =~~= final(painter).model());
            }
            return (state, source, minus_file);
        }
    } else if starts_with(line, "diff ") {
        painter.paint_buffered_lines(config);
        state = State::FileMeta;
    } else if (state == State::FileMeta || source == Source::DiffUnified) && (starts_with(
        line,
        "--- ",
    ) || starts_with(line, "rename from ")) && should_handle(&State::FileMeta, config) {
        minus_file = get_file_path_from_file_meta_line(line, source == Source::GitDiff);
        state = State::FileMeta;
        if source == Source::DiffUnified {
            painter.set_syntax(get_file_extension_from_marker_line(line));
        } else {
            painter.set_syntax(
                get_file_extension_from_file_meta_line_file_path(minus_file.as_str()),
            );
        }
    } else if (starts_with(line, "+++ ") || starts_with(line, "rename to ")) && should_handle(
        &State::FileMeta,
        config,
    ) {
        let plus_file = get_file_path_from_file_meta_line(line, source == Source::GitDiff);
        painter.set_syntax(get_file_extension_from_file_meta_line_file_path(plus_file.as_str()));
        painter.emit();
        handle_file_meta_header_line(
            painter,
            minus_file.as_str(),
            plus_file.as_str(),
            config,
            source == Source::DiffUnified,
        );
    } else if starts_with(line, "@@") {
        state = State::HunkHeader;
        painter.set_highlighter();
        if should_handle(&state, config) {
            painter.emit();
            handle_hunk_header_line(painter, line, raw_line, config);
            proof {
                assert(target.painter =~~= final(painter).model());
            }
            return (state, source, minus_file);
        }
    } else if (source == Source::DiffUnified && starts_with(line, "Only in ")) || starts_with(
        line,
        "Submodule ",
    ) || starts_with(line, "Binary files ") {
        state = State::FileMeta;
        painter.paint_buffered_lines(config);
        if should_handle(&State::FileMeta, config) {
            painter.emit();
            handle_generic_file_meta_header_line(painter, line, raw_line, config);
            proof {
                assert(target.painter =~~= final(painter).model());
            }
            return (state, source, minus_file);
        }
    } else if state.is_in_hunk() {
        state = handle_hunk_line(painter, line, raw_line, state, config);
        painter.emit();
        proof {
            assert(target.painter =~~= final(painter).model());
        }
        return (state, source, minus_file);
    }
    if state == State::FileMeta && should_handle(&State::FileMeta, config) {
        proof {
            assert(target.painter =~~= final(painter).model());
        }
        return (state, source, minus_file);
    }
    painter.emit();
    painter.output.append(raw_line);
    painter.output.push('\n');
    proof {
        assert(target.painter =~~= final(painter).model());
    }
    (state, source, minus_file)
}

/// The machine after the whole input has been fed through, line by line.
pub open spec fn spec_run(lines: Seq<Seq<char>>, config: Config) -> MachineSpec
    decreases lines.len(),
{
    if lines.len() == 0 {
        spec_machine_init()
    } else {
        spec_step(
            spec_run(lines.drop_last(), config),
            ansi_stripped_of(lines.last()),
            lines.last(),
            config,
        )
    }
}

/// Everything the renderer writes for the given input lines: the run of the
/// classifier over them, with a final unconditional flush so no buffered
/// content is lost at end of stream.
pub open spec fn spec_delta(lines: Seq<Seq<char>>, config: Config) -> Seq<char> {
    spec_flushed(spec_run(lines, config).painter, config).total
}

/// Render a diff stream: classify each line, buffer and pair hunk lines,
/// decorate headers, and return the full styled output.
pub fn delta(lines: &Vec<String>, config: &Config) -> (r: String)
    ensures
        r@ == spec_delta(lines.deep_view(), *config),
{
    let ghost dv = lines.deep_view();
    let mut painter = Painter::new();
    let mut state = State::Unknown;
    let mut source = Source::Unknown;
    let mut minus_file = String::new();
    let mut idx: usize = 0;
    proof {
        assert(dv.take(0) =~= Seq::<Seq<char>>::empty());
        assert(spec_run(dv.take(0), *config) =~~= MachineSpec {
            state: state,
            source: source,
            minus_file: minus_file@,
            painter: painter.model(),
        });
    }
    while idx < lines.len()
        invariant
            0 <= idx <= lines.len(),
            dv == lines.deep_view(),
            dv.len() == lines@.len(),
            spec_run(dv.take(idx as int), *config) == (MachineSpec {
                state: state,
                source: source,
                minus_file: minus_file@,
                painter: painter.model(),
            }),
        decreases lines.len() - idx,
    {
        let raw_line = &lines[idx];
        proof {
            assert(dv.take(idx as int + 1).drop_last() =~= dv.take(idx as int));
            assert(dv.take(idx as int + 1).last() == dv[idx as int]);
            assert(dv[idx as int] == lines@[idx as int]@);
        }
        let res = process_line(&mut painter, state, source, minus_file, raw_line.as_str(), config);
        state = res.0;
        source = res.1;
        minus_file = res.2;
        idx += 1;
    }
    proof {
        assert(dv.take(lines@.len() as int) =~= dv);
    }
    painter.paint_buffered_lines(config);
    painter.emit();
    painter.output
}

} // verus!
