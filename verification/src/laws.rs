//! Laws of the classifier and the pairing protocol, proved over the step
//! function and the flush specification.

use vstd::prelude::*;

use crate::ansi::painted_seg;
use crate::config::Config;
use crate::delta::MachineSpec;
use crate::delta::State;
use crate::delta::spec_run;
use crate::delta::spec_should_handle;
use crate::delta::spec_step;
use crate::paint::PainterModel;
use crate::paint::spec_fg_or;
use crate::paint::spec_minus_line_painted;
use crate::paint::spec_painted_text;
use crate::paint::spec_plus_line_painted;
use crate::paint::spec_prefix_len;
use crate::paint::spec_restore_marker;
use crate::paint::spec_strip_nl;
use crate::paint::spec_suffix_len;
use crate::strings::has_prefix;
use crate::style::AnsiStyle;

verus! {

/// Passthrough: outside any hunk, a line that matches no structural prefix
/// is emitted verbatim — the raw line followed by a newline — and the region
/// state, the hunk-line buffers and the captured file path are untouched.
/// The one exception is a handled file-meta region, whose unrecognized raw
/// metadata lines are deliberately dropped; that case is excluded here.
pub proof fn lemma_passthrough(m: MachineSpec, line: Seq<char>, raw: Seq<char>, config: Config)
    requires
        !m.state.spec_is_in_hunk(),
        !(m.state is FileMeta && spec_should_handle(config, State::FileMeta)),
        !has_prefix(line, "commit "@),
        !has_prefix(line, "diff "@),
        !has_prefix(line, "--- "@),
        !has_prefix(line, "+++ "@),
        !has_prefix(line, "rename from "@),
        !has_prefix(line, "rename to "@),
        !has_prefix(line, "@@"@),
        !has_prefix(line, "Only in "@),
        !has_prefix(line, "Submodule "@),
        !has_prefix(line, "Binary files "@),
    ensures
        spec_step(m, line, raw, config).painter.total == m.painter.total + raw + seq!['\n'],
        spec_step(m, line, raw, config).state == m.state,
        spec_step(m, line, raw, config).painter.minus_lines == m.painter.minus_lines,
        spec_step(m, line, raw, config).painter.plus_lines == m.painter.plus_lines,
        spec_step(m, line, raw, config).minus_file == m.minus_file,
{
}

/// Classification is a function of the preceding region state, the frozen
/// source format, and the stripped line alone: two machines that agree on
/// state and source take the same transition on the same line, whatever
/// their buffers, output, or file paths hold — so feeding the same line
/// twice from the same preceding state transitions identically.
pub proof fn lemma_classification_deterministic(
    m1: MachineSpec,
    m2: MachineSpec,
    line: Seq<char>,
    raw1: Seq<char>,
    raw2: Seq<char>,
    config: Config,
)
    requires
        m1.state == m2.state,
        m1.source == m2.source,
    ensures
        spec_step(m1, line, raw1, config).state == spec_step(m2, line, raw2, config).state,
        spec_step(m1, line, raw1, config).source == spec_step(m2, line, raw2, config).source,
{
}

/// The buffer bound that the overflow rule maintains.
pub open spec fn spec_buffers_bounded(pm: PainterModel, config: Config) -> bool {
    pm.minus_lines.len() <= config.max_buffered_lines + 1 && pm.plus_lines.len()
        <= config.max_buffered_lines + 1
}

/// Buffer invariant, one step: a full buffer is flushed before the line that
/// would exceed it is buffered, so neither buffer ever grows past the
/// configured maximum plus the one line just added.
pub proof fn lemma_buffer_bound_step(
    m: MachineSpec,
    line: Seq<char>,
    raw: Seq<char>,
    config: Config,
)
    requires
        spec_buffers_bounded(m.painter, config),
    ensures
        spec_buffers_bounded(spec_step(m, line, raw, config).painter, config),
{
}

/// Buffer invariant, whole stream: at every point of a run from the empty
/// machine, both hunk-line buffers stay within the bound.
pub proof fn lemma_buffer_bound_run(lines: Seq<Seq<char>>, config: Config)
    ensures
        spec_buffers_bounded(spec_run(lines, config).painter, config),
    decreases lines.len(),
{
    if lines.len() == 0 {
    } else {
        lemma_buffer_bound_run(lines.drop_last(), config);
        lemma_buffer_bound_step(
            spec_run(lines.drop_last(), config),
            crate::ansi::ansi_stripped_of(lines.last()),
            lines.last(),
            config,
        );
    }
}

/// The number of pairs a flushed block aligns: the length of the shorter
/// side.
pub open spec fn spec_pair_count(minus: Seq<Seq<char>>, plus: Seq<Seq<char>>) -> int {
    if minus.len() <= plus.len() {
        minus.len() as int
    } else {
        plus.len() as int
    }
}

proof fn lemma_painted_text_unpaired(line: Seq<char>, base: AnsiStyle, emph: AnsiStyle, syn: Option<
    u8,
>)
    ensures
        spec_painted_text(line, base, emph, line.len() as int, line.len() as int, syn)
            == painted_seg(spec_fg_or(base.fg, syn), base.bg, line),
{
    assert(line.subrange(0, line.len() as int) =~= line);
    assert(line.subrange(line.len() as int, line.len() as int) =~= Seq::<char>::empty());
    assert(spec_painted_text(line, base, emph, line.len() as int, line.len() as int, syn)
        =~= painted_seg(spec_fg_or(base.fg, syn), base.bg, line));
}

/// Pairing: in a flushed block of N removed and M added lines, exactly the
/// first min(N, M) lines of each side are painted against the partner at
/// the same position — their emphasis range is the changed middle left after
/// the common prefix and suffix — while the remaining |N − M| lines are
/// painted in the base removed/added style alone, with no emphasis range.
pub proof fn lemma_pairing(
    minus: Seq<Seq<char>>,
    plus: Seq<Seq<char>>,
    config: Config,
    syn: Option<u8>,
)
    ensures
        forall|i: int|
            0 <= i < spec_pair_count(minus, plus) ==> #[trigger] spec_minus_line_painted(
                minus,
                plus,
                config,
                syn,
                i,
            ) == ({
                let a = spec_strip_nl(minus[i]);
                let b = spec_strip_nl(plus[i]);
                let p = spec_prefix_len(a, b);
                let s = spec_suffix_len(a.skip(p), b.skip(p));
                spec_painted_text(
                    spec_restore_marker(a, '-', config.keep_markers),
                    config.minus_style,
                    config.minus_emph_style,
                    p,
                    a.len() - s,
                    syn,
                )
            }),
        forall|i: int|
            spec_pair_count(minus, plus) <= i < minus.len() ==> #[trigger] spec_minus_line_painted(
                minus,
                plus,
                config,
                syn,
                i,
            ) == painted_seg(
                spec_fg_or(config.minus_style.fg, syn),
                config.minus_style.bg,
                spec_restore_marker(spec_strip_nl(minus[i]), '-', config.keep_markers),
            ),
        forall|i: int|
            0 <= i < spec_pair_count(minus, plus) ==> #[trigger] spec_plus_line_painted(
                minus,
                plus,
                config,
                syn,
                i,
            ) == ({
                let a = spec_strip_nl(minus[i]);
                let b = spec_strip_nl(plus[i]);
                let p = spec_prefix_len(a, b);
                let s = spec_suffix_len(a.skip(p), b.skip(p));
                spec_painted_text(
                    spec_restore_marker(b, '+', config.keep_markers),
                    config.plus_style,
                    config.plus_emph_style,
                    p,
                    b.len() - s,
                    syn,
                )
            }),
        forall|i: int|
            spec_pair_count(minus, plus) <= i < plus.len() ==> #[trigger] spec_plus_line_painted(
                minus,
                plus,
                config,
                syn,
                i,
            ) == painted_seg(
                spec_fg_or(config.plus_style.fg, syn),
                config.plus_style.bg,
                spec_restore_marker(spec_strip_nl(plus[i]), '+', config.keep_markers),
            ),
{
    assert forall|i: int| spec_pair_count(minus, plus) <= i < minus.len() implies #[trigger] spec_minus_line_painted(
        minus,
        plus,
        config,
        syn,
        i,
    ) == painted_seg(
        spec_fg_or(config.minus_style.fg, syn),
        config.minus_style.bg,
        spec_restore_marker(spec_strip_nl(minus[i]), '-', config.keep_markers),
    ) by {
        let d = spec_restore_marker(spec_strip_nl(minus[i]), '-', config.keep_markers);
        lemma_painted_text_unpaired(d, config.minus_style, config.minus_emph_style, syn);
        assert(d.len() == spec_strip_nl(minus[i]).len());
    }
    assert forall|i: int| spec_pair_count(minus, plus) <= i < plus.len() implies #[trigger] spec_plus_line_painted(
        minus,
        plus,
        config,
        syn,
        i,
    ) == painted_seg(
        spec_fg_or(config.plus_style.fg, syn),
        config.plus_style.bg,
        spec_restore_marker(spec_strip_nl(plus[i]), '+', config.keep_markers),
    ) by {
        let d = spec_restore_marker(spec_strip_nl(plus[i]), '+', config.keep_markers);
        lemma_painted_text_unpaired(d, config.plus_style, config.plus_emph_style, syn);
        assert(d.len() == spec_strip_nl(plus[i]).len());
    }
}

} // verus!
