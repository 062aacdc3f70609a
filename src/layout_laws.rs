//! What holds of every layout: how lines break, how glyphs advance along a
//! line, and how many glyphs come out.
use vstd::prelude::*;
use crate::font::{FontMetrics, lemma_find_glyph_member, lemma_find_kerning_member};
use crate::layout::PositionedGlyph;
use crate::layout::{
    LayoutState, MAX_LAYOUT_CHARS, is_control, kern_after, layout_of, layout_state, lemma_layout_bounds,
    line_height, nfc_of, run_from, step, wraps_at,
};

verus! {

/// Layout of `a` followed by `b` continues from where layout of `a` stopped.
pub proof fn lemma_run_from_append(
    font: FontMetrics,
    width: u32,
    s: LayoutState,
    a: Seq<char>,
    b: Seq<char>,
)
    ensures
        run_from(font, width, s, a + b) == run_from(font, width, run_from(font, width, s, a), b),
    decreases b.len(),
{
    if b.len() == 0 {
        assert(a + b =~= a);
    } else {
        assert((a + b).drop_last() =~= a + b.drop_last());
        assert((a + b).last() == b.last());
        lemma_run_from_append(font, width, s, a, b.drop_last());
    }
}

/// Whether the last code point was `\r` matters only to a `\n` that comes next.
proof fn lemma_after_cr_forgotten(
    font: FontMetrics,
    width: u32,
    s1: LayoutState,
    s2: LayoutState,
    t: Seq<char>,
)
    requires
        s1 == (LayoutState { after_cr: s1.after_cr, ..s2 }),
        t.len() > 0,
        t[0] != '\n',
    ensures
        run_from(font, width, s1, t) == run_from(font, width, s2, t),
    decreases t.len(),
{
    if t.len() == 1 {
        assert(t.drop_last() =~= Seq::<char>::empty());
    } else {
        lemma_after_cr_forgotten(font, width, s1, s2, t.drop_last());
    }
}

/// After any text, the layout remembers a carriage return exactly when the
/// text ends with one.
pub proof fn lemma_after_cr(font: FontMetrics, width: u32, cps: Seq<char>)
    ensures
        layout_state(font, width, cps).after_cr == (cps.len() > 0 && cps.last() == '\r'),
{
}

/// A `\r\n` pair is one line break: the caret moves down one line height, and
/// text with the pair lays out exactly as the same text with a lone `\r`, or
/// with a lone `\n` where no `\r` comes before it.
pub proof fn lemma_crlf_single_break(font: FontMetrics, width: u32, a: Seq<char>, b: Seq<char>)
    requires
        b.len() == 0 || b[0] != '\n',
    ensures
        layout_state(font, width, a + seq!['\r', '\n']).y == layout_state(font, width, a).y
            + line_height(font.v_metrics),
        layout_state(font, width, a + seq!['\r', '\n']).line == layout_state(font, width, a).line
            + 1,
        layout_state(font, width, a + seq!['\r', '\n']).x == 0,
        layout_of(font, width, a + seq!['\r', '\n'] + b) == layout_of(
            font,
            width,
            a + seq!['\r'] + b,
        ),
        (a.len() == 0 || a.last() != '\r') ==> layout_of(font, width, a + seq!['\n'] + b)
            == layout_of(font, width, a + seq!['\r'] + b),
{
    let init = crate::layout::initial_state(font);
    let s = layout_state(font, width, a);
    lemma_run_from_append(font, width, init, a, seq!['\r', '\n']);
    lemma_run_from_append(font, width, init, a, seq!['\r']);
    lemma_run_from_append(font, width, init, a, seq!['\n']);
    assert(seq!['\r', '\n'].drop_last() =~= seq!['\r']);
    assert(seq!['\r'].drop_last() =~= Seq::<char>::empty());
    assert(seq!['\n'].drop_last() =~= Seq::<char>::empty());
    assert(seq!['\r', '\n'].last() == '\n');
    assert(seq!['\r'].last() == '\r');
    assert(seq!['\n'].last() == '\n');
    assert(is_control('\r') && is_control('\n'));
    assert(run_from(font, width, s, Seq::<char>::empty()) == s);
    let cr = step(font, width, s, '\r');
    let lf = step(font, width, s, '\n');
    assert(run_from(font, width, s, seq!['\r']) == cr);
    assert(run_from(font, width, s, seq!['\n']) == lf);
    let crlf = step(font, width, cr, '\n');
    assert(run_from(font, width, s, seq!['\r', '\n']) == crlf);
    assert(layout_state(font, width, a + seq!['\r', '\n']) == crlf);
    assert(layout_state(font, width, a + seq!['\r']) == cr);
    assert(layout_state(font, width, a + seq!['\n']) == lf);
    assert(crlf == (LayoutState { after_cr: false, ..cr }));
    lemma_after_cr(font, width, a);
    if a.len() == 0 || a.last() != '\r' {
        assert(lf == (LayoutState { after_cr: false, ..cr }));
    }
    lemma_run_from_append(font, width, init, a + seq!['\r', '\n'], b);
    lemma_run_from_append(font, width, init, a + seq!['\r'], b);
    lemma_run_from_append(font, width, init, a + seq!['\n'], b);
    if b.len() > 0 {
        lemma_after_cr_forgotten(font, width, crlf, cr, b);
        if a.len() == 0 || a.last() != '\r' {
            lemma_after_cr_forgotten(font, width, lf, cr, b);
        }
    } else {
        assert(a + seq!['\r', '\n'] + b =~= a + seq!['\r', '\n']);
        assert(a + seq!['\r'] + b =~= a + seq!['\r']);
        assert(a + seq!['\n'] + b =~= a + seq!['\n']);
    }
}

/// Laying out the same text with the same font and width twice gives the
/// same glyphs, position for position.
pub proof fn lemma_layout_deterministic(
    font: FontMetrics,
    width: u32,
    text: Seq<char>,
    first: Seq<crate::layout::PositionedGlyph>,
    second: Seq<crate::layout::PositionedGlyph>,
)
    requires
        first == layout_of(font, width, nfc_of(text)),
        second == layout_of(font, width, nfc_of(text)),
    ensures
        first == second,
{
}

proof fn lemma_place_pushes(
    s: LayoutState,
    c: char,
    e: crate::font::GlyphEntry,
    gx: int,
    gy: int,
    gl: int,
    prev: Option<u32>,
)
    ensures
        ({
            let t = crate::layout::place(s, c, e, gx, gy, gl, prev).glyphs;
            &&& t.len() == s.glyphs.len() + 1
            &&& t.drop_last() == s.glyphs
            &&& t.last().ch == c && t.last().id == e.id
            &&& t.last().x == gx as i64 && t.last().y == gy as i64 && t.last().line == gl as usize
        }),
{
    let t = crate::layout::place(s, c, e, gx, gy, gl, prev).glyphs;
    assert(t.drop_last() =~= s.glyphs);
}

/// The glyph for code point `j` (one the font has) starts a new line, at
/// x = 0 and one line height down, exactly when its pixel box, kerned against
/// the glyph before it, would reach past `width`; otherwise it stands at the
/// kerned caret on the current line.
pub proof fn lemma_wrap_exact(font: FontMetrics, width: u32, cps: Seq<char>, j: int)
    requires
        font.wf(),
        cps.len() <= MAX_LAYOUT_CHARS,
        0 <= j < cps.len(),
        !is_control(cps[j]),
        font.glyph_of(cps[j]) is Some,
    ensures
        ({
            let s = layout_state(font, width, cps.take(j));
            let e = font.glyph_of(cps[j])->0;
            let kx = s.x + kern_after(font, s.prev, e.id);
            let t = layout_of(font, width, cps.take(j + 1));
            let g = t.last();
            &&& t.len() == s.glyphs.len() + 1
            &&& t.drop_last() == s.glyphs
            &&& g.ch == cps[j] && g.id == e.id
            &&& wraps_at(e, kx, width) ==> g.x == 0 && g.y == s.y + line_height(font.v_metrics)
                && g.line == s.line + 1
            &&& !wraps_at(e, kx, width) ==> g.x == kx && g.y == s.y && g.line == s.line
        }),
{
    lemma_layout_bounds(font, width, cps.take(j));
    assert(cps.take(j + 1).drop_last() =~= cps.take(j));
    let s = layout_state(font, width, cps.take(j));
    let e = font.glyph_of(cps[j])->0;
    crate::font::lemma_glyph_ok(font, cps[j]);
    if let Some(p) = s.prev {
        crate::font::lemma_kerning_ok(font, p, e.id);
    }
    let m = crate::font::MAX_METRIC as int;
    let n = cps.take(j).len() as int;
    assert(2 * m * n <= 2 * m * MAX_LAYOUT_CHARS && 3 * m * n <= 3 * m * MAX_LAYOUT_CHARS)
        by (nonlinear_arith)
        requires
            n <= MAX_LAYOUT_CHARS,
            m > 0,
    ;
    assert(cps.take(j + 1).last() == cps[j]);
    assert(layout_state(font, width, cps.take(j + 1)) == step(font, width, s, cps[j]));
    let kx = s.x + kern_after(font, s.prev, e.id);
    let c = cps[j];
    let lh = line_height(font.v_metrics);
    if wraps_at(e, kx, width) {
        lemma_place_pushes(s, c, e, 0, s.y + lh, s.line + 1, None);
    } else {
        lemma_place_pushes(s, c, e, kx, s.y, s.line, Some(e.id));
    }
}

/// No glyph moves the caret back: advances are non-negative, and no kerning
/// after a glyph takes back more than that glyph's advance.
pub open spec fn kerning_keeps_order(font: FontMetrics) -> bool {
    &&& forall|i: int| 0 <= i < font.glyphs@.len() ==> #[trigger] font.glyphs@[i].advance >= 0
    &&& forall|i: int, j: int|
        0 <= i < font.glyphs@.len() && 0 <= j < font.kerning@.len() && #[trigger] font.kerning@[j].left
            == #[trigger] font.glyphs@[i].id ==> font.glyphs@[i].advance + font.kerning@[j].offset >= 0
}

/// Successive glyphs on one line have non-decreasing x-origins.
pub open spec fn ordered_on_lines(g: Seq<PositionedGlyph>) -> bool {
    forall|k: int|
        0 <= k && k + 1 < g.len() && #[trigger] g[k].line == g[k + 1].line ==> g[k].x <= g[k + 1].x
}

/// The caret stands at or after the last glyph on its line, and a glyph to
/// kern against is the last one, with the caret one advance past it.
spec fn caret_after_last(font: FontMetrics, s: LayoutState) -> bool {
    s.glyphs.len() > 0 ==> {
        let g = s.glyphs.last();
        &&& g.line <= s.line
        &&& g.line == s.line ==> g.x <= s.x
        &&& s.prev matches Some(p) ==> p == g.id && g.line == s.line && exists|i: int|
            0 <= i < font.glyphs@.len() && #[trigger] font.glyphs@[i].id == p && s.x == g.x
                + font.glyphs@[i].advance
    }
}

proof fn lemma_line_order_inv(font: FontMetrics, width: u32, cps: Seq<char>)
    requires
        font.wf(),
        cps.len() <= MAX_LAYOUT_CHARS,
        kerning_keeps_order(font),
    ensures
        ordered_on_lines(layout_of(font, width, cps)),
        caret_after_last(font, layout_state(font, width, cps)),
    decreases cps.len(),
{
    if cps.len() > 0 {
        let pre = cps.drop_last();
        lemma_line_order_inv(font, width, pre);
        lemma_layout_bounds(font, width, pre);
        let m = crate::font::MAX_METRIC as int;
        let n = pre.len() as int;
        assert(2 * m * n <= 2 * m * MAX_LAYOUT_CHARS && 3 * m * n <= 3 * m * MAX_LAYOUT_CHARS)
            by (nonlinear_arith)
            requires
                n <= MAX_LAYOUT_CHARS,
                m > 0,
        ;
        let s = layout_state(font, width, pre);
        let c = cps.last();
        let lh = line_height(font.v_metrics);
        let t = layout_state(font, width, cps);
        assert(t == step(font, width, s, c));
        if !is_control(c) {
            if let Some(e) = font.glyph_of(c) {
                crate::font::lemma_glyph_ok(font, c);
                lemma_find_glyph_member(font.glyphs@, c);
                let ie = choose|i: int| 0 <= i < font.glyphs@.len() && font.glyphs@[i] == e;
                assert(font.glyphs@[ie].advance >= 0);
                let k = kern_after(font, s.prev, e.id);
                if let Some(p) = s.prev {
                    crate::font::lemma_kerning_ok(font, p, e.id);
                }
                let kx = s.x + k;
                if s.glyphs.len() > 0 && s.glyphs.last().line == s.line {
                    let g = s.glyphs.last();
                    if let Some(p) = s.prev {
                        let i = choose|i: int|
                            0 <= i < font.glyphs@.len() && #[trigger] font.glyphs@[i].id == p && s.x
                                == g.x + font.glyphs@[i].advance;
                        assert(font.glyphs@[i].advance >= 0);
                        lemma_find_kerning_member(font.kerning@, p, e.id);
                        if font.kerning_of(p, e.id) != 0 {
                            let j = choose|j: int|
                                0 <= j < font.kerning@.len() && font.kerning@[j].left == p
                                    && font.kerning@[j].right == e.id && font.kerning@[j].offset
                                    == font.kerning_of(p, e.id);
                            assert(font.kerning@[j].left == font.glyphs@[i].id);
                            assert(font.glyphs@[i].advance + font.kerning@[j].offset >= 0);
                        }
                    }
                    assert(g.x <= kx);
                }
                if wraps_at(e, kx, width) {
                    lemma_place_pushes(s, c, e, 0, s.y + lh, s.line + 1, None);
                } else {
                    lemma_place_pushes(s, c, e, kx, s.y, s.line, Some(e.id));
                    assert(font.glyphs@[ie].id == e.id);
                }
                let tg = t.glyphs;
                assert forall|q: int|
                    0 <= q && q + 1 < tg.len() && #[trigger] tg[q].line == tg[q + 1].line implies tg[q].x
                        <= tg[q + 1].x by {
                    if q + 1 < s.glyphs.len() {
                        assert(tg[q] == s.glyphs[q] && tg[q + 1] == s.glyphs[q + 1]);
                    } else {
                        assert(tg[q] == s.glyphs.last());
                    }
                }
            }
        }
    }
}

/// Within one line, each glyph's x-origin is at or after the one before, for
/// a font in which kerning never takes back more than a glyph's advance.
pub proof fn lemma_line_x_non_decreasing(font: FontMetrics, width: u32, cps: Seq<char>, k: int)
    requires
        font.wf(),
        cps.len() <= MAX_LAYOUT_CHARS,
        kerning_keeps_order(font),
        0 <= k,
        k + 1 < layout_of(font, width, cps).len(),
        layout_of(font, width, cps)[k].line == layout_of(font, width, cps)[k + 1].line,
    ensures
        layout_of(font, width, cps)[k].x <= layout_of(font, width, cps)[k + 1].x,
{
    lemma_line_order_inv(font, width, cps);
}

/// Code points that are not control characters.
pub open spec fn count_non_control(cps: Seq<char>) -> nat
    decreases cps.len(),
{
    if cps.len() == 0 {
        0
    } else {
        count_non_control(cps.drop_last()) + if !is_control(cps.last()) {
            1nat
        } else {
            0nat
        }
    }
}

/// Code points that are not control characters and have no glyph in the font.
pub open spec fn count_missing(font: FontMetrics, cps: Seq<char>) -> nat
    decreases cps.len(),
{
    if cps.len() == 0 {
        0
    } else {
        count_missing(font, cps.drop_last()) + if !is_control(cps.last()) && font.glyph_of(
            cps.last(),
        ) is None {
            1nat
        } else {
            0nat
        }
    }
}

/// Layout places one glyph for each code point that is not a control
/// character and has a glyph in the font, and no other.
pub proof fn lemma_glyph_count(font: FontMetrics, width: u32, cps: Seq<char>)
    ensures
        layout_of(font, width, cps).len() + count_missing(font, cps) == count_non_control(cps),
    decreases cps.len(),
{
    if cps.len() > 0 {
        lemma_glyph_count(font, width, cps.drop_last());
        let s = layout_state(font, width, cps.drop_last());
        let c = cps.last();
        assert(layout_state(font, width, cps) == step(font, width, s, c));
        if !is_control(c) {
            if let Some(e) = font.glyph_of(c) {
                let k = kern_after(font, s.prev, e.id);
                let lh = line_height(font.v_metrics);
                lemma_place_pushes(s, c, e, 0, s.y + lh, s.line + 1, None);
                lemma_place_pushes(s, c, e, s.x + k, s.y, s.line, Some(e.id));
            }
        }
    }
}

} // verus!
