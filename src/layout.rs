//! Line layout: turns text into positioned glyphs, with pairwise kerning,
//! explicit line breaks and greedy wrapping at a pixel width.
use vstd::prelude::*;
use crate::font::{
    FontMetrics, GlyphBounds, GlyphEntry, VMetrics, MAX_METRIC, UNITS_PER_PIXEL, lemma_glyph_ok,
    lemma_kerning_ok,
};
use unicode_normalization::UnicodeNormalization;

verus! {

/// Longest code point sequence that one layout takes.
pub const MAX_LAYOUT_CHARS: usize = 0x4000_0000;

/// A glyph's pixel bounding box at its position: outline extent rounded
/// outwards to whole pixels.
#[derive(Clone, Copy, Debug, PartialEq, Eq, Structural)]
pub struct PixelBounds {
    pub min_x: i64,
    pub min_y: i64,
    pub max_x: i64,
    pub max_y: i64,
}

/// A glyph placed by layout: its origin `(x, y)` in units, the line it
/// stands on (counted from 0), and its pixel bounding box there.
#[derive(Clone, Copy, Debug, PartialEq, Eq, Structural)]
pub struct PositionedGlyph {
    pub ch: char,
    pub id: u32,
    pub x: i64,
    pub y: i64,
    pub line: usize,
    pub pixel_bounds: Option<PixelBounds>,
}

/// The composed normal form (NFC) of a text.
pub uninterp spec fn nfc_of(s: Seq<char>) -> Seq<char>;

/// Relies on unicode_normalization's `nfc`: the canonical composition of
/// the text, which depends on the text alone.
#[verifier::external_body]
fn normalize(text: &str) -> (r: Vec<char>)
    ensures
        r@ == nfc_of(text@),
{
    text.nfc().collect()
}

/// Unicode's control characters (general category Cc).
pub open spec fn is_control(c: char) -> bool {
    (c as u32) <= 0x1f || (0x7f <= (c as u32) && (c as u32) <= 0x9f)
}

pub fn is_control_char(c: char) -> (r: bool)
    ensures
        r == is_control(c),
{
    let u = c as u32;
    u <= 0x1f || (0x7f <= u && u <= 0x9f)
}

/// Distance between the baselines of two successive lines.
pub open spec fn line_height(v: VMetrics) -> int {
    v.ascent - v.descent + v.line_gap
}

/// Whole pixels at or below `a` units.
pub open spec fn floor_px(a: int) -> int {
    a / (UNITS_PER_PIXEL as int)
}

/// Whole pixels at or above `a` units.
pub open spec fn ceil_px(a: int) -> int {
    (a + UNITS_PER_PIXEL - 1) / (UNITS_PER_PIXEL as int)
}

pub open spec fn pixel_bounds_at(b: Option<GlyphBounds>, x: int, y: int) -> Option<PixelBounds> {
    match b {
        Some(b) => Some(
            PixelBounds {
                min_x: floor_px(x + b.min_x) as i64,
                min_y: floor_px(y + b.min_y) as i64,
                max_x: ceil_px(x + b.max_x) as i64,
                max_y: ceil_px(y + b.max_y) as i64,
            },
        ),
        None => None,
    }
}

/// A glyph placed with its origin at `x` would reach past `width` pixels.
pub open spec fn wraps_at(e: GlyphEntry, x: int, width: u32) -> bool {
    match e.bounds {
        Some(b) => ceil_px(x + b.max_x) > width,
        None => false,
    }
}

/// Kerning against the previous glyph, zero where there is none.
pub open spec fn kern_after(font: FontMetrics, prev: Option<u32>, id: u32) -> int {
    match prev {
        Some(p) => font.kerning_of(p, id),
        None => 0,
    }
}

/// The caret, the glyph that kerning applies against, whether the last code
/// point was a carriage return, and the glyphs placed so far.
pub struct LayoutState {
    pub x: int,
    pub y: int,
    pub line: int,
    pub prev: Option<u32>,
    pub after_cr: bool,
    pub glyphs: Seq<PositionedGlyph>,
}

pub open spec fn initial_state(font: FontMetrics) -> LayoutState {
    LayoutState {
        x: 0,
        y: font.v_metrics.ascent as int,
        line: 0,
        prev: None,
        after_cr: false,
        glyphs: Seq::empty(),
    }
}

/// Places glyph `e` for `c` at `(gx, gy)` on line `gl` and moves the caret past it.
pub open spec fn place(
    s: LayoutState,
    c: char,
    e: GlyphEntry,
    gx: int,
    gy: int,
    gl: int,
    prev: Option<u32>,
) -> LayoutState {
    LayoutState {
        x: gx + e.advance,
        y: gy,
        line: gl,
        prev: prev,
        after_cr: false,
        glyphs: s.glyphs.push(
            PositionedGlyph {
                ch: c,
                id: e.id,
                x: gx as i64,
                y: gy as i64,
                line: gl as usize,
                pixel_bounds: pixel_bounds_at(e.bounds, gx, gy),
            },
        ),
    }
}

/// One code point of layout.
/// - `\r` breaks the line, and so does `\n` unless it directly follows `\r`
///   (a `\r\n` pair is one break); other control characters change nothing.
/// - A character with no glyph is skipped, and the next glyph gets no kerning.
/// - A glyph is kerned against the previous one; if its pixel box would then
///   reach past `width`, the line breaks first and the glyph starts the new
///   line, with no kerning against it for the glyph after.
pub open spec fn step(font: FontMetrics, width: u32, s: LayoutState, c: char) -> LayoutState {
    let lh = line_height(font.v_metrics);
    if is_control(c) {
        if c == '\n' && s.after_cr {
            LayoutState { after_cr: false, ..s }
        } else if c == '\r' || c == '\n' {
            LayoutState { x: 0, y: s.y + lh, line: s.line + 1, prev: None, after_cr: c == '\r', ..s }
        } else {
            LayoutState { after_cr: false, ..s }
        }
    } else {
        match font.glyph_of(c) {
            None => LayoutState { prev: None, after_cr: false, ..s },
            Some(e) => {
                let kx = s.x + kern_after(font, s.prev, e.id);
                if wraps_at(e, kx, width) {
                    place(s, c, e, 0, s.y + lh, s.line + 1, None)
                } else {
                    place(s, c, e, kx, s.y, s.line, Some(e.id))
                }
            },
        }
    }
}

/// Layout of the code points `cps`, starting from state `s`.
pub open spec fn run_from(font: FontMetrics, width: u32, s: LayoutState, cps: Seq<char>) -> LayoutState
    decreases cps.len(),
{
    if cps.len() == 0 {
        s
    } else {
        step(font, width, run_from(font, width, s, cps.drop_last()), cps.last())
    }
}

/// Layout of the code points `cps` from the start of the first line.
pub open spec fn layout_state(font: FontMetrics, width: u32, cps: Seq<char>) -> LayoutState {
    run_from(font, width, initial_state(font), cps)
}

/// The glyphs that laying out `cps` places.
pub open spec fn layout_of(font: FontMetrics, width: u32, cps: Seq<char>) -> Seq<PositionedGlyph> {
    layout_state(font, width, cps).glyphs
}

/// The caret stays within reach of its start: each code point moves it by at
/// most two metrics across and three down or up.
pub proof fn lemma_layout_bounds(font: FontMetrics, width: u32, cps: Seq<char>)
    requires
        font.wf(),
    ensures
        -(2 * MAX_METRIC * cps.len()) <= layout_state(font, width, cps).x,
        layout_state(font, width, cps).x <= 2 * MAX_METRIC * cps.len(),
        font.v_metrics.ascent - 3 * MAX_METRIC * cps.len() <= layout_state(font, width, cps).y,
        layout_state(font, width, cps).y <= font.v_metrics.ascent + 3 * MAX_METRIC * cps.len(),
        0 <= layout_state(font, width, cps).line <= cps.len(),
    decreases cps.len(),
{
    if cps.len() > 0 {
        lemma_layout_bounds(font, width, cps.drop_last());
        let n = cps.len() as int;
        let c = cps.last();
        let s = layout_state(font, width, cps.drop_last());
        assert(layout_state(font, width, cps) == step(font, width, s, c));
        let m = MAX_METRIC as int;
        assert(2 * m * n == 2 * m * (n - 1) + 2 * m) by (nonlinear_arith);
        assert(3 * m * n == 3 * m * (n - 1) + 3 * m) by (nonlinear_arith);
        assert(0 <= 2 * m * (n - 1)) by (nonlinear_arith)
            requires
                m > 0,
                n >= 1,
        ;
        if !is_control(c) {
            if let Some(e) = font.glyph_of(c) {
                lemma_glyph_ok(font, c);
                if let Some(p) = s.prev {
                    lemma_kerning_ok(font, p, e.id);
                }
            }
        }
    }
}

fn floor_px_exec(a: i64) -> (r: i64)
    requires
        -0x4000_0000_0000_0000 <= a <= 0x4000_0000_0000_0000,
    ensures
        r == floor_px(a as int),
{
    if a >= 0 {
        a / UNITS_PER_PIXEL
    } else {
        -((-a + (UNITS_PER_PIXEL - 1)) / UNITS_PER_PIXEL)
    }
}

fn ceil_px_exec(a: i64) -> (r: i64)
    requires
        -0x2000_0000_0000_0000 <= a <= 0x2000_0000_0000_0000,
    ensures
        r == ceil_px(a as int),
{
    floor_px_exec(a + (UNITS_PER_PIXEL - 1))
}

fn pixel_bounds_exec(b: Option<GlyphBounds>, x: i64, y: i64) -> (r: Option<PixelBounds>)
    requires
        crate::font::bounds_ok(b),
        -0x1000_0000_0000_0000 <= x <= 0x1000_0000_0000_0000,
        -0x1000_0000_0000_0000 <= y <= 0x1000_0000_0000_0000,
    ensures
        r == pixel_bounds_at(b, x as int, y as int),
{
    match b {
        Some(b) => Some(
            PixelBounds {
                min_x: floor_px_exec(x + b.min_x),
                min_y: floor_px_exec(y + b.min_y),
                max_x: ceil_px_exec(x + b.max_x),
                max_y: ceil_px_exec(y + b.max_y),
            },
        ),
        None => None,
    }
}

/// Lays out a sequence of code points (already normalized) for a column
/// `width` pixels wide.
pub fn layout_chars(font: &FontMetrics, width: u32, chars: &Vec<char>) -> (r: Vec<PositionedGlyph>)
    requires
        font.wf(),
        chars@.len() <= MAX_LAYOUT_CHARS,
    ensures
        r@ == layout_of(*font, width, chars@),
{
    let v = font.v_metrics;
    let lh: i64 = v.ascent - v.descent + v.line_gap;
    let mut x: i64 = 0;
    let mut y: i64 = v.ascent;
    let mut line: usize = 0;
    let mut prev: Option<u32> = None;
    let mut after_cr: bool = false;
    let mut out: Vec<PositionedGlyph> = Vec::new();
    let mut i: usize = 0;
    assert(chars@.take(0) =~= Seq::<char>::empty());
    while i < chars.len()
        invariant
            font.wf(),
            i <= chars@.len(),
            chars@.len() <= MAX_LAYOUT_CHARS,
            lh == line_height(font.v_metrics),
            layout_state(*font, width, chars@.take(i as int)) == (LayoutState {
                x: x as int,
                y: y as int,
                line: line as int,
                prev: prev,
                after_cr: after_cr,
                glyphs: out@,
            }),
        decreases chars@.len() - i,
    {
        proof {
            lemma_layout_bounds(*font, width, chars@.take(i as int));
            assert(chars@.take(i + 1).drop_last() =~= chars@.take(i as int));
            assert(MAX_METRIC * i <= MAX_METRIC * MAX_LAYOUT_CHARS) by (nonlinear_arith)
                requires
                    i <= MAX_LAYOUT_CHARS,
            ;
        }
        let c = chars[i];
        if is_control_char(c) {
            if c == '\n' && after_cr {
                after_cr = false;
            } else if c == '\r' || c == '\n' {
                x = 0;
                y = y + lh;
                line = line + 1;
                prev = None;
                after_cr = c == '\r';
            } else {
                after_cr = false;
            }
        } else {
            match font.glyph(c) {
                None => {
                    prev = None;
                    after_cr = false;
                },
                Some(e) => {
                    proof {
                        lemma_glyph_ok(*font, c);
                    }
                    let k: i64 = match prev {
                        Some(p) => {
                            proof {
                                lemma_kerning_ok(*font, p, e.id);
                            }
                            font.kerning(p, e.id)
                        },
                        None => 0,
                    };
                    let kx = x + k;
                    let wrap = match e.bounds {
                        Some(b) => ceil_px_exec(kx + b.max_x) > width as i64,
                        None => false,
                    };
                    let gx: i64;
                    let gy: i64;
                    let gl: usize;
                    if wrap {
                        gx = 0;
                        gy = y + lh;
                        gl = line + 1;
                        prev = None;
                    } else {
                        gx = kx;
                        gy = y;
                        gl = line;
                        prev = Some(e.id);
                    }
                    let pixel_bounds = pixel_bounds_exec(e.bounds, gx, gy);
                    out.push(PositionedGlyph { ch: c, id: e.id, x: gx, y: gy, line: gl, pixel_bounds });
                    x = gx + e.advance;
                    y = gy;
                    line = gl;
                    after_cr = false;
                },
            }
        }
        i += 1;
    }
    assert(chars@.take(chars@.len() as int) =~= chars@);
    out
}

/// Lays out a text for a column `width` pixels wide, after bringing it to
/// its composed normal form. `None` where the normalized text is longer than
/// `MAX_LAYOUT_CHARS` code points.
pub fn layout_paragraph(font: &FontMetrics, width: u32, text: &str) -> (r: Option<Vec<PositionedGlyph>>)
    requires
        font.wf(),
    ensures
        match r {
            Some(g) => nfc_of(text@).len() <= MAX_LAYOUT_CHARS && g@ == layout_of(*font, width, nfc_of(text@)),
            None => nfc_of(text@).len() > MAX_LAYOUT_CHARS,
        },
{
    let chars = normalize(text);
    if chars.len() > MAX_LAYOUT_CHARS {
        None
    } else {
        Some(layout_chars(font, width, &chars))
    }
}

} // verus!
