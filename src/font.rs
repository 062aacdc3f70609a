//! Font metrics at one scale, as the layout engine reads them: vertical
//! metrics, one entry per character the font maps, and pairwise kerning.
//!
//! All lengths are fixed-point: `UNITS_PER_PIXEL` units make one pixel.
//! Vertical offsets grow downwards, as in pixel space.
use vstd::prelude::*;

verus! {

/// Fixed-point units per pixel.
pub const UNITS_PER_PIXEL: i64 = 64;

/// Largest magnitude of a single metric, in units (262144 pixels).
pub const MAX_METRIC: i64 = 16777216;

/// Ascent (above the baseline, positive), descent (below, usually negative)
/// and the gap between lines.
#[derive(Clone, Copy, Debug, PartialEq, Eq, Structural)]
pub struct VMetrics {
    pub ascent: i64,
    pub descent: i64,
    pub line_gap: i64,
}

/// The exact extent of a glyph's outline, relative to its origin.
#[derive(Clone, Copy, Debug, PartialEq, Eq, Structural)]
pub struct GlyphBounds {
    pub min_x: i64,
    pub min_y: i64,
    pub max_x: i64,
    pub max_y: i64,
}

/// What the font has for one character: its glyph identifier, horizontal
/// advance, and outline extent (`None` for a glyph with no outline, such as
/// a space).
#[derive(Clone, Copy, Debug, PartialEq, Eq, Structural)]
pub struct GlyphEntry {
    pub ch: char,
    pub id: u32,
    pub advance: i64,
    pub bounds: Option<GlyphBounds>,
}

/// The horizontal adjustment between glyph `left` and the glyph `right` that follows it.
#[derive(Clone, Copy, Debug, PartialEq, Eq, Structural)]
pub struct KernEntry {
    pub left: u32,
    pub right: u32,
    pub offset: i64,
}

/// A font at one scale. A character with no entry has no glyph; a pair
/// with no kerning entry has no adjustment. Where entries repeat a key, the
/// first one counts.
#[derive(Debug)]
pub struct FontMetrics {
    pub v_metrics: VMetrics,
    pub glyphs: Vec<GlyphEntry>,
    pub kerning: Vec<KernEntry>,
}

pub open spec fn metric_ok(v: int) -> bool {
    -MAX_METRIC <= v <= MAX_METRIC
}

pub open spec fn bounds_ok(b: Option<GlyphBounds>) -> bool {
    match b {
        Some(b) => metric_ok(b.min_x as int) && metric_ok(b.min_y as int) && metric_ok(
            b.max_x as int,
        ) && metric_ok(b.max_y as int),
        None => true,
    }
}

pub open spec fn entry_ok(e: GlyphEntry) -> bool {
    metric_ok(e.advance as int) && bounds_ok(e.bounds)
}

/// The first entry for `c`.
pub open spec fn find_glyph(s: Seq<GlyphEntry>, c: char) -> Option<GlyphEntry>
    decreases s.len(),
{
    if s.len() == 0 {
        None
    } else if s[0].ch == c {
        Some(s[0])
    } else {
        find_glyph(s.drop_first(), c)
    }
}

/// The offset of the first entry for the pair, or zero.
pub open spec fn find_kerning(s: Seq<KernEntry>, left: u32, right: u32) -> int
    decreases s.len(),
{
    if s.len() == 0 {
        0
    } else if s[0].left == left && s[0].right == right {
        s[0].offset as int
    } else {
        find_kerning(s.drop_first(), left, right)
    }
}

/// A found entry is one of the table's.
pub proof fn lemma_find_glyph_member(s: Seq<GlyphEntry>, c: char)
    ensures
        find_glyph(s, c) matches Some(e) ==> e.ch == c && exists|i: int|
            0 <= i < s.len() && s[i] == e,
    decreases s.len(),
{
    if s.len() > 0 && s[0].ch != c {
        lemma_find_glyph_member(s.drop_first(), c);
        if let Some(e) = find_glyph(s, c) {
            let i = choose|i: int| 0 <= i < s.drop_first().len() && s.drop_first()[i] == e;
            assert(s[i + 1] == e);
        }
    }
}

/// A kerning offset is zero or the offset of an entry for the pair.
pub proof fn lemma_find_kerning_member(s: Seq<KernEntry>, left: u32, right: u32)
    ensures
        find_kerning(s, left, right) == 0 || exists|i: int|
            0 <= i < s.len() && s[i].left == left && s[i].right == right && s[i].offset
                == find_kerning(s, left, right),
    decreases s.len(),
{
    if s.len() > 0 && !(s[0].left == left && s[0].right == right) {
        lemma_find_kerning_member(s.drop_first(), left, right);
        if find_kerning(s, left, right) != 0 {
            let i = choose|i: int|
                0 <= i < s.drop_first().len() && s.drop_first()[i].left == left
                    && s.drop_first()[i].right == right && s.drop_first()[i].offset
                    == find_kerning(s, left, right);
            assert(s[i + 1] == s.drop_first()[i]);
        }
    }
}

/// Every entry of a well-formed font is in range.
pub proof fn lemma_glyph_ok(font: FontMetrics, c: char)
    requires
        font.wf(),
    ensures
        font.glyph_of(c) matches Some(e) ==> entry_ok(e),
{
    lemma_find_glyph_member(font.glyphs@, c);
    if let Some(e) = font.glyph_of(c) {
        let i = choose|i: int| 0 <= i < font.glyphs@.len() && font.glyphs@[i] == e;
        assert(entry_ok(font.glyphs@[i]));
    }
}

/// Every kerning offset of a well-formed font is in range.
pub proof fn lemma_kerning_ok(font: FontMetrics, left: u32, right: u32)
    requires
        font.wf(),
    ensures
        metric_ok(font.kerning_of(left, right)),
{
    lemma_find_kerning_member(font.kerning@, left, right);
    if font.kerning_of(left, right) != 0 {
        let j = choose|j: int|
            0 <= j < font.kerning@.len() && font.kerning@[j].left == left && font.kerning@[j].right
                == right && font.kerning@[j].offset == font.kerning_of(left, right);
        assert(metric_ok(font.kerning@[j].offset as int));
    }
}

impl FontMetrics {
    /// Every metric lies within `MAX_METRIC`.
    pub open spec fn wf(&self) -> bool {
        &&& metric_ok(self.v_metrics.ascent as int)
        &&& metric_ok(self.v_metrics.descent as int)
        &&& metric_ok(self.v_metrics.line_gap as int)
        &&& forall|i: int| 0 <= i < self.glyphs@.len() ==> entry_ok(#[trigger] self.glyphs@[i])
        &&& forall|i: int|
            0 <= i < self.kerning@.len() ==> metric_ok(#[trigger] self.kerning@[i].offset as int)
    }

    /// The glyph entry for `c`.
    pub open spec fn glyph_of(&self, c: char) -> Option<GlyphEntry> {
        find_glyph(self.glyphs@, c)
    }

    /// The kerning between two glyphs.
    pub open spec fn kerning_of(&self, left: u32, right: u32) -> int {
        find_kerning(self.kerning@, left, right)
    }

    /// A font with the given vertical metrics and no glyphs yet; `None`
    /// where a vertical metric is out of range.
    pub fn new(v_metrics: VMetrics) -> (r: Option<FontMetrics>)
        ensures
            match r {
                Some(f) => {
                    &&& f.wf()
                    &&& f.v_metrics == v_metrics
                    &&& f.glyphs@ == Seq::<GlyphEntry>::empty()
                    &&& f.kerning@ == Seq::<KernEntry>::empty()
                },
                None => !(metric_ok(v_metrics.ascent as int) && metric_ok(v_metrics.descent as int)
                    && metric_ok(v_metrics.line_gap as int)),
            },
    {
        if metric_ok_exec(v_metrics.ascent) && metric_ok_exec(v_metrics.descent) && metric_ok_exec(
            v_metrics.line_gap,
        ) {
            Some(FontMetrics { v_metrics, glyphs: Vec::new(), kerning: Vec::new() })
        } else {
            None
        }
    }

    /// Adds an entry for a character that has none yet; refuses one whose
    /// metrics are out of range or whose character already has an entry.
    pub fn add_glyph(&mut self, entry: GlyphEntry) -> (added: bool)
        ensures
            added == (entry_ok(entry) && old(self).glyph_of(entry.ch) is None),
            old(self).wf() ==> final(self).wf(),
            final(self).v_metrics == old(self).v_metrics,
            final(self).kerning@ == old(self).kerning@,
            added ==> final(self).glyphs@ == old(self).glyphs@.push(entry),
            !added ==> final(self).glyphs@ == old(self).glyphs@,
    {
        let ok = entry_ok_exec(entry);
        if !ok {
            return false;
        }
        if self.glyph(entry.ch).is_some() {
            return false;
        }
        self.glyphs.push(entry);
        true
    }

    /// Adds the kerning of a pair that has none yet; refuses an offset out of
    /// range or a pair that already has an entry.
    pub fn add_kerning(&mut self, k: KernEntry) -> (added: bool)
        ensures
            added == (metric_ok(k.offset as int) && !exists|i: int|
                0 <= i < old(self).kerning@.len() && old(self).kerning@[i].left == k.left
                    && old(self).kerning@[i].right == k.right),
            old(self).wf() ==> final(self).wf(),
            final(self).v_metrics == old(self).v_metrics,
            final(self).glyphs@ == old(self).glyphs@,
            added ==> final(self).kerning@ == old(self).kerning@.push(k),
            !added ==> final(self).kerning@ == old(self).kerning@,
    {
        if k.offset < -MAX_METRIC || k.offset > MAX_METRIC {
            return false;
        }
        let mut i: usize = 0;
        while i < self.kerning.len()
            invariant
                i <= self.kerning@.len(),
                forall|j: int|
                    0 <= j < i ==> !(self.kerning@[j].left == k.left && self.kerning@[j].right
                        == k.right),
            decreases self.kerning@.len() - i,
        {
            if self.kerning[i].left == k.left && self.kerning[i].right == k.right {
                return false;
            }
            i += 1;
        }
        self.kerning.push(k);
        true
    }

    /// The first entry for `c`, if the font has a glyph for it.
    pub fn glyph(&self, c: char) -> (r: Option<GlyphEntry>)
        ensures
            r == self.glyph_of(c),
    {
        let ghost s = self.glyphs@;
        assert(s.subrange(0, s.len() as int) =~= s);
        let mut i: usize = 0;
        while i < self.glyphs.len()
            invariant
                i <= s.len(),
                s == self.glyphs@,
                find_glyph(s, c) == find_glyph(s.subrange(i as int, s.len() as int), c),
            decreases s.len() - i,
        {
            assert(s.subrange(i as int, s.len() as int).drop_first() =~= s.subrange(
                i + 1,
                s.len() as int,
            ));
            if self.glyphs[i].ch == c {
                return Some(self.glyphs[i]);
            }
            i += 1;
        }
        None
    }

    /// The kerning offset between glyph `left` and glyph `right`.
    pub fn kerning(&self, left: u32, right: u32) -> (r: i64)
        ensures
            r == self.kerning_of(left, right),
    {
        let ghost s = self.kerning@;
        assert(s.subrange(0, s.len() as int) =~= s);
        let mut i: usize = 0;
        while i < self.kerning.len()
            invariant
                i <= s.len(),
                s == self.kerning@,
                find_kerning(s, left, right) == find_kerning(
                    s.subrange(i as int, s.len() as int),
                    left,
                    right,
                ),
            decreases s.len() - i,
        {
            assert(s.subrange(i as int, s.len() as int).drop_first() =~= s.subrange(
                i + 1,
                s.len() as int,
            ));
            if self.kerning[i].left == left && self.kerning[i].right == right {
                return self.kerning[i].offset;
            }
            i += 1;
        }
        0
    }
}

fn metric_ok_exec(v: i64) -> (r: bool)
    ensures
        r == metric_ok(v as int),
{
    -MAX_METRIC <= v && v <= MAX_METRIC
}

fn entry_ok_exec(e: GlyphEntry) -> (r: bool)
    ensures
        r == entry_ok(e),
{
    metric_ok_exec(e.advance) && match e.bounds {
        Some(b) => metric_ok_exec(b.min_x) && metric_ok_exec(b.min_y) && metric_ok_exec(b.max_x)
            && metric_ok_exec(b.max_y),
        None => true,
    }
}

} // verus!
