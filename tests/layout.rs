use gfx_font_cache::font::{FontMetrics, GlyphBounds, GlyphEntry, KernEntry, VMetrics};
use gfx_font_cache::layout::{is_control_char, layout_chars, layout_paragraph, PositionedGlyph};

const PX: i64 = 64;
const ASCENT: i64 = 18 * PX;
const LINE: i64 = 24 * PX;

fn v_metrics() -> VMetrics {
    VMetrics { ascent: ASCENT, descent: -6 * PX, line_gap: 0 }
}

fn boxed(ch: char, id: u32, advance_px: i64, right_px: i64) -> GlyphEntry {
    GlyphEntry {
        ch,
        id,
        advance: advance_px * PX,
        bounds: Some(GlyphBounds { min_x: 0, min_y: -ASCENT, max_x: right_px * PX, max_y: 0 }),
    }
}

fn font_with(entries: &[GlyphEntry], kerning: &[KernEntry]) -> FontMetrics {
    let mut font = FontMetrics::new(v_metrics()).expect("metrics in range");
    for e in entries {
        assert!(font.add_glyph(*e));
    }
    for k in kerning {
        assert!(font.add_kerning(*k));
    }
    font
}

fn latin() -> FontMetrics {
    font_with(
        &[
            boxed('A', 1, 10, 10),
            boxed('B', 2, 10, 9),
            boxed('V', 3, 10, 10),
            GlyphEntry { ch: ' ', id: 4, advance: 5 * PX, bounds: None },
            boxed('\u{e9}', 5, 9, 9),
        ],
        &[
            KernEntry { left: 1, right: 3, offset: -2 * PX },
            KernEntry { left: 3, right: 1, offset: -2 * PX },
        ],
    )
}

fn lay(font: &FontMetrics, width: u32, text: &str) -> Vec<PositionedGlyph> {
    layout_paragraph(font, width, text).expect("text within the layout limit")
}

fn origins(g: &[PositionedGlyph]) -> Vec<(char, i64, i64, usize)> {
    g.iter().map(|g| (g.ch, g.x, g.y, g.line)).collect()
}

#[test]
fn single_glyph_starts_at_ascent() {
    let g = lay(&latin(), 512, "A");
    assert_eq!(g.len(), 1);
    assert_eq!((g[0].x, g[0].y, g[0].line), (0, ASCENT, 0));
    let b = g[0].pixel_bounds.expect("A has an outline");
    assert_eq!((b.min_x, b.min_y, b.max_x, b.max_y), (0, 0, 10, 18));
    assert!(b.max_x > b.min_x && b.max_y > b.min_y);
}

#[test]
fn glyph_past_width_moves_to_next_line() {
    let font = font_with(&[boxed('A', 1, 8, 8), boxed('B', 2, 8, 8)], &[]);
    let g = lay(&font, 10, "AB");
    assert_eq!(origins(&g), vec![('A', 0, ASCENT, 0), ('B', 0, ASCENT + LINE, 1)]);
}

#[test]
fn right_edge_on_width_does_not_wrap() {
    let font = font_with(&[boxed('A', 1, 10, 10)], &[]);
    let g = lay(&font, 20, "AA");
    assert_eq!(origins(&g), vec![('A', 0, ASCENT, 0), ('A', 10 * PX, ASCENT, 0)]);
    let g = lay(&font, 19, "AA");
    assert_eq!(origins(&g), vec![('A', 0, ASCENT, 0), ('A', 0, ASCENT + LINE, 1)]);
}

#[test]
fn wide_glyph_is_kept_on_its_own_line() {
    let font = font_with(&[boxed('W', 1, 30, 30)], &[]);
    let g = lay(&font, 10, "WW");
    assert_eq!(origins(&g), vec![('W', 0, ASCENT + LINE, 1), ('W', 0, ASCENT + 2 * LINE, 2)]);
}

#[test]
fn crlf_is_one_line_break() {
    let font = latin();
    let crlf = lay(&font, 512, "A\r\nB");
    assert_eq!(crlf, lay(&font, 512, "A\rB"));
    assert_eq!(crlf, lay(&font, 512, "A\nB"));
    assert_eq!(origins(&crlf), vec![('A', 0, ASCENT, 0), ('B', 0, ASCENT + LINE, 1)]);
    let two = lay(&font, 512, "A\n\rB");
    assert_eq!(two[1].line, 2);
    let two = lay(&font, 512, "A\r\rB");
    assert_eq!(two[1].y, ASCENT + 2 * LINE);
}

#[test]
fn layout_is_deterministic() {
    let font = latin();
    let text = "AVA BAV\nAB \u{e9}";
    assert_eq!(lay(&font, 30, text), lay(&font, 30, text));
}

#[test]
fn kerning_applies_between_neighbours() {
    let g = lay(&latin(), 512, "AVA");
    assert_eq!(origins(&g), vec![('A', 0, ASCENT, 0), ('V', 8 * PX, ASCENT, 0), ('A', 16 * PX, ASCENT, 0)]);
    assert!(g[0].x <= g[1].x && g[1].x <= g[2].x);
}

#[test]
fn missing_glyph_is_skipped_and_breaks_kerning() {
    let g = lay(&latin(), 512, "AZV");
    assert_eq!(origins(&g), vec![('A', 0, ASCENT, 0), ('V', 10 * PX, ASCENT, 0)]);
}

#[test]
fn other_control_characters_are_ignored() {
    let font = latin();
    assert_eq!(lay(&font, 512, "A\tV\u{7}"), lay(&font, 512, "AV"));
    assert!(is_control_char('\t') && is_control_char('\u{85}') && !is_control_char('A'));
}

#[test]
fn line_break_clears_kerning() {
    let g = lay(&latin(), 512, "A\nV");
    assert_eq!(origins(&g), vec![('A', 0, ASCENT, 0), ('V', 0, ASCENT + LINE, 1)]);
}

#[test]
fn space_advances_without_outline() {
    let g = lay(&latin(), 512, "A B");
    assert_eq!(origins(&g), vec![('A', 0, ASCENT, 0), (' ', 10 * PX, ASCENT, 0), ('B', 15 * PX, ASCENT, 0)]);
    assert_eq!(g[1].pixel_bounds, None);
}

#[test]
fn text_is_composed_before_layout() {
    let g = lay(&latin(), 512, "e\u{301}A");
    assert_eq!(origins(&g), vec![('\u{e9}', 0, ASCENT, 0), ('A', 9 * PX, ASCENT, 0)]);
}

#[test]
fn glyph_count_never_exceeds_visible_code_points() {
    let font = latin();
    let text = "AB\tZ\nV Q";
    let g = lay(&font, 512, text);
    let visible = text.chars().filter(|c| !c.is_control()).count();
    assert_eq!(visible, 6);
    assert_eq!(g.len(), 4);
}

#[test]
fn layout_of_code_points_matches_paragraph() {
    let font = latin();
    let chars: Vec<char> = "AVB".chars().collect();
    assert_eq!(layout_chars(&font, 512, &chars), lay(&font, 512, "AVB"));
    assert!(layout_chars(&font, 512, &Vec::new()).is_empty());
}

#[test]
fn font_table_refuses_vertical_metrics_out_of_range() {
    assert!(FontMetrics::new(VMetrics { ascent: 1 << 30, descent: 0, line_gap: 0 }).is_none());
    assert!(FontMetrics::new(v_metrics()).is_some());
}

#[test]
fn font_table_refuses_duplicates_and_out_of_range() {
    let mut font = FontMetrics::new(v_metrics()).expect("metrics in range");
    assert!(font.add_glyph(boxed('A', 1, 10, 10)));
    assert!(!font.add_glyph(boxed('A', 9, 3, 3)));
    assert!(!font.add_glyph(GlyphEntry { ch: 'B', id: 2, advance: 1 << 40, bounds: None }));
    assert_eq!(font.glyph('A').map(|e| e.id), Some(1));
    assert_eq!(font.glyph('B'), None);
    assert!(font.add_kerning(KernEntry { left: 1, right: 1, offset: -PX }));
    assert!(!font.add_kerning(KernEntry { left: 1, right: 1, offset: PX }));
    assert_eq!(font.kerning(1, 1), -PX);
    assert_eq!(font.kerning(1, 2), 0);
}

#[test]
fn kerning_past_the_advance_moves_left() {
    let font = font_with(&[boxed('A', 1, 10, 10), boxed('V', 3, 10, 10)], &[KernEntry { left: 1, right: 3, offset: -20 * PX }]);
    let g = lay(&font, 512, "AV");
    assert_eq!(origins(&g), vec![('A', 0, ASCENT, 0), ('V', -10 * PX, ASCENT, 0)]);
}
