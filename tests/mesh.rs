use gfx_font_cache::clip::{
    gl_to_pixel_point, gl_to_pixel_rect, pixel_to_gl_point, pixel_to_gl_rect, ClipPoint, PixelPoint,
    PixelRect,
};
use gfx_font_cache::mesh::{build_mesh, Resolved, UvRect};

fn rect(a: (i32, i32), b: (i32, i32)) -> PixelRect {
    PixelRect { min: PixelPoint { x: a.0, y: a.1 }, max: PixelPoint { x: b.0, y: b.1 } }
}

fn value(num: i64, den: u32) -> f64 {
    num as f64 / den as f64
}

#[test]
fn corners_of_viewport_map_to_unit_square() {
    let tl = pixel_to_gl_point(800, 600, PixelPoint { x: 0, y: 0 });
    assert_eq!((value(tl.x_num, tl.x_den), value(tl.y_num, tl.y_den)), (-1.0, 1.0));
    let br = pixel_to_gl_point(800, 600, PixelPoint { x: 800, y: 600 });
    assert_eq!((value(br.x_num, br.x_den), value(br.y_num, br.y_den)), (1.0, -1.0));
    let mid = pixel_to_gl_point(800, 600, PixelPoint { x: 200, y: 450 });
    assert_eq!((value(mid.x_num, mid.x_den), value(mid.y_num, mid.y_den)), (-0.5, -0.5));
}

#[test]
fn clip_rect_flips_vertical_order() {
    let c = pixel_to_gl_rect(100, 100, rect((10, 20), (30, 40)));
    assert!(c.min.x_num < c.max.x_num);
    assert!(c.min.y_num > c.max.y_num);
}

#[test]
fn pixel_rect_round_trips_through_clip_space() {
    for r in [rect((0, 0), (1, 1)), rect((-5, 7), (13, 2)), rect((799, 599), (800, 600))] {
        for (w, h) in [(800u32, 600u32), (1, 3), (1024, 768)] {
            assert_eq!(gl_to_pixel_rect(pixel_to_gl_rect(w, h, r)), Some(r));
        }
    }
}

#[test]
fn clip_point_between_pixels_has_no_pixel() {
    let c = ClipPoint { x_num: 1, x_den: 4, y_num: 0, y_den: 4 };
    assert_eq!(gl_to_pixel_point(c), None);
}

fn resolved(screen: PixelRect) -> Resolved<f32> {
    Resolved { uv: UvRect { min_x: 0.0, min_y: 0.25, max_x: 0.5, max_y: 0.75 }, screen }
}

#[test]
fn one_quad_for_one_resolved_glyph() {
    let m = build_mesh(&vec![Some(resolved(rect((0, 0), (10, 18))))], 512, 512);
    assert_eq!(m.vertices.len(), 4);
    assert_eq!(m.indices, vec![0, 1, 2, 0, 2, 3]);
    let bl = m.vertices[0];
    let tr = m.vertices[2];
    assert!(tr.pos.x_num > bl.pos.x_num && tr.pos.y_num > bl.pos.y_num);
    assert!(tr.uv_x > bl.uv_x && tr.uv_y < bl.uv_y);
    assert_eq!((bl.uv_x, bl.uv_y), (0.0, 0.75));
    assert_eq!((bl.pos.x_num, bl.pos.y_num), (-512, 512 - 36));
}

#[test]
fn unresolved_glyphs_leave_no_geometry() {
    let rs = vec![
        Some(resolved(rect((0, 0), (4, 4)))),
        None,
        Some(resolved(rect((4, 0), (8, 4)))),
        None,
    ];
    let m = build_mesh(&rs, 64, 64);
    assert_eq!(m.vertices.len(), 8);
    assert_eq!(m.indices, vec![0, 1, 2, 0, 2, 3, 4, 5, 6, 4, 6, 7]);
    assert_eq!(m.vertices[4].pos.x_num, 2 * 4 - 64);
    assert!(build_mesh::<f32>(&vec![None, None], 64, 64).vertices.is_empty());
}
