//! Mapping between pixel space (origin top-left, y down) and clip space
//! (origin at the centre, y up, the viewport spanning [-1, 1] on both axes).
//!
//! Clip coordinates are held exactly, as fractions whose denominators are the
//! viewport's width and height: `x = x_num / x_den`, `y = y_num / y_den`.
use vstd::prelude::*;

verus! {

/// A point in pixel space.
#[derive(Clone, Copy, Debug, PartialEq, Eq, Structural)]
pub struct PixelPoint {
    pub x: i32,
    pub y: i32,
}

/// An axis-aligned rectangle in pixel space, given by two corners.
#[derive(Clone, Copy, Debug, PartialEq, Eq, Structural)]
pub struct PixelRect {
    pub min: PixelPoint,
    pub max: PixelPoint,
}

/// A point in clip space: `(x_num / x_den, y_num / y_den)`.
#[derive(Clone, Copy, Debug, PartialEq, Eq, Structural)]
pub struct ClipPoint {
    pub x_num: i64,
    pub x_den: u32,
    pub y_num: i64,
    pub y_den: u32,
}

/// The images of a pixel rectangle's two corners. After the vertical flip
/// `min.y` lies above `max.y` in clip space, so `min.y_num >= max.y_num`
/// whenever the pixel rectangle has `min.y <= max.y`.
#[derive(Clone, Copy, Debug, PartialEq, Eq, Structural)]
pub struct ClipRect {
    pub min: ClipPoint,
    pub max: ClipPoint,
}

/// `((px / w) - 0.5) * 2 == (2 * px - w) / w` and
/// `(1 - py / h - 0.5) * 2 == (h - 2 * py) / h`: the clip point of a pixel
/// point, as exact fractions over the viewport's size.
pub open spec fn to_clip(w: u32, h: u32, p: PixelPoint) -> ClipPoint {
    ClipPoint {
        x_num: (2 * p.x - w) as i64,
        x_den: w,
        y_num: (h - 2 * p.y) as i64,
        y_den: h,
    }
}

pub open spec fn to_clip_rect(w: u32, h: u32, r: PixelRect) -> ClipRect {
    ClipRect { min: to_clip(w, h, r.min), max: to_clip(w, h, r.max) }
}

/// The pixel point whose clip image is `c`, if there is one: `px = (x_num + x_den) / 2`
/// and `py = (y_den - y_num) / 2`, when both are whole numbers that fit an `i32`.
pub open spec fn to_pixel(c: ClipPoint) -> Option<PixelPoint> {
    let dx = c.x_num + c.x_den;
    let dy = c.y_den - c.y_num;
    if dx % 2 == 0 && dy % 2 == 0 && i32::MIN <= dx / 2 <= i32::MAX && i32::MIN <= dy / 2
        <= i32::MAX {
        Some(PixelPoint { x: (dx / 2) as i32, y: (dy / 2) as i32 })
    } else {
        None
    }
}

pub open spec fn to_pixel_rect(c: ClipRect) -> Option<PixelRect> {
    match (to_pixel(c.min), to_pixel(c.max)) {
        (Some(a), Some(b)) => Some(PixelRect { min: a, max: b }),
        _ => None,
    }
}

/// Maps a pixel point into clip space for a `w` by `h` viewport.
pub fn pixel_to_gl_point(w: u32, h: u32, screen_point: PixelPoint) -> (r: ClipPoint)
    requires
        w > 0,
        h > 0,
    ensures
        r == to_clip(w, h, screen_point),
{
    ClipPoint {
        x_num: 2 * (screen_point.x as i64) - (w as i64),
        x_den: w,
        y_num: (h as i64) - 2 * (screen_point.y as i64),
        y_den: h,
    }
}

/// Maps both corners of a pixel rectangle into clip space, each on its own.
pub fn pixel_to_gl_rect(w: u32, h: u32, screen_rect: PixelRect) -> (r: ClipRect)
    requires
        w > 0,
        h > 0,
    ensures
        r == to_clip_rect(w, h, screen_rect),
{
    ClipRect {
        min: pixel_to_gl_point(w, h, screen_rect.min),
        max: pixel_to_gl_point(w, h, screen_rect.max),
    }
}

/// Maps a clip point back to the pixel point it stands for, if any.
pub fn gl_to_pixel_point(c: ClipPoint) -> (r: Option<PixelPoint>)
    ensures
        r == to_pixel(c),
{
    let sx: i128 = c.x_num as i128 + c.x_den as i128;
    let sy: i128 = c.y_den as i128 - c.y_num as i128;
    if sx % 2 == 0 && sy % 2 == 0 {
        let px: i128 = sx / 2;
        let py: i128 = sy / 2;
        if i32::MIN as i128 <= px && px <= i32::MAX as i128 && i32::MIN as i128 <= py && py
            <= i32::MAX as i128 {
            return Some(PixelPoint { x: px as i32, y: py as i32 });
        }
    }
    None
}

/// Maps both corners of a clip rectangle back to pixel space, if both stand
/// for pixel points.
pub fn gl_to_pixel_rect(c: ClipRect) -> (r: Option<PixelRect>)
    ensures
        r == to_pixel_rect(c),
{
    match (gl_to_pixel_point(c.min), gl_to_pixel_point(c.max)) {
        (Some(a), Some(b)) => Some(PixelRect { min: a, max: b }),
        _ => None,
    }
}

/// Mapping a pixel point into clip space and back gives the same point, exactly.
pub proof fn lemma_clip_point_round_trip(w: u32, h: u32, p: PixelPoint)
    requires
        w > 0,
        h > 0,
    ensures
        to_pixel(to_clip(w, h, p)) == Some(p),
{
    let c = to_clip(w, h, p);
    assert(c.x_num + c.x_den == 2 * p.x);
    assert(c.y_den - c.y_num == 2 * p.y);
}

/// Mapping a pixel rectangle into clip space and back gives the same
/// rectangle, exactly.
pub proof fn lemma_clip_rect_round_trip(w: u32, h: u32, r: PixelRect)
    requires
        w > 0,
        h > 0,
    ensures
        to_pixel_rect(to_clip_rect(w, h, r)) == Some(r),
{
    lemma_clip_point_round_trip(w, h, r.min);
    lemma_clip_point_round_trip(w, h, r.max);
}

} // verus!
