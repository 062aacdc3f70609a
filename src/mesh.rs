//! Quad emission: one textured quad (four vertices, two triangles) for each
//! glyph that the atlas resolved, in clip space.
use vstd::prelude::*;
use crate::clip::{ClipPoint, PixelRect, pixel_to_gl_rect, to_clip_rect};
use crate::font::FontMetrics;
use crate::layout::layout_of;
use crate::layout_laws::{count_missing, count_non_control, lemma_glyph_count};

verus! {

/// Most quads that one mesh holds: their vertex indices must fit a `u32`.
pub const MAX_QUADS: usize = 0x3fff_ffff;

/// A rectangle in the atlas's texture-coordinate space.
#[derive(Clone, Copy, Debug)]
pub struct UvRect<T> {
    pub min_x: T,
    pub min_y: T,
    pub max_x: T,
    pub max_y: T,
}

/// Where the atlas holds a glyph's image, and where on screen it is drawn.
#[derive(Clone, Copy, Debug)]
pub struct Resolved<T> {
    pub uv: UvRect<T>,
    pub screen: PixelRect,
}

/// A vertex: a clip-space position and the texture coordinates there.
#[derive(Clone, Copy, Debug)]
pub struct Vertex<T> {
    pub pos: ClipPoint,
    pub uv_x: T,
    pub uv_y: T,
}

/// Vertices and triangle indices for one frame. Quad `q` owns vertices
/// `4q .. 4q + 4` and indices `6q .. 6q + 6`.
#[derive(Debug)]
pub struct Mesh<T> {
    pub vertices: Vec<Vertex<T>>,
    pub indices: Vec<u32>,
}

/// The clip point with `a`'s x and `b`'s y.
pub open spec fn corner(a: ClipPoint, b: ClipPoint) -> ClipPoint {
    ClipPoint { x_num: a.x_num, x_den: a.x_den, y_num: b.y_num, y_den: b.y_den }
}

/// The four vertices of a glyph's quad: bottom-left, top-left, top-right,
/// bottom-right, each with the matching corner of the atlas rectangle.
pub open spec fn quad_vertices<T>(w: u32, h: u32, r: Resolved<T>) -> Seq<Vertex<T>> {
    let c = to_clip_rect(w, h, r.screen);
    seq![
        Vertex { pos: corner(c.min, c.max), uv_x: r.uv.min_x, uv_y: r.uv.max_y },
        Vertex { pos: corner(c.min, c.min), uv_x: r.uv.min_x, uv_y: r.uv.min_y },
        Vertex { pos: corner(c.max, c.min), uv_x: r.uv.max_x, uv_y: r.uv.min_y },
        Vertex { pos: corner(c.max, c.max), uv_x: r.uv.max_x, uv_y: r.uv.max_y },
    ]
}

/// The two triangles of a quad, as offsets from its first vertex; every quad
/// winds the same way.
pub open spec fn quad_pattern() -> Seq<int> {
    seq![0, 1, 2, 0, 2, 3]
}

/// The glyphs that the atlas resolved, in order.
pub open spec fn resident<T>(rs: Seq<Option<Resolved<T>>>) -> Seq<Resolved<T>>
    decreases rs.len(),
{
    if rs.len() == 0 {
        Seq::empty()
    } else {
        match rs.last() {
            Some(r) => resident(rs.drop_last()).push(r),
            None => resident(rs.drop_last()),
        }
    }
}

/// The glyphs that the atlas could not resolve.
pub open spec fn count_not_resident<T>(rs: Seq<Option<Resolved<T>>>) -> nat
    decreases rs.len(),
{
    if rs.len() == 0 {
        0
    } else {
        count_not_resident(rs.drop_last()) + if rs.last() is None {
            1nat
        } else {
            0nat
        }
    }
}

/// `m` holds exactly one quad for each of `quads`, in order.
pub open spec fn mesh_of<T>(w: u32, h: u32, quads: Seq<Resolved<T>>, m: Mesh<T>) -> bool {
    &&& m.vertices@.len() == 4 * quads.len()
    &&& m.indices@.len() == 6 * quads.len()
    &&& forall|q: int, v: int|
        0 <= q < quads.len() && 0 <= v < 4 ==> #[trigger] m.vertices@[4 * q + v] == quad_vertices(
            w,
            h,
            #[trigger] quads[q],
        )[v]
    &&& forall|q: int, k: int|
        0 <= q < quads.len() && 0 <= k < 6 ==> #[trigger] m.indices@[6 * q + k] == 4 * q
            + quad_pattern()[k]
}

/// Builds the frame's mesh: a quad for each glyph that the atlas resolved,
/// nothing for one that it did not.
pub fn build_mesh<T: Copy>(resolved: &Vec<Option<Resolved<T>>>, w: u32, h: u32) -> (r: Mesh<T>)
    requires
        w > 0,
        h > 0,
        resolved@.len() <= MAX_QUADS,
    ensures
        mesh_of(w, h, resident(resolved@), r),
{
    let mut m: Mesh<T> = Mesh { vertices: Vec::new(), indices: Vec::new() };
    let mut base: u32 = 0;
    let mut i: usize = 0;
    assert(resolved@.take(0) =~= Seq::<Option<Resolved<T>>>::empty());
    while i < resolved.len()
        invariant
            w > 0,
            h > 0,
            i <= resolved@.len(),
            resolved@.len() <= MAX_QUADS,
            resident(resolved@.take(i as int)).len() <= i,
            base == 4 * resident(resolved@.take(i as int)).len(),
            mesh_of(w, h, resident(resolved@.take(i as int)), m),
        decreases resolved@.len() - i,
    {
        let ghost before = resident(resolved@.take(i as int));
        assert(resolved@.take(i + 1).drop_last() =~= resolved@.take(i as int));
        match &resolved[i] {
            Some(res) => {
                let res: Resolved<T> = *res;
                let c = pixel_to_gl_rect(w, h, res.screen);
                let ghost after = before.push(res);
                let ghost old_m = m;
                m.vertices.push(Vertex { pos: corner_exec(c.min, c.max), uv_x: res.uv.min_x, uv_y: res.uv.max_y });
                m.vertices.push(Vertex { pos: corner_exec(c.min, c.min), uv_x: res.uv.min_x, uv_y: res.uv.min_y });
                m.vertices.push(Vertex { pos: corner_exec(c.max, c.min), uv_x: res.uv.max_x, uv_y: res.uv.min_y });
                m.vertices.push(Vertex { pos: corner_exec(c.max, c.max), uv_x: res.uv.max_x, uv_y: res.uv.max_y });
                m.indices.push(base);
                m.indices.push(base + 1);
                m.indices.push(base + 2);
                m.indices.push(base);
                m.indices.push(base + 2);
                m.indices.push(base + 3);
                base = base + 4;
                proof {
                    let n = before.len() as int;
                    assert forall|q: int, v: int|
                        0 <= q < after.len() && 0 <= v < 4 implies #[trigger] m.vertices@[4 * q + v]
                            == quad_vertices(w, h, #[trigger] after[q])[v] by {
                        if q < n {
                            assert(m.vertices@[4 * q + v] == old_m.vertices@[4 * q + v]);
                            assert(after[q] == before[q]);
                        }
                    }
                    assert forall|q: int, k: int|
                        0 <= q < after.len() && 0 <= k < 6 implies #[trigger] m.indices@[6 * q + k]
                            == 4 * q + quad_pattern()[k] by {
                        if q < n {
                            assert(m.indices@[6 * q + k] == old_m.indices@[6 * q + k]);
                        }
                    }
                }
            },
            None => {},
        }
        i += 1;
    }
    assert(resolved@.take(resolved@.len() as int) =~= resolved@);
    m
}

fn corner_exec(a: ClipPoint, b: ClipPoint) -> (r: ClipPoint)
    ensures
        r == corner(a, b),
{
    ClipPoint { x_num: a.x_num, x_den: a.x_den, y_num: b.y_num, y_den: b.y_den }
}

/// Each resolution is either a quad or a glyph left out.
pub proof fn lemma_resident_count<T>(rs: Seq<Option<Resolved<T>>>)
    ensures
        resident(rs).len() + count_not_resident(rs) == rs.len(),
    decreases rs.len(),
{
    if rs.len() > 0 {
        lemma_resident_count(rs.drop_last());
    }
}

/// A mesh has at most one quad for each code point that is not a control
/// character; such a code point yields no quad only when the font has no
/// glyph for it or the atlas did not resolve its glyph.
pub proof fn lemma_quads_per_code_point<T>(
    font: FontMetrics,
    width: u32,
    cps: Seq<char>,
    rs: Seq<Option<Resolved<T>>>,
)
    requires
        rs.len() == layout_of(font, width, cps).len(),
    ensures
        resident(rs).len() + count_not_resident(rs) + count_missing(font, cps) == count_non_control(
            cps,
        ),
        resident(rs).len() <= count_non_control(cps),
{
    lemma_resident_count(rs);
    lemma_glyph_count(font, width, cps);
}

} // verus!
