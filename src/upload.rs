//! Texture sync: turns an atlas upload (a destination rectangle and one
//! coverage byte per pixel) into the RGBA pixels and region that the atlas
//! texture takes. Glyphs are black ink; coverage becomes alpha.
use vstd::prelude::*;

verus! {

/// Largest texel coordinate of the atlas texture.
pub const MAX_TEXEL: u32 = 0xffff;

/// A rectangle of the atlas in texels, `min` inclusive and `max` exclusive.
#[derive(Clone, Copy, Debug, PartialEq, Eq, Structural)]
pub struct AtlasRect {
    pub min_x: u32,
    pub min_y: u32,
    pub max_x: u32,
    pub max_y: u32,
}

/// The region of the texture that an upload writes.
#[derive(Clone, Copy, Debug, PartialEq, Eq, Structural)]
pub struct TextureRegion {
    pub x_offset: u16,
    pub y_offset: u16,
    pub width: u16,
    pub height: u16,
}

/// Errors of one cache cycle that the caller must handle.
#[derive(Clone, Copy, Debug, PartialEq, Eq, Structural)]
pub enum CacheError {
    /// The queued glyphs cannot all fit in the atlas at once.
    CacheOverflow,
    /// An upload could not be written to the atlas texture.
    TextureUploadError,
}

/// Pixels ready for the texture, row-major, with their region.
#[derive(Debug)]
pub struct TextureUpload {
    pub region: TextureRegion,
    pub pixels: Vec<[u8; 4]>,
}

/// The rectangle lies within the texture, and `len` bytes cover it, one per pixel.
pub open spec fn upload_fits(rect: AtlasRect, len: int) -> bool {
    &&& rect.min_x <= rect.max_x <= MAX_TEXEL
    &&& rect.min_y <= rect.max_y <= MAX_TEXEL
    &&& len == (rect.max_x - rect.min_x) * (rect.max_y - rect.min_y)
}

/// Expands coverage bytes into RGBA pixels: colour black, alpha the coverage.
pub fn coverage_to_rgba(data: &[u8]) -> (r: Vec<[u8; 4]>)
    ensures
        r@.len() == data@.len(),
        forall|i: int| 0 <= i < data@.len() ==> #[trigger] r@[i]@ == seq![0u8, 0u8, 0u8, data@[i]],
{
    let mut out: Vec<[u8; 4]> = Vec::new();
    let mut i: usize = 0;
    while i < data.len()
        invariant
            i <= data@.len(),
            out@.len() == i,
            forall|j: int| 0 <= j < i ==> #[trigger] out@[j]@ == seq![0u8, 0u8, 0u8, data@[j]],
        decreases data@.len() - i,
    {
        let px: [u8; 4] = [0, 0, 0, data[i]];
        assert(px@ =~= seq![0u8, 0u8, 0u8, data@[i as int]]);
        out.push(px);
        i += 1;
    }
    out
}

/// Prepares the texture write for one upload of the atlas: its region and
/// its RGBA pixels. Fails with `TextureUploadError` where the rectangle does
/// not lie within the texture or the bytes do not cover it one per pixel.
pub fn prepare_upload(rect: AtlasRect, data: &[u8]) -> (r: Result<TextureUpload, CacheError>)
    ensures
        match r {
            Ok(u) => {
                &&& upload_fits(rect, data@.len() as int)
                &&& u.region == (TextureRegion {
                    x_offset: rect.min_x as u16,
                    y_offset: rect.min_y as u16,
                    width: (rect.max_x - rect.min_x) as u16,
                    height: (rect.max_y - rect.min_y) as u16,
                })
                &&& u.pixels@.len() == data@.len()
                &&& forall|i: int|
                    0 <= i < data@.len() ==> #[trigger] u.pixels@[i]@ == seq![
                        0u8,
                        0u8,
                        0u8,
                        data@[i],
                    ]
            },
            Err(e) => e == CacheError::TextureUploadError && !upload_fits(rect, data@.len() as int),
        },
{
    if rect.min_x > rect.max_x || rect.max_x > MAX_TEXEL || rect.min_y > rect.max_y || rect.max_y
        > MAX_TEXEL {
        return Err(CacheError::TextureUploadError);
    }
    let w: u32 = rect.max_x - rect.min_x;
    let h: u32 = rect.max_y - rect.min_y;
    assert(w * h <= 0xffff * 0xffff) by (nonlinear_arith)
        requires
            w <= 0xffff,
            h <= 0xffff,
    ;
    let area: u64 = (w as u64) * (h as u64);
    if data.len() as u64 != area {
        return Err(CacheError::TextureUploadError);
    }
    let region = TextureRegion {
        x_offset: rect.min_x as u16,
        y_offset: rect.min_y as u16,
        width: w as u16,
        height: h as u16,
    };
    Ok(TextureUpload { region, pixels: coverage_to_rgba(data) })
}

} // verus!
