//! Decoded textures and deterministic, clamped-edge sampling.
//!
//! Decoding image files is the asset-loading collaborator's job; the
//! renderer only holds the decoded pixels and samples them. An unknown
//! texture never fails a frame: it samples as opaque white.

use vstd::prelude::*;
use crate::fx::{fclamp, tdiv, SCALE};
use crate::vec3::Vec3;

verus! {

/// Largest accepted texture edge, in pixels.
pub const MAX_TEXTURE_DIM: usize = 4096;

/// A decoded image: row-major pixels as linear fixed-point colors.
#[derive(Clone, Debug)]
pub struct CpuTexture {
    pub width: usize,
    pub height: usize,
    pub pixels: Vec<Vec3>,
}

impl CpuTexture {
    pub open spec fn wf(self) -> bool {
        &&& 0 < self.width <= MAX_TEXTURE_DIM
        &&& 0 < self.height <= MAX_TEXTURE_DIM
        &&& self.pixels@.len() == self.width * self.height
        &&& forall|i: int| 0 <= i < self.pixels@.len() ==> (#[trigger] self.pixels@[i]).wf()
    }

    /// Builds a texture from decoded row-major pixels.
    pub fn from_pixels(width: usize, height: usize, pixels: Vec<Vec3>) -> (r: CpuTexture)
        requires
            0 < width <= MAX_TEXTURE_DIM,
            0 < height <= MAX_TEXTURE_DIM,
            pixels@.len() == width * height,
            forall|i: int| 0 <= i < pixels@.len() ==> (#[trigger] pixels@[i]).wf(),
        ensures
            r.width == width,
            r.height == height,
            r.pixels == pixels,
            r.wf(),
    {
        CpuTexture { width, height, pixels }
    }
}

/// A texture coordinate scaled to a pixel row or column: truncated and
/// clamped to the edge (no wrap-around).
pub open spec fn spec_texel_index(c: int, dim: int) -> int {
    fclamp(tdiv(c * dim, SCALE as int), 0, dim - 1)
}

/// Opaque white, the fallback color for anything unresolved.
pub open spec fn spec_white() -> Vec3 {
    Vec3 { x: SCALE, y: SCALE, z: SCALE }
}

/// The sample of one texture at `(u, v)`: clamped-edge lookup of the
/// row-major pixel, white if the pixel index were somehow out of range.
pub open spec fn spec_sample(t: CpuTexture, u: int, v: int) -> Vec3 {
    let x = spec_texel_index(u, t.width as int);
    let y = spec_texel_index(v, t.height as int);
    let index = y * t.width + x;
    if 0 <= index < t.pixels@.len() {
        t.pixels@[index]
    } else {
        spec_white()
    }
}

/// The renderer's texture table, indexed by the identifiers materials
/// carry.
#[derive(Debug)]
pub struct TextureManager {
    pub textures: Vec<CpuTexture>,
}

/// The color `get_pixel_color` yields: a clamped-edge sample, or white
/// when the identifier resolves to no texture.
pub open spec fn spec_pixel_color(tm: TextureManager, id: int, u: int, v: int) -> Vec3 {
    if 0 <= id < tm.textures@.len() {
        spec_sample(tm.textures@[id], u, v)
    } else {
        spec_white()
    }
}

impl TextureManager {
    pub open spec fn wf(self) -> bool {
        forall|i: int| 0 <= i < self.textures@.len() ==> (#[trigger] self.textures@[i]).wf()
    }

    pub fn new() -> (r: TextureManager)
        ensures
            r.textures@.len() == 0,
            r.wf(),
    {
        TextureManager { textures: Vec::new() }
    }

    /// Registers a decoded texture; the returned identifier is what a
    /// material's `texture_id` refers to.
    pub fn add_texture(&mut self, t: CpuTexture) -> (id: usize)
        requires
            t.wf(),
        ensures
            final(self).textures@ == old(self).textures@.push(t),
            id == old(self).textures@.len(),
            final(self).wf() <== old(self).wf(),
    {
        let id = self.textures.len();
        self.textures.push(t);
        id
    }

    pub fn len(&self) -> (n: usize)
        ensures
            n == self.textures@.len(),
    {
        self.textures.len()
    }

    /// Deterministic clamped-edge lookup; an unknown identifier falls back
    /// to opaque white rather than failing the frame.
    pub fn get_pixel_color(&self, id: usize, u: i64, v: i64) -> (r: Vec3)
        requires
            self.wf(),
        ensures
            r == spec_pixel_color(*self, id as int, u as int, v as int),
            r.wf(),
    {
        if id >= self.textures.len() {
            return Vec3 { x: SCALE, y: SCALE, z: SCALE };
        }
        let t = &self.textures[id];
        let x = texel_index(u, t.width);
        let y = texel_index(v, t.height);
        proof {
            assert(y * t.width + x < t.height * t.width
                && y * t.width + x <= 4096 * 4096) by (nonlinear_arith)
                requires
                    0 <= x < t.width,
                    0 <= y < t.height,
                    t.width <= 4096,
                    t.height <= 4096,
            ;
        }
        let index: usize = y * t.width + x;
        if index < t.pixels.len() {
            t.pixels[index]
        } else {
            Vec3 { x: SCALE, y: SCALE, z: SCALE }
        }
    }
}

/// One texture coordinate to a pixel index, truncating toward zero and
/// clamping to the edge.
fn texel_index(c: i64, dim: usize) -> (r: usize)
    requires
        0 < dim <= MAX_TEXTURE_DIM,
    ensures
        r == spec_texel_index(c as int, dim as int),
        r < dim,
{
    proof {
        assert(i64::MIN * 4096 <= c as int * dim as int <= i64::MAX * 4096) by (nonlinear_arith)
            requires
                i64::MIN <= c as int <= i64::MAX,
                0 < dim as int <= 4096,
        ;
    }
    let p: i128 = (c as i128) * (dim as i128);
    let pm: i128 = if p >= 0 { p } else { -p };
    let qm: i128 = pm / (SCALE as i128);
    let q: i128 = if p >= 0 { qm } else { -qm };
    if q < 0 {
        0
    } else if q > (dim - 1) as i128 {
        dim - 1
    } else {
        q as usize
    }
}

impl Default for TextureManager {
    /// The empty texture table.
    fn default() -> (r: TextureManager)
        ensures
            r.textures@.len() == 0,
            r.wf(),
    {
        TextureManager { textures: Vec::new() }
    }
}

} // verus!
