//! Per-surface optical properties, and color output conversion.

use vstd::prelude::*;
use crate::fx::{fclamp, in_range, tdiv, SCALE};
use crate::vec3::Vec3;

verus! {

/// Optical description of a cube face's surface.
///
/// `albedo` holds the four blend weights `[diffuse, specular, reflective,
/// transmissive]`; they are caller-defined and need not sum to one. A
/// `texture_id` indexes the renderer's texture table; `None` means the flat
/// `diffuse` color is used. A material with `glow` set is drawn brighter
/// and with a constant additive term, independent of incident light.
#[derive(Clone, Copy, Debug)]
pub struct Material {
    pub diffuse: Vec3,
    pub albedo: [i64; 4],
    pub specular: i64,
    pub refractive_index: i64,
    pub texture_id: Option<usize>,
    pub glow: bool,
    pub emission: Vec3,
    pub emission_strength: i64,
}

impl Material {
    /// Color channels are non-negative; every scalar is a representable
    /// fixed-point value.
    pub open spec fn wf(self) -> bool {
        &&& self.diffuse.wf()
        &&& self.diffuse.x >= 0 && self.diffuse.y >= 0 && self.diffuse.z >= 0
        &&& self.emission.wf()
        &&& self.emission.x >= 0 && self.emission.y >= 0 && self.emission.z >= 0
        &&& in_range(self.albedo[0] as int) && in_range(self.albedo[1] as int)
        &&& in_range(self.albedo[2] as int) && in_range(self.albedo[3] as int)
        &&& 0 <= self.specular <= 134217728
        &&& in_range(self.refractive_index as int)
        &&& 0 <= self.emission_strength && in_range(self.emission_strength as int)
    }

    /// A non-emissive surface.
    pub fn new(
        diffuse: Vec3,
        specular: i64,
        albedo: [i64; 4],
        refractive_index: i64,
        texture_id: Option<usize>,
    ) -> (r: Material)
        requires
            diffuse.wf(),
            diffuse.x >= 0 && diffuse.y >= 0 && diffuse.z >= 0,
            0 <= specular <= 134217728,
            in_range(albedo[0] as int) && in_range(albedo[1] as int),
            in_range(albedo[2] as int) && in_range(albedo[3] as int),
            in_range(refractive_index as int),
        ensures
            r == (Material {
                diffuse,
                albedo,
                specular,
                refractive_index,
                texture_id,
                glow: false,
                emission: Vec3 { x: 0, y: 0, z: 0 },
                emission_strength: 0,
            }),
            r.wf(),
    {
        Material {
            diffuse,
            albedo,
            specular,
            refractive_index,
            texture_id,
            glow: false,
            emission: Vec3 { x: 0, y: 0, z: 0 },
            emission_strength: 0,
        }
    }

    /// A self-illuminating surface.
    pub fn new_emissive(
        diffuse: Vec3,
        specular: i64,
        albedo: [i64; 4],
        refractive_index: i64,
        texture_id: Option<usize>,
        emission: Vec3,
        emission_strength: i64,
    ) -> (r: Material)
        requires
            diffuse.wf(),
            diffuse.x >= 0 && diffuse.y >= 0 && diffuse.z >= 0,
            emission.wf(),
            emission.x >= 0 && emission.y >= 0 && emission.z >= 0,
            0 <= specular <= 134217728,
            in_range(albedo[0] as int) && in_range(albedo[1] as int),
            in_range(albedo[2] as int) && in_range(albedo[3] as int),
            in_range(refractive_index as int),
            0 <= emission_strength && in_range(emission_strength as int),
        ensures
            r == (Material {
                diffuse,
                albedo,
                specular,
                refractive_index,
                texture_id,
                glow: false,
                emission,
                emission_strength,
            }),
            r.wf(),
    {
        Material {
            diffuse,
            albedo,
            specular,
            refractive_index,
            texture_id,
            glow: false,
            emission,
            emission_strength,
        }
    }

    /// The inert black material, used as the empty-hit placeholder.
    pub fn black() -> (r: Material)
        ensures
            r == (Material {
                diffuse: Vec3 { x: 0, y: 0, z: 0 },
                albedo: [0i64, 0i64, 0i64, 0i64],
                specular: 0,
                refractive_index: 0,
                texture_id: None::<usize>,
                glow: false,
                emission: Vec3 { x: 0, y: 0, z: 0 },
                emission_strength: 0,
            }),
            r.wf(),
    {
        Material {
            diffuse: Vec3 { x: 0, y: 0, z: 0 },
            albedo: [0i64, 0i64, 0i64, 0i64],
            specular: 0,
            refractive_index: 0,
            texture_id: None,
            glow: false,
            emission: Vec3 { x: 0, y: 0, z: 0 },
            emission_strength: 0,
        }
    }

    /// Marks the surface as glowing (the boosted, additively lit look).
    pub fn with_glow(self) -> (r: Material)
        ensures
            r == (Material { glow: true, ..self }),
    {
        Material { glow: true, ..self }
    }
}

/// A display pixel: one byte per channel.
#[derive(Clone, Copy, Debug, PartialEq, Eq, Structural)]
pub struct Rgb8 {
    pub r: u8,
    pub g: u8,
    pub b: u8,
}

/// One linear fixed-point channel scaled to a byte and clamped.
pub open spec fn spec_channel_to_u8(x: int) -> u8 {
    fclamp(tdiv(x * 255, SCALE as int), 0, 255) as u8
}

pub fn channel_to_u8(x: i64) -> (r: u8)
    ensures
        r == spec_channel_to_u8(x as int),
{
    proof {
        assert(i128::MIN <= x as int * 255 <= i128::MAX) by (nonlinear_arith)
            requires i64::MIN <= x as int <= i64::MAX,
        ;
    }
    let p: i128 = (x as i128) * 255;
    let pm: i128 = if p >= 0 { p } else { -p };
    let qm: i128 = pm / (SCALE as i128);
    let q: i128 = if p >= 0 { qm } else { -qm };
    if q < 0 {
        0
    } else if q > 255 {
        255
    } else {
        q as u8
    }
}

/// The color of one rendered pixel as bytes, each channel scaled by 255 and
/// clamped to `[0, 255]`.
pub open spec fn spec_vector3_to_color(v: Vec3) -> Rgb8 {
    Rgb8 {
        r: spec_channel_to_u8(v.x as int),
        g: spec_channel_to_u8(v.y as int),
        b: spec_channel_to_u8(v.z as int),
    }
}

pub fn vector3_to_color(v: Vec3) -> (r: Rgb8)
    ensures
        r == spec_vector3_to_color(v),
{
    Rgb8 { r: channel_to_u8(v.x), g: channel_to_u8(v.y), b: channel_to_u8(v.z) }
}

} // verus!
