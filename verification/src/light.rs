//! The primary light, and the secondary lights derived from emissive
//! primitives at scene-build time.

use vstd::prelude::*;
use crate::cube::Cube;
use crate::fx::{fclamp, fmax, fmul, fx_clamp, fx_max, fx_mul, in_range};
use crate::vec3::Vec3;

verus! {

/// Maximum intensity the primary light may be configured with (2.0).
pub const LIGHT_INTENSITY_CAP: i64 = 131072;

/// Strength boost applied to emissive sources (about 1.1).
pub const EMISSIVE_BOOST: i64 = 72090;

/// Factor from a cube's half-extent length to its light radius (9.0).
pub const EMISSIVE_RADIUS_FACTOR: i64 = 589824;

/// Smallest emissive light radius (5.0).
pub const EMISSIVE_RADIUS_MIN: i64 = 327680;

/// The scene's single primary point light.
#[derive(Clone, Copy, Debug)]
pub struct Light {
    pub position: Vec3,
    pub color: Vec3,
    pub intensity: i64,
}

impl Light {
    pub open spec fn wf(self) -> bool {
        &&& self.position.wf()
        &&& self.color.wf()
        &&& self.color.x >= 0 && self.color.y >= 0 && self.color.z >= 0
        &&& 0 <= self.intensity <= LIGHT_INTENSITY_CAP
    }

    /// The configured intensity is clamped to `[0, 2]`.
    pub fn new(position: Vec3, color: Vec3, intensity: i64) -> (r: Light)
        requires
            position.wf(),
            color.wf(),
            color.x >= 0 && color.y >= 0 && color.z >= 0,
        ensures
            r.position == position,
            r.color == color,
            r.intensity == fclamp(intensity as int, 0, LIGHT_INTENSITY_CAP as int),
            r.wf(),
    {
        Light { position, color, intensity: fx_clamp(intensity, 0, LIGHT_INTENSITY_CAP) }
    }
}

/// A secondary light cast by an emissive primitive, with a heuristic
/// influence radius used for cheap culling.
#[derive(Clone, Copy, Debug)]
pub struct EmissiveSource {
    pub position: Vec3,
    pub color: Vec3,
    pub strength: i64,
    pub radius: i64,
}

impl EmissiveSource {
    pub open spec fn wf(self) -> bool {
        &&& self.position.wf()
        &&& self.color.wf()
        &&& in_range(self.strength as int)
        &&& in_range(self.radius as int)
    }
}

/// The source derived from one emissive cube: positioned at its center,
/// boosted strength, radius `max(|half| * 9, 5)`.
pub open spec fn spec_source_of(c: Cube) -> EmissiveSource {
    EmissiveSource {
        position: c.center,
        color: c.material.emission,
        strength: fmul(c.material.emission_strength as int, EMISSIVE_BOOST as int) as i64,
        radius: fmax(
            fmul(Vec3::spec_length(c.half), EMISSIVE_RADIUS_FACTOR as int),
            EMISSIVE_RADIUS_MIN as int,
        ) as i64,
    }
}

/// The emissive sources of a scene, in scene order: one per cube whose
/// material has positive emission strength.
pub open spec fn spec_sources(s: Seq<Cube>) -> Seq<EmissiveSource>
    decreases s.len(),
{
    if s.len() == 0 {
        Seq::empty()
    } else if s.last().material.emission_strength > 0 {
        spec_sources(s.drop_last()).push(spec_source_of(s.last()))
    } else {
        spec_sources(s.drop_last())
    }
}

/// Extracts the emissive cubes of a scene as secondary light sources.
pub fn build_emissive_sources(objects: &Vec<Cube>) -> (r: Vec<EmissiveSource>)
    requires
        forall|i: int| 0 <= i < objects@.len() ==> (#[trigger] objects@[i]).wf(),
    ensures
        r@ == spec_sources(objects@),
        forall|i: int| 0 <= i < r@.len() ==> (#[trigger] r@[i]).wf(),
{
    let mut out: Vec<EmissiveSource> = Vec::new();
    let mut i: usize = 0;
    proof {
        assert(objects@.take(0) =~= Seq::<Cube>::empty());
    }
    while i < objects.len()
        invariant
            i <= objects.len(),
            forall|k: int| 0 <= k < objects@.len() ==> (#[trigger] objects@[k]).wf(),
            out@ == spec_sources(objects@.take(i as int)),
            forall|k: int| 0 <= k < out@.len() ==> (#[trigger] out@[k]).wf(),
        decreases objects.len() - i,
    {
        let c = &objects[i];
        if c.material.emission_strength > 0 {
            let len = c.half.length();
            let radius = fx_max(fx_mul(len, EMISSIVE_RADIUS_FACTOR), EMISSIVE_RADIUS_MIN);
            let strength = fx_mul(c.material.emission_strength, EMISSIVE_BOOST);
            let src = EmissiveSource {
                position: c.center,
                color: c.material.emission,
                strength,
                radius,
            };
            proof {
                assert(src == spec_source_of(objects@[i as int]));
            }
            out.push(src);
        }
        proof {
            assert(objects@.take(i + 1).drop_last() =~= objects@.take(i as int));
            assert(objects@.take(i + 1).last() == objects@[i as int]);
        }
        i = i + 1;
    }
    proof {
        assert(objects@.take(objects@.len() as int) =~= objects@);
    }
    out
}

} // verus!
