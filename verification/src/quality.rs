//! Quality tiers: presets trading resolution, recursion depth, shadow cost
//! and refraction for throughput.

use vstd::prelude::*;
use crate::fx::SCALE;

verus! {

/// One preset of the quality table. `resolution_scale` and
/// `shadow_quality` are fixed-point fractions in `(0, 1]` and `[0, 1]`.
#[derive(Clone, Copy, Debug)]
pub struct QualitySettings {
    pub resolution_scale: i64,
    pub max_ray_depth: u32,
    pub shadow_quality: i64,
    pub enable_refraction: bool,
}

impl QualitySettings {
    pub open spec fn wf(self) -> bool {
        &&& 0 < self.resolution_scale <= SCALE
        &&& 0 <= self.shadow_quality <= SCALE
        &&& self.max_ray_depth <= 1000
    }

    /// Full resolution, deep recursion, full shadows, refraction on.
    pub fn ultra() -> (r: QualitySettings)
        ensures
            r == (QualitySettings {
                resolution_scale: 65536i64,
                max_ray_depth: 4u32,
                shadow_quality: 65536i64,
                enable_refraction: true,
            }),
            r.wf(),
    {
        QualitySettings {
            resolution_scale: 65536,
            max_ray_depth: 4,
            shadow_quality: 65536,
            enable_refraction: true,
        }
    }

    pub fn high() -> (r: QualitySettings)
        ensures
            r == (QualitySettings {
                resolution_scale: 49152i64,
                max_ray_depth: 2u32,
                shadow_quality: 65536i64,
                enable_refraction: false,
            }),
            r.wf(),
    {
        QualitySettings {
            resolution_scale: 49152,
            max_ray_depth: 2,
            shadow_quality: 65536,
            enable_refraction: false,
        }
    }

    pub fn medium() -> (r: QualitySettings)
        ensures
            r == (QualitySettings {
                resolution_scale: 32768i64,
                max_ray_depth: 1u32,
                shadow_quality: 45875i64,
                enable_refraction: false,
            }),
            r.wf(),
    {
        QualitySettings {
            resolution_scale: 32768,
            max_ray_depth: 1,
            shadow_quality: 45875,
            enable_refraction: false,
        }
    }

    pub fn low() -> (r: QualitySettings)
        ensures
            r == (QualitySettings {
                resolution_scale: 21627i64,
                max_ray_depth: 1u32,
                shadow_quality: 19661i64,
                enable_refraction: false,
            }),
            r.wf(),
    {
        QualitySettings {
            resolution_scale: 21627,
            max_ray_depth: 1,
            shadow_quality: 19661,
            enable_refraction: false,
        }
    }

    /// The cheapest tier: quarter-ish resolution, no recursion, no shadows.
    pub fn potato() -> (r: QualitySettings)
        ensures
            r == (QualitySettings {
                resolution_scale: 9830i64,
                max_ray_depth: 0u32,
                shadow_quality: 0i64,
                enable_refraction: false,
            }),
            r.wf(),
    {
        QualitySettings {
            resolution_scale: 9830,
            max_ray_depth: 0,
            shadow_quality: 0,
            enable_refraction: false,
        }
    }
}

} // verus!
