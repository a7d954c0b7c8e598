//! The orbiting camera: spherical orbit state around a look-at center,
//! with the derived eye position and orthonormal view basis recomputed
//! after every mutation.

use vstd::prelude::*;
use crate::fx::{
    fadd, fclamp, fcos, fmul, fsin, fsub, fx_add, fx_clamp, fx_cos, fx_mul, fx_sin, fx_sub,
    in_range,
};
use crate::vec3::Vec3;

verus! {

/// Pitch saturates here, just under a quarter turn, keeping the orbit
/// away from the poles (±1.5 radians).
pub const PITCH_CLAMP: i64 = 98304;

/// Orbit state (`center`, `radius`, `yaw`, `pitch`, reference up) plus
/// the derived eye and basis, kept consistent on every write.
#[derive(Clone, Copy, Debug)]
pub struct Camera {
    pub center: Vec3,
    pub radius: i64,
    pub yaw: i64,
    pub pitch: i64,
    pub up_ref: Vec3,
    pub eye: Vec3,
    pub forward: Vec3,
    pub right: Vec3,
    pub up: Vec3,
    pub changed: bool,
}

/// The eye position of the given orbit state: the center plus the
/// spherical offset of `radius` under `yaw` and `pitch`.
pub open spec fn spec_eye(center: Vec3, radius: int, yaw: int, pitch: int) -> Vec3 {
    let cp = fcos(pitch);
    Vec3::spec_add(
        center,
        Vec3 {
            x: fmul(fmul(radius, cp), fcos(yaw)) as i64,
            y: fmul(radius, fsin(pitch)) as i64,
            z: fmul(fmul(radius, cp), fsin(yaw)) as i64,
        },
    )
}

/// The view basis: `forward` toward the center, `right` and `up` made
/// orthogonal from the reference up.
pub open spec fn spec_basis(center: Vec3, eye: Vec3, up_ref: Vec3) -> (Vec3, Vec3, Vec3) {
    let forward = Vec3::spec_normalized(Vec3::spec_sub(center, eye));
    let right = Vec3::spec_normalized(Vec3::spec_cross(forward, up_ref));
    let up = Vec3::spec_cross(right, forward);
    (forward, right, up)
}

/// The camera with its derived fields recomputed from the orbit state,
/// marked changed.
pub open spec fn spec_with_derived(c: Camera) -> Camera {
    let eye = spec_eye(c.center, c.radius as int, c.yaw as int, c.pitch as int);
    let basis = spec_basis(c.center, eye, c.up_ref);
    Camera {
        eye,
        forward: basis.0,
        right: basis.1,
        up: basis.2,
        changed: true,
        ..c
    }
}

/// One orbit step: add the yaw delta, add and clamp the pitch delta,
/// rebuild eye and basis.
pub open spec fn spec_orbit(c: Camera, yaw_delta: int, pitch_delta: int) -> Camera {
    spec_with_derived(Camera {
        yaw: fadd(c.yaw as int, yaw_delta) as i64,
        pitch: fclamp(
            fadd(c.pitch as int, pitch_delta),
            -(PITCH_CLAMP as int),
            PITCH_CLAMP as int,
        ) as i64,
        ..c
    })
}

/// One zoom step: shorten the orbit radius by the delta.
pub open spec fn spec_zoom(c: Camera, delta: int) -> Camera {
    spec_with_derived(Camera { radius: fsub(c.radius as int, delta) as i64, ..c })
}

/// One vertical pan: translate the center (and with it the eye).
pub open spec fn spec_move_vertical(c: Camera, delta: int) -> Camera {
    spec_with_derived(Camera {
        center: Vec3 { y: fadd(c.center.y as int, delta) as i64, ..c.center },
        ..c
    })
}

impl Camera {
    /// The orbit state is representable, pitch is within the clamp, and
    /// the derived fields agree with it.
    pub open spec fn wf(self) -> bool {
        &&& self.center.wf()
        &&& self.up_ref.wf()
        &&& in_range(self.radius as int)
        &&& in_range(self.yaw as int)
        &&& -PITCH_CLAMP <= self.pitch <= PITCH_CLAMP
        &&& self.eye == spec_eye(self.center, self.radius as int, self.yaw as int,
            self.pitch as int)
        &&& (self.forward, self.right, self.up) == spec_basis(self.center, self.eye, self.up_ref)
    }

    /// A camera orbiting `center` at `radius` under `yaw` and `pitch`
    /// (clamped), with `up` as the approximate reference up direction.
    pub fn new(center: Vec3, radius: i64, yaw: i64, pitch: i64, up: Vec3) -> (r: Camera)
        requires
            center.wf(),
            up.wf(),
            in_range(radius as int),
            in_range(yaw as int),
        ensures
            r.center == center,
            r.radius == radius,
            r.yaw == yaw,
            r.pitch == fclamp(pitch as int, -(PITCH_CLAMP as int), PITCH_CLAMP as int),
            r.up_ref == up,
            r.changed,
            r.wf(),
    {
        let mut camera = Camera {
            center,
            radius,
            yaw,
            pitch: fx_clamp(pitch, -PITCH_CLAMP, PITCH_CLAMP),
            up_ref: up,
            eye: Vec3 { x: 0, y: 0, z: 0 },
            forward: Vec3 { x: 0, y: 0, z: 0 },
            right: Vec3 { x: 0, y: 0, z: 0 },
            up: Vec3 { x: 0, y: 0, z: 0 },
            changed: true,
        };
        camera.update_basis_vectors();
        camera
    }

    /// Recomputes the eye and the orthonormal view basis from the orbit
    /// state; run after every mutation so the basis is never stale.
    pub fn update_basis_vectors(&mut self)
        requires
            old(self).center.wf(),
            old(self).up_ref.wf(),
        ensures
            *final(self) == spec_with_derived(*old(self)),
    {
        let cp = fx_cos(self.pitch);
        let rel = Vec3 {
            x: fx_mul(fx_mul(self.radius, cp), fx_cos(self.yaw)),
            y: fx_mul(self.radius, fx_sin(self.pitch)),
            z: fx_mul(fx_mul(self.radius, cp), fx_sin(self.yaw)),
        };
        self.eye = self.center.add(rel);
        self.forward = self.center.sub(self.eye).normalized();
        self.right = self.forward.cross(self.up_ref).normalized();
        self.up = self.right.cross(self.forward);
        self.changed = true;
    }

    /// Adds the yaw and pitch deltas (pitch saturating at the clamp) and
    /// rebuilds the derived state.
    pub fn orbit(&mut self, yaw: i64, pitch: i64)
        requires
            old(self).wf(),
        ensures
            *final(self) == spec_orbit(*old(self), yaw as int, pitch as int),
            final(self).wf(),
    {
        self.yaw = fx_add(self.yaw, yaw);
        self.pitch = fx_clamp(fx_add(self.pitch, pitch), -PITCH_CLAMP, PITCH_CLAMP);
        self.update_basis_vectors();
    }

    /// Moves the eye toward the center by `delta` (negative zooms out).
    pub fn zoom(&mut self, delta: i64)
        requires
            old(self).wf(),
        ensures
            *final(self) == spec_zoom(*old(self), delta as int),
            final(self).wf(),
    {
        self.radius = fx_sub(self.radius, delta);
        self.update_basis_vectors();
    }

    /// Translates the whole orbit (center and eye) vertically.
    pub fn move_vertical(&mut self, delta: i64)
        requires
            old(self).wf(),
        ensures
            *final(self) == spec_move_vertical(*old(self), delta as int),
            final(self).wf(),
    {
        self.center = Vec3 { x: self.center.x, y: fx_add(self.center.y, delta), z: self.center.z };
        self.update_basis_vectors();
    }

    /// True at most once per mutation: reports and consumes the dirty
    /// flag, so the caller can skip redrawing an unchanged view.
    pub fn is_changed(&mut self) -> (r: bool)
        ensures
            r == old(self).changed,
            *final(self) == (Camera { changed: false, ..*old(self) }),
    {
        if self.changed {
            self.changed = false;
            true
        } else {
            false
        }
    }

    /// A camera-space direction taken to world space through the view
    /// basis (the camera looks down its negative third axis).
    pub open spec fn spec_basis_change(self, v: Vec3) -> Vec3 {
        Vec3 {
            x: fsub(
                fadd(fmul(v.x as int, self.right.x as int), fmul(v.y as int, self.up.x as int)),
                fmul(v.z as int, self.forward.x as int),
            ) as i64,
            y: fsub(
                fadd(fmul(v.x as int, self.right.y as int), fmul(v.y as int, self.up.y as int)),
                fmul(v.z as int, self.forward.y as int),
            ) as i64,
            z: fsub(
                fadd(fmul(v.x as int, self.right.z as int), fmul(v.y as int, self.up.z as int)),
                fmul(v.z as int, self.forward.z as int),
            ) as i64,
        }
    }

    pub fn basis_change(&self, v: &Vec3) -> (r: Vec3)
        ensures
            r == self.spec_basis_change(*v),
            r.wf(),
    {
        Vec3 {
            x: fx_sub(
                fx_add(fx_mul(v.x, self.right.x), fx_mul(v.y, self.up.x)),
                fx_mul(v.z, self.forward.x),
            ),
            y: fx_sub(
                fx_add(fx_mul(v.x, self.right.y), fx_mul(v.y, self.up.y)),
                fx_mul(v.z, self.forward.y),
            ),
            z: fx_sub(
                fx_add(fx_mul(v.x, self.right.z), fx_mul(v.y, self.up.z)),
                fx_mul(v.z, self.forward.z),
            ),
        }
    }
}

/// Orbiting by some deltas and then by their negations restores the
/// camera — eye, orbit state and basis — exactly, as long as neither
/// step saturates the yaw range or the pitch clamp.
pub proof fn lemma_orbit_round_trip(c: Camera, yaw: int, pitch: int)
    requires
        c.wf(),
        in_range(c.yaw + yaw),
        -PITCH_CLAMP <= c.pitch + pitch <= PITCH_CLAMP,
    ensures
        spec_orbit(spec_orbit(c, yaw, pitch), -yaw, -pitch) == (Camera { changed: true, ..c }),
{
    let c1 = spec_orbit(c, yaw, pitch);
    assert(c1.yaw == c.yaw + yaw);
    assert(c1.pitch == c.pitch + pitch);
    let c2 = spec_orbit(c1, -yaw, -pitch);
    assert(c2.yaw == c.yaw);
    assert(c2.pitch == c.pitch);
    assert(c2.center == c.center && c2.radius == c.radius && c2.up_ref == c.up_ref);
    assert(c2.eye == c.eye);
    assert(c2.forward == c.forward && c2.right == c.right && c2.up == c.up);
}

} // verus!
