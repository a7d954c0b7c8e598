use voxeltrace::camera::{Camera, PITCH_CLAMP};
use voxeltrace::cube::Cube;
use voxeltrace::fx::{HALF_PI_FX, SCALE};
use voxeltrace::light::{EmissiveSource, Light};
use voxeltrace::material::Material;
use voxeltrace::quality::QualitySettings;
use voxeltrace::render::{render, Framebuffer};
use voxeltrace::textures::TextureManager;
use voxeltrace::vec3::Vec3;

fn looking_down_z() -> Camera {
    // yaw of a quarter turn puts the eye on the positive z axis.
    Camera::new(
        Vec3::zero(),
        8 * SCALE,
        HALF_PI_FX,
        0,
        Vec3::new(0, SCALE, 0),
    )
}

fn plain_material() -> Material {
    Material::new(Vec3::new(SCALE, 0, 0), 8 * SCALE, [SCALE, 0, 0, 0], 0, None)
}

fn unit_cube_at(x: i64, y: i64, z: i64) -> Cube {
    Cube::new(
        Vec3::new(x, y, z),
        Vec3::new(SCALE / 2, SCALE / 2, SCALE / 2),
        plain_material(),
    )
}

#[test]
fn camera_basis_is_consistent() {
    let cam = looking_down_z();
    // The eye sits (almost exactly) eight units along +z; the basis looks
    // back down -z with +x right and +y up.
    assert!(cam.eye.z > 8 * SCALE - 64 && cam.eye.z <= 8 * SCALE);
    assert!(cam.eye.x.abs() < 64 && cam.eye.y.abs() < 64);
    assert!(cam.forward.z < -SCALE + 64);
    assert!(cam.right.x > SCALE - 64);
    assert!(cam.up.y > SCALE - 64);
}

#[test]
fn orbit_round_trip_restores_eye() {
    let mut cam = looking_down_z();
    let start = cam.eye;
    let (yaw, pitch) = (9000, -7000);
    cam.orbit(yaw, pitch);
    assert_ne!(cam.eye, start);
    cam.orbit(-yaw, -pitch);
    // Within the clamp, the round trip is exact.
    assert_eq!(cam.eye, start);
    assert_eq!(cam.yaw, HALF_PI_FX);
    assert_eq!(cam.pitch, 0);
}

#[test]
fn orbit_pitch_saturates_at_clamp() {
    let mut cam = looking_down_z();
    cam.orbit(0, 10 * SCALE);
    assert_eq!(cam.pitch, PITCH_CLAMP);
    // Pushing further holds it there rather than wrapping.
    cam.orbit(0, SCALE);
    assert_eq!(cam.pitch, PITCH_CLAMP);
    cam.orbit(0, -30 * SCALE);
    assert_eq!(cam.pitch, -PITCH_CLAMP);
}

#[test]
fn zoom_shortens_radius_and_pan_translates() {
    let mut cam = looking_down_z();
    cam.zoom(2 * SCALE);
    assert_eq!(cam.radius, 6 * SCALE);
    let eye_before = cam.eye;
    cam.move_vertical(3 * SCALE);
    assert_eq!(cam.center, Vec3::new(0, 3 * SCALE, 0));
    assert_eq!(cam.eye.y, eye_before.y + 3 * SCALE);
    assert_eq!(cam.eye.x, eye_before.x);
    assert_eq!(cam.eye.z, eye_before.z);
}

#[test]
fn is_changed_reports_once_per_mutation() {
    let mut cam = looking_down_z();
    assert!(cam.is_changed());
    assert!(!cam.is_changed());
    cam.orbit(100, 0);
    assert!(cam.is_changed());
    assert!(!cam.is_changed());
}

#[test]
fn basis_change_maps_camera_axes() {
    let cam = looking_down_z();
    // The camera looks down its negative third axis.
    let world = cam.basis_change(&Vec3::new(0, 0, -SCALE));
    assert!(world.z < -SCALE + 128);
    let right = cam.basis_change(&Vec3::new(SCALE, 0, 0));
    assert!(right.x > SCALE - 128);
}

#[test]
fn framebuffer_starts_black_and_takes_pixels() {
    let mut fb = Framebuffer::new(3, 2);
    assert_eq!(fb.width, 3);
    assert_eq!(fb.height, 2);
    assert_eq!(fb.pixels.len(), 6);
    assert!(fb.pixels.iter().all(|p| p.r == 0 && p.g == 0 && p.b == 0));
    fb.set_pixel_color(2, 1, voxeltrace::material::Rgb8 { r: 9, g: 8, b: 7 });
    assert_eq!(fb.pixels[5], voxeltrace::material::Rgb8 { r: 9, g: 8, b: 7 });
}

#[test]
fn end_to_end_small_frame_backgrounds_and_hits() {
    // Three disjoint unit cubes in a row and one point light above; a
    // 4x4 frame at the lowest tier (depth 0, shadows off).
    let objects = vec![
        unit_cube_at(-2 * SCALE, 0, 0),
        unit_cube_at(0, 0, 0),
        unit_cube_at(2 * SCALE, 0, 0),
    ];
    let no_objects: Vec<Cube> = vec![];
    let no_sources: Vec<EmissiveSource> = vec![];
    let cam = looking_down_z();
    let light = Light::new(
        Vec3::new(0, 10 * SCALE, 0),
        Vec3::new(SCALE, SCALE, SCALE),
        2 * SCALE,
    );
    let tm = TextureManager::new();
    let q = QualitySettings::potato();

    let mut frame = Framebuffer::new(4, 4);
    render(&mut frame, &objects, &no_sources, &cam, &light, &tm, &q);
    let mut background = Framebuffer::new(4, 4);
    render(&mut background, &no_objects, &no_sources, &cam, &light, &tm, &q);

    // Corner rays leave the scene: those pixels equal the background.
    for idx in [0usize, 3, 12, 15] {
        assert_eq!(frame.pixels[idx], background.pixels[idx]);
    }
    // Center rays strike the middle cube: shaded, not background.
    let mut hits = 0;
    for idx in 0..16 {
        if frame.pixels[idx] != background.pixels[idx] {
            hits += 1;
        }
    }
    assert!(hits >= 2, "some pixels must cover the cubes, got {}", hits);

    // With opaque, non-reflective materials the image is independent of
    // the recursion depth: no recursive terms reach these pixels.
    let deeper = QualitySettings {
        resolution_scale: q.resolution_scale,
        max_ray_depth: 3,
        shadow_quality: 0,
        enable_refraction: false,
    };
    let mut frame_deep = Framebuffer::new(4, 4);
    render(&mut frame_deep, &objects, &no_sources, &cam, &light, &tm, &deeper);
    for idx in 0..16 {
        assert_eq!(frame.pixels[idx], frame_deep.pixels[idx]);
    }
}
