use voxeltrace::color::Color;
use voxeltrace::cube::Cube;
use voxeltrace::fx::SCALE;
use voxeltrace::light::{build_emissive_sources, EmissiveSource, Light};
use voxeltrace::material::{vector3_to_color, Material, Rgb8};
use voxeltrace::quality::QualitySettings;
use voxeltrace::shade::{
    calculate_emissive_lighting, cast_ray, cast_shadow, offset_origin, procedural_sky, reflect,
    refract,
};
use voxeltrace::textures::{CpuTexture, TextureManager};
use voxeltrace::vec3::Vec3;

fn plain_material() -> Material {
    Material::new(Vec3::new(SCALE, 0, 0), 8 * SCALE, [SCALE, 0, 0, 0], 0, None)
}

fn unit_cube_at(x: i64, y: i64, z: i64) -> Cube {
    Cube::new(
        Vec3::new(x, y, z),
        Vec3::new(SCALE / 2, SCALE / 2, SCALE / 2),
        plain_material(),
    )
}

fn white_light_at(p: Vec3) -> Light {
    Light::new(p, Vec3::new(SCALE, SCALE, SCALE), 2 * SCALE)
}

#[test]
fn light_intensity_is_clamped() {
    let l = Light::new(Vec3::zero(), Vec3::new(SCALE, SCALE, SCALE), 3 * SCALE);
    assert_eq!(l.intensity, 2 * SCALE);
    let l2 = Light::new(Vec3::zero(), Vec3::new(SCALE, SCALE, SCALE), -5);
    assert_eq!(l2.intensity, 0);
}

#[test]
fn reflect_mirrors_about_normal() {
    let down = Vec3::new(0, -SCALE, 0);
    let up = Vec3::new(0, SCALE, 0);
    assert_eq!(reflect(&down, &up), Vec3::new(0, SCALE, 0));
}

#[test]
fn refract_straight_through() {
    let down = Vec3::new(0, -SCALE, 0);
    let up = Vec3::new(0, SCALE, 0);
    let r = refract(&down, &up, 98304).expect("head-on refraction goes through");
    assert_eq!(r, Vec3::new(0, -SCALE, 0));
}

#[test]
fn refract_rejects_nonpositive_index() {
    let down = Vec3::new(0, -SCALE, 0);
    let up = Vec3::new(0, SCALE, 0);
    assert!(refract(&down, &up, 0).is_none());
    assert!(refract(&down, &up, -SCALE).is_none());
}

#[test]
fn refract_total_internal_reflection_is_none() {
    // Leaving a dense medium at 45 degrees: the refracted ray vanishes.
    let i = Vec3::new(46341, 46341, 0);
    let n = Vec3::new(0, SCALE, 0);
    assert!(refract(&i, &n, 98304).is_none());
}

#[test]
fn offset_origin_pushes_off_the_surface() {
    let c = unit_cube_at(0, 0, 0);
    let ro = Vec3::new(0, 4 * SCALE, 0);
    let hit = c.ray_intersect(&ro, &Vec3::new(0, -SCALE, 0));
    assert!(hit.is_intersecting);
    // Toward a direction leaving upward, the origin is nudged up.
    let up = offset_origin(&hit, &Vec3::new(0, SCALE, 0));
    assert_eq!(up.y, hit.point.y + 7);
    // Toward a direction going down (into the face), it is nudged down.
    let down = offset_origin(&hit, &Vec3::new(0, -SCALE, 0));
    assert_eq!(down.y, hit.point.y - 7);
}

#[test]
fn emissive_sources_built_from_emissive_cubes_only() {
    let dark = unit_cube_at(0, 0, 0);
    let mut glowing = unit_cube_at(2 * SCALE, 0, 0);
    glowing.material = Material::new_emissive(
        Vec3::new(SCALE, SCALE, SCALE),
        5 * SCALE,
        [SCALE, 0, 0, 0],
        0,
        None,
        Vec3::new(SCALE, 21627, 3277),
        2 * SCALE,
    );
    let objects = vec![dark, glowing.clone(), dark];
    let sources = build_emissive_sources(&objects);
    assert_eq!(sources.len(), 1);
    assert_eq!(sources[0].position, Vec3::new(2 * SCALE, 0, 0));
    assert_eq!(sources[0].color, Vec3::new(SCALE, 21627, 3277));
    // Strength boosted by about 1.1, radius max(|half| * 9, 5).
    assert_eq!(sources[0].strength, 144180);
    assert_eq!(sources[0].radius, 510795);
}

#[test]
fn emissive_lighting_single_source_above() {
    let src = EmissiveSource {
        position: Vec3::new(0, 2 * SCALE, 0),
        color: Vec3::new(SCALE, SCALE, SCALE),
        strength: SCALE,
        radius: 5 * SCALE,
    };
    let q = QualitySettings::ultra();
    let r = calculate_emissive_lighting(Vec3::zero(), Vec3::new(0, SCALE, 0), &vec![src], &q);
    assert_eq!(r, Vec3::new(16383, 16383, 16383));
}

#[test]
fn emissive_lighting_outside_radius_is_zero() {
    let src = EmissiveSource {
        position: Vec3::new(0, 20 * SCALE, 0),
        color: Vec3::new(SCALE, SCALE, SCALE),
        strength: SCALE,
        radius: 5 * SCALE,
    };
    let q = QualitySettings::ultra();
    let r = calculate_emissive_lighting(Vec3::zero(), Vec3::new(0, SCALE, 0), &vec![src], &q);
    assert_eq!(r, Vec3::zero());
}

#[test]
fn emissive_lighting_capped_at_low_shadow_quality() {
    // Three identical sources; the low tier sums only the first two.
    let src = EmissiveSource {
        position: Vec3::new(0, 2 * SCALE, 0),
        color: Vec3::new(SCALE, SCALE, SCALE),
        strength: SCALE,
        radius: 5 * SCALE,
    };
    let srcs = vec![src, src, src];
    let low = QualitySettings::low();
    let ultra = QualitySettings::ultra();
    let up = Vec3::new(0, SCALE, 0);
    let r_low = calculate_emissive_lighting(Vec3::zero(), up, &srcs, &low);
    let r_ultra = calculate_emissive_lighting(Vec3::zero(), up, &srcs, &ultra);
    assert_eq!(r_low, Vec3::new(2 * 16383, 2 * 16383, 2 * 16383));
    assert_eq!(r_ultra, Vec3::new(3 * 16383, 3 * 16383, 3 * 16383));
}

#[test]
fn occluder_between_point_and_light_casts_full_shadow() {
    // A floor cube, a point shaded on its top face, the light high above,
    // and an occluder directly between them, closer than the light.
    let floor = unit_cube_at(0, 0, 0);
    let occluder = unit_cube_at(0, 5 * SCALE, 0);
    let light = white_light_at(Vec3::new(0, 10 * SCALE, 0));
    let ro = Vec3::new(0, 3 * SCALE, 0);
    let hit = floor.ray_intersect(&ro, &Vec3::new(0, -SCALE, 0));
    assert!(hit.is_intersecting);

    let blocked = cast_shadow(&hit, &light, &vec![floor, occluder]);
    assert_eq!(blocked, SCALE);

    // Removing the occluder drops the shadow to zero.
    let open = cast_shadow(&hit, &light, &vec![floor]);
    assert_eq!(open, 0);
}

#[test]
fn shadow_darkens_by_shadow_quality() {
    // The same scene shaded with and without the occluder: under a tier
    // with partial shadow quality the occluded pixel is strictly darker.
    let floor = unit_cube_at(0, 0, 0);
    let occluder = unit_cube_at(0, 5 * SCALE, 0);
    let light = white_light_at(Vec3::new(0, 10 * SCALE, 0));
    let tm = TextureManager::new();
    let q = QualitySettings::medium();
    let ro = Vec3::new(0, 3 * SCALE, 0);
    let rd = Vec3::new(0, -SCALE, 0);
    let no_sources: Vec<EmissiveSource> = vec![];
    let lit = cast_ray(&ro, &rd, &vec![floor], &no_sources, &light, &tm, 0, &q);
    let shadowed = cast_ray(
        &ro, &rd, &vec![floor, occluder], &no_sources, &light, &tm, 0, &q);
    assert!(shadowed.x < lit.x);
}

#[test]
fn depth_beyond_cap_returns_sky() {
    let scene = vec![unit_cube_at(0, 0, 0)];
    let light = white_light_at(Vec3::new(0, 10 * SCALE, 0));
    let tm = TextureManager::new();
    let q = QualitySettings::potato();
    let ro = Vec3::new(0, 0, 4 * SCALE);
    let rd = Vec3::new(0, 0, -SCALE);
    let no_sources: Vec<EmissiveSource> = vec![];
    // depth > max_ray_depth: the scene is never consulted.
    let c = cast_ray(&ro, &rd, &scene, &no_sources, &light, &tm, 1, &q);
    assert_eq!(c, procedural_sky(&rd));
}

#[test]
fn miss_returns_sky() {
    let scene = vec![unit_cube_at(0, 0, 0)];
    let light = white_light_at(Vec3::new(0, 10 * SCALE, 0));
    let tm = TextureManager::new();
    let q = QualitySettings::ultra();
    let ro = Vec3::new(0, 0, 4 * SCALE);
    let rd = Vec3::new(0, 0, SCALE);
    let no_sources: Vec<EmissiveSource> = vec![];
    let c = cast_ray(&ro, &rd, &scene, &no_sources, &light, &tm, 0, &q);
    assert_eq!(c, procedural_sky(&rd));
}

#[test]
fn texture_sampling_clamped_and_fallback_white() {
    let mut tm = TextureManager::new();
    let px = |x, y, z| Vec3::new(x, y, z);
    // A 2x2 texture, row-major: red, green / blue, white.
    let t = CpuTexture::from_pixels(2, 2, vec![
        px(SCALE, 0, 0),
        px(0, SCALE, 0),
        px(0, 0, SCALE),
        px(SCALE, SCALE, SCALE),
    ]);
    let id = tm.add_texture(t);
    assert_eq!(tm.get_pixel_color(id, 0, 0), Vec3::new(SCALE, 0, 0));
    assert_eq!(tm.get_pixel_color(id, SCALE / 2, 0), Vec3::new(0, SCALE, 0));
    assert_eq!(tm.get_pixel_color(id, 0, SCALE / 2), Vec3::new(0, 0, SCALE));
    // u = v = 1 clamps to the last texel, no wrap-around.
    assert_eq!(tm.get_pixel_color(id, SCALE, SCALE), Vec3::new(SCALE, SCALE, SCALE));
    // Coordinates beyond the edge clamp too.
    assert_eq!(tm.get_pixel_color(id, 2 * SCALE, -SCALE), Vec3::new(0, SCALE, 0));
    // An unknown identifier falls back to opaque white.
    assert_eq!(tm.get_pixel_color(id + 1, 0, 0), Vec3::new(SCALE, SCALE, SCALE));
}

#[test]
fn textured_hit_uses_texture_color() {
    // A single-texel green texture on an otherwise red-diffuse cube: the
    // shaded color must take the green channel, proving the sample is
    // not the flat diffuse.
    let mut tm = TextureManager::new();
    let id = tm.add_texture(CpuTexture::from_pixels(1, 1, vec![Vec3::new(0, SCALE, 0)]));
    let mut c = unit_cube_at(0, 0, 0);
    c.material = Material::new(
        Vec3::new(SCALE, 0, 0), 8 * SCALE, [SCALE, 0, 0, 0], 0, Some(id));
    let light = white_light_at(Vec3::new(0, 10 * SCALE, 0));
    let q = QualitySettings::potato();
    let ro = Vec3::new(0, 3 * SCALE, 0);
    let rd = Vec3::new(0, -SCALE, 0);
    let no_sources: Vec<EmissiveSource> = vec![];
    let shaded = cast_ray(&ro, &rd, &vec![c], &no_sources, &light, &tm, 0, &q);
    assert_eq!(shaded.x, 0);
    assert!(shaded.y > 0);
}

#[test]
fn vector3_to_color_scales_and_clamps() {
    assert_eq!(
        vector3_to_color(Vec3::new(SCALE, 0, SCALE / 2)),
        Rgb8 { r: 255, g: 0, b: 127 }
    );
    assert_eq!(
        vector3_to_color(Vec3::new(3 * SCALE, -SCALE, SCALE)),
        Rgb8 { r: 255, g: 0, b: 255 }
    );
}

#[test]
fn color_constructors_clamp() {
    let c = Color::new(2 * SCALE, -5, SCALE / 2);
    assert_eq!(c, Color { r: SCALE, g: 0, b: SCALE / 2 });
    assert_eq!(Color::from_u8(128, 0, 255), Color { r: 32896, g: 0, b: SCALE });
    assert_eq!(Color::white(), Color { r: SCALE, g: SCALE, b: SCALE });
    assert_eq!(Color::black(), Color { r: 0, g: 0, b: 0 });
    let dim = Color::white().with_intensity(SCALE / 2);
    assert_eq!(dim, Color { r: SCALE / 2, g: SCALE / 2, b: SCALE / 2 });
    let over = Color::white().with_intensity(3 * SCALE);
    assert_eq!(over, Color::white());
}

#[test]
fn quality_tiers_span_the_range() {
    let p = QualitySettings::potato();
    assert_eq!(p.max_ray_depth, 0);
    assert_eq!(p.shadow_quality, 0);
    assert!(!p.enable_refraction);
    assert!(p.resolution_scale < SCALE / 4 + 1000);
    let u = QualitySettings::ultra();
    assert_eq!(u.max_ray_depth, 4);
    assert_eq!(u.shadow_quality, SCALE);
    assert_eq!(u.resolution_scale, SCALE);
    assert!(u.enable_refraction);
    assert!(QualitySettings::high().max_ray_depth >= 2);
    assert!(QualitySettings::medium().shadow_quality > QualitySettings::low().shadow_quality);
}

#[test]
fn glowing_material_is_brighter() {
    // Same scene, the surface once plain and once glowing: the glow adds
    // light independent of the external light.
    let mut tm = TextureManager::new();
    let id = tm.add_texture(CpuTexture::from_pixels(1, 1, vec![Vec3::new(SCALE / 2, SCALE / 2, SCALE / 2)]));
    let light = white_light_at(Vec3::new(0, 10 * SCALE, 0));
    let q = QualitySettings::potato();
    let ro = Vec3::new(0, 3 * SCALE, 0);
    let rd = Vec3::new(0, -SCALE, 0);
    let no_sources: Vec<EmissiveSource> = vec![];

    let mut plain = unit_cube_at(0, 0, 0);
    plain.material = Material::new(
        Vec3::new(SCALE, SCALE, SCALE), 8 * SCALE, [SCALE, 0, 0, 0], 0, Some(id));
    let mut glowing = plain;
    glowing.material = glowing.material.with_glow();

    let a = cast_ray(&ro, &rd, &vec![plain], &no_sources, &light, &tm, 0, &q);
    let b = cast_ray(&ro, &rd, &vec![glowing], &no_sources, &light, &tm, 0, &q);
    assert!(b.x > a.x && b.y > a.y && b.z > a.z);
}
