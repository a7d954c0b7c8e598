use voxeltrace::cube::Cube;
use voxeltrace::fx::SCALE;
use voxeltrace::material::Material;
use voxeltrace::shade::nearest_intersect;
use voxeltrace::vec3::Vec3;

fn plain_material() -> Material {
    Material::new(
        Vec3::new(SCALE, 0, 0),
        8 * SCALE,
        [SCALE, 0, 0, 0],
        0,
        None,
    )
}

fn unit_cube_at(x: i64, y: i64, z: i64) -> Cube {
    Cube::new(
        Vec3::new(x, y, z),
        Vec3::new(SCALE / 2, SCALE / 2, SCALE / 2),
        plain_material(),
    )
}

#[test]
fn vec_arithmetic_exact() {
    let a = Vec3::new(SCALE, 2 * SCALE, -SCALE);
    let b = Vec3::new(SCALE, -SCALE, SCALE);
    assert_eq!(a.add(b), Vec3::new(2 * SCALE, SCALE, 0));
    assert_eq!(a.sub(b), Vec3::new(0, 3 * SCALE, -2 * SCALE));
    assert_eq!(a.dot(b), -2 * SCALE);
    assert_eq!(a.neg(), Vec3::new(-SCALE, -2 * SCALE, SCALE));
    assert_eq!(a.scale(SCALE / 2), Vec3::new(SCALE / 2, SCALE, -SCALE / 2));
    let x = Vec3::new(SCALE, 0, 0);
    let y = Vec3::new(0, SCALE, 0);
    assert_eq!(x.cross(y), Vec3::new(0, 0, SCALE));
}

#[test]
fn length_and_normalized_exact() {
    let v = Vec3::new(3 * SCALE, 4 * SCALE, 0);
    assert_eq!(v.length(), 5 * SCALE);
    assert_eq!(v.normalized(), Vec3::new(39321, 52428, 0));
}

#[test]
fn normalized_of_zero_is_zero() {
    // The documented fallback: no division by zero, the zero vector is
    // returned unchanged.
    let z = Vec3::zero();
    assert_eq!(z.length(), 0);
    assert_eq!(z.normalized(), z);
}

#[test]
fn head_on_hit_distance_normal_uv() {
    let c = unit_cube_at(0, 0, 0);
    let ro = Vec3::new(0, 0, 4 * SCALE);
    let rd = Vec3::new(0, 0, -SCALE);
    let (t, n, u, v) = c.intersect(ro, rd).expect("ray must hit");
    // Entry at z = 0.5, i.e. at parametric distance 3.5.
    assert_eq!(t, 229376);
    assert_eq!(n, Vec3::new(0, 0, SCALE));
    assert_eq!(u, SCALE / 2);
    assert_eq!(v, SCALE / 2);
}

#[test]
fn ray_pointing_away_misses() {
    let c = unit_cube_at(0, 0, 0);
    let ro = Vec3::new(0, 0, 4 * SCALE);
    let rd = Vec3::new(0, 0, SCALE);
    assert!(c.intersect(ro, rd).is_none());
}

#[test]
fn parallel_ray_outside_slab_misses() {
    let c = unit_cube_at(0, 0, 0);
    let ro = Vec3::new(0, 0, 4 * SCALE);
    let rd = Vec3::new(SCALE, 0, 0);
    assert!(c.intersect(ro, rd).is_none());
}

#[test]
fn diagonal_ray_far_to_the_side_misses() {
    let c = unit_cube_at(0, 0, 0);
    let ro = Vec3::new(10 * SCALE, 0, 4 * SCALE);
    let rd = Vec3::new(0, 0, -SCALE);
    assert!(c.intersect(ro, rd).is_none());
}

#[test]
fn inside_ray_exits_at_far_side() {
    let c = unit_cube_at(0, 0, 0);
    let ro = Vec3::new(0, 0, 0);
    let rd = Vec3::new(0, 0, -SCALE);
    let (t, n, _, _) = c.intersect(ro, rd).expect("inside ray must hit");
    // The exit point, half a unit along the ray, not the entry behind it.
    assert_eq!(t, SCALE / 2);
    assert_eq!(n, Vec3::new(0, 0, -SCALE));
    assert!(t >= 0);
}

#[test]
fn side_hit_has_axis_normal() {
    let c = unit_cube_at(0, 0, 0);
    let ro = Vec3::new(-4 * SCALE, 0, 0);
    let rd = Vec3::new(SCALE, 0, 0);
    let (t, n, _, _) = c.intersect(ro, rd).expect("must hit");
    assert_eq!(t, 229376);
    assert_eq!(n, Vec3::new(-SCALE, 0, 0));
}

#[test]
fn ray_intersect_empty_sentinel() {
    let c = unit_cube_at(0, 0, 0);
    let ro = Vec3::new(0, 0, 4 * SCALE);
    let miss = c.ray_intersect(&ro, &Vec3::new(0, 0, SCALE));
    assert!(!miss.is_intersecting);
    assert_eq!(miss.distance, voxeltrace::fx::FX_LIM);
    let hit = c.ray_intersect(&ro, &Vec3::new(0, 0, -SCALE));
    assert!(hit.is_intersecting);
    assert_eq!(hit.distance, 229376);
    assert_eq!(hit.point, Vec3::new(0, 0, SCALE / 2));
}

#[test]
fn nearest_picks_closer_cube() {
    let near = unit_cube_at(0, 0, 0);
    let far = unit_cube_at(0, 0, -4 * SCALE);
    let objects = vec![far, near];
    let ro = Vec3::new(0, 0, 4 * SCALE);
    let rd = Vec3::new(0, 0, -SCALE);
    let hit = nearest_intersect(&objects, ro, rd);
    assert!(hit.is_intersecting);
    assert_eq!(hit.distance, 229376);
}

#[test]
fn nearest_tie_keeps_first_in_scene_order() {
    let mut a = unit_cube_at(0, 0, 0);
    a.material.specular = 5 * SCALE;
    let mut b = unit_cube_at(0, 0, 0);
    b.material.specular = 9 * SCALE;
    let objects = vec![a, b];
    let ro = Vec3::new(0, 0, 4 * SCALE);
    let rd = Vec3::new(0, 0, -SCALE);
    let hit = nearest_intersect(&objects, ro, rd);
    assert!(hit.is_intersecting);
    assert_eq!(hit.material.specular, 5 * SCALE);
}

#[test]
fn nearest_of_empty_scene_is_empty() {
    let objects: Vec<Cube> = vec![];
    let hit = nearest_intersect(&objects, Vec3::zero(), Vec3::new(0, 0, -SCALE));
    assert!(!hit.is_intersecting);
}
