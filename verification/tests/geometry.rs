use raytracer::aabb::{mid, Aabb};
use raytracer::color::Color;
use raytracer::cube::{Cube, Face};
use raytracer::material::{Material, MaterialKind};
use raytracer::object::Object;
use raytracer::plane::Plane;
use raytracer::sphere::Sphere;
use raytracer::vector::Vec3;

const ONE: i64 = 1_000_000;

fn stone() -> Material {
    Material::new(MaterialKind::Stone, Color::new(128, 128, 128), 10 * ONE, 900_000, 100_000, ONE, false)
}

fn v(x: i64, y: i64, z: i64) -> Vec3 {
    Vec3::new(x, y, z)
}

fn unit_cube() -> Cube {
    Cube::new(v(0, 0, 0), ONE, stone())
}

#[test]
fn cube_is_built_around_its_center() {
    let c = Cube::new(v(ONE, 2 * ONE, -3 * ONE), 800_000, stone());
    assert_eq!(c.min, v(600_000, 1_600_000, -3_400_000));
    assert_eq!(c.max, v(1_400_000, 2_400_000, -2_600_000));
    assert_eq!(c.material, stone());
    assert_eq!(c.bounding_box(), Aabb::new(c.min, c.max));
}

#[test]
fn unit_box_is_hit_on_its_front_face() {
    let t = unit_cube().ray_intersect(&v(0, 0, 5 * ONE), &v(0, 0, -ONE));
    assert_eq!(t, Some(4_500_000));
}

#[test]
fn ray_from_inside_a_box_leaves_at_the_exit() {
    let cube = unit_cube();
    assert_eq!(cube.ray_intersect(&v(0, 0, 0), &v(0, 0, -ONE)), Some(500_000));
    assert_eq!(cube.ray_intersect(&v(200_000, 0, 0), &v(ONE, 0, 0)), Some(300_000));
    assert_eq!(cube.ray_intersect(&v(200_000, 0, 0), &v(-ONE, 0, 0)), Some(700_000));
    let w = cube.bounding_box().window(&v(0, 0, 0), &v(0, 0, -ONE));
    assert_eq!(w, Some((-500_000, 500_000)));
}

#[test]
fn ray_along_a_face_outside_the_slab_misses() {
    let cube = unit_cube();
    assert_eq!(cube.ray_intersect(&v(2 * ONE, 0, 5 * ONE), &v(0, 0, -ONE)), None);
    assert_eq!(cube.ray_intersect(&v(0, -600_000, 5 * ONE), &v(0, 0, -ONE)), None);
    assert_eq!(cube.ray_intersect(&v(0, 0, 5 * ONE), &v(ONE, 0, 0)), None);
    assert_eq!(cube.ray_intersect(&v(500_001, 0, 5 * ONE), &v(0, 700_000, -700_000)), None);
}

#[test]
fn ray_along_a_face_inside_the_slab_hits() {
    let cube = unit_cube();
    assert_eq!(cube.ray_intersect(&v(500_000, 0, 5 * ONE), &v(0, 0, -ONE)), Some(4_500_000));
    assert_eq!(cube.ray_intersect(&v(-500_000, 500_000, 5 * ONE), &v(0, 0, -ONE)), Some(4_500_000));
}

#[test]
fn box_behind_the_ray_is_missed() {
    let cube = unit_cube();
    assert_eq!(cube.ray_intersect(&v(0, 0, 5 * ONE), &v(0, 0, ONE)), None);
    assert!(!cube.bounding_box().intersects(&v(0, 0, 5 * ONE), &v(0, 0, ONE)));
    assert_eq!(cube.bounding_box().nearest(&v(0, 0, 5 * ONE), &v(0, 0, ONE)), None);
}

#[test]
fn slanted_ray_that_passes_beside_the_box_misses() {
    let cube = unit_cube();
    assert_eq!(cube.ray_intersect(&v(0, 0, 5 * ONE), &v(600_000, 0, -800_000)), None);
    assert_eq!(cube.ray_intersect(&v(0, 0, 5 * ONE), &v(60_000, 0, -998_000)), Some(4_509_018));
}

#[test]
fn ray_without_direction_from_inside_never_leaves() {
    let cube = unit_cube();
    assert_eq!(cube.ray_intersect(&v(0, 0, 0), &v(0, 0, 0)), Some(i64::MAX));
    assert_eq!(cube.ray_intersect(&v(0, 0, ONE), &v(0, 0, 0)), None);
}

#[test]
fn box_window_and_containment() {
    let b = Aabb::new(v(-ONE, -ONE, -ONE), v(ONE, ONE, ONE));
    assert_eq!(b.window(&v(0, 0, 3 * ONE), &v(0, 0, -ONE)), Some((2 * ONE, 4 * ONE)));
    assert_eq!(b.window(&v(0, 2 * ONE, 3 * ONE), &v(0, 0, -ONE)), None);
    assert!(b.contains(&v(ONE, -ONE, 0)));
    assert!(!b.contains(&v(ONE + 1, 0, 0)));
    assert!(b.intersects(&v(0, 0, 3 * ONE), &v(0, 0, -ONE)));
    assert_eq!(b.center(), v(0, 0, 0));
    assert_eq!(mid(1, 4), 2);
    assert_eq!(mid(-1, -4), -3);
    assert_eq!(mid(i64::MAX, i64::MAX), i64::MAX);
    assert_eq!(mid(i64::MIN, i64::MAX), -1);
}

#[test]
fn faces_normals_and_surface_coordinates() {
    let cube = unit_cube();
    assert_eq!(cube.face_of(&v(-500_000, 100_000, 200_000)), Face::NegX);
    assert_eq!(cube.face_of(&v(500_000, 100_000, 200_000)), Face::PosX);
    assert_eq!(cube.face_of(&v(100_000, -500_000, 200_000)), Face::NegY);
    assert_eq!(cube.face_of(&v(100_000, 500_000, 200_000)), Face::PosY);
    assert_eq!(cube.face_of(&v(100_000, 200_000, -500_000)), Face::NegZ);
    assert_eq!(cube.face_of(&v(100_000, 200_000, 500_000)), Face::PosZ);
    assert_eq!(cube.face_of(&v(0, 0, 0)), Face::PosZ);
    assert_eq!(cube.face_of(&v(-500_999, 0, 0)), Face::NegX);
    assert_eq!(cube.face_of(&v(-501_000, 0, 500_000)), Face::PosZ);
    assert_eq!(cube.get_normal(&v(0, 0, 500_000)), v(0, 0, ONE));
    assert_eq!(cube.get_normal(&v(0, -500_000, 0)), v(0, -ONE, 0));
    assert_eq!(Face::PosX.normal(), v(ONE, 0, 0));
    assert_eq!(cube.get_uv_coordinates(&v(500_000, 250_000, -250_000)), (250_000, 750_000));
    assert_eq!(cube.get_uv_coordinates(&v(-250_000, 500_000, 0)), (250_000, 500_000));
    assert_eq!(cube.get_uv_coordinates(&v(-500_000, 0, 500_000)), (ONE, 500_000));
    assert_eq!(cube.get_uv_coordinates(&v(0, 700_000, 500_000)), (500_000, ONE));
    let flat = Cube::new(v(0, 0, 0), 0, stone());
    assert_eq!(flat.get_uv_coordinates(&v(0, 0, 0)), (0, 0));
}

#[test]
fn sphere_is_hit_at_the_nearer_root() {
    let s = Sphere::new(v(0, 0, 0), ONE, stone());
    assert_eq!(s.ray_intersect(&v(0, 0, 5 * ONE), &v(0, 0, -ONE)), Some(4 * ONE));
    assert_eq!(s.center, v(0, 0, 0));
    assert_eq!(s.radius, ONE);
}

#[test]
fn sphere_is_missed_where_the_ray_passes_too_far() {
    let s = Sphere::new(v(0, 0, 0), ONE, stone());
    assert_eq!(s.ray_intersect(&v(2 * ONE, 0, 5 * ONE), &v(0, 0, -ONE)), None);
    assert_eq!(s.ray_intersect(&v(ONE, 0, 5 * ONE), &v(0, 0, -ONE)), None);
    assert_eq!(s.ray_intersect(&v(0, 0, 5 * ONE), &v(0, 0, ONE)), None);
    assert_eq!(s.ray_intersect(&v(0, 0, 5 * ONE), &v(0, 0, 0)), None);
}

#[test]
fn sphere_hit_from_inside_is_the_farther_root() {
    let s = Sphere::new(v(0, 0, 0), ONE, stone());
    assert_eq!(s.ray_intersect(&v(0, 0, 0), &v(0, 0, -ONE)), Some(ONE));
    assert_eq!(s.ray_intersect(&v(0, 0, 500_000), &v(0, 0, -ONE)), Some(1_500_000));
}

#[test]
fn sphere_hit_point_lies_on_the_surface() {
    let s = Sphere::new(v(300_000, -200_000, -4 * ONE), 1_250_000, stone());
    let origin = v(0, 0, 2 * ONE);
    for target in [v(300_000, -200_000, -4 * ONE), v(900_000, 100_000, -4 * ONE), v(-500_000, 300_000, -4 * ONE)] {
        let dir = target.minus(&origin).normalize();
        let t = s.ray_intersect(&origin, &dir).unwrap();
        assert!(t > 0);
        let p = origin.advance(&dir, t);
        let off = p.distance(&s.center) - s.radius;
        assert!(off.abs() < 100, "off the surface by {}", off);
    }
    let wide = v(3 * ONE, 0, -4 * ONE).minus(&origin).normalize();
    assert_eq!(s.ray_intersect(&origin, &wide), None);
}

#[test]
fn plane_is_hit_from_either_side_beyond_the_bias() {
    let floor = Plane::new(v(0, -2 * ONE, 0), v(0, 3 * ONE, 0), stone());
    assert_eq!(floor.normal, v(0, ONE, 0));
    assert_eq!(floor.ray_intersect(&v(0, 0, 0), &v(0, -ONE, 0)), Some(2 * ONE));
    assert_eq!(floor.ray_intersect(&v(0, -5 * ONE, 0), &v(0, ONE, 0)), Some(3 * ONE));
    assert_eq!(floor.ray_intersect(&v(0, 0, 0), &v(600_000, -800_000, 0)), Some(2_500_000));
    assert_eq!(floor.get_normal(&v(7, 8, 9)), v(0, ONE, 0));
}

#[test]
fn plane_is_missed_along_it_behind_it_and_within_the_bias() {
    let floor = Plane::new(v(0, -2 * ONE, 0), v(0, ONE, 0), stone());
    assert_eq!(floor.ray_intersect(&v(0, 0, 0), &v(ONE, 0, 0)), None);
    assert_eq!(floor.ray_intersect(&v(0, 0, 0), &v(0, ONE, 0)), None);
    assert_eq!(floor.ray_intersect(&v(0, -1_999_000, 0), &v(0, -ONE, 0)), None);
    assert_eq!(floor.ray_intersect(&v(0, -1_998_999, 0), &v(0, -ONE, 0)), Some(1_001));
}

#[test]
fn objects_dispatch_to_their_primitive() {
    let s = Object::Sphere(Sphere::new(v(0, ONE, 0), ONE, stone()));
    let c = Object::Cube(Cube::new(v(ONE, 0, 0), ONE, stone()));
    assert_eq!(s.ray_intersect(&v(0, ONE, 5 * ONE), &v(0, 0, -ONE)), Some(4 * ONE));
    assert_eq!(c.ray_intersect(&v(ONE, 0, 5 * ONE), &v(0, 0, -ONE)), Some(4_500_000));
    assert_eq!(s.get_center(), v(0, ONE, 0));
    assert_eq!(c.get_center(), v(ONE, 0, 0));
    assert_eq!(s.get_normal(&v(0, ONE, ONE)), v(0, 0, ONE));
    assert_eq!(s.get_normal(&v(600_000, 1_800_000, 0)), v(600_000, 800_000, 0));
    assert_eq!(c.get_normal(&v(ONE, 500_000, 0)), v(0, ONE, 0));
    assert_eq!(*s.get_material(), stone());
    assert_eq!(*c.get_material(), stone());
}
