use raytracer::camera::Camera;
use raytracer::color::Color;
use raytracer::cube::Cube;
use raytracer::diorama::OptimizedDiorama;
use raytracer::grid::SimpleCubeGrid;
use raytracer::light::Light;
use raytracer::material::{Material, MaterialKind};
use raytracer::octree::Octree;
use raytracer::optics::{fresnel, reflect, refract};
use raytracer::plane::Plane;
use raytracer::render::{render, render_pixel, screen_coordinates};
use raytracer::scene::{Scene, Solids, TextureSet};
use raytracer::shading::{blend, RenderStats, MAX_DEPTH};
use raytracer::skybox::{sample_sky, Skybox};
use raytracer::texture::Texture;
use raytracer::vector::Vec3;

const ONE: i64 = 1_000_000;

fn v(x: i64, y: i64, z: i64) -> Vec3 {
    Vec3::new(x, y, z)
}

fn matte(kind: MaterialKind, color: Color) -> Material {
    Material::new(kind, color, 10 * ONE, 900_000, 100_000, ONE, false)
}

fn textures() -> TextureSet {
    TextureSet {
        grass: Texture::create_grass_texture(),
        dirt: Texture::create_dirt_texture(),
        stone: Texture::create_stone_texture(),
        water: Texture::create_special_texture(),
        lava: Texture::create_lava_texture(),
        obsidian: Texture::create_obsidian_texture(),
    }
}

fn solids(cubes: Vec<Cube>) -> Solids {
    let tree = Octree::build(&cubes);
    Solids::Diorama(OptimizedDiorama {
        cubes,
        water_planes: Vec::new(),
        lava_planes: Vec::new(),
        bounding_box_min: v(-100 * ONE, -100 * ONE, -100 * ONE),
        bounding_box_max: v(100 * ONE, 100 * ONE, 100 * ONE),
        tree,
    })
}

fn scene(cubes: Vec<Cube>, floor: Material, lights: Vec<Light>) -> Scene {
    Scene {
        solids: solids(cubes),
        floor: Plane::new(v(0, 0, 0), v(0, ONE, 0), floor),
        lights,
        textures: textures(),
        skybox: None,
    }
}

fn white_light(at: Vec3) -> Light {
    Light::new(at, Color::new(255, 255, 255), ONE)
}

#[test]
fn mirror_reflection() {
    assert_eq!(reflect(&v(600_000, -800_000, 0), &v(0, ONE, 0)), v(600_000, 800_000, 0));
    assert_eq!(reflect(&v(0, 0, -ONE), &v(0, 0, ONE)), v(0, 0, ONE));
    assert_eq!(reflect(&v(ONE, 0, 0), &v(0, ONE, 0)), v(ONE, 0, 0));
}

#[test]
fn refraction_straight_through_and_total_reflection() {
    assert_eq!(refract(&v(0, -ONE, 0), &v(0, ONE, 0), 1_500_000), Some(v(0, -ONE, 0)));
    assert_eq!(refract(&v(800_000, 600_000, 0), &v(0, ONE, 0), 1_500_000), None);
    assert_eq!(refract(&v(0, ONE, 0), &v(0, ONE, 0), 1_500_000), Some(v(0, ONE, 0)));
    assert_eq!(refract(&v(600_000, -800_000, 0), &v(0, ONE, 0), ONE), Some(v(600_000, -800_000, 0)));
    assert_eq!(refract(&v(600_000, -800_000, 0), &v(0, ONE, 0), 1_500_000), Some(v(399_999, -916_515, 0)));
}

#[test]
fn fresnel_term_at_the_ends_and_between() {
    assert_eq!(fresnel(&v(0, 0, -ONE), &v(0, 0, ONE), 1_500_000), 40_000);
    assert_eq!(fresnel(&v(0, 0, ONE), &v(0, 0, ONE), 1_500_000), 40_000);
    assert_eq!(fresnel(&v(ONE, 0, 0), &v(0, 0, ONE), 1_500_000), ONE);
    assert_eq!(fresnel(&v(866_025, 0, -500_000), &v(0, 0, ONE), 1_500_000), 70_000);
    assert_eq!(fresnel(&v(0, 0, -ONE), &v(0, 0, ONE), 1_330_000), 20_059);
    assert_eq!(fresnel(&v(0, 0, -ONE), &v(0, 0, ONE), ONE), 0);
    assert_eq!(fresnel(&v(0, 0, -ONE), &v(0, 0, ONE), -ONE), 0);
    assert_eq!(fresnel(&v(0, 0, -3 * ONE), &v(0, 0, ONE), 1_500_000), 40_000);
}

#[test]
fn lit_floor_shows_ambient_and_diffuse_light() {
    let s = scene(Vec::new(), matte(MaterialKind::Stone, Color::new(100, 150, 200)), vec![white_light(v(0, 10 * ONE, 0))]);
    let hit = s.find_hit(&v(0, 2 * ONE, 0), &v(0, -ONE, 0)).unwrap();
    assert_eq!(hit.distance, 2 * ONE);
    assert_eq!(hit.point, v(0, 0, 0));
    assert_eq!(hit.normal, v(0, ONE, 0));
    assert_eq!(hit.kind, 5);
    assert_eq!(hit.uv, None);
    assert_eq!(s.base_color(&hit), Color::new(100, 150, 200));
    assert_eq!(s.calculate_lighting(&hit), Color::new(90, 135, 180));
    let mut stats = RenderStats::new();
    assert_eq!(s.cast_ray(&v(0, 2 * ONE, 0), &v(0, -ONE, 0), 3, &mut stats), Color::new(90, 135, 180));
    assert_eq!(stats.rays_cast, 1);
}

#[test]
fn unlit_floor_shows_its_ambient_share() {
    let s = scene(Vec::new(), matte(MaterialKind::Stone, Color::new(100, 150, 200)), Vec::new());
    let hit = s.find_hit(&v(0, 2 * ONE, 0), &v(0, -ONE, 0)).unwrap();
    assert_eq!(s.calculate_lighting(&hit), Color::new(25, 37, 50));
    let grass = scene(Vec::new(), matte(MaterialKind::Grass, Color::new(100, 150, 200)), Vec::new());
    let hit = grass.find_hit(&v(0, 2 * ONE, 0), &v(0, -ONE, 0)).unwrap();
    assert_eq!(grass.calculate_lighting(&hit), Color::new(50, 75, 100));
}

#[test]
fn blocked_light_leaves_the_ambient_share() {
    let blocker = Cube::new(v(0, 6 * ONE, 0), ONE, matte(MaterialKind::Stone, Color::new(9, 9, 9)));
    let s = scene(vec![blocker], matte(MaterialKind::Stone, Color::new(100, 150, 200)), vec![white_light(v(0, 10 * ONE, 0))]);
    let hit = s.find_hit(&v(0, 2 * ONE, 0), &v(0, -ONE, 0)).unwrap();
    assert!(s.occluded(&v(0, 1_000, 0), &v(0, ONE, 0), 10 * ONE));
    assert!(!s.occluded(&v(0, 1_000, 0), &v(0, ONE, 0), 5 * ONE));
    assert_eq!(s.calculate_lighting(&hit), Color::new(25, 37, 50));
    let beside = s.find_hit(&v(3 * ONE, 2 * ONE, 0), &v(0, -ONE, 0)).unwrap();
    assert_eq!(s.calculate_lighting(&beside), Color::new(86, 129, 173));
}

#[test]
fn water_and_lava_take_no_shadow() {
    let blocker = Cube::new(v(0, 6 * ONE, 0), ONE, matte(MaterialKind::Stone, Color::new(9, 9, 9)));
    let s = scene(vec![blocker], matte(MaterialKind::Lava, Color::new(100, 150, 200)), vec![white_light(v(0, 10 * ONE, 0))]);
    let hit = s.find_hit(&v(0, 2 * ONE, 0), &v(0, -ONE, 0)).unwrap();
    assert_eq!(s.calculate_lighting(&hit), Color::new(255, 236, 224));
}

#[test]
fn light_from_behind_adds_nothing() {
    let s = scene(Vec::new(), matte(MaterialKind::Stone, Color::new(100, 150, 200)), vec![white_light(v(0, -10 * ONE, 0))]);
    let hit = s.find_hit(&v(0, 2 * ONE, 0), &v(0, -ONE, 0)).unwrap();
    assert_eq!(s.calculate_lighting(&hit), Color::new(25, 37, 50));
}

#[test]
fn light_saturates_a_channel() {
    let strong = Light::new(v(0, ONE, 0), Color::new(255, 255, 255), 50 * ONE);
    let s = scene(Vec::new(), matte(MaterialKind::Grass, Color::new(200, 150, 2)), vec![strong]);
    let hit = s.find_hit(&v(0, 2 * ONE, 0), &v(0, -ONE, 0)).unwrap();
    assert_eq!(s.calculate_lighting(&hit), Color::new(255, 255, 138));
}

#[test]
fn textured_cube_shows_its_texture() {
    let grass = Material::new(MaterialKind::Grass, Color::new(1, 2, 3), 10 * ONE, 900_000, 100_000, ONE, true);
    let wood = Material::new(MaterialKind::Wood, Color::new(1, 2, 3), 10 * ONE, 900_000, 100_000, ONE, true);
    let cubes = vec![Cube::new(v(0, 3 * ONE, 0), 2 * ONE, grass), Cube::new(v(5 * ONE, 3 * ONE, 0), 2 * ONE, wood)];
    let s = scene(cubes, matte(MaterialKind::Stone, Color::new(100, 150, 200)), Vec::new());
    let hit = s.find_hit(&v(500_000, 9 * ONE, -500_000), &v(0, -ONE, 0)).unwrap();
    assert_eq!(hit.kind, 1);
    assert_eq!(hit.index, 0);
    assert_eq!(hit.distance, 5 * ONE);
    assert_eq!(hit.normal, v(0, ONE, 0));
    assert_eq!(hit.uv, Some((750_000, 250_000)));
    assert_eq!(s.base_color(&hit), s.textures.grass.texel(24, 8));
    let plain = s.find_hit(&v(5 * ONE, 9 * ONE, 0), &v(0, -ONE, 0)).unwrap();
    assert_eq!(plain.index, 1);
    assert_eq!(s.base_color(&plain), Color::new(1, 2, 3));
    assert_eq!(s.textures.sample(MaterialKind::Grass, 750_000, 250_000), Some(s.textures.grass.texel(24, 8)));
    assert_eq!(s.textures.sample(MaterialKind::Metal, 0, 0), None);
}

#[test]
fn ray_that_meets_nothing_shows_the_sky() {
    let s = scene(Vec::new(), matte(MaterialKind::Stone, Color::new(100, 150, 200)), vec![white_light(v(0, 10 * ONE, 0))]);
    let mut stats = RenderStats::new();
    let up = v(0, ONE, 0);
    assert!(s.find_hit(&v(0, 2 * ONE, 0), &up).is_none());
    assert_eq!(s.cast_ray(&v(0, 2 * ONE, 0), &up, 3, &mut stats), Color::new(180, 230, 255));
    assert_eq!(stats.rays_cast, 1);
    assert_eq!(s.cast_ray(&v(0, 2 * ONE, 0), &up, 3, &mut stats), sample_sky(&None, &up));
    assert_eq!(stats.rays_cast, 2);
    let level = v(ONE, 0, 0);
    assert_eq!(s.cast_ray(&v(0, 2 * ONE, 0), &level, 1, &mut stats), Color::new(120, 160, 200));
}

#[test]
fn ray_of_no_depth_shows_the_sky_untested() {
    let s = scene(Vec::new(), matte(MaterialKind::Stone, Color::new(100, 150, 200)), Vec::new());
    let mut stats = RenderStats::new();
    assert_eq!(s.cast_ray(&v(0, 2 * ONE, 0), &v(0, -ONE, 0), 0, &mut stats), Color::new(120, 160, 200));
    assert_eq!(stats.rays_cast, 0);
}

#[test]
fn sky_of_a_cube_map_is_sampled_for_a_miss() {
    let mut s = scene(Vec::new(), matte(MaterialKind::Stone, Color::new(100, 150, 200)), Vec::new());
    let sky = Skybox::create_procedural_sky();
    s.skybox = Some(sky.clone());
    let mut stats = RenderStats::new();
    assert_eq!(s.cast_ray(&v(0, 2 * ONE, 0), &v(0, ONE, 0), 3, &mut stats), sky.py.texel(128, 128));
}

fn hall_of_mirrors() -> Scene {
    let water = Material::new(MaterialKind::Water, Color::new(40, 120, 200), 80 * ONE, 300_000, 700_000, 1_330_000, false);
    let mut cubes = Vec::new();
    for i in 0..6 {
        cubes.push(Cube::new(v(0, (3 + 3 * i) * ONE, 0), 2 * ONE, water));
    }
    scene(cubes, water, vec![white_light(v(4 * ONE, 30 * ONE, 4 * ONE)), white_light(v(-4 * ONE, ONE, 0))])
}

#[test]
fn rays_stay_under_two_to_the_depth() {
    let s = hall_of_mirrors();
    let mut most = 0;
    for depth in 0..=6u32 {
        for (o, d) in [
            (v(0, 30 * ONE, 0), v(0, -ONE, 0)),
            (v(0, 1_500_000, 0), v(0, ONE, 0)),
            (v(0, 1_500_000, 0), v(0, -ONE, 0)),
            (v(300_000, 4 * ONE, 5 * ONE), v(0, -600_000, -800_000)),
        ] {
            let mut stats = RenderStats::new();
            s.cast_ray(&o, &d, depth, &mut stats);
            assert!(stats.rays_cast < (1u64 << depth));
            most = most.max(stats.rays_cast);
        }
    }
    assert!(most >= 15);
}

#[test]
fn count_of_rays_stops_at_its_ceiling() {
    let s = hall_of_mirrors();
    let mut stats = RenderStats { rays_cast: u64::MAX - 2 };
    s.cast_ray(&v(0, 30 * ONE, 0), &v(0, -ONE, 0), 4, &mut stats);
    assert_eq!(stats.rays_cast, u64::MAX);
    stats.reset();
    assert_eq!(stats.rays_cast, 0);
}

#[test]
fn shading_twice_gives_the_same_color() {
    let s = hall_of_mirrors();
    let d = OptimizedDiorama::new(v(0, 0, 0), 800_000);
    let terrain = Scene {
        solids: Solids::Diorama(d),
        floor: Plane::new(v(0, -2 * ONE, 0), v(0, ONE, 0), Material::stone_wall()),
        lights: vec![
            Light::new(v(-4 * ONE, 8 * ONE, -2 * ONE), Color::new(255, 220, 180), 1_300_000),
            Light::new(v(6 * ONE, 6 * ONE, 3 * ONE), Color::new(180, 200, 255), 900_000),
        ],
        textures: textures(),
        skybox: Some(Skybox::create_procedural_sky()),
    };
    for world in [&s, &terrain] {
        for (o, dir) in [
            (v(0, 30 * ONE, 0), v(0, -ONE, 0)),
            (v(300_000, 4 * ONE, 9 * ONE), v(0, -600_000, -800_000)),
            (v(7 * ONE, 6 * ONE, 7 * ONE), v(-577_350, -577_350, -577_350)),
        ] {
            let mut first = RenderStats::new();
            let mut second = RenderStats { rays_cast: 1000 };
            let a = world.cast_ray(&o, &dir, MAX_DEPTH, &mut first);
            let b = world.cast_ray(&o, &dir, MAX_DEPTH, &mut second);
            assert_eq!(a, b);
            assert_eq!(first.rays_cast + 1000, second.rays_cast);
            if let Some(hit) = world.find_hit(&o, &dir) {
                assert_eq!(world.calculate_lighting(&hit), world.calculate_lighting(&hit));
            }
        }
    }
}

#[test]
fn mirror_floor_blends_the_sky_by_the_fresnel_term() {
    let metal = Material::new(MaterialKind::Metal, Color::new(100, 150, 200), 10 * ONE, 900_000, 100_000, 1_500_000, false);
    let s = scene(Vec::new(), metal, Vec::new());
    let mut stats = RenderStats::new();
    let c = s.cast_ray(&v(0, 2 * ONE, 0), &v(0, -ONE, 0), 2, &mut stats);
    assert_eq!(stats.rays_cast, 2);
    assert_eq!(c, Color::new(36, 52, 67));
    assert_eq!(
        blend(&metal, &v(0, -ONE, 0), &v(0, ONE, 0), Color::new(30, 45, 60), Color::new(180, 230, 255), Color::new(9, 9, 9)),
        Color::new(36, 52, 67)
    );
    let mut shallow = RenderStats::new();
    let c1 = s.cast_ray(&v(0, 2 * ONE, 0), &v(0, -ONE, 0), 1, &mut shallow);
    assert_eq!(shallow.rays_cast, 1);
    assert_eq!(c1, Color::new(36, 52, 67));
}

#[test]
fn blending_by_kind_of_surface() {
    let local = Color::new(100, 100, 100);
    let reflected = Color::new(200, 0, 0);
    let refracted = Color::new(0, 0, 200);
    let d = v(0, -ONE, 0);
    let n = v(0, ONE, 0);
    let plain = matte(MaterialKind::Stone, Color::new(1, 1, 1));
    assert_eq!(blend(&plain, &d, &n, local, reflected, refracted), local);
    let glass = Material::new(MaterialKind::Glass, Color::new(1, 1, 1), 10 * ONE, 500_000, 500_000, 1_500_000, false);
    assert_eq!(blend(&glass, &d, &n, local, reflected, refracted), Color::new(58, 50, 146));
    let grazing = v(ONE, 0, 0);
    assert_eq!(blend(&glass, &grazing, &n, local, reflected, refracted), Color::new(250, 50, 50));
    let metal = Material::new(MaterialKind::Metal, Color::new(1, 1, 1), 10 * ONE, 500_000, 500_000, 1_500_000, false);
    assert_eq!(blend(&metal, &grazing, &n, local, reflected, refracted), reflected);
    assert_eq!(blend(&metal, &d, &n, local, reflected, refracted), Color::new(104, 96, 96));
}

#[test]
fn grid_scene_is_shaded_by_the_same_engine() {
    let grid = SimpleCubeGrid::new(v(0, 0, -5 * ONE), 800_000);
    let s = Scene {
        solids: Solids::Grid(grid),
        floor: Plane::new(v(0, -4 * ONE, -5 * ONE), v(0, ONE, 0), Material::stone_wall()),
        lights: vec![Light::new(v(-2 * ONE, 4 * ONE, -3 * ONE), Color::new(255, 200, 150), 1_200_000)],
        textures: textures(),
        skybox: None,
    };
    let center = s.find_hit(&v(0, 5 * ONE, -5 * ONE), &v(0, -ONE, 0)).unwrap();
    assert_eq!(center.kind, 2);
    assert_eq!(center.distance, 3_880_000);
    assert_eq!(center.material, Material::center_block());
    assert_eq!(center.normal, v(0, ONE, 0));
    assert_eq!(s.base_color(&center), Color::new(180, 140, 100));
    let water = s.find_hit(&v(-20 * ONE, 5 * ONE, -5 * ONE), &v(0, -ONE, 0)).unwrap();
    assert_eq!(water.kind, 3);
    assert_eq!(water.index, 2);
    assert_eq!(water.material, Material::water_surface());
    assert_eq!(water.uv, None);
    assert_eq!(s.base_color(&water), Color::new(40, 120, 200));
    let floor = s.find_hit(&v(-20 * ONE, -ONE, -5 * ONE), &v(0, -ONE, 0)).unwrap();
    assert_eq!(floor.kind, 5);
    assert_eq!(floor.distance, 3 * ONE);
    let mut stats = RenderStats::new();
    let c = s.cast_ray(&v(0, 5 * ONE, -5 * ONE), &v(0, -ONE, 0), MAX_DEPTH, &mut stats);
    assert_eq!(c, s.calculate_lighting(&center));
    assert_eq!(stats.rays_cast, 1);
}

#[test]
fn camera_sends_rays_through_the_screen() {
    let cam = Camera::new(v(0, 0, 5 * ONE), v(0, 0, 0), v(0, ONE, 0));
    assert_eq!(cam.get_ray_direction(0, 0), v(0, 0, -ONE));
    assert_eq!(cam.get_ray_direction(750_000, 0), v(600_000, 0, -800_000));
    assert_eq!(cam.get_ray_direction(0, -750_000), v(0, -600_000, -800_000));
    let still = Camera::new(v(0, 0, 0), v(0, 0, 0), v(0, ONE, 0));
    assert_eq!(still.get_ray_direction(0, 0), v(0, 0, 0));
}

#[test]
fn pixels_lie_on_the_screen() {
    assert_eq!(screen_coordinates(0, 0, 400, 300), (-1_333_333, ONE));
    assert_eq!(screen_coordinates(200, 150, 400, 300), (0, 0));
    assert_eq!(screen_coordinates(400, 300, 400, 300), (1_333_333, -ONE));
    assert_eq!(screen_coordinates(1, 1, 2, 2), (0, 0));
    assert_eq!(screen_coordinates(0, 3, 4, 4), (-ONE, -500_000));
    assert_eq!(screen_coordinates(3, 3, 0, 4), (0, -500_000));
    assert_eq!(screen_coordinates(3, 3, 4, 0), (0, ONE));
}

#[test]
fn frame_holds_one_packed_color_for_each_pixel() {
    let s = scene(
        vec![Cube::new(v(0, ONE, 0), ONE, matte(MaterialKind::Dirt, Color::new(200, 100, 50)))],
        matte(MaterialKind::Stone, Color::new(100, 150, 200)),
        vec![white_light(v(3 * ONE, 6 * ONE, 5 * ONE))],
    );
    let cam = Camera::new(v(0, 2 * ONE, 6 * ONE), v(0, ONE, 0), v(0, ONE, 0));
    let mut stats = RenderStats::new();
    let frame = render(&s, &cam, 8, 6, &mut stats);
    assert_eq!(frame.len(), 48);
    assert_eq!(stats.rays_cast, 48);
    let mut colors = std::collections::BTreeSet::new();
    for y in 0..6u32 {
        for x in 0..8u32 {
            let mut one = RenderStats::new();
            let c = render_pixel(&s, &cam, x, y, 8, 6, &mut one);
            assert_eq!(frame[(y * 8 + x) as usize], c.to_hex());
            let p = screen_coordinates(x, y, 8, 6);
            let mut again = RenderStats::new();
            assert_eq!(c, s.cast_ray(&cam.eye, &cam.get_ray_direction(p.0, p.1), MAX_DEPTH, &mut again));
            colors.insert(c.to_hex());
        }
    }
    let corner = screen_coordinates(0, 0, 8, 6);
    assert_eq!(corner, (-1_333_333, ONE));
    assert_eq!(frame[0], sample_sky(&None, &cam.get_ray_direction(corner.0, corner.1)).to_hex());
    assert_eq!(frame[0], 0x80c5ff);
    assert!(render(&s, &cam, 0, 6, &mut stats).is_empty());
    assert!(render(&s, &cam, 8, 0, &mut stats).is_empty());
    assert_eq!(stats.rays_cast, 48);
    assert!(colors.len() >= 3);
}
