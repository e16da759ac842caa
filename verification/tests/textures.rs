use raytracer::color::Color;
use raytracer::skybox::{lookup, sample_sky, SkyFace, Skybox};
use raytracer::texture::{Pattern, Texture};
use raytracer::vector::Vec3;

const ONE: i64 = 1_000_000;

fn check_against(t: &Texture, size: u32, f: &dyn Fn(u32, u32) -> [u8; 3]) {
    assert_eq!(t.width, size);
    assert_eq!(t.height, size);
    assert_eq!(t.data.len(), (size * size * 3) as usize);
    for y in 0..size {
        for x in 0..size {
            let i = ((y * size + x) * 3) as usize;
            let want = f(x, y);
            assert_eq!([t.data[i], t.data[i + 1], t.data[i + 2]], want, "texel ({}, {})", x, y);
            assert_eq!(t.texel(x, y), Color::new(want[0], want[1], want[2]));
        }
    }
}

#[test]
fn grass_matches_its_formula_in_single_precision() {
    let f = |x: u32, y: u32| {
        let noise1 = ((x * 17 + y * 13) % 16) as f32 / 16.0;
        let noise2 = ((x * 7 + y * 11) % 8) as f32 / 8.0;
        let combined = (noise1 + noise2 * 0.3).clamp(0.0, 1.0);
        [(25.0 + combined * 35.0) as u8, 160 + (combined * 60.0) as u8, (25.0 + combined * 30.0) as u8]
    };
    check_against(&Texture::create_grass_texture(), 32, &f);
}

#[test]
fn stone_matches_its_formula_in_single_precision() {
    let f = |x: u32, y: u32| {
        let noise1 = ((x * 23 + y * 19) % 32) as f32 / 32.0;
        let noise2 = ((x * 7 + y * 13) % 16) as f32 / 16.0;
        let combined = (noise1 + noise2 * 0.4).clamp(0.0, 1.0);
        let base_gray = (70.0 + combined * 40.0) as u8;
        let variation = (combined * 15.0) as u8;
        [base_gray + variation, base_gray + variation / 2, base_gray]
    };
    check_against(&Texture::create_stone_texture(), 32, &f);
}

#[test]
fn dirt_matches_its_formula_in_single_precision() {
    let f = |x: u32, y: u32| {
        let noise1 = ((x * 13 + y * 17) % 24) as f32 / 24.0;
        let noise2 = ((x * 29 + y * 7) % 16) as f32 / 16.0;
        let combined = (noise1 + noise2 * 0.5).clamp(0.0, 1.0);
        [(140.0 + combined * 50.0) as u8, (85.0 + combined * 35.0) as u8, (35.0 + combined * 25.0) as u8]
    };
    check_against(&Texture::create_dirt_texture(), 32, &f);
}

#[test]
fn lava_matches_its_formula_in_single_precision() {
    let f = |x: u32, y: u32| {
        let noise1 = ((x * 31 + y * 17) % 32) as f32 / 32.0;
        let noise2 = ((x * 13 + y * 29) % 16) as f32 / 16.0;
        let intensity = (noise1 + noise2 * 0.6).clamp(0.0, 1.0);
        if intensity > 0.7 {
            [255, 255, (150.0 + intensity * 105.0) as u8]
        } else if intensity > 0.4 {
            [255, (120.0 + intensity * 135.0) as u8, 30]
        } else {
            [(180.0 + intensity * 75.0) as u8, 20, 0]
        }
    };
    check_against(&Texture::create_lava_texture(), 32, &f);
}

#[test]
fn lava_bands_at_the_boundary_heat() {
    let t = Texture::create_lava_texture();
    assert_eq!(t.texel(26, 2), Color::new(255, 255, 223));
    assert_eq!(t.texel(3, 7), Color::new(255, 214, 30));
    assert_eq!(Pattern::Lava.color(26, 2), Color::new(255, 255, 223));
    assert_eq!(Pattern::Lava.color(3, 7), Color::new(255, 214, 30));
    assert_eq!(Pattern::Lava.color(0, 0), Color::new(180, 20, 0));
}

#[test]
fn obsidian_matches_its_formula_in_single_precision() {
    let f = |x: u32, y: u32| {
        let noise1 = ((x * 43 + y * 23) % 16) as f32 / 16.0;
        let noise2 = ((x * 17 + y * 31) % 8) as f32 / 8.0;
        let combined = (noise1 + noise2 * 0.2).clamp(0.0, 1.0);
        let base = 15.0 + combined * 25.0;
        let tint = if combined > 0.8 { 20.0 } else { 5.0 };
        [(base + tint * 0.6) as u8, base as u8, (base + tint) as u8]
    };
    check_against(&Texture::create_obsidian_texture(), 32, &f);
}

#[test]
fn special_texture_is_a_board_of_squares() {
    let f = |x: u32, y: u32| {
        if ((x / 8) + (y / 8)) % 2 == 0 {
            [50, 100, 200]
        } else {
            [200, 200, 255]
        }
    };
    check_against(&Texture::create_special_texture(), 64, &f);
}

#[test]
fn sky_top_matches_its_formula_in_single_precision() {
    let f = |x: u32, y: u32| {
        let cloud_noise = ((x * 7 + y * 13) % 64) as f32 / 64.0;
        let cloud = if cloud_noise > 0.7 { 0.8f32 } else { 0.2f32 };
        [(130.0 + cloud * 100.0) as u8, (180.0 + cloud * 50.0) as u8, 255]
    };
    check_against(&Skybox::create_sky_texture_top(), 256, &f);
}

#[test]
fn sky_bottom_matches_its_formula_in_single_precision() {
    let f = |_x: u32, y: u32| {
        let fade = y as f32 / 256.0;
        [(80.0 + fade * 50.0) as u8, (120.0 + fade * 60.0) as u8, (200.0 + fade * 55.0) as u8]
    };
    check_against(&Skybox::create_sky_texture_bottom(), 256, &f);
}

#[test]
fn sky_front_matches_its_formula_in_single_precision() {
    let f = |x: u32, y: u32| {
        let size = 256u32;
        let fade = (size - y) as f32 / size as f32;
        let sun_x = size / 4;
        let sun_y = size / 3;
        let dist = ((x as f32 - sun_x as f32).powi(2) + (y as f32 - sun_y as f32).powi(2)).sqrt();
        let sun = if dist < 30.0 { 0.8f32 } else { 0.0f32 };
        [
            (100.0 + fade * 80.0 + sun * 100.0) as u8,
            (150.0 + fade * 80.0 + sun * 80.0) as u8,
            (220.0 + fade * 35.0) as u8,
        ]
    };
    check_against(&Skybox::create_sky_texture_front(), 256, &f);
}

fn side(r0: f32, rk: f32, g0: f32, gk: f32, b0: f32, bk: f32) -> impl Fn(u32, u32) -> [u8; 3] {
    move |_x: u32, y: u32| {
        let fade = (256 - y) as f32 / 256.0;
        [(r0 + fade * rk) as u8, (g0 + fade * gk) as u8, (b0 + fade * bk) as u8]
    }
}

#[test]
fn sky_sides_match_their_formulas_in_single_precision() {
    check_against(&Skybox::create_sky_texture_back(), 256, &side(90.0, 60.0, 140.0, 70.0, 210.0, 45.0));
    check_against(&Skybox::create_sky_texture_left(), 256, &side(95.0, 65.0, 145.0, 75.0, 215.0, 40.0));
    check_against(&Skybox::create_sky_texture_right(), 256, &side(105.0, 55.0, 155.0, 65.0, 225.0, 30.0));
}

#[test]
fn procedural_sky_has_its_six_faces() {
    let sky = Skybox::create_procedural_sky();
    assert_eq!(sky.px.data, Skybox::create_sky_texture_right().data);
    assert_eq!(sky.nx.data, Skybox::create_sky_texture_left().data);
    assert_eq!(sky.py.data, Skybox::create_sky_texture_top().data);
    assert_eq!(sky.ny.data, Skybox::create_sky_texture_bottom().data);
    assert_eq!(sky.pz.data, Skybox::create_sky_texture_front().data);
    assert_eq!(sky.nz.data, Skybox::create_sky_texture_back().data);
    assert_eq!(sky.px.width, 256);
    assert_eq!(sky.ny.height, 256);
}

#[test]
fn patterns_have_their_sizes_and_fill_their_textures() {
    assert_eq!(Pattern::Grass.size(), 32);
    assert_eq!(Pattern::Squares.size(), 64);
    assert_eq!(Pattern::SkyFront.size(), 256);
    let t = Texture::from_pattern(Pattern::Dirt);
    assert_eq!(t.data, Texture::create_dirt_texture().data);
    assert_eq!(t.texel(5, 9), Pattern::Dirt.color(5, 9));
    assert_eq!(Pattern::Grass.color(0, 0), Color::new(25, 160, 25));
    assert_eq!(Pattern::Grass.color(1, 0), Color::new(36, 179, 34));
}

#[test]
fn missing_texel_reads_magenta() {
    let t = Texture::create_special_texture();
    assert_eq!(t.texel(0, 64), Color::new(255, 0, 255));
    assert_eq!(t.texel(63, 63), Color::new(50, 100, 200));
    assert_eq!(t.texel(63, 55), Color::new(200, 200, 255));
    assert_eq!(t.texel(u32::MAX, u32::MAX), Color::new(255, 0, 255));
    let short = Texture { width: 2, height: 2, data: vec![1, 2, 3, 4, 5, 6, 7, 8] };
    assert_eq!(short.texel(1, 0), Color::new(4, 5, 6));
    assert_eq!(short.texel(0, 1), Color::new(255, 0, 255));
}

#[test]
fn sampling_wraps_the_coordinates() {
    let t = Texture { width: 2, height: 2, data: vec![10, 11, 12, 20, 21, 22, 30, 31, 32, 40, 41, 42] };
    assert_eq!(t.sample(0, 0), Color::new(10, 11, 12));
    assert_eq!(t.sample(499_999, 0), Color::new(10, 11, 12));
    assert_eq!(t.sample(500_000, 0), Color::new(20, 21, 22));
    assert_eq!(t.sample(999_999, 999_999), Color::new(40, 41, 42));
    assert_eq!(t.sample(ONE, ONE), Color::new(10, 11, 12));
    assert_eq!(t.sample(-250_000, 0), Color::new(20, 21, 22));
    assert_eq!(t.sample(-ONE, 1_750_000), Color::new(30, 31, 32));
    assert_eq!(t.sample(i64::MIN, i64::MAX), t.sample(224_192, 775_807));
}

#[test]
fn cube_map_picks_the_face_of_the_greatest_component() {
    assert_eq!(lookup(&Vec3::new(0, ONE, 0)), (SkyFace::Py, 500_000, 500_000));
    assert_eq!(lookup(&Vec3::new(0, -ONE, 0)), (SkyFace::Ny, 500_000, 500_000));
    assert_eq!(lookup(&Vec3::new(ONE, 0, 0)), (SkyFace::Px, 500_000, 500_000));
    assert_eq!(lookup(&Vec3::new(-3 * ONE, 0, 0)), (SkyFace::Nx, 500_000, 500_000));
    assert_eq!(lookup(&Vec3::new(0, 0, 2 * ONE)), (SkyFace::Pz, 500_000, 500_000));
    assert_eq!(lookup(&Vec3::new(0, 0, -2 * ONE)), (SkyFace::Nz, 500_000, 500_000));
    assert_eq!(lookup(&Vec3::new(0, 0, 0)), (SkyFace::Nx, 500_000, 500_000));
    assert_eq!(lookup(&Vec3::new(4 * ONE, 0, 3 * ONE)), (SkyFace::Px, 125_000, 500_000));
    assert_eq!(lookup(&Vec3::new(3 * ONE, 4 * ONE, 0)), (SkyFace::Py, 875_000, 500_000));
    assert_eq!(lookup(&Vec3::new(ONE, ONE, 0)).0, SkyFace::Px);
}

#[test]
fn cube_map_samples_the_face_it_picks() {
    let sky = Skybox::create_procedural_sky();
    assert_eq!(sky.sample(&Vec3::new(0, ONE, 0)), sky.py.sample(500_000, 500_000));
    assert_eq!(sky.sample(&Vec3::new(0, ONE, 0)), sky.py.texel(128, 128));
    assert_eq!(sky.sample(&Vec3::new(4 * ONE, 0, 3 * ONE)), sky.px.texel(32, 128));
    assert_eq!(sample_sky(&Some(sky.clone()), &Vec3::new(0, 0, -ONE)), sky.nz.texel(128, 128));
}

#[test]
fn gradient_sky_without_a_cube_map() {
    assert_eq!(sample_sky(&None, &Vec3::new(0, ONE, 0)), Color::new(180, 230, 255));
    assert_eq!(sample_sky(&None, &Vec3::new(0, 550_000, 0)), Color::new(140, 205, 255));
    assert_eq!(sample_sky(&None, &Vec3::new(0, 100_001, 0)), Color::new(100, 180, 255));
    assert_eq!(sample_sky(&None, &Vec3::new(0, 100_000, 0)), Color::new(120, 160, 200));
    assert_eq!(sample_sky(&None, &Vec3::new(ONE, -ONE, 0)), Color::new(120, 160, 200));
    assert_eq!(sample_sky(&None, &Vec3::new(0, 5 * ONE, 0)), Color::new(180, 230, 255));
}
