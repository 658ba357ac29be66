use tracer::camera::Camera;
use tracer::image::test_image;
use tracer::materials::lambertian;
use tracer::random::RandomSource;
use tracer::ray::V3;
use tracer::render::{random_material, random_scene, render, to_byte};
use tracer::scene::{Material, Sphere};

const S: i64 = 1_000_000;

fn replay(draws: Vec<i64>) -> RandomSource {
    RandomSource::Replay { draws, next: 0 }
}

#[test]
fn test_image_has_the_documented_corners() {
    let img = test_image();
    assert_eq!(img.width, 200);
    assert_eq!(img.height, 100);
    assert_eq!(img.data.len(), 20_000);
    // top-left: leftmost column, highest image-plane row
    assert_eq!(img.data[0], (0, 253, 51));
    // top-right
    assert_eq!(img.data[199], (255, 253, 51));
    // bottom-left
    assert_eq!(img.data[19_800], (0, 0, 51));
    // bottom-right
    assert_eq!(img.data[19_999], (255, 0, 51));
}

#[test]
fn quantization_scales_and_gamma_corrects() {
    // a full-strength channel of one sample maps to the top byte
    assert_eq!(to_byte(S, 1), 255);
    // a quarter-strength channel has square root one half
    assert_eq!(to_byte(250_000, 1), 127);
    assert_eq!(to_byte(0, 1), 0);
    // four summed full-strength samples average back to full strength
    assert_eq!(to_byte(4 * S, 4), 255);
}

#[test]
fn camera_aims_the_center_ray_at_the_focal_plane() {
    let cam = Camera::new(
        V3::new(0, 0, 0),
        V3::new(0, 0, -S),
        V3::new(0, S, 0),
        S,     // a 90-degree vertical field of view
        2 * S, // a 2:1 aspect
        0,     // no aperture: the lens offset vanishes
        S,
    );
    // the disk sample still consumes two draws even with no aperture
    let mut src = replay(vec![500_000, 500_000]);
    let r = cam.get_ray(500_000, 500_000, &mut src);
    assert_eq!(r.a, V3::new(0, 0, 0));
    assert_eq!(r.b, V3::new(0, 0, -S));
}

#[test]
fn a_low_first_draw_yields_a_diffuse_material() {
    let mut src = replay(vec![0, 0, 0, 0, 0, 0, 0]);
    assert_eq!(
        random_material(&mut src),
        Material::Lambertian { albedo: V3::new(0, 0, 0) }
    );
}

#[test]
fn a_middle_first_draw_yields_a_metal() {
    let mut src = replay(vec![900_000, 0, 0, 0, 0]);
    assert_eq!(
        random_material(&mut src),
        Material::Metal { albedo: V3::new(500_000, 500_000, 500_000), fuzz: 0 }
    );
}

#[test]
fn a_high_first_draw_yields_glass() {
    let mut src = replay(vec![999_999]);
    assert_eq!(
        random_material(&mut src),
        Material::Dielectric { refractive_index: 1_500_000 }
    );
}

#[test]
fn the_demonstration_scene_has_its_fixed_spheres_first() {
    let mut src = replay(vec![]);
    let spheres = random_scene(&mut src);
    assert_eq!(spheres.len(), 488);
    assert_eq!(spheres[0].center, V3::new(0, -1000 * S, 0));
    assert_eq!(spheres[0].radius, 1000 * S);
    assert_eq!(
        spheres[1].material,
        Material::Dielectric { refractive_index: 1_500_000 }
    );
    assert_eq!(spheres[2].center, V3::new(-4 * S, S, 0));
    assert_eq!(
        spheres[3].material,
        Material::Metal { albedo: V3::new(700_000, 600_000, 500_000), fuzz: 0 }
    );
    // every grid sphere keeps the small radius and sits inside its cell
    let mut i = 4;
    while i < spheres.len() {
        assert_eq!(spheres[i].radius, 200_000);
        assert!(-11 * S <= spheres[i].center.x && spheres[i].center.x < 11 * S);
        assert_eq!(spheres[i].center.y, 200_000);
        i += 1;
    }
}

#[test]
fn a_tiny_render_is_deterministic_on_a_replay_tape() {
    let world: Vec<Sphere> = vec![Sphere {
        center: V3::new(0, 0, -3 * S),
        radius: S,
        material: lambertian(V3::new(500_000, 400_000, 300_000)),
    }];
    let cam = Camera::new(
        V3::new(0, 0, 0),
        V3::new(0, 0, -S),
        V3::new(0, S, 0),
        S,
        2 * S,
        0,
        S,
    );
    let tape: Vec<i64> = vec![
        17, 500_123, 999_999, 3, 250_000, 750_000, 111_111, 222_222, 333_333, 444_444,
    ];
    let mut src1 = replay(tape.clone());
    let mut src2 = replay(tape);
    let img1 = render(&world, &cam, 4, 2, 2, 5, &mut src1);
    let img2 = render(&world, &cam, 4, 2, 2, 5, &mut src2);
    assert_eq!(img1.width, 4);
    assert_eq!(img1.height, 2);
    assert_eq!(img1.data.len(), 8);
    assert_eq!(img1.data, img2.data);
}

#[test]
fn an_empty_world_renders_the_background_gradient() {
    let world: Vec<Sphere> = vec![];
    let cam = Camera::new(
        V3::new(0, 0, 0),
        V3::new(0, 0, -S),
        V3::new(0, S, 0),
        S,
        S,
        0,
        S,
    );
    let mut src = replay(vec![]);
    let img = render(&world, &cam, 2, 2, 1, 5, &mut src);
    assert_eq!(img.data.len(), 4);
    // rows come top to bottom: the upper row must not be darker in blue
    // than the lower row, because the gradient brightens the sky
    let top = img.data[0];
    let bottom = img.data[2];
    assert!(top.1 <= bottom.1 && top.0 <= bottom.0);
}
