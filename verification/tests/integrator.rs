use tracer::materials::{lambertian, metal};
use tracer::random::{random_in_unit_disk, random_in_unit_sphere, random_double, RandomSource};
use tracer::ray::{Ray, V3};
use tracer::scene::Sphere;
use tracer::{background, color};

const S: i64 = 1_000_000;

fn replay(draws: Vec<i64>) -> RandomSource {
    RandomSource::Replay { draws, next: 0 }
}

#[test]
fn background_straight_up_is_sky_blue() {
    let r = Ray::new(V3::new(0, 0, 0), V3::new(0, S, 0));
    assert_eq!(background(&r), V3::new(500_000, 700_000, S));
}

#[test]
fn background_straight_down_is_white() {
    let r = Ray::new(V3::new(0, 0, 0), V3::new(0, -S, 0));
    assert_eq!(background(&r), V3::new(S, S, S));
}

#[test]
fn a_missing_ray_pays_out_the_background() {
    let world: Vec<Sphere> = vec![];
    let r = Ray::new(V3::new(0, 0, 0), V3::new(0, S, 0));
    let mut src = replay(vec![]);
    assert_eq!(color(&r, &world, 50, &mut src), V3::new(500_000, 700_000, S));
}

#[test]
fn depth_zero_contributes_black_between_facing_mirrors() {
    let mirror = metal(V3::new(900_000, 900_000, 900_000), 0);
    let world: Vec<Sphere> = vec![
        Sphere { center: V3::new(0, 0, 10 * S), radius: S, material: mirror },
        Sphere { center: V3::new(0, 0, -10 * S), radius: S, material: mirror },
    ];
    let r = Ray::new(V3::new(0, 0, 0), V3::new(0, 0, S));
    let mut src = replay(vec![]);
    assert_eq!(color(&r, &world, 0, &mut src), V3::new(0, 0, 0));
    let r2 = Ray::new(V3::new(0, 0, 0), V3::new(0, 0, -S));
    let mut src2 = replay(vec![]);
    assert_eq!(color(&r2, &world, 0, &mut src2), V3::new(0, 0, 0));
}

#[test]
fn one_diffuse_bounce_tints_the_background() {
    let albedo = V3::new(500_000, 500_000, 500_000);
    let world: Vec<Sphere> = vec![Sphere {
        center: V3::new(0, 0, 0),
        radius: S,
        material: lambertian(albedo),
    }];
    // the hit at (0, 0, -1) scatters toward (0, 0, -2) under half draws
    // (target = p + normal + 0); the scattered ray misses, and its unit
    // direction has y = 0, so the background sits halfway up the gradient
    let r = Ray::new(V3::new(0, 0, -5 * S), V3::new(0, 0, S));
    let mut src = replay(vec![500_000, 500_000, 500_000]);
    let c = color(&r, &world, 50, &mut src);
    // halfway gradient: 0.5 * white + 0.5 * blue = (0.75, 0.85, 1.0),
    // attenuated by the 0.5 albedo
    assert_eq!(c, V3::new(375_000, 425_000, 500_000));
}

#[test]
fn replaying_a_tape_reproduces_the_color_bit_for_bit() {
    let world: Vec<Sphere> = vec![
        Sphere {
            center: V3::new(0, 0, 0),
            radius: S,
            material: lambertian(V3::new(500_000, 400_000, 300_000)),
        },
        Sphere {
            center: V3::new(0, -1000 * S, 0),
            radius: 999 * S,
            material: lambertian(V3::new(200_000, 300_000, 400_000)),
        },
    ];
    let r = Ray::new(V3::new(0, 0, -5 * S), V3::new(0, 100_000, S));
    let tape: Vec<i64> = vec![
        17, 500_123, 999_999, 3, 250_000, 750_000, 111_111, 222_222, 333_333, 444_444, 555_555,
        666_666, 777_777, 888_888, 123_456, 654_321, 42, 0, 999_998, 500_000,
    ];
    let mut src1 = replay(tape.clone());
    let mut src2 = replay(tape);
    let c1 = color(&r, &world, 50, &mut src1);
    let c2 = color(&r, &world, 50, &mut src2);
    assert_eq!(c1, c2);
}

#[test]
fn replayed_draws_come_back_clamped_and_in_order() {
    let mut src = replay(vec![5, 2_000_000, -3]);
    assert_eq!(random_double(&mut src), 5);
    // out-of-range draws read as one half
    assert_eq!(random_double(&mut src), 500_000);
    assert_eq!(random_double(&mut src), 500_000);
    // an exhausted tape keeps yielding one half
    assert_eq!(random_double(&mut src), 500_000);
}

#[test]
fn system_draws_stay_inside_the_unit_interval() {
    let mut src = RandomSource::System;
    let mut i = 0;
    while i < 1000 {
        let d = random_double(&mut src);
        assert!(0 <= d && d < S);
        i += 1;
    }
}

#[test]
fn sphere_sampling_rejects_points_outside_the_ball() {
    // the first candidate (0.999998, ...) lies outside the ball and is
    // redrawn; the second is the center
    let mut src = replay(vec![
        999_999, 999_999, 999_999, 500_000, 500_000, 500_000,
    ]);
    let p = random_in_unit_sphere(&mut src);
    assert_eq!(p, V3::new(0, 0, 0));
    match src {
        RandomSource::Replay { next, .. } => assert_eq!(next, 6),
        _ => panic!("source must stay a replay"),
    }
}

#[test]
fn sampled_points_really_fall_inside_the_ball_and_disk() {
    let mut src = RandomSource::System;
    let mut i = 0;
    while i < 200 {
        let p = random_in_unit_sphere(&mut src);
        assert!(p.dot(&p) < S);
        let d = random_in_unit_disk(&mut src);
        assert!(d.dot(&d) < S);
        assert_eq!(d.z, 0);
        i += 1;
    }
}
