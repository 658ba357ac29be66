use tracer::materials::{dielectric, lambertian, metal, refract, scatter, schlick};
use tracer::random::RandomSource;
use tracer::ray::{Ray, V3};
use tracer::scene::{HitRecord, Material};

const S: i64 = 1_000_000;

fn replay(draws: Vec<i64>) -> RandomSource {
    RandomSource::Replay { draws, next: 0 }
}

fn replay_pos(src: &RandomSource) -> usize {
    match src {
        RandomSource::Replay { next, .. } => *next,
        RandomSource::System => panic!("expected a replay source"),
    }
}

fn flat_hit(material: Material) -> HitRecord {
    HitRecord { t: S, p: V3::new(0, 0, 0), normal: V3::new(0, 0, S), material }
}

#[test]
fn metal_with_zero_fuzz_is_a_perfect_mirror() {
    let m = metal(V3::new(800_000, 800_000, 800_000), 0);
    let incoming = Ray::new(V3::new(-S, 0, S), V3::new(S, 0, -S));
    let mut src = replay(vec![123, 456, 789]);
    let out = scatter(&m, &incoming, &flat_hit(m), &mut src).unwrap();
    // the normalized incoming direction, mirrored about (0, 0, 1)
    assert_eq!(out.ray.b, V3::new(707_107, 0, 707_107));
    assert_eq!(out.ray.a, V3::new(0, 0, 0));
    assert_eq!(out.attenuation, V3::new(800_000, 800_000, 800_000));
    // no randomness consumed
    assert_eq!(replay_pos(&src), 0);
}

#[test]
fn metal_absorbs_a_ray_reflected_into_the_surface() {
    let m = metal(V3::new(800_000, 800_000, 800_000), 0);
    // reflecting (1, 0, 1) about (0, 0, 1) points into the surface
    let incoming = Ray::new(V3::new(-S, 0, -S), V3::new(S, 0, S));
    let mut src = replay(vec![]);
    assert!(scatter(&m, &incoming, &flat_hit(m), &mut src).is_none());
}

#[test]
fn metal_constructor_caps_fuzz_at_one() {
    match metal(V3::new(S, S, S), 3 * S) {
        Material::Metal { fuzz, .. } => assert_eq!(fuzz, S),
        _ => panic!("metal constructor must build a metal"),
    }
}

#[test]
fn lambertian_always_scatters_with_its_albedo() {
    let albedo = V3::new(500_000, 400_000, 300_000);
    let m = lambertian(albedo);
    let incoming = Ray::new(V3::new(0, 0, 5 * S), V3::new(0, 0, -S));
    // three half draws give the center of the unit ball
    let mut src = replay(vec![500_000, 500_000, 500_000]);
    let out = scatter(&m, &incoming, &flat_hit(m), &mut src).unwrap();
    assert_eq!(out.attenuation, albedo);
    assert_eq!(out.ray.a, V3::new(0, 0, 0));
    // target = p + normal + (0, 0, 0)
    assert_eq!(out.ray.b, V3::new(0, 0, S));
    assert_eq!(replay_pos(&src), 3);
}

#[test]
fn dielectric_attenuation_is_white_on_the_reflect_branch() {
    let m = dielectric(1_500_000);
    let incoming = Ray::new(V3::new(0, 0, 5 * S), V3::new(0, 0, -S));
    // schlick(1, 1.5) = 0.04: a draw of 0 forces reflection
    let mut src = replay(vec![0]);
    let out = scatter(&m, &incoming, &flat_hit(m), &mut src).unwrap();
    assert_eq!(out.attenuation, V3::new(S, S, S));
    assert_eq!(replay_pos(&src), 1);
}

#[test]
fn dielectric_attenuation_is_white_on_the_refract_branch() {
    let m = dielectric(1_500_000);
    let incoming = Ray::new(V3::new(0, 0, 5 * S), V3::new(0, 0, -S));
    // a draw of 0.5 is above the 0.04 reflectance: refraction
    let mut src = replay(vec![500_000]);
    let out = scatter(&m, &incoming, &flat_hit(m), &mut src).unwrap();
    assert_eq!(out.attenuation, V3::new(S, S, S));
    assert_eq!(replay_pos(&src), 1);
}

#[test]
fn schlick_reflectance_at_head_on_incidence() {
    // r0 = ((1 - 1.5) / (1 + 1.5))^2 = 0.04, and the fifth-power term
    // vanishes at cosine 1
    assert_eq!(schlick(S, 1_500_000), 40_000);
}

#[test]
fn refraction_bends_a_head_on_ray_straight_through() {
    let out = refract(&V3::new(0, 0, -S), &V3::new(0, 0, S), 666_666).unwrap();
    assert_eq!(out, V3::new(0, 0, -S));
}

#[test]
fn grazing_exit_is_total_internal_reflection() {
    // leaving glass (ratio 1.5) at a grazing angle: the refraction
    // discriminant goes negative
    assert!(refract(&V3::new(S, 0, -100_000), &V3::new(0, 0, S), 1_500_000).is_none());
}
