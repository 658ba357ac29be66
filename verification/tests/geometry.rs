use tracer::materials::lambertian;
use tracer::ray::{Ray, V3};
use tracer::scene::{Hittable, Material, Sphere};
use tracer::HIT_BIAS;

const S: i64 = 1_000_000;
const FAR: i64 = 1_000_000_000_000_000_000;

fn unit_sphere_at(z: i64) -> Sphere {
    Sphere {
        center: V3::new(0, 0, z),
        radius: S,
        material: lambertian(V3::new(500_000, 500_000, 500_000)),
    }
}

fn axial_ray() -> Ray {
    // from (0, 0, -5) straight along +z; crosses the unit sphere at the
    // origin at t = 4 and t = 6
    Ray::new(V3::new(0, 0, -5 * S), V3::new(0, 0, S))
}

#[test]
fn sphere_hit_returns_the_near_root() {
    let s = unit_sphere_at(0);
    let rec = s.hit(&axial_ray(), HIT_BIAS, FAR).unwrap();
    assert_eq!(rec.t, 4 * S);
    assert_eq!(rec.p, V3::new(0, 0, -S));
    assert_eq!(rec.normal, V3::new(0, 0, -S));
}

#[test]
fn sphere_hit_falls_back_to_the_far_root() {
    let s = unit_sphere_at(0);
    // window opens past the near root t = 4 but still holds t = 6
    let rec = s.hit(&axial_ray(), 5 * S, FAR).unwrap();
    assert_eq!(rec.t, 6 * S);
    assert_eq!(rec.p, V3::new(0, 0, S));
    assert_eq!(rec.normal, V3::new(0, 0, S));
}

#[test]
fn sphere_hit_misses_when_the_window_closes_early() {
    let s = unit_sphere_at(0);
    assert!(s.hit(&axial_ray(), HIT_BIAS, 3 * S).is_none());
}

#[test]
fn sphere_hit_misses_a_ray_pointing_elsewhere() {
    let s = unit_sphere_at(0);
    let r = Ray::new(V3::new(0, 0, -5 * S), V3::new(0, S, 0));
    assert!(s.hit(&r, HIT_BIAS, FAR).is_none());
}

#[test]
fn positive_radius_normal_points_outward() {
    let s = unit_sphere_at(0);
    let rec = s.hit(&axial_ray(), HIT_BIAS, FAR).unwrap();
    let outward = rec.p.sub(&s.center);
    assert!(outward.dot(&rec.normal) > 0);
}

#[test]
fn negative_radius_normal_points_inward() {
    let s = Sphere {
        center: V3::new(0, 0, 0),
        radius: -S,
        material: lambertian(V3::new(500_000, 500_000, 500_000)),
    };
    let rec = s.hit(&axial_ray(), HIT_BIAS, FAR).unwrap();
    assert_eq!(rec.t, 4 * S);
    assert_eq!(rec.normal, V3::new(0, 0, S));
    let outward = rec.p.sub(&s.center);
    assert!(outward.dot(&rec.normal) < 0);
}

#[test]
fn collection_returns_the_globally_nearest_hit() {
    // ordered so that a naive first-match would answer with the farthest
    let far = Sphere {
        center: V3::new(0, 0, 2 * S),
        radius: S,
        material: lambertian(V3::new(100_000, 0, 0)),
    };
    let middle = Sphere {
        center: V3::new(0, 0, 0),
        radius: S,
        material: lambertian(V3::new(200_000, 0, 0)),
    };
    let near = Sphere {
        center: V3::new(0, 0, -2 * S),
        radius: S,
        material: lambertian(V3::new(300_000, 0, 0)),
    };
    let world: Vec<Sphere> = vec![far, middle, near];
    let rec = world.hit(&axial_ray(), HIT_BIAS, FAR).unwrap();
    assert_eq!(rec.t, 2 * S);
    assert_eq!(rec.material, Material::Lambertian { albedo: V3::new(300_000, 0, 0) });
}

#[test]
fn collection_scans_past_a_missing_member() {
    let miss = Sphere {
        center: V3::new(100 * S, 0, 0),
        radius: S,
        material: lambertian(V3::new(0, 0, 0)),
    };
    let world: Vec<Sphere> = vec![miss, unit_sphere_at(0)];
    let rec = world.hit(&axial_ray(), HIT_BIAS, FAR).unwrap();
    assert_eq!(rec.t, 4 * S);
}

#[test]
fn empty_collection_never_hits() {
    let world: Vec<Sphere> = vec![];
    assert!(world.hit(&axial_ray(), HIT_BIAS, FAR).is_none());
}
