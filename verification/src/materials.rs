//! Material scattering: what a ray does when it hits a surface.
//!
//! Each material kind maps an incoming ray and a hit record to either an
//! absorbed outcome or a scattered ray with a per-channel attenuation,
//! consuming draws from the random source where its rule calls for them.

use vstd::prelude::*;

use crate::fixed::{
    add_fix, div_fix, fadd, fdiv, fmul, fneg, fsqrt, fsub, mul_fix, neg_fix, sqrt_fix, sub_fix,
    FIX_ONE,
};
use crate::random::{
    draw_value, next_pos, random_double, random_in_unit_sphere, sample_sphere, RandomSource,
};
use crate::ray::{Ray, RayM, V3, V3m};
use crate::scene::{opt_scatter_model, HitM, HitRecord, Material, Scatter, ScatterM};

verus! {

/// The color white, the attenuation of a dielectric.
pub open spec fn white() -> V3m {
    V3m { x: FIX_ONE as int, y: FIX_ONE as int, z: FIX_ONE as int }
}

/// A diffuse material tinting by `albedo`.
pub fn lambertian(albedo: V3) -> (m: Material)
    ensures
        m == (Material::Lambertian { albedo }),
{
    Material::Lambertian { albedo }
}

/// A reflective material tinting by `albedo`, its mirror blurred by
/// `fuzz`, capped at one.
pub fn metal(albedo: V3, fuzz: i64) -> (m: Material)
    ensures
        m == (Material::Metal {
            albedo,
            fuzz: if fuzz < FIX_ONE {
                fuzz
            } else {
                FIX_ONE
            },
        }),
{
    let capped: i64 = if fuzz < FIX_ONE {
        fuzz
    } else {
        FIX_ONE
    };
    Material::Metal { albedo, fuzz: capped }
}

/// A transparent material of the given refractive index.
pub fn dielectric(refractive_index: i64) -> (m: Material)
    ensures
        m == (Material::Dielectric { refractive_index }),
{
    Material::Dielectric { refractive_index }
}

/// The incident direction mirrored about the normal:
/// `v - 2 (v . n) n`.
pub open spec fn reflect_m(v: V3m, n: V3m) -> V3m {
    v.sub(n.scale(fadd(v.dot(n), v.dot(n))))
}

/// Mirror the incident direction about the normal.
pub fn reflect(incident: &V3, normal: &V3) -> (r: V3)
    ensures
        r@ == reflect_m(incident@, normal@),
{
    let d: i64 = incident.dot(normal);
    incident.sub(&normal.scale(add_fix(d, d)))
}

/// The Schlick estimate of Fresnel reflectance:
/// `r0 + (1 - r0) (1 - cos)^5` with `r0 = ((1 - n) / (1 + n))^2`.
pub open spec fn schlick_m(cosine: int, refractive_index: int) -> int {
    let r0 = fdiv(fsub(FIX_ONE as int, refractive_index), fadd(FIX_ONE as int, refractive_index));
    let r0s = fmul(r0, r0);
    let e1 = fsub(FIX_ONE as int, cosine);
    let e2 = fmul(e1, e1);
    let e4 = fmul(e2, e2);
    let e5 = fmul(e4, e1);
    fadd(r0s, fmul(fsub(FIX_ONE as int, r0s), e5))
}

/// The probability that a dielectric boundary reflects, by the Schlick
/// approximation.
pub fn schlick(cosine: i64, refractive_index: i64) -> (r: i64)
    ensures
        r as int == schlick_m(cosine as int, refractive_index as int),
{
    let r0: i64 = div_fix(sub_fix(FIX_ONE, refractive_index), add_fix(FIX_ONE, refractive_index));
    let r0s: i64 = mul_fix(r0, r0);
    let e1: i64 = sub_fix(FIX_ONE, cosine);
    let e2: i64 = mul_fix(e1, e1);
    let e4: i64 = mul_fix(e2, e2);
    let e5: i64 = mul_fix(e4, e1);
    add_fix(r0s, mul_fix(sub_fix(FIX_ONE, r0s), e5))
}

/// Snell refraction of `v` at a surface of outward normal `n`: the
/// refracted direction, or nothing under total internal reflection.
pub open spec fn refract_m(v: V3m, n: V3m, ni_over_nt: int) -> Option<V3m> {
    let uv = v.normalize();
    let dt = uv.dot(n);
    let disc = fsub(
        FIX_ONE as int,
        fmul(fmul(ni_over_nt, ni_over_nt), fsub(FIX_ONE as int, fmul(dt, dt))),
    );
    if disc > 0 {
        Some(uv.sub(n.scale(dt)).scale(ni_over_nt).sub(n.scale(fsqrt(disc))))
    } else {
        None
    }
}

/// Attempt Snell refraction; a negative refraction discriminant is total
/// internal reflection, not an error.
pub fn refract(v: &V3, n: &V3, ni_over_nt: i64) -> (r: Option<V3>)
    ensures
        match r {
            Some(d) => refract_m(v@, n@, ni_over_nt as int) == Some(d@),
            None => refract_m(v@, n@, ni_over_nt as int) is None,
        },
{
    let uv: V3 = v.normalize();
    let dt: i64 = uv.dot(n);
    let disc: i64 = sub_fix(
        FIX_ONE,
        mul_fix(mul_fix(ni_over_nt, ni_over_nt), sub_fix(FIX_ONE, mul_fix(dt, dt))),
    );
    if disc > 0 {
        Some(uv.sub(&n.scale(dt)).scale(ni_over_nt).sub(&n.scale(sqrt_fix(disc))))
    } else {
        None
    }
}

/// The outcome a material yields for the incoming ray `ray` at the hit
/// `hit` when the tape is read from `pos`, with the position after it.
pub open spec fn scatter_model(
    m: Material,
    ray: RayM,
    hit: HitM,
    draws: Seq<i64>,
    pos: int,
) -> (Option<ScatterM>, int) {
    match m {
        Material::Lambertian { albedo } => {
            let (sp, p2) = sample_sphere(draws, pos);
            let target = hit.p.add(hit.normal).add(sp);
            (
                Some(
                    ScatterM {
                        ray: RayM { a: hit.p, b: target.sub(hit.p) },
                        attenuation: albedo@,
                    },
                ),
                p2,
            )
        },
        Material::Metal { albedo, fuzz } => {
            let reflected = reflect_m(ray.b.normalize(), hit.normal);
            let (dir, p2) = if fuzz == 0 {
                (reflected, pos)
            } else {
                let (sp, p1) = sample_sphere(draws, pos);
                (reflected.add(sp.scale(fuzz as int)), p1)
            };
            if dir.dot(hit.normal) > 0 {
                (
                    Some(ScatterM { ray: RayM { a: hit.p, b: dir }, attenuation: albedo@ }),
                    p2,
                )
            } else {
                (None, p2)
            }
        },
        Material::Dielectric { refractive_index } => {
            let ddn = ray.b.dot(hit.normal);
            let (outward, ni_over_nt, cosine) = if ddn > 0 {
                (
                    hit.normal.neg(),
                    refractive_index as int,
                    fdiv(fmul(refractive_index as int, ddn), ray.b.length()),
                )
            } else {
                (
                    hit.normal,
                    fdiv(FIX_ONE as int, refractive_index as int),
                    fdiv(fneg(ddn), ray.b.length()),
                )
            };
            let (dir, p2) = match refract_m(ray.b, outward, ni_over_nt) {
                Some(refracted) => {
                    if draw_value(draws, pos) < schlick_m(cosine, refractive_index as int) {
                        (reflect_m(ray.b, hit.normal), next_pos(draws, pos))
                    } else {
                        (refracted, next_pos(draws, pos))
                    }
                },
                None => (reflect_m(ray.b, hit.normal), pos),
            };
            (
                Some(ScatterM { ray: RayM { a: hit.p, b: dir }, attenuation: white() }),
                p2,
            )
        },
    }
}

/// Scatter the incoming ray at the hit surface: the material's rule,
/// deterministic aside from consuming the random source.
pub fn scatter(m: &Material, ray: &Ray, hit: &HitRecord, src: &mut RandomSource) -> (res: Option<
    Scatter,
>)
    ensures
        old(src).advanced_to(
            *final(src),
            scatter_model(*m, ray@, hit@, old(src).sdraws(), old(src).spos()).1,
        ),
        old(src).is_replay() ==> opt_scatter_model(res) == scatter_model(
            *m,
            ray@,
            hit@,
            old(src).sdraws(),
            old(src).spos(),
        ).0,
        m matches Material::Lambertian { albedo } ==> (res matches Some(sc) && sc.attenuation
            == albedo && sc.ray.a == hit.p),
        m matches Material::Dielectric { refractive_index } ==> (res matches Some(sc)
            && sc.attenuation@ == white() && sc.ray.a == hit.p),
        m matches Material::Metal { albedo, fuzz } ==> (res matches Some(sc) ==> (
        sc.attenuation == albedo && sc.ray.a == hit.p && sc.ray@.b.dot(hit@.normal) > 0)),
        m matches Material::Metal { albedo, fuzz } ==> (fuzz == 0 ==> {
            let reflected = reflect_m(ray@.b.normalize(), hit@.normal);
            &&& res is Some <==> reflected.dot(hit@.normal) > 0
            &&& (res matches Some(sc) ==> sc.attenuation == albedo && sc.ray@ == (RayM {
                a: hit@.p,
                b: reflected,
            }))
        }),
{
    match m {
        Material::Lambertian { albedo } => {
            let sp: V3 = random_in_unit_sphere(src);
            let target: V3 = hit.p.add(&hit.normal).add(&sp);
            Some(Scatter { ray: Ray::new(hit.p, target.sub(&hit.p)), attenuation: *albedo })
        },
        Material::Metal { albedo, fuzz } => {
            let reflected: V3 = reflect(&ray.direction().normalize(), &hit.normal);
            let dir: V3 = if *fuzz == 0 {
                reflected
            } else {
                let sp: V3 = random_in_unit_sphere(src);
                reflected.add(&sp.scale(*fuzz))
            };
            let scattered: Ray = Ray::new(hit.p, dir);
            if scattered.direction().dot(&hit.normal) > 0 {
                Some(Scatter { ray: scattered, attenuation: *albedo })
            } else {
                None
            }
        },
        Material::Dielectric { refractive_index } => {
            let ri: i64 = *refractive_index;
            let ddn: i64 = ray.direction().dot(&hit.normal);
            let mag: i64 = ray.direction().length();
            let (outward, ni_over_nt, cosine): (V3, i64, i64) = if ddn > 0 {
                (hit.normal.neg(), ri, div_fix(mul_fix(ri, ddn), mag))
            } else {
                (hit.normal, div_fix(FIX_ONE, ri), div_fix(neg_fix(ddn), mag))
            };
            let scattered: Ray = match refract(&ray.direction(), &outward, ni_over_nt) {
                Some(refracted) => {
                    if random_double(src) < schlick(cosine, ri) {
                        Ray::new(hit.p, reflect(&ray.direction(), &hit.normal))
                    } else {
                        Ray::new(hit.p, refracted)
                    }
                },
                None => Ray::new(hit.p, reflect(&ray.direction(), &hit.normal)),
            };
            Some(Scatter { ray: scattered, attenuation: V3::new(FIX_ONE, FIX_ONE, FIX_ONE) })
        },
    }
}

} // verus!
