//! Scene geometry: what a ray can hit, and the record of a hit.
//!
//! A scene is an ordered collection of spheres. Intersection solves the
//! quadratic `|p(t) - center|^2 = radius^2` in the fixed-point encoding and
//! returns the first root inside the `(t_min, t_max)` window; a collection
//! returns the hit with the smallest `t` over its members, the earlier
//! member winning a tie.

use vstd::prelude::*;

use crate::fixed::{
    div_fix, fdiv, fmul, fneg, fsqrt, fsub, iabs, mul_fix, neg_fix, sqrt_fix, sub_fix, tdiv,
    FIX_LIMIT, FIX_ONE,
};
use crate::ray::{Point, Ray, RayM, V3, V3m};

verus! {

/// What happens when a ray meets a surface: the closed set of material
/// kinds, each a small stateless value freely copied between primitives.
#[derive(Clone, Copy, Debug, PartialEq, Eq, Structural)]
pub enum Material {
    /// Diffuse: always scatters toward a random point around the normal,
    /// tinting by `albedo`.
    Lambertian { albedo: V3 },
    /// Reflective: mirrors the incoming direction, fuzzed by a random
    /// perturbation of size `fuzz`, tinting by `albedo`; absorbs rays that
    /// would reflect into the surface.
    Metal { albedo: V3, fuzz: i64 },
    /// Transparent: refracts or reflects by Snell's law and the Schlick
    /// reflectance, never absorbing and never tinting.
    Dielectric { refractive_index: i64 },
}

/// Model of a scatter outcome.
pub struct ScatterM {
    pub ray: RayM,
    pub attenuation: V3m,
}

/// A scattered ray with the per-channel attenuation it picked up.
#[derive(Clone, Copy, Debug, PartialEq, Eq, Structural)]
pub struct Scatter {
    pub ray: Ray,
    pub attenuation: V3,
}

impl View for Scatter {
    type V = ScatterM;

    open spec fn view(&self) -> ScatterM {
        ScatterM { ray: self.ray@, attenuation: self.attenuation@ }
    }
}

/// The model of an optional scatter outcome.
pub open spec fn opt_scatter_model(o: Option<Scatter>) -> Option<ScatterM> {
    match o {
        Some(s) => Some(s@),
        None => None,
    }
}

/// Model of a hit: distance, point, surface normal and material, over
/// unbounded integers.
pub struct HitM {
    pub t: int,
    pub p: V3m,
    pub normal: V3m,
    pub material: Material,
}

/// Where a ray met a surface: the distance `t` along the ray, the point,
/// the outward normal there, and the material that was hit. Produced per
/// intersection test and consumed immediately.
#[derive(Clone, Copy, Debug, PartialEq, Eq, Structural)]
pub struct HitRecord {
    /// Distance along the ray of the hit.
    pub t: i64,
    /// The point in space where the ray met the surface.
    pub p: Point,
    /// Surface normal at the hit, following the sign of the radius.
    pub normal: V3,
    /// The material of the surface that was hit.
    pub material: Material,
}

impl View for HitRecord {
    type V = HitM;

    open spec fn view(&self) -> HitM {
        HitM { t: self.t as int, p: self.p@, normal: self.normal@, material: self.material }
    }
}

/// The model of an optional hit.
pub open spec fn opt_hit_model(o: Option<HitRecord>) -> Option<HitM> {
    match o {
        Some(h) => Some(h@),
        None => None,
    }
}

/// Anything a ray can be tested against.
pub trait Hittable {
    /// The hit this object yields for `r` inside the window
    /// `(t_min, t_max)`, if any.
    spec fn hit_model(&self, r: RayM, t_min: int, t_max: int) -> Option<HitM>;

    /// Intersect the ray with this object over the open window
    /// `(t_min, t_max)`.
    fn hit(&self, r: &Ray, t_min: i64, t_max: i64) -> (res: Option<HitRecord>)
        ensures
            opt_hit_model(res) == self.hit_model(r@, t_min as int, t_max as int),
    ;
}

/// A sphere of signed radius: a negative radius flips the outward normal
/// inward, modelling a hollow shell.
pub struct Sphere {
    pub center: Point,
    pub radius: i64,
    pub material: Material,
}

impl Sphere {
    /// Quadratic coefficient `a = d . d` for the ray's direction `d`.
    pub open spec fn quad_a(self, r: RayM) -> int {
        r.b.dot(r.b)
    }

    /// Half-form coefficient `b = (origin - center) . d`.
    pub open spec fn quad_b(self, r: RayM) -> int {
        r.a.sub(self.center@).dot(r.b)
    }

    /// Constant term `c = |origin - center|^2 - radius^2`.
    pub open spec fn quad_c(self, r: RayM) -> int {
        let oc = r.a.sub(self.center@);
        fsub(oc.dot(oc), fmul(self.radius as int, self.radius as int))
    }

    /// Discriminant `b^2 - a c` of the halved-b quadratic.
    pub open spec fn discriminant(self, r: RayM) -> int {
        fsub(fmul(self.quad_b(r), self.quad_b(r)), fmul(self.quad_a(r), self.quad_c(r)))
    }

    /// The smaller root `(-b - sqrt(disc)) / a`.
    pub open spec fn root_near(self, r: RayM) -> int {
        fdiv(fsub(fneg(self.quad_b(r)), fsqrt(self.discriminant(r))), self.quad_a(r))
    }

    /// The larger root `(-b + sqrt(disc)) / a`.
    pub open spec fn root_far(self, r: RayM) -> int {
        fdiv(fsub(fsqrt(self.discriminant(r)), self.quad_b(r)), self.quad_a(r))
    }

    /// The record a hit at distance `t` yields: the point along the ray and
    /// the normal `(p - center) / radius`, whose sign follows the signed
    /// radius.
    pub open spec fn record_at(self, r: RayM, t: int) -> HitM {
        let p = r.at(t);
        HitM {
            t,
            p,
            normal: p.sub(self.center@).scale_div(self.radius as int),
            material: self.material,
        }
    }
}

impl Hittable for Sphere {
    open spec fn hit_model(&self, r: RayM, t_min: int, t_max: int) -> Option<HitM> {
        if self.discriminant(r) > 0 {
            let t1 = self.root_near(r);
            if t_min < t1 && t1 < t_max {
                Some(self.record_at(r, t1))
            } else {
                let t2 = self.root_far(r);
                if t_min < t2 && t2 < t_max {
                    Some(self.record_at(r, t2))
                } else {
                    None
                }
            }
        } else {
            None
        }
    }

    fn hit(&self, r: &Ray, t_min: i64, t_max: i64) -> (res: Option<HitRecord>) {
        let oc: V3 = r.origin().sub(&self.center);
        let dir: V3 = r.direction();
        let a: i64 = dir.dot(&dir);
        let b: i64 = oc.dot(&dir);
        let c: i64 = sub_fix(oc.dot(&oc), mul_fix(self.radius, self.radius));
        let disc: i64 = sub_fix(mul_fix(b, b), mul_fix(a, c));

        if disc > 0 {
            let s: i64 = sqrt_fix(disc);
            let t1: i64 = div_fix(sub_fix(neg_fix(b), s), a);
            if t_min < t1 && t1 < t_max {
                let p: Point = r.point_at_parameter(t1);
                return Some(
                    HitRecord {
                        t: t1,
                        p,
                        normal: p.sub(&self.center).scale_div(self.radius),
                        material: self.material,
                    },
                );
            }
            let t2: i64 = div_fix(sub_fix(s, b), a);
            if t_min < t2 && t2 < t_max {
                let p: Point = r.point_at_parameter(t2);
                return Some(
                    HitRecord {
                        t: t2,
                        p,
                        normal: p.sub(&self.center).scale_div(self.radius),
                        material: self.material,
                    },
                );
            }
        }
        None
    }
}

/// Fold step of a collection intersection: the incoming hit `cur` replaces
/// the accumulator only when it is strictly nearer, so the earlier member
/// wins a tie.
pub open spec fn hit_nearer(acc: Option<HitM>, cur: Option<HitM>) -> Option<HitM> {
    match (cur, acc) {
        (Some(h), Some(a)) => if h.t < a.t {
            Some(h)
        } else {
            Some(a)
        },
        (Some(h), None) => Some(h),
        (None, a) => a,
    }
}

/// The nearest hit over the first `n` spheres of the collection.
pub open spec fn hit_prefix(s: Seq<Sphere>, r: RayM, t_min: int, t_max: int, n: int) -> Option<
    HitM,
>
    decreases n,
{
    if n <= 0 {
        None
    } else {
        hit_nearer(hit_prefix(s, r, t_min, t_max, n - 1), s[n - 1].hit_model(r, t_min, t_max))
    }
}

impl Hittable for Vec<Sphere> {
    open spec fn hit_model(&self, r: RayM, t_min: int, t_max: int) -> Option<HitM> {
        hit_prefix(self@, r, t_min, t_max, self@.len() as int)
    }

    /// A miss on one sphere does not short-circuit the rest: the whole
    /// collection is scanned and the smallest qualifying `t` wins.
    fn hit(&self, r: &Ray, t_min: i64, t_max: i64) -> (res: Option<HitRecord>) {
        let mut acc: Option<HitRecord> = None;
        let mut i: usize = 0;
        while i < self.len()
            invariant
                i <= self@.len(),
                opt_hit_model(acc) == hit_prefix(self@, r@, t_min as int, t_max as int, i as int),
            decreases self@.len() - i,
        {
            let x: Option<HitRecord> = self[i].hit(r, t_min, t_max);
            acc = match (x, acc) {
                (Some(hit), Some(a)) => Some(
                    if hit.t < a.t {
                        hit
                    } else {
                        a
                    },
                ),
                (Some(hit), None) => Some(hit),
                (None, acc1) => acc1,
            };
            i = i + 1;
        }
        acc
    }
}


/// A square is non-negative, so its fixed-point form is too.
proof fn lemma_fmul_square_nonneg(x: int)
    ensures
        fmul(x, x) >= 0,
{
    assert(x * x >= 0) by (nonlinear_arith);
    crate::fixed::lemma_tdiv_nonneg(x * x, FIX_ONE as int);
}

/// A vector's inner product with itself is non-negative.
pub proof fn lemma_dot_self_nonneg(v: V3m)
    ensures
        v.dot(v) >= 0,
{
    lemma_fmul_square_nonneg(v.x);
    lemma_fmul_square_nonneg(v.y);
    lemma_fmul_square_nonneg(v.z);
}

/// The fixed-point square root is never negative.
pub proof fn lemma_fsqrt_nonneg(x: int)
    ensures
        fsqrt(x) >= 0,
{
    if x > 0 {
        crate::fixed::lemma_sqrt_exists(x * FIX_ONE);
        assert(x * FIX_ONE >= 0) by (nonlinear_arith)
            requires
                x > 0,
        ;
    }
}

/// The two roots of the intersection quadratic are ordered: the near
/// root never exceeds the far one.
pub proof fn lemma_roots_ordered(s: Sphere, r: RayM)
    ensures
        s.root_near(r) <= s.root_far(r),
{
    let a = s.quad_a(r);
    let b = s.quad_b(r);
    let sq = fsqrt(s.discriminant(r));
    lemma_dot_self_nonneg(r.b);
    lemma_fsqrt_nonneg(s.discriminant(r));
    crate::fixed::lemma_tdiv_monotone(
        fsub(fneg(b), sq) * FIX_ONE,
        fsub(sq, b) * FIX_ONE,
        a,
    );
}

/// The hit with the near window containing the near root is the near
/// root: the first root strictly inside `(t_min, t_max)` wins.
pub proof fn lemma_sphere_hit_near_root(s: Sphere, r: RayM, t_min: int, t_max: int)
    requires
        s.discriminant(r) > 0,
        t_min < s.root_near(r) < t_max,
    ensures
        s.hit_model(r, t_min, t_max) == Some(s.record_at(r, s.root_near(r))),
{
}

/// When the window opens past the near root but still contains the far
/// one, the far root is returned.
pub proof fn lemma_sphere_hit_far_root(s: Sphere, r: RayM, t_min: int, t_max: int)
    requires
        s.discriminant(r) > 0,
        s.root_near(r) <= t_min < s.root_far(r),
        s.root_far(r) < t_max,
    ensures
        s.hit_model(r, t_min, t_max) == Some(s.record_at(r, s.root_far(r))),
{
}

/// A window that closes before the near root misses the sphere
/// altogether.
pub proof fn lemma_sphere_hit_window_misses(s: Sphere, r: RayM, t_min: int, t_max: int)
    requires
        t_max <= s.root_near(r),
    ensures
        s.hit_model(r, t_min, t_max) is None,
{
    lemma_roots_ordered(s, r);
}

/// A fixed-point product of two values of equal sign is non-negative.
proof fn lemma_fmul_same_sign(x: int, y: int)
    requires
        (x >= 0 && y >= 0) || (x <= 0 && y <= 0),
    ensures
        fmul(x, y) >= 0,
{
    assert(x * y >= 0) by (nonlinear_arith)
        requires
            (x >= 0 && y >= 0) || (x <= 0 && y <= 0),
    ;
    crate::fixed::lemma_tdiv_nonneg(x * y, FIX_ONE as int);
}

/// One component of the surface normal keeps the sign of the offset it
/// divides, so their product never subtracts from the outward dot.
proof fn lemma_normal_comp_nonneg(x: int, radius: int)
    requires
        radius > 0,
    ensures
        fmul(x, fdiv(x, radius)) >= 0,
{
    if x >= 0 {
        crate::fixed::lemma_tdiv_nonneg(x * FIX_ONE, radius);
        lemma_fmul_same_sign(x, fdiv(x, radius));
    } else {
        crate::fixed::lemma_tdiv_nonpos(x * FIX_ONE, radius);
        lemma_fmul_same_sign(x, fdiv(x, radius));
    }
}

/// For a positive radius, the offset from the center and the normal it
/// yields never point against each other.
pub proof fn lemma_normal_dot_nonneg(v: V3m, radius: int)
    requires
        radius > 0,
    ensures
        v.dot(v.scale_div(radius)) >= 0,
{
    lemma_normal_comp_nonneg(v.x, radius);
    lemma_normal_comp_nonneg(v.y, radius);
    lemma_normal_comp_nonneg(v.z, radius);
}

/// A component at least as large as the radius pushes the outward dot
/// strictly above zero.
proof fn lemma_normal_comp_strict(x: int, radius: int)
    requires
        0 < radius <= FIX_LIMIT as int,
        radius <= iabs(x),
        iabs(x) <= FIX_LIMIT as int,
    ensures
        fmul(x, fdiv(x, radius)) >= 1,
{
    let n = fdiv(x, radius);
    if x >= 0 {
        assert(x * FIX_ONE >= FIX_ONE as int * radius) by (nonlinear_arith)
            requires
                x >= radius,
        ;
        crate::fixed::lemma_tdiv_lower(x * FIX_ONE, radius, FIX_ONE as int);
        assert(n >= FIX_ONE);
        assert(x * n >= 1 * FIX_ONE) by (nonlinear_arith)
            requires
                x >= 1,
                n >= FIX_ONE,
        ;
        crate::fixed::lemma_tdiv_lower(x * n, FIX_ONE as int, 1);
    } else {
        assert((-x) * FIX_ONE >= FIX_ONE as int * radius) by (nonlinear_arith)
            requires
                -x >= radius,
        ;
        crate::fixed::lemma_tdiv_lower((-x) * FIX_ONE, radius, FIX_ONE as int);
        assert(tdiv(x * FIX_ONE, radius) == -tdiv((-x) * FIX_ONE, radius));
        assert(n <= -(FIX_ONE as int));
        assert(x * n >= 1 * FIX_ONE) by (nonlinear_arith)
            requires
                x <= -1,
                n <= -(FIX_ONE as int),
        ;
        crate::fixed::lemma_tdiv_lower(x * n, FIX_ONE as int, 1);
    }
}

/// Outward orientation of the normal at a hit on a positive-radius
/// sphere: wherever the hit point stands off the center by at least the
/// radius in some axis, the offset and the returned normal make a
/// strictly positive dot.
pub proof fn lemma_normal_orientation_outward(s: Sphere, r: RayM, t: int)
    requires
        0 < s.radius,
        ({
            let v = r.at(t).sub(s.center@);
            iabs(v.x) >= s.radius || iabs(v.y) >= s.radius || iabs(v.z) >= s.radius
        }),
    ensures
        ({
            let h = s.record_at(r, t);
            h.p.sub(s.center@).dot(h.normal) > 0
        }),
{
    let v = r.at(t).sub(s.center@);
    let radius = s.radius as int;
    lemma_normal_comp_nonneg(v.x, radius);
    lemma_normal_comp_nonneg(v.y, radius);
    lemma_normal_comp_nonneg(v.z, radius);
    if iabs(v.x) >= radius {
        lemma_normal_comp_strict(v.x, radius);
    } else if iabs(v.y) >= radius {
        lemma_normal_comp_strict(v.y, radius);
    } else {
        lemma_normal_comp_strict(v.z, radius);
    }
}

/// For a negative radius the sign flips: the returned normal points
/// against the offset from the center, modelling a hollow shell.
pub proof fn lemma_normal_orientation_inward(s: Sphere, r: RayM, t: int)
    requires
        s.radius < 0,
        ({
            let v = r.at(t).sub(s.center@);
            iabs(v.x) >= iabs(s.radius as int) || iabs(v.y) >= iabs(s.radius as int) || iabs(
                v.z,
            ) >= iabs(s.radius as int)
        }),
    ensures
        ({
            let h = s.record_at(r, t);
            h.p.sub(s.center@).dot(h.normal) < 0
        }),
{
    let v = r.at(t).sub(s.center@);
    let radius = s.radius as int;
    let flipped = V3m { x: -v.x, y: -v.y, z: -v.z };
    assert(v.scale_div(radius) == flipped.scale_div(-radius)) by {
        assert(tdiv(v.x * FIX_ONE, radius) == tdiv((-v.x) * FIX_ONE, -radius));
        assert(tdiv(v.y * FIX_ONE, radius) == tdiv((-v.y) * FIX_ONE, -radius));
        assert(tdiv(v.z * FIX_ONE, radius) == tdiv((-v.z) * FIX_ONE, -radius));
    }
    lemma_normal_comp_nonneg(flipped.x, -radius);
    lemma_normal_comp_nonneg(flipped.y, -radius);
    lemma_normal_comp_nonneg(flipped.z, -radius);
    if iabs(v.x) >= -radius {
        lemma_normal_comp_strict(flipped.x, -radius);
    } else if iabs(v.y) >= -radius {
        lemma_normal_comp_strict(flipped.y, -radius);
    } else {
        lemma_normal_comp_strict(flipped.z, -radius);
    }
    let n = v.scale_div(radius);
    assert(v.x * n.x == -((-v.x) * n.x) && v.y * n.y == -((-v.y) * n.y) && v.z * n.z == -((-v.z)
        * n.z)) by (nonlinear_arith);
    assert(v.dot(n) == -flipped.dot(flipped.scale_div(-radius)));
}

/// The nearest-hit law of a collection: a returned hit is a member's
/// hit, no member hits strictly nearer, and a miss means every member
/// missed.
#[verifier::rlimit(100)]
#[verifier::spinoff_prover]
pub proof fn lemma_collection_hit_nearest(
    s: Seq<Sphere>,
    r: RayM,
    t_min: int,
    t_max: int,
    n: int,
)
    requires
        0 <= n <= s.len(),
    ensures
        hit_prefix(s, r, t_min, t_max, n) is None ==> forall|k: int|
            0 <= k < n ==> (#[trigger] s[k].hit_model(r, t_min, t_max)) is None,
        hit_prefix(s, r, t_min, t_max, n) matches Some(h) ==> {
            &&& exists|k: int| 0 <= k < n && (#[trigger] s[k].hit_model(r, t_min, t_max))
                == Some(h)
            &&& forall|k: int|
                0 <= k < n ==> ((#[trigger] s[k].hit_model(r, t_min, t_max)) matches Some(hk)
                    ==> h.t <= hk.t)
        },
    decreases n,
{
    if n > 0 {
        lemma_collection_hit_nearest(s, r, t_min, t_max, n - 1);
    }
}


/// Orientation of the normal a positive-radius sphere actually returns:
/// at any hit whose point stands off the center by at least the radius in
/// some axis, the offset from the center and the normal make a strictly
/// positive dot.
pub proof fn lemma_hit_normal_outward(s: Sphere, r: RayM, t_min: int, t_max: int)
    requires
        0 < s.radius,
        s.hit_model(r, t_min, t_max) matches Some(h) && (iabs(h.p.sub(s.center@).x) >= s.radius
            || iabs(h.p.sub(s.center@).y) >= s.radius || iabs(h.p.sub(s.center@).z) >= s.radius),
    ensures
        s.hit_model(r, t_min, t_max) matches Some(h) ==> h.p.sub(s.center@).dot(h.normal) > 0,
{
    if s.discriminant(r) > 0 {
        let t1 = s.root_near(r);
        if t_min < t1 && t1 < t_max {
            lemma_normal_orientation_outward(s, r, t1);
        } else {
            let t2 = s.root_far(r);
            if t_min < t2 && t2 < t_max {
                lemma_normal_orientation_outward(s, r, t2);
            }
        }
    }
}

/// The same, with the sign flipped, for the inward normal of a hollow
/// (negative-radius) sphere.
pub proof fn lemma_hit_normal_inward(s: Sphere, r: RayM, t_min: int, t_max: int)
    requires
        s.radius < 0,
        s.hit_model(r, t_min, t_max) matches Some(h) && (iabs(h.p.sub(s.center@).x) >= iabs(
            s.radius as int,
        ) || iabs(h.p.sub(s.center@).y) >= iabs(s.radius as int) || iabs(h.p.sub(s.center@).z)
            >= iabs(s.radius as int)),
    ensures
        s.hit_model(r, t_min, t_max) matches Some(h) ==> h.p.sub(s.center@).dot(h.normal) < 0,
{
    if s.discriminant(r) > 0 {
        let t1 = s.root_near(r);
        if t_min < t1 && t1 < t_max {
            lemma_normal_orientation_inward(s, r, t1);
        } else {
            let t2 = s.root_far(r);
            if t_min < t2 && t2 < t_max {
                lemma_normal_orientation_inward(s, r, t2);
            }
        }
    }
}

} // verus!
