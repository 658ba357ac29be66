//! An offline Monte Carlo path tracer over saturating fixed-point arithmetic.
//!
//! The tracer estimates the color seen along camera rays by repeatedly
//! intersecting a ray with a scene of spheres, scattering it at the hit
//! material, and accumulating per-channel attenuation until the ray misses
//! (background), is absorbed, or the bounce budget runs out.

pub mod camera;
pub mod fixed;
pub mod image;
pub mod materials;
pub mod random;
pub mod ray;
pub mod render;
pub mod scene;

use vstd::prelude::*;

use crate::fixed::{add_fix, fadd, fmul, fsub, mul_fix, sub_fix, FIX_HALF, FIX_LIMIT, FIX_ONE};
use crate::materials::{scatter, scatter_model, white};
use crate::random::RandomSource;
use crate::ray::{Ray, RayM, V3, V3m};
use crate::scene::{Hittable, Scatter};

verus! {

/// Small positive bias on the near end of every intersection window,
/// keeping a scattered ray from immediately hitting the surface it left.
pub const HIT_BIAS: i64 = 1_000;

/// The sky color at the top of the background gradient.
pub open spec fn sky_blue() -> V3m {
    V3m { x: FIX_HALF as int, y: 700_000, z: FIX_ONE as int }
}

/// The color of the background for a ray that hits nothing: a vertical
/// gradient from white at the bottom to sky blue at the top, keyed by the
/// `y` of the unit direction.
pub open spec fn background_m(r: RayM) -> V3m {
    let t = fmul(FIX_HALF as int, fadd(r.b.normalize().y, FIX_ONE as int));
    white().scale(fsub(FIX_ONE as int, t)).add(sky_blue().scale(t))
}

/// Color of the background for a given ray.
pub fn background(r: &Ray) -> (c: V3)
    ensures
        c@ == background_m(r@),
{
    let unit_direction: V3 = r.direction().normalize();
    let t: i64 = mul_fix(FIX_HALF, add_fix(unit_direction.y, FIX_ONE));
    V3::new(FIX_ONE, FIX_ONE, FIX_ONE).scale(sub_fix(FIX_ONE, t)).add(
        &V3::new(FIX_HALF, 700_000, FIX_ONE).scale(t),
    )
}

/// The color the path loop yields from the state `(ray, acc, depth)` when
/// the tape is read from `pos`, with the position after it: intersect,
/// scatter, attenuate, and continue with the scattered ray until a miss
/// pays out the background, an absorption or an exhausted bounce budget
/// pays out black.
pub open spec fn color_model<T: Hittable>(
    world: T,
    ray: RayM,
    acc: V3m,
    depth: int,
    draws: Seq<i64>,
    pos: int,
) -> (V3m, int)
    decreases depth,
{
    if depth <= 0 {
        (V3m::zero(), pos)
    } else {
        match world.hit_model(ray, HIT_BIAS as int, FIX_LIMIT as int) {
            None => (acc.hadamard(background_m(ray)), pos),
            Some(h) => {
                let (sc, p2) = scatter_model(h.material, ray, h, draws, pos);
                match sc {
                    None => (V3m::zero(), p2),
                    Some(s) => color_model(
                        world,
                        s.ray,
                        acc.hadamard(s.attenuation),
                        depth - 1,
                        draws,
                        p2,
                    ),
                }
            },
        }
    }
}

/// Trace a ray through the world for at most `depth` bounces: the
/// iterative path-accumulation loop at the heart of the tracer. A ray that
/// exhausts its bounce budget, or is absorbed, contributes black.
pub fn color<T: Hittable>(r: &Ray, world: &T, depth: usize, src: &mut RandomSource) -> (c: V3)
    ensures
        old(src).advanced_to(
            *final(src),
            color_model(*world, r@, white(), depth as int, old(src).sdraws(), old(src).spos()).1,
        ),
        old(src).is_replay() ==> c@ == color_model(
            *world,
            r@,
            white(),
            depth as int,
            old(src).sdraws(),
            old(src).spos(),
        ).0,
        depth == 0 ==> c@ == V3m::zero(),
{
    let mut attenuation_acc: V3 = V3::new(FIX_ONE, FIX_ONE, FIX_ONE);
    let mut current_ray: Ray = Ray::new(r.a, r.b);
    let mut remaining: usize = depth;

    while remaining > 0
        invariant
            remaining <= depth,
            src.is_replay() == old(src).is_replay(),
            src.sdraws() == old(src).sdraws(),
            src.is_replay() ==> color_model(
                *world,
                current_ray@,
                attenuation_acc@,
                remaining as int,
                src.sdraws(),
                src.spos(),
            ) == color_model(
                *world,
                r@,
                white(),
                depth as int,
                old(src).sdraws(),
                old(src).spos(),
            ),
        decreases remaining,
    {
        remaining = remaining - 1;

        match world.hit(&current_ray, HIT_BIAS, FIX_LIMIT) {
            Some(hit) => {
                match scatter(&hit.material, &current_ray, &hit, src) {
                    // absorbed: no light, contribute zero color
                    None => {
                        return V3::new(0, 0, 0);
                    },
                    // scattered: multiply the attenuation accumulator and
                    // continue with the new ray
                    Some(Scatter { ray, attenuation }) => {
                        attenuation_acc = attenuation_acc.hadamard(&attenuation);
                        current_ray = ray;
                    },
                }
            },
            None => {
                // no hit: the background pays out
                attenuation_acc = attenuation_acc.hadamard(&background(&current_ray));
                return attenuation_acc;
            },
        }
    }
    V3::new(0, 0, 0)
}


/// How many scatter evaluations the path loop makes from the state
/// `(ray, depth)`: one per hit, none on a miss or once the budget is out.
pub open spec fn color_bounces<T: Hittable>(
    world: T,
    ray: RayM,
    depth: int,
    draws: Seq<i64>,
    pos: int,
) -> nat
    decreases depth,
{
    if depth <= 0 {
        0
    } else {
        match world.hit_model(ray, HIT_BIAS as int, FIX_LIMIT as int) {
            None => 0,
            Some(h) => {
                let (sc, p2) = scatter_model(h.material, ray, h, draws, pos);
                match sc {
                    None => 1,
                    Some(s) => 1 + color_bounces(world, s.ray, depth - 1, draws, p2),
                }
            },
        }
    }
}

/// The depth cap is a hard bound: a trace of budget `depth` never makes
/// more than `depth` scatter evaluations, whatever the scene, the ray and
/// the random draws.
pub proof fn lemma_depth_caps_bounces<T: Hittable>(
    world: T,
    ray: RayM,
    depth: int,
    draws: Seq<i64>,
    pos: int,
)
    requires
        depth >= 0,
    ensures
        color_bounces(world, ray, depth, draws, pos) <= depth,
    decreases depth,
{
    if depth > 0 {
        match world.hit_model(ray, HIT_BIAS as int, FIX_LIMIT as int) {
            None => {},
            Some(h) => {
                let (sc, p2) = scatter_model(h.material, ray, h, draws, pos);
                match sc {
                    None => {},
                    Some(s) => {
                        lemma_depth_caps_bounces(world, s.ray, depth - 1, draws, p2);
                    },
                }
            },
        }
    }
}

} // verus!
