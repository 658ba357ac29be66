//! Scene construction and the per-pixel render driver.
//!
//! A demonstration scene of a few hundred small spheres over a large
//! floor, and the sampling loop that averages many traced rays per pixel
//! into a gamma-corrected byte image.

use vstd::prelude::*;

use crate::camera::{camera_m, get_ray_m, Camera, CameraM};
use crate::color;
use crate::color_model;
use crate::fixed::{
    add_fix, div_int, fadd, fmul, fsqrt, idiv, mul_fix, sqrt_fix, FIX_HALF, FIX_LIMIT, FIX_ONE,
};
use crate::image::P3;
use crate::materials::{dielectric, lambertian, metal, scatter_model, white};
use crate::random::{draw_value, next_pos, random_double, RandomSource};
use crate::ray::{RayM, V3, V3m};
use crate::scene::{hit_prefix, HitM, Material, Sphere};
use crate::HIT_BIAS;

verus! {

/// The material [`random_material`] yields when the tape is read from
/// `pos`, with the position after it: mostly diffuse, sometimes metal,
/// rarely glass.
pub open spec fn random_material_m(draws: Seq<i64>, pos: int) -> (Material, int) {
    let c = draw_value(draws, pos);
    let p0 = next_pos(draws, pos);
    if c < 800_000 {
        let d0 = draw_value(draws, p0);
        let p1 = next_pos(draws, p0);
        let d1 = draw_value(draws, p1);
        let p2 = next_pos(draws, p1);
        let d2 = draw_value(draws, p2);
        let p3 = next_pos(draws, p2);
        let d3 = draw_value(draws, p3);
        let p4 = next_pos(draws, p3);
        let d4 = draw_value(draws, p4);
        let p5 = next_pos(draws, p4);
        let d5 = draw_value(draws, p5);
        let p6 = next_pos(draws, p5);
        (
            Material::Lambertian {
                albedo: V3 {
                    x: fmul(d0, d1) as i64,
                    y: fmul(d2, d3) as i64,
                    z: fmul(d4, d5) as i64,
                },
            },
            p6,
        )
    } else if c < 950_000 {
        let d0 = draw_value(draws, p0);
        let p1 = next_pos(draws, p0);
        let d1 = draw_value(draws, p1);
        let p2 = next_pos(draws, p1);
        let d2 = draw_value(draws, p2);
        let p3 = next_pos(draws, p2);
        let d3 = draw_value(draws, p3);
        let p4 = next_pos(draws, p3);
        (
            Material::Metal {
                albedo: V3 {
                    x: fmul(FIX_HALF as int, fadd(FIX_ONE as int, d0)) as i64,
                    y: fmul(FIX_HALF as int, fadd(FIX_ONE as int, d1)) as i64,
                    z: fmul(FIX_HALF as int, fadd(FIX_ONE as int, d2)) as i64,
                },
                fuzz: fmul(FIX_HALF as int, d3) as i64,
            },
            p4,
        )
    } else {
        (Material::Dielectric { refractive_index: 1_500_000 }, p0)
    }
}

/// Draw a material for a small scene sphere: diffuse with probability
/// 0.8, metal with probability 0.15, glass otherwise.
#[verifier::rlimit(100)]
#[verifier::spinoff_prover]
pub fn random_material(src: &mut RandomSource) -> (m: Material)
    ensures
        old(src).advanced_to(
            *final(src),
            random_material_m(old(src).sdraws(), old(src).spos()).1,
        ),
        old(src).is_replay() ==> m == random_material_m(
            old(src).sdraws(),
            old(src).spos(),
        ).0,
{
    let choose_mat: i64 = random_double(src);
    if choose_mat < 800_000 {
        let x0: i64 = random_double(src);
        let x1: i64 = random_double(src);
        let y0: i64 = random_double(src);
        let y1: i64 = random_double(src);
        let z0: i64 = random_double(src);
        let z1: i64 = random_double(src);
        lambertian(V3::new(mul_fix(x0, x1), mul_fix(y0, y1), mul_fix(z0, z1)))
    } else if choose_mat < 950_000 {
        let x: i64 = random_double(src);
        let y: i64 = random_double(src);
        let z: i64 = random_double(src);
        let f: i64 = random_double(src);
        let fz: i64 = mul_fix(FIX_HALF, f);
        proof {
            // half a unit draw stays below one, so the metal cap is idle
            let half_f = FIX_HALF as int * (f as int);
            assert(crate::fixed::tdiv(half_f, FIX_ONE as int) == half_f / (FIX_ONE as int));
            assert(half_f / (FIX_ONE as int) < FIX_ONE as int);
        }
        metal(
            V3::new(
                mul_fix(FIX_HALF, add_fix(FIX_ONE, x)),
                mul_fix(FIX_HALF, add_fix(FIX_ONE, y)),
                mul_fix(FIX_HALF, add_fix(FIX_ONE, z)),
            ),
            fz,
        )
    } else {
        dielectric(1_500_000)
    }
}

/// The four large spheres every demonstration scene starts with: the
/// floor, a glass ball, a matte ball and a mirror ball.
pub open spec fn base_spheres() -> Seq<Sphere> {
    seq![
        Sphere {
            center: V3 { x: 0, y: -1_000_000_000i64, z: 0 },
            radius: 1_000_000_000,
            material: Material::Lambertian { albedo: V3 { x: 500_000, y: 500_000, z: 500_000 } },
        },
        Sphere {
            center: V3 { x: 0, y: 1_000_000, z: 0 },
            radius: 1_000_000,
            material: Material::Dielectric { refractive_index: 1_500_000 },
        },
        Sphere {
            center: V3 { x: -4_000_000i64, y: 1_000_000, z: 0 },
            radius: 1_000_000,
            material: Material::Lambertian { albedo: V3 { x: 400_000, y: 200_000, z: 100_000 } },
        },
        Sphere {
            center: V3 { x: 4_000_000, y: 1_000_000, z: 0 },
            radius: 1_000_000,
            material: Material::Metal {
                albedo: V3 { x: 700_000, y: 600_000, z: 500_000 },
                fuzz: 0,
            },
        },
    ]
}

/// The first `n` small spheres of the 22 x 22 grid, each jittered inside
/// its cell and given a random material, with the tape position after
/// them. Cell `k` sits at `a = k / 22 - 11`, `b = k % 22 - 11`.
pub open spec fn grid_m(draws: Seq<i64>, pos: int, n: nat) -> (Seq<Sphere>, int)
    decreases n,
{
    if n == 0 {
        (Seq::empty(), pos)
    } else {
        let (rest, p) = grid_m(draws, pos, (n - 1) as nat);
        let k = n - 1;
        let a = k / 22 - 11;
        let b = k % 22 - 11;
        let d0 = draw_value(draws, p);
        let p0 = next_pos(draws, p);
        let d1 = draw_value(draws, p0);
        let p1 = next_pos(draws, p0);
        let center = V3 {
            x: fadd(a * FIX_ONE, fmul(900_000, d0)) as i64,
            y: 200_000,
            z: fadd(b * FIX_ONE, fmul(900_000, d1)) as i64,
        };
        let (mat, p2) = random_material_m(draws, p1);
        (rest.push(Sphere { center, radius: 200_000, material: mat }), p2)
    }
}

/// The full demonstration scene: the four base spheres, then the grid.
pub open spec fn random_scene_m(draws: Seq<i64>, pos: int) -> (Seq<Sphere>, int) {
    let (grid, p) = grid_m(draws, pos, 484);
    (base_spheres() + grid, p)
}

/// Build the demonstration scene: a large floor, three feature spheres,
/// and a 22 x 22 grid of small randomized spheres.
pub fn random_scene(src: &mut RandomSource) -> (spheres: Vec<Sphere>)
    ensures
        spheres@.len() == 488,
        old(src).advanced_to(*final(src), random_scene_m(old(src).sdraws(), old(src).spos()).1),
        old(src).is_replay() ==> spheres@ == random_scene_m(
            old(src).sdraws(),
            old(src).spos(),
        ).0,
{
    let floor: Material = lambertian(V3::new(500_000, 500_000, 500_000));
    let glass: Material = dielectric(1_500_000);
    let matte: Material = lambertian(V3::new(400_000, 200_000, 100_000));
    let mirror: Material = metal(V3::new(700_000, 600_000, 500_000), 0);

    let mut spheres: Vec<Sphere> = Vec::new();

    spheres.push(
        Sphere { center: V3::new(0, -1_000_000_000, 0), radius: 1_000_000_000, material: floor },
    );
    spheres.push(Sphere { center: V3::new(0, 1_000_000, 0), radius: 1_000_000, material: glass });
    spheres.push(
        Sphere { center: V3::new(-4_000_000, 1_000_000, 0), radius: 1_000_000, material: matte },
    );
    spheres.push(
        Sphere { center: V3::new(4_000_000, 1_000_000, 0), radius: 1_000_000, material: mirror },
    );

    proof {
        assert(spheres@ =~= base_spheres());
    }

    let mut k: usize = 0;
    while k < 484
        invariant
            k <= 484,
            src.is_replay() == old(src).is_replay(),
            src.sdraws() == old(src).sdraws(),
            spheres@.len() == 4 + k,
            src.is_replay() ==> spheres@ == base_spheres() + grid_m(
                old(src).sdraws(),
                old(src).spos(),
                k as nat,
            ).0,
            src.is_replay() ==> src.spos() == grid_m(
                old(src).sdraws(),
                old(src).spos(),
                k as nat,
            ).1,
            !old(src).is_replay() ==> !src.is_replay(),
        decreases 484 - k,
    {
        let a: i64 = (k / 22) as i64 - 11;
        let b: i64 = (k % 22) as i64 - 11;
        let d0: i64 = random_double(src);
        let d1: i64 = random_double(src);
        let center: V3 = V3::new(
            add_fix(a * FIX_ONE, mul_fix(900_000, d0)),
            200_000,
            add_fix(b * FIX_ONE, mul_fix(900_000, d1)),
        );
        let material: Material = random_material(src);
        spheres.push(Sphere { center, radius: 200_000, material });
        proof {
            if old(src).is_replay() {
                let g = grid_m(old(src).sdraws(), old(src).spos(), (k + 1) as nat);
                assert(spheres@ =~= base_spheres() + g.0);
            }
        }
        k = k + 1;
    }
    spheres
}


/// The nearest hit of a ray over a whole collection of spheres.
pub open spec fn seq_hit(s: Seq<Sphere>, r: RayM) -> Option<HitM> {
    hit_prefix(s, r, HIT_BIAS as int, FIX_LIMIT as int, s.len() as int)
}

/// [`color_model`] specialized to a collection of spheres, phrased over
/// the sequence of spheres alone.
pub open spec fn color_seq_m(
    s: Seq<Sphere>,
    ray: RayM,
    acc: V3m,
    depth: int,
    draws: Seq<i64>,
    pos: int,
) -> (V3m, int)
    decreases depth,
{
    if depth <= 0 {
        (V3m::zero(), pos)
    } else {
        match seq_hit(s, ray) {
            None => (acc.hadamard(crate::background_m(ray)), pos),
            Some(h) => {
                let (sc, p2) = scatter_model(h.material, ray, h, draws, pos);
                match sc {
                    None => (V3m::zero(), p2),
                    Some(sm) => color_seq_m(
                        s,
                        sm.ray,
                        acc.hadamard(sm.attenuation),
                        depth - 1,
                        draws,
                        p2,
                    ),
                }
            },
        }
    }
}

/// Tracing through a collection of spheres depends only on the sequence
/// of spheres it holds.
pub proof fn lemma_color_vec(
    world: Vec<Sphere>,
    ray: RayM,
    acc: V3m,
    depth: int,
    draws: Seq<i64>,
    pos: int,
)
    ensures
        color_model(world, ray, acc, depth, draws, pos) == color_seq_m(
            world@,
            ray,
            acc,
            depth,
            draws,
            pos,
        ),
    decreases depth,
{
    if depth > 0 {
        match seq_hit(world@, ray) {
            None => {},
            Some(h) => {
                let (sc, p2) = scatter_model(h.material, ray, h, draws, pos);
                match sc {
                    None => {},
                    Some(sm) => {
                        lemma_color_vec(
                            world,
                            sm.ray,
                            acc.hadamard(sm.attenuation),
                            depth - 1,
                            draws,
                            p2,
                        );
                    },
                }
            },
        }
    }
}

/// The byte a summed pixel channel becomes: average over the samples,
/// gamma-2 correct by a square root, scale to byte range, clamp.
pub open spec fn color_byte(c: int, ns: int) -> int {
    let v = idiv(fmul(255_990_000, fsqrt(idiv(c, ns))), FIX_ONE as int);
    if v < 0 {
        0
    } else if v > 255 {
        255
    } else {
        v
    }
}

/// Quantize one summed pixel channel to a byte.
pub fn to_byte(c: i64, ns: i64) -> (b: u8)
    ensures
        b as int == color_byte(c as int, ns as int),
{
    let v: i64 = div_int(mul_fix(255_990_000, sqrt_fix(div_int(c, ns))), FIX_ONE);
    if v < 0 {
        0
    } else if v > 255 {
        255
    } else {
        v as u8
    }
}

/// One sample of pixel `(i, j)`: jitter the image-plane coordinates
/// inside the pixel footprint, ask the camera for the ray, trace it.
pub open spec fn sample_m(
    s: Seq<Sphere>,
    cam: CameraM,
    i: int,
    j: int,
    nx: int,
    ny: int,
    depth: int,
    draws: Seq<i64>,
    pos: int,
) -> (V3m, int) {
    let d0 = draw_value(draws, pos);
    let p0 = next_pos(draws, pos);
    let d1 = draw_value(draws, p0);
    let p1 = next_pos(draws, p0);
    let u = idiv(fadd(i * FIX_ONE, d0), nx);
    let v = idiv(fadd(j * FIX_ONE, d1), ny);
    let (r, p2) = get_ray_m(cam, u, v, draws, p1);
    color_seq_m(s, r, white(), depth, draws, p2)
}

/// The sum of the first `ns` samples of pixel `(i, j)`, with the tape
/// position after them.
pub open spec fn pixel_m(
    s: Seq<Sphere>,
    cam: CameraM,
    i: int,
    j: int,
    nx: int,
    ny: int,
    depth: int,
    draws: Seq<i64>,
    pos: int,
    ns: nat,
) -> (V3m, int)
    decreases ns,
{
    if ns == 0 {
        (V3m::zero(), pos)
    } else {
        let (acc, p) = pixel_m(s, cam, i, j, nx, ny, depth, draws, pos, (ns - 1) as nat);
        let (c, p2) = sample_m(s, cam, i, j, nx, ny, depth, draws, p);
        (acc.add(c), p2)
    }
}

/// The first `k` quantized pixels of the image in scan order (rows top to
/// bottom, columns left to right), with the tape position after them.
/// Pixel `k` sits at column `k % nx` of image-plane row `ny - 1 - k / nx`.
pub open spec fn pixels_m(
    s: Seq<Sphere>,
    cam: CameraM,
    nx: int,
    ny: int,
    ns: nat,
    depth: int,
    draws: Seq<i64>,
    pos: int,
    k: nat,
) -> (Seq<(u8, u8, u8)>, int)
    decreases k,
{
    if k == 0 {
        (Seq::empty(), pos)
    } else {
        let (rest, p) = pixels_m(s, cam, nx, ny, ns, depth, draws, pos, (k - 1) as nat);
        let i = (k - 1) as int % nx;
        let j = ny - 1 - (k - 1) as int / nx;
        let (col, p2) = pixel_m(s, cam, i, j, nx, ny, depth, draws, p, ns);
        (
            rest.push(
                (
                    color_byte(col.x, ns as int) as u8,
                    color_byte(col.y, ns as int) as u8,
                    color_byte(col.z, ns as int) as u8,
                ),
            ),
            p2,
        )
    }
}

/// Sample one pixel: sum `ns` jittered traces and quantize each channel.
#[verifier::loop_isolation(false)]
#[verifier::rlimit(60)]
fn render_pixel(
    world: &Vec<Sphere>,
    cam: &Camera,
    i: usize,
    j: usize,
    nx: usize,
    ny: usize,
    ns: usize,
    max_depth: usize,
    src: &mut RandomSource,
) -> (px: (u8, u8, u8))
    requires
        0 < nx <= 10_000,
        0 < ny <= 10_000,
        i < nx,
        j < ny,
        ns <= 1_000_000,
    ensures
        old(src).advanced_to(
            *final(src),
            pixel_m(
                world@,
                cam@,
                i as int,
                j as int,
                nx as int,
                ny as int,
                max_depth as int,
                old(src).sdraws(),
                old(src).spos(),
                ns as nat,
            ).1,
        ),
        old(src).is_replay() ==> {
            let col = pixel_m(
                world@,
                cam@,
                i as int,
                j as int,
                nx as int,
                ny as int,
                max_depth as int,
                old(src).sdraws(),
                old(src).spos(),
                ns as nat,
            ).0;
            &&& px.0 as int == color_byte(col.x, ns as int)
            &&& px.1 as int == color_byte(col.y, ns as int)
            &&& px.2 as int == color_byte(col.z, ns as int)
        },
{
    let ghost draws = old(src).sdraws();
    let ghost p_pixel = old(src).spos();
    let mut col: V3 = V3::new(0, 0, 0);
    let mut samp: usize = 0;
    while samp < ns
        invariant
            samp <= ns,
            src.is_replay() == old(src).is_replay(),
            src.sdraws() == draws,
            src.is_replay() ==> (col@, src.spos()) == pixel_m(
                world@,
                cam@,
                i as int,
                j as int,
                nx as int,
                ny as int,
                max_depth as int,
                draws,
                p_pixel,
                samp as nat,
            ),
        decreases ns - samp,
    {
        let d0: i64 = random_double(src);
        let d1: i64 = random_double(src);
        let u: i64 = div_int(add_fix((i as i64) * FIX_ONE, d0), nx as i64);
        let v: i64 = div_int(add_fix((j as i64) * FIX_ONE, d1), ny as i64);
        let r = cam.get_ray(u, v, src);
        proof {
            lemma_color_vec(*world, r@, white(), max_depth as int, draws, src.spos());
        }
        let c: V3 = color(&r, world, max_depth, src);
        col = col.add(&c);
        samp = samp + 1;
    }
    (to_byte(col.x, ns as i64), to_byte(col.y, ns as i64), to_byte(col.z, ns as i64))
}

/// Render the world: for every pixel, average `ns` jittered camera rays
/// traced to at most `max_depth` bounces, gamma-correct, and quantize,
/// producing rows top to bottom.
#[verifier::loop_isolation(false)]
#[verifier::rlimit(60)]
pub fn render(
    world: &Vec<Sphere>,
    cam: &Camera,
    nx: usize,
    ny: usize,
    ns: usize,
    max_depth: usize,
    src: &mut RandomSource,
) -> (img: P3)
    requires
        0 < nx <= 10_000,
        0 < ny <= 10_000,
        ns <= 1_000_000,
        nx * ny <= usize::MAX,
    ensures
        img.width == nx,
        img.height == ny,
        img.data@.len() == nx * ny,
        old(src).advanced_to(
            *final(src),
            pixels_m(
                world@,
                cam@,
                nx as int,
                ny as int,
                ns as nat,
                max_depth as int,
                old(src).sdraws(),
                old(src).spos(),
                (nx * ny) as nat,
            ).1,
        ),
        old(src).is_replay() ==> img.data@ == pixels_m(
            world@,
            cam@,
            nx as int,
            ny as int,
            ns as nat,
            max_depth as int,
            old(src).sdraws(),
            old(src).spos(),
            (nx * ny) as nat,
        ).0,
{
    let ghost draws = old(src).sdraws();
    let ghost pos0 = old(src).spos();

    let mut data: Vec<(u8, u8, u8)> = Vec::new();

    let mut row: usize = 0;
    while row < ny
        invariant
            row <= ny,
            data@.len() == row * nx,
            row * nx <= ny * nx,
            src.is_replay() == old(src).is_replay(),
            src.sdraws() == draws,
            src.is_replay() ==> (data@, src.spos()) == pixels_m(
                world@,
                cam@,
                nx as int,
                ny as int,
                ns as nat,
                max_depth as int,
                draws,
                pos0,
                (row * nx) as nat,
            ),
        decreases ny - row,
    {
        let j: usize = ny - 1 - row;
        proof {
            assert((row + 1) * nx <= ny * nx && (row + 1) * nx == row * nx + nx)
                by (nonlinear_arith)
                requires
                    row < ny,
            ;
        }
        let mut i: usize = 0;
        while i < nx
            invariant
                i <= nx,
                row < ny,
                j == ny - 1 - row,
                data@.len() == row * nx + i,
                row * nx + nx <= ny * nx,
                src.is_replay() == old(src).is_replay(),
                src.sdraws() == draws,
                src.is_replay() ==> (data@, src.spos()) == pixels_m(
                    world@,
                    cam@,
                    nx as int,
                    ny as int,
                    ns as nat,
                    max_depth as int,
                    draws,
                    pos0,
                    (row * nx + i) as nat,
                ),
            decreases nx - i,
        {
            let px: (u8, u8, u8) = render_pixel(world, cam, i, j, nx, ny, ns, max_depth, src);
            proof {
                let k: int = row * nx + i;
                assert(k % (nx as int) == i as int && k / (nx as int) == row as int)
                    by (nonlinear_arith)
                    requires
                        k == row * nx + i,
                        0 <= i < nx,
                        0 <= row,
                ;
                if src.is_replay() {
                    let full = pixels_m(
                        world@,
                        cam@,
                        nx as int,
                        ny as int,
                        ns as nat,
                        max_depth as int,
                        draws,
                        pos0,
                        (k + 1) as nat,
                    );
                    assert(data@.push(px) =~= full.0);
                }
            }
            data.push(px);
            i = i + 1;
        }
        row = row + 1;
        proof {
            assert(row * nx == (row - 1) * nx + nx) by (nonlinear_arith);
        }
    }

    proof {
        assert(row * nx == nx * ny) by (nonlinear_arith)
            requires
                row == ny,
        ;
    }
    P3 { width: nx, height: ny, data }
}


/// The quantized pixels of the demonstration render: the random scene,
/// seen through a 40-degree camera at (7, 2, 2.5) focused on the origin,
/// 600 x 300 pixels at 100 samples and 50 bounces.
pub open spec fn scene_m(draws: Seq<i64>, pos: int) -> (Seq<(u8, u8, u8)>, int) {
    let (spheres, p1) = random_scene_m(draws, pos);
    let lookfrom = V3m { x: 7_000_000, y: 2_000_000, z: 2_500_000 };
    let lookat = V3m::zero();
    let vup = V3m { x: 0, y: 1_000_000, z: 0 };
    let focus = lookfrom.sub(lookat).length();
    let aspect = idiv(600 * FIX_ONE, 300);
    let cam = camera_m(lookfrom, lookat, vup, 363_970, aspect, 200_000, focus);
    pixels_m(spheres, cam, 600, 300, 100, 50, draws, p1, 180_000)
}

/// Build and render the demonstration scene. The camera looks from
/// (7, 2, 2.5) at the origin with a 40-degree vertical field of view
/// (tangent of half of it: 0.36397), a 0.2 aperture, and focus at the
/// origin's distance.
pub fn scene(src: &mut RandomSource) -> (img: P3)
    ensures
        img.width == 600,
        img.height == 300,
        img.data@.len() == 180_000,
        old(src).advanced_to(*final(src), scene_m(old(src).sdraws(), old(src).spos()).1),
        old(src).is_replay() ==> img.data@ == scene_m(old(src).sdraws(), old(src).spos()).0,
{
    let nx: usize = 600;
    let ny: usize = 300;
    let ns: usize = 100;
    let max_depth: usize = 50;

    let world: Vec<Sphere> = random_scene(src);

    let lookfrom: V3 = V3::new(7_000_000, 2_000_000, 2_500_000);
    let lookat: V3 = V3::new(0, 0, 0);
    let vup: V3 = V3::new(0, 1_000_000, 0);
    let dist_to_focus: i64 = lookfrom.sub(&lookat).length();
    let aperture: i64 = 200_000;
    let aspect: i64 = div_int((nx as i64) * FIX_ONE, ny as i64);

    let cam: Camera = Camera::new(lookfrom, lookat, vup, 363_970, aspect, aperture, dist_to_focus);

    render(&world, &cam, nx, ny, ns, max_depth, src)
}

} // verus!
