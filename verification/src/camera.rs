//! The camera: a fixed projection basis mapping normalized image-plane
//! coordinates, and a lens jitter, to a primary ray.

use vstd::prelude::*;

use crate::fixed::{add_fix, fadd, fmul, mul_fix, FIX_HALF};
use crate::random::{random_in_unit_disk, sample_disk, RandomSource};
use crate::ray::{Point, Ray, RayM, V3, V3m};

verus! {

/// Model of a camera basis.
pub struct CameraM {
    pub origin: V3m,
    pub lower_left_corner: V3m,
    pub horizontal: V3m,
    pub vertical: V3m,
    pub u: V3m,
    pub v: V3m,
    pub w: V3m,
    pub lens_radius: int,
}

/// The camera basis [`Camera::new`] derives from its parameters:
/// `w` looks backward, `u` spans the image to the right, `v` upward, and
/// the image plane is placed at the focus distance.
pub open spec fn camera_m(
    lookfrom: V3m,
    lookat: V3m,
    vup: V3m,
    tan_half_vfov: int,
    aspect: int,
    aperture: int,
    focus_dist: int,
) -> CameraM {
    let half_height = tan_half_vfov;
    let half_width = fmul(aspect, half_height);
    let w = lookfrom.sub(lookat).normalize();
    let u = vup.cross(w).normalize();
    let v = w.cross(u);
    CameraM {
        origin: lookfrom,
        lower_left_corner: lookfrom.sub(u.scale(fmul(half_width, focus_dist))).sub(
            v.scale(fmul(half_height, focus_dist)),
        ).sub(w.scale(focus_dist)),
        horizontal: u.scale(fmul(fadd(half_width, half_width), focus_dist)),
        vertical: v.scale(fmul(fadd(half_height, half_height), focus_dist)),
        u,
        v,
        w,
        lens_radius: fmul(aperture, FIX_HALF as int),
    }
}

/// The ray [`Camera::get_ray`] builds once the lens jitter `d` is fixed.
pub open spec fn ray_through(cam: CameraM, s: int, t: int, d: V3m) -> RayM {
    let rd = d.scale(cam.lens_radius);
    let offset = cam.u.scale(rd.x).add(cam.v.scale(rd.y));
    RayM {
        a: cam.origin.add(offset),
        b: cam.lower_left_corner.add(cam.horizontal.scale(s)).add(cam.vertical.scale(t)).sub(
            cam.origin,
        ).sub(offset),
    }
}

/// The primary ray for image-plane coordinates `(s, t)` when the tape is
/// read from `pos`, with the position after it.
pub open spec fn get_ray_m(cam: CameraM, s: int, t: int, draws: Seq<i64>, pos: int) -> (
    RayM,
    int,
) {
    let (d, p1) = sample_disk(draws, pos);
    (ray_through(cam, s, t, d), p1)
}

/// A fixed, immutable projection basis computed once from look-from and
/// look-at points, an up vector, the tangent of half the vertical field of
/// view, the aspect ratio, the aperture and the focus distance.
pub struct Camera {
    pub origin: Point,
    pub lower_left_corner: Point,
    pub horizontal: V3,
    pub vertical: V3,
    pub u: V3,
    pub v: V3,
    pub w: V3,
    pub lens_radius: i64,
}

impl View for Camera {
    type V = CameraM;

    open spec fn view(&self) -> CameraM {
        CameraM {
            origin: self.origin@,
            lower_left_corner: self.lower_left_corner@,
            horizontal: self.horizontal@,
            vertical: self.vertical@,
            u: self.u@,
            v: self.v@,
            w: self.w@,
            lens_radius: self.lens_radius as int,
        }
    }
}

impl Camera {
    /// Build the projection basis. `tan_half_vfov` is the tangent of half
    /// the vertical field of view (the caller turns an angle into its
    /// tangent); `aspect` is width over height.
    pub fn new(
        lookfrom: V3,
        lookat: V3,
        vup: V3,
        tan_half_vfov: i64,
        aspect: i64,
        aperture: i64,
        focus_dist: i64,
    ) -> (cam: Camera)
        ensures
            cam@ == camera_m(
                lookfrom@,
                lookat@,
                vup@,
                tan_half_vfov as int,
                aspect as int,
                aperture as int,
                focus_dist as int,
            ),
    {
        let half_height: i64 = tan_half_vfov;
        let half_width: i64 = mul_fix(aspect, half_height);

        let w: V3 = lookfrom.sub(&lookat).normalize();
        let u: V3 = vup.cross(&w).normalize();
        let v: V3 = w.cross(&u);

        let origin: V3 = lookfrom;

        Camera {
            lower_left_corner: origin.sub(&u.scale(mul_fix(half_width, focus_dist))).sub(
                &v.scale(mul_fix(half_height, focus_dist)),
            ).sub(&w.scale(focus_dist)),
            horizontal: u.scale(mul_fix(add_fix(half_width, half_width), focus_dist)),
            vertical: v.scale(mul_fix(add_fix(half_height, half_height), focus_dist)),
            origin,
            u,
            v,
            w,
            lens_radius: mul_fix(aperture, FIX_HALF),
        }
    }

    /// The primary ray for normalized image-plane coordinates `(s, t)`,
    /// its origin jittered inside the lens to model depth of field.
    pub fn get_ray(&self, s: i64, t: i64, src: &mut RandomSource) -> (r: Ray)
        ensures
            old(src).advanced_to(
                *final(src),
                get_ray_m(self@, s as int, t as int, old(src).sdraws(), old(src).spos()).1,
            ),
            old(src).is_replay() ==> r@ == get_ray_m(
                self@,
                s as int,
                t as int,
                old(src).sdraws(),
                old(src).spos(),
            ).0,
    {
        let d: V3 = random_in_unit_disk(src);
        let rd: V3 = d.scale(self.lens_radius);
        let offset: V3 = self.u.scale(rd.x).add(&self.v.scale(rd.y));

        Ray::new(
            self.origin.add(&offset),
            self.lower_left_corner.add(&self.horizontal.scale(s)).add(
                &self.vertical.scale(t),
            ).sub(&self.origin).sub(&offset),
        )
    }
}

} // verus!
