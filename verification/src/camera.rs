use vstd::prelude::*;

use crate::canvas::Canvas;
use crate::color::C3;
use crate::fx::{
    fx_add_raw, fx_clip, fx_div_raw, fx_mul_raw, fx_sub_raw, fx_tan_raw, Fx, FX_ONE,
};
use crate::matrix::{m_apply_point, m_det, m_eye, m_inv, Matrix};
use crate::point::Point;
use crate::ray::Ray;
use crate::vector::{v3_normalize, v3_sub, V3};
use crate::world::{color_at_spec, world_wf, World};

verus! {

/// The virtual camera: a pixel grid on the plane one unit in front of the
/// eye, mapped into the world by the inverse of the view transform.
#[derive(Debug, Clone, PartialEq)]
pub struct Camera {
    pub h_size: usize,
    pub v_size: usize,
    pub field_of_view: Fx,
    pub transform: Matrix,
    pub half_width: Fx,
    pub half_height: Fx,
    pub pixel_size: Fx,
}

/// Half the width of the image plane cut out by the field of view.
pub open spec fn camera_half_view(fov: int) -> int {
    fx_tan_raw(fx_div_raw(fov, 2 * (FX_ONE as int)))
}

/// Width over height.
pub open spec fn camera_aspect(h: int, v: int) -> int {
    fx_div_raw(fx_clip(h * (FX_ONE as int)), fx_clip(v * (FX_ONE as int)))
}

pub open spec fn camera_half_width(h: int, v: int, fov: int) -> int {
    if camera_aspect(h, v) >= FX_ONE {
        camera_half_view(fov)
    } else {
        fx_mul_raw(camera_half_view(fov), camera_aspect(h, v))
    }
}

pub open spec fn camera_half_height(h: int, v: int, fov: int) -> int {
    if camera_aspect(h, v) >= FX_ONE {
        fx_div_raw(camera_half_view(fov), camera_aspect(h, v))
    } else {
        camera_half_view(fov)
    }
}

/// The world-space side length of one square pixel.
pub open spec fn camera_pixel_size(h: int, v: int, fov: int) -> int {
    fx_div_raw(fx_mul_raw(camera_half_width(h, v, fov), 2 * (FX_ONE as int)), fx_clip(h * (FX_ONE as int)))
}

/// A camera fit to drive a render: positive pixel counts that a buffer can
/// hold, and a well-formed 4 x 4 view transform.
pub open spec fn camera_wf(c: Camera) -> bool {
    &&& 1 <= c.h_size <= 65535
    &&& 1 <= c.v_size <= 65535
    &&& c.transform.wf()
    &&& c.transform.dimension == 4
}

/// A camera whose view transform can be inverted.
pub open spec fn camera_invertible(c: Camera) -> bool {
    m_det(c.transform.s(), 4) != 0
}

/// The common origin of every camera ray: the eye, carried to world space.
pub open spec fn camera_ray_origin(c: Camera) -> V3 {
    m_apply_point(m_inv(c.transform.s(), 4), V3 { x: 0, y: 0, z: 0 })
}

/// The direction of the ray through the center of pixel (x, y): from the
/// eye through the un-projected point on the image plane at z = -1.
pub open spec fn camera_ray_direction(c: Camera, x: int, y: int) -> V3 {
    let xoffset = fx_mul_raw(fx_add_raw(fx_clip(x * (FX_ONE as int)), 0x2000_0000), c.pixel_size@);
    let yoffset = fx_mul_raw(fx_add_raw(fx_clip(y * (FX_ONE as int)), 0x2000_0000), c.pixel_size@);
    let world_x = fx_sub_raw(c.half_width@, xoffset);
    let world_y = fx_sub_raw(c.half_height@, yoffset);
    let inv = m_inv(c.transform.s(), 4);
    let pixel = m_apply_point(inv, V3 { x: world_x, y: world_y, z: -(FX_ONE as int) });
    v3_normalize(v3_sub(pixel, camera_ray_origin(c)))
}

/// The color a render writes at pixel (x, y): the scene sampled along the
/// camera ray for that pixel.
pub open spec fn render_spec(c: Camera, w: World, x: int, y: int) -> C3 {
    color_at_spec(w, camera_ray_origin(c), camera_ray_direction(c, x, y))
}

/// A row-major pixel index names one pixel: equal indices mean equal
/// coordinates.
proof fn lemma_row_major_injective(w: int, x1: int, y1: int, x2: int, y2: int)
    requires
        0 <= x1 < w,
        0 <= x2 < w,
        y1 * w + x1 == y2 * w + x2,
    ensures
        y1 == y2,
        x1 == x2,
{
    assert(y1 == y2 && x1 == x2) by (nonlinear_arith)
        requires
            0 <= x1 < w,
            0 <= x2 < w,
            y1 * w + x1 == y2 * w + x2,
    ;
}

/// A pixel's row-major index lies inside the buffer.
proof fn lemma_row_major_range(w: int, v: int, x: int, y: int)
    requires
        0 <= x < w,
        0 <= y < v,
    ensures
        0 <= y * w + x < v * w,
{
    assert(0 <= y * w + x < v * w) by (nonlinear_arith)
        requires
            0 <= x < w,
            0 <= y < v,
    ;
}

/// The render loop is a pure function of the camera and the scene: any two
/// pixel buffers that both satisfy its contract agree pixel for pixel, so
/// rendering the same immutable pair twice produces identical buffers.
pub proof fn lemma_render_deterministic(
    c: Camera,
    w: World,
    img1: Seq<crate::color::Color>,
    img2: Seq<crate::color::Color>,
)
    requires
        img1.len() == c.v_size * c.h_size,
        img2.len() == c.v_size * c.h_size,
        forall|x: int, y: int|
            0 <= x < c.h_size && 0 <= y < c.v_size ==> (#[trigger] img1[y * c.h_size + x])@
                == render_spec(c, w, x, y),
        forall|x: int, y: int|
            0 <= x < c.h_size && 0 <= y < c.v_size ==> (#[trigger] img2[y * c.h_size + x])@
                == render_spec(c, w, x, y),
        camera_wf(c),
    ensures
        img1 == img2,
{
    assert forall|i: int| 0 <= i < img1.len() implies img1[i] == img2[i] by {
        let y = i / (c.h_size as int);
        let x = i % (c.h_size as int);
        assert(i == y * c.h_size + x && 0 <= x < c.h_size && 0 <= y < c.v_size) by (nonlinear_arith)
            requires
                0 <= i < c.v_size * c.h_size,
                1 <= c.h_size,
                y == i / (c.h_size as int),
                x == i % (c.h_size as int),
        ;
        assert(img1[y * c.h_size + x]@ == render_spec(c, w, x, y));
        assert(img2[y * c.h_size + x]@ == render_spec(c, w, x, y));
        assert(img1[i] =~~= img2[i]);
    }
    assert(img1 =~= img2);
}

impl Camera {
    /// A camera for the given pixel counts and vertical field of view, with
    /// the identity view transform; the image-plane extents and the pixel
    /// size are derived once here.
    pub fn new(h_size: usize, v_size: usize, field_of_view: Fx) -> (r: Camera)
        requires
            1 <= h_size <= 65535,
            1 <= v_size <= 65535,
        ensures
            camera_wf(r),
            r.h_size == h_size,
            r.v_size == v_size,
            r.field_of_view == field_of_view,
            r.transform.s() == m_eye(4),
            r.half_width@ == camera_half_width(h_size as int, v_size as int, field_of_view@),
            r.half_height@ == camera_half_height(h_size as int, v_size as int, field_of_view@),
            r.pixel_size@ == camera_pixel_size(h_size as int, v_size as int, field_of_view@),
    {
        let half_view = field_of_view.div(Fx { raw: 2 * FX_ONE }).tan();
        let aspect = Fx::from_int(h_size as i64).div(Fx::from_int(v_size as i64));
        let half_width;
        let half_height;
        if aspect.raw >= FX_ONE {
            half_width = half_view;
            half_height = half_view.div(aspect);
        } else {
            half_width = half_view.mul(aspect);
            half_height = half_view;
        }
        let pixel_size = half_width.mul(Fx { raw: 2 * FX_ONE }).div(Fx::from_int(h_size as i64));
        Camera {
            h_size,
            v_size,
            field_of_view,
            transform: Matrix::default(),
            half_width,
            half_height,
            pixel_size,
        }
    }

    /// The world-space ray through the center of pixel (x, y).
    pub fn ray_for_pixel(&self, x: usize, y: usize) -> (r: Ray)
        requires
            camera_wf(*self),
            camera_invertible(*self),
            x < self.h_size,
            y < self.v_size,
        ensures
            r.origin@ == camera_ray_origin(*self),
            r.direction@ == camera_ray_direction(*self, x as int, y as int),
    {
        let xoffset = Fx::from_int(x as i64).add(Fx { raw: 0x2000_0000 }).mul(self.pixel_size);
        let yoffset = Fx::from_int(y as i64).add(Fx { raw: 0x2000_0000 }).mul(self.pixel_size);
        let world_x = self.half_width.sub(xoffset);
        let world_y = self.half_height.sub(yoffset);
        let transform_inv = self.transform.inverse();
        let pixel = transform_inv.mul_point(Point::new(world_x, world_y, Fx { raw: -FX_ONE }));
        let origin = transform_inv.mul_point(Point::default());
        let direction = pixel.sub_point(origin).normalize();
        Ray::new(origin, direction)
    }

    /// Renders the scene: one ray through every pixel center, the scene's
    /// color written at that pixel.
    #[verifier::rlimit(60)]
    pub fn render(&self, world: &World) -> (r: Canvas)
        requires
            camera_wf(*self),
            camera_invertible(*self),
            world_wf(*world),
        ensures
            r.wf(),
            r.width == self.h_size,
            r.height == self.v_size,
            r.cells().len() == self.v_size * self.h_size,
            forall|x: int, y: int|
                0 <= x < self.h_size && 0 <= y < self.v_size ==> (#[trigger] r.cells()[y
                    * self.h_size + x])@ == render_spec(*self, *world, x, y),
    {
        proof {
            assert(self.v_size * self.h_size <= usize::MAX) by (nonlinear_arith)
                requires
                    1 <= self.h_size <= 65535,
                    1 <= self.v_size <= 65535,
            ;
        }
        let mut image = Canvas::new(self.h_size, self.v_size);
        let mut y: usize = 0;
        while y < self.v_size
            invariant
                camera_wf(*self),
                camera_invertible(*self),
                world_wf(*world),
                y <= self.v_size,
                image.wf(),
                image.width == self.h_size,
                image.height == self.v_size,
                forall|xx: int, yy: int|
                    0 <= xx < self.h_size && 0 <= yy < y ==> (#[trigger] image.cells()[yy
                        * self.h_size + xx])@ == render_spec(*self, *world, xx, yy),
            decreases self.v_size - y,
        {
            let mut x: usize = 0;
            while x < self.h_size
                invariant
                    camera_wf(*self),
                    camera_invertible(*self),
                    world_wf(*world),
                    y < self.v_size,
                    x <= self.h_size,
                    image.wf(),
                    image.width == self.h_size,
                    image.height == self.v_size,
                    forall|xx: int, yy: int|
                        0 <= xx < self.h_size && (0 <= yy < y || (yy == y && 0 <= xx < x)) ==> (
                        #[trigger] image.cells()[yy * self.h_size + xx])@ == render_spec(
                            *self,
                            *world,
                            xx,
                            yy,
                        ),
                decreases self.h_size - x,
            {
                let ray = self.ray_for_pixel(x, y);
                let color = world.color_at(&ray);
                let ghost before = image.cells();
                image.write_pixel(x, y, color);
                proof {
                    assert(0 <= y * self.h_size + x < self.v_size * self.h_size)
                        by (nonlinear_arith)
                        requires
                            x < self.h_size,
                            y < self.v_size,
                    ;
                    assert forall|xx: int, yy: int|
                        0 <= xx < self.h_size && (0 <= yy < y || (yy == y && 0 <= xx < x + 1))
                            implies (#[trigger] image.cells()[yy * self.h_size + xx])@
                        == render_spec(*self, *world, xx, yy) by {
                        if yy == y && xx == x {
                        } else {
                            if yy * self.h_size + xx == y * self.h_size + x {
                                lemma_row_major_injective(
                                    self.h_size as int,
                                    xx,
                                    yy,
                                    x as int,
                                    y as int,
                                );
                            } else {
                                lemma_row_major_range(self.h_size as int, self.v_size as int, xx, yy);
                                assert(image.cells()[yy * self.h_size + xx] == before[yy
                                    * self.h_size + xx]);
                            }
                        }
                    }
                }
                x = x + 1;
            }
            y = y + 1;
        }
        image
    }
}

} // verus!
