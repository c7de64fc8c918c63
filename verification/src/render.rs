//! The renderer: derives camera and viewport geometry once, then
//! sweeps every pixel of a row-major buffer, tracing one primary ray
//! per pixel. The sweep is tiled into contiguous chunks so disjoint
//! slices of the buffer can be filled independently; the output is
//! deterministic and independent of the chunk count.

use vstd::prelude::*;
use vstd::arithmetic::div_mod::{
    lemma_fundamental_div_mod, lemma_mod_bound, lemma_multiply_divide_lt,
};
use vstd::arithmetic::mul::lemma_mul_inequality;
use crate::color::LinearRgb;
use crate::fixed::{Fx, fx_div, fx_div_v, fx_from_int_v, fx_mul, fx_mul_v};
use crate::scene::{Camera, Ray, Scene};
use crate::tracer::trace_v;
use crate::vec3::{
    Vec3x, vadd, vadd_v, vcross, vcross_v, vdiv, vdiv_v, vneg, vneg_v, vnormalize, vnormalize_v,
    vscale, vscale_v, vsub, vsub_v,
};

verus! {

/// Bias nudging secondary-ray origins off their surface (about 0.001).
pub const SHADOW_BIAS_BITS: i64 = 66;

/// Ceiling on reflected and transmitted recursion.
pub const MAX_RECURSION_DEPTH: u32 = 10;

/// Camera and viewport geometry, derived once per camera/size pair and
/// immutable during a render.
#[derive(Clone, Copy, Debug)]
pub struct Renderer {
    pub camera: Camera,
    pub width: u32,
    pub height: u32,
    pub pixel_delta_u: Vec3x,
    pub pixel_delta_v: Vec3x,
    pub top_left_pixel: Vec3x,
    pub shadow_bias: Fx,
    pub max_recursion_depth: u32,
}

/// The zero vector, the degenerate cross product that a camera basis
/// must avoid.
pub open spec fn vec3_zero() -> Vec3x {
    Vec3x { x: Fx { bits: 0 }, y: Fx { bits: 0 }, z: Fx { bits: 0 } }
}

/// The derived viewport geometry: an orthonormal basis from direction
/// and up, viewport extents from the field of view and aspect ratio,
/// per-pixel step vectors, and the first pixel's sample point offset by
/// half a pixel.
pub open spec fn renderer_v(camera: Camera, width: u32, height: u32) -> Renderer {
    let width_fx = fx_from_int_v(width as int);
    let height_fx = fx_from_int_v(height as int);
    let two = Fx { bits: 131072 };
    let viewport_height = fx_mul_v(two, camera.half_fov_tan);
    let viewport_width = fx_mul_v(viewport_height, fx_div_v(width_fx, height_fx));
    let w_basis = vneg_v(camera.direction);
    let u_basis = vnormalize_v(vcross_v(camera.up, w_basis));
    let v_basis = vcross_v(w_basis, u_basis);
    let viewport_u = vscale_v(u_basis, viewport_width);
    let viewport_v = vscale_v(vneg_v(v_basis), viewport_height);
    let pixel_delta_u = vdiv_v(viewport_u, width_fx);
    let pixel_delta_v = vdiv_v(viewport_v, height_fx);
    let top_left_pixel = vadd_v(
        vsub_v(
            vsub_v(vsub_v(camera.translation, w_basis), vdiv_v(viewport_u, two)),
            vdiv_v(viewport_v, two),
        ),
        vscale_v(vadd_v(pixel_delta_u, pixel_delta_v), Fx { bits: 32768 }),
    );
    Renderer {
        camera,
        width,
        height,
        pixel_delta_u,
        pixel_delta_v,
        top_left_pixel,
        shadow_bias: Fx { bits: SHADOW_BIAS_BITS },
        max_recursion_depth: MAX_RECURSION_DEPTH,
    }
}

/// The world-space sample point at the center of pixel (x, y).
pub open spec fn pixel_center_v(ren: Renderer, x: u32, y: u32) -> Vec3x {
    vadd_v(
        vadd_v(ren.top_left_pixel, vscale_v(ren.pixel_delta_u, fx_from_int_v(x as int))),
        vscale_v(ren.pixel_delta_v, fx_from_int_v(y as int)),
    )
}

/// The primary ray: from the camera origin through pixel (x, y).
pub open spec fn primary_ray_v(ren: Renderer, x: u32, y: u32) -> Ray {
    Ray {
        origin: ren.camera.translation,
        direction: vnormalize_v(vsub_v(pixel_center_v(ren, x, y), ren.camera.translation)),
    }
}

/// The color owed to the flat, row-major pixel index `i`.
pub open spec fn pixel_at_v<S: Scene>(ren: Renderer, scene: &S, i: int) -> LinearRgb {
    let x = (i % (ren.width as int)) as u32;
    let y = (i / (ren.width as int)) as u32;
    trace_v(ren, scene, primary_ray_v(ren, x, y), 0)
}

/// Where chunk `k` of `count` begins in a buffer of `len` pixels:
/// chunks are `len / count` pixels long, and the remainder is folded
/// into the last chunk.
pub open spec fn chunk_start_v(len: int, count: int, k: int) -> int {
    k * (len / count)
}

/// Where chunk `k` of `count` ends (one past its last pixel).
pub open spec fn chunk_end_v(len: int, count: int, k: int) -> int {
    if k == count - 1 {
        len
    } else {
        (k + 1) * (len / count)
    }
}

impl Renderer {
    /// Derives the viewport geometry for a camera and an output size.
    /// The camera's direction and up must span a plane (their basis
    /// cross product must not vanish) and the height must be positive;
    /// a caller must validate both before construction.
    pub fn init(camera: Camera, width: u32, height: u32) -> (r: Renderer)
        requires
            height > 0,
            vcross_v(camera.up, vneg_v(camera.direction)) != vec3_zero(),
        ensures
            r == renderer_v(camera, width, height),
    {
        let width_fx = Fx::from_int(width as i64);
        let height_fx = Fx::from_int(height as i64);
        let two = Fx { bits: 131072 };
        let viewport_height = fx_mul(two, camera.half_fov_tan);
        let viewport_width = fx_mul(viewport_height, fx_div(width_fx, height_fx));
        let w_basis = vneg(camera.direction);
        let u_basis = vnormalize(vcross(camera.up, w_basis));
        let v_basis = vcross(w_basis, u_basis);
        let viewport_u = vscale(u_basis, viewport_width);
        let viewport_v = vscale(vneg(v_basis), viewport_height);
        let pixel_delta_u = vdiv(viewport_u, width_fx);
        let pixel_delta_v = vdiv(viewport_v, height_fx);
        let top_left_pixel = vadd(
            vsub(
                vsub(vsub(camera.translation, w_basis), vdiv(viewport_u, two)),
                vdiv(viewport_v, two),
            ),
            vscale(vadd(pixel_delta_u, pixel_delta_v), Fx { bits: 32768 }),
        );
        Renderer {
            camera,
            width,
            height,
            pixel_delta_u,
            pixel_delta_v,
            top_left_pixel,
            shadow_bias: Fx { bits: SHADOW_BIAS_BITS },
            max_recursion_depth: MAX_RECURSION_DEPTH,
        }
    }

    /// The primary ray through pixel (x, y).
    pub fn primary_ray(&self, x: u32, y: u32) -> (r: Ray)
        ensures
            r == primary_ray_v(*self, x, y),
    {
        let center = vadd(
            vadd(self.top_left_pixel, vscale(self.pixel_delta_u, Fx::from_int(x as i64))),
            vscale(self.pixel_delta_v, Fx::from_int(y as i64)),
        );
        Ray {
            origin: self.camera.translation,
            direction: vnormalize(vsub(center, self.camera.translation)),
        }
    }

    /// Traces the primary ray of pixel (x, y) at depth zero.
    pub fn render_pixel<S: Scene>(&self, scene: &S, x: u32, y: u32) -> (r: LinearRgb)
        ensures
            r == trace_v(*self, scene, primary_ray_v(*self, x, y), 0),
    {
        let ray = self.primary_ray(x, y);
        self.cast_ray(scene, ray, 0)
    }

    /// Renders chunk `chunk_index` of `chunk_count`: fills exactly the
    /// pixels of that contiguous range and leaves every other element
    /// unchanged.
    pub fn render_chunk<S: Scene>(
        &self,
        scene: &S,
        pixels: &mut Vec<LinearRgb>,
        chunk_index: usize,
        chunk_count: usize,
    )
        requires
            old(pixels)@.len() == (self.width as int) * (self.height as int),
            chunk_count >= 1,
            chunk_index < chunk_count,
        ensures
            final(pixels)@.len() == old(pixels)@.len(),
            forall|i: int|
                chunk_start_v(old(pixels)@.len() as int, chunk_count as int, chunk_index as int)
                    <= i < chunk_end_v(
                    old(pixels)@.len() as int,
                    chunk_count as int,
                    chunk_index as int,
                ) ==> final(pixels)@[i] == pixel_at_v(*self, scene, i),
            forall|i: int|
                0 <= i < old(pixels)@.len() && !(chunk_start_v(
                    old(pixels)@.len() as int,
                    chunk_count as int,
                    chunk_index as int,
                ) <= i < chunk_end_v(
                    old(pixels)@.len() as int,
                    chunk_count as int,
                    chunk_index as int,
                )) ==> final(pixels)@[i] == old(pixels)@[i],
    {
        let len = pixels.len();
        let chunk_size = len / chunk_count;
        proof {
            lemma_fundamental_div_mod(len as int, chunk_count as int);
            lemma_mod_bound(len as int, chunk_count as int);
            lemma_mul_inequality(chunk_index as int, chunk_count as int, chunk_size as int);
            lemma_mul_inequality(chunk_index as int + 1, chunk_count as int, chunk_size as int);
            assert((chunk_index as int + 1) * (chunk_size as int) == chunk_index as int
                * chunk_size as int + chunk_size as int) by (nonlinear_arith);
        }
        let start = chunk_index * chunk_size;
        let end = if chunk_index == chunk_count - 1 {
            len
        } else {
            start + chunk_size
        };
        proof {
            assert(start as int == chunk_start_v(len as int, chunk_count as int, chunk_index as int));
            assert(end as int == chunk_end_v(len as int, chunk_count as int, chunk_index as int));
            assert(start <= end <= len) by {
                if chunk_index == chunk_count - 1 {
                    lemma_mul_inequality(
                        chunk_index as int,
                        chunk_count as int,
                        chunk_size as int,
                    );
                }
            }
        }
        let mut i: usize = start;
        while i < end
            invariant
                start <= i <= end,
                end <= len,
                pixels@.len() == len,
                len as int == (self.width as int) * (self.height as int),
                forall|j: int| start <= j < i ==> pixels@[j] == pixel_at_v(*self, scene, j),
                forall|j: int|
                    0 <= j < len && !(start <= j < i) ==> pixels@[j] == old(pixels)@[j],
            decreases end - i,
        {
            proof {
                assert(self.width as int > 0) by {
                    if self.width as int <= 0 {
                        assert((self.width as int) * (self.height as int) == 0)
                            by (nonlinear_arith)
                            requires
                                self.width as int == 0,
                        ;
                    }
                }
                lemma_mod_bound(i as int, self.width as int);
                lemma_multiply_divide_lt(i as int, self.width as int, self.height as int);
            }
            let x = (i % (self.width as usize)) as u32;
            let y = (i / (self.width as usize)) as u32;
            let px = self.render_pixel(scene, x, y);
            pixels[i] = px;
            i = i + 1;
        }
    }

    /// Fills the whole buffer, sweeping it as `workers` contiguous
    /// chunks in order. Every element is written exactly once, with the
    /// color owed to its own pixel, whatever the chunk count.
    pub fn render_into<S: Scene>(
        &self,
        scene: &S,
        pixels: &mut Vec<LinearRgb>,
        workers: usize,
    )
        requires
            old(pixels)@.len() == (self.width as int) * (self.height as int),
            workers >= 1,
        ensures
            final(pixels)@.len() == old(pixels)@.len(),
            forall|i: int|
                0 <= i < final(pixels)@.len() ==> final(pixels)@[i] == pixel_at_v(
                    *self,
                    scene,
                    i,
                ),
    {
        let ghost len = pixels@.len() as int;
        let mut chunk_index: usize = 0;
        while chunk_index < workers
            invariant
                chunk_index <= workers,
                workers >= 1,
                pixels@.len() == len,
                len == (self.width as int) * (self.height as int),
                forall|i: int|
                    0 <= i < chunk_start_v(len, workers as int, chunk_index as int)
                        ==> pixels@[i] == pixel_at_v(*self, scene, i),
                chunk_index < workers ==> chunk_start_v(len, workers as int, chunk_index as int)
                    <= len,
                chunk_index == workers ==> forall|i: int|
                    0 <= i < len ==> pixels@[i] == pixel_at_v(*self, scene, i),
            decreases workers - chunk_index,
        {
            self.render_chunk(scene, pixels, chunk_index, workers);
            proof {
                lemma_fundamental_div_mod(len, workers as int);
                lemma_mod_bound(len, workers as int);
                if chunk_index as int + 1 < workers as int {
                    lemma_mul_inequality(
                        chunk_index as int + 1,
                        workers as int,
                        len / (workers as int),
                    );
                    assert((workers as int) * (len / (workers as int)) == (len / (workers as int))
                        * (workers as int));
                }
            }
            chunk_index = chunk_index + 1;
        }
    }

    /// Allocates a row-major buffer of the renderer's dimensions and
    /// fills it as one chunk.
    pub fn render<S: Scene>(&self, scene: &S) -> (r: Vec<LinearRgb>)
        requires
            (self.width as int) * (self.height as int) <= usize::MAX as int,
        ensures
            r@.len() == (self.width as int) * (self.height as int),
            forall|i: int| 0 <= i < r@.len() ==> r@[i] == pixel_at_v(*self, scene, i),
    {
        let n = (self.width as usize) * (self.height as usize);
        let mut pixels: Vec<LinearRgb> = Vec::new();
        while pixels.len() < n
            invariant
                pixels@.len() <= n,
            decreases n - pixels@.len(),
        {
            pixels.push(LinearRgb::black());
        }
        self.render_into(scene, &mut pixels, 1);
        pixels
    }
}

/// The rendered output is deterministic and independent of the chunk
/// count and order: any two buffers in which every element holds the
/// color owed to its own pixel — what `render_into` ensures for every
/// worker count — are equal.
pub proof fn lemma_render_deterministic<S: Scene>(
    ren: Renderer,
    scene: &S,
    a: Seq<LinearRgb>,
    b: Seq<LinearRgb>,
)
    requires
        a.len() == (ren.width as int) * (ren.height as int),
        b.len() == a.len(),
        forall|i: int| 0 <= i < a.len() ==> a[i] == pixel_at_v(ren, scene, i),
        forall|i: int| 0 <= i < b.len() ==> b[i] == pixel_at_v(ren, scene, i),
    ensures
        a == b,
{
    assert forall|i: int| 0 <= i < a.len() implies a[i] == b[i] by {}
    assert(a =~= b);
}

} // verus!
