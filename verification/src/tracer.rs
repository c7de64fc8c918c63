//! The recursive shading engine: direct lighting with shadow tests,
//! and Fresnel-weighted reflection and refraction, bounded by a
//! recursion-depth ceiling.
//!
//! Every executable function mirrors a specification function exactly,
//! so a caller knows the full fixed-point value of every traced color.

use vstd::prelude::*;
use crate::color::{
    LinearRgb, cadd, cadd_v, cdiv, cdiv_v, cmul, cmul_v, cscale, cscale_v, lemma_mix_left_endpoint,
    lemma_mix_right_endpoint, mix_v,
};
use crate::fixed::{
    FX_SCALE, Fx, fx_abs, fx_abs_v, fx_add, fx_add_v, fx_div, fx_div_v, fx_max, fx_max_v, fx_mul,
    fx_mul_v, fx_neg, fx_neg_v, fx_sqrt, fx_sqrt_v, fx_sub, fx_sub_v,
};
use crate::render::Renderer;
use crate::scene::{Light, Material, Ray, RayHit, Scene};
use crate::vec3::{
    Vec3x, vadd, vadd_v, vdot, vdot_v, vneg, vneg_v, vnormalize, vnormalize_v, vscale, vscale_v,
    vsub, vsub_v,
};

verus! {

/// Fixed-point units of the circle constant pi.
pub const PI_BITS: i64 = 205887;

/// Where a secondary ray starts: the surface point, nudged by the
/// shadow bias along the normal plus the outgoing direction.
pub open spec fn shadow_ray_v(ren: Renderer, position: Vec3x, normal: Vec3x, dir_to_light: Vec3x) -> Ray {
    Ray {
        origin: vadd_v(position, vscale_v(vadd_v(normal, dir_to_light), ren.shadow_bias)),
        direction: dir_to_light,
    }
}

/// The mirror ray: direction reflected about the surface normal, origin
/// nudged off the surface.
pub open spec fn reflect_ray_v(ren: Renderer, direction: Vec3x, hit: Vec3x, normal: Vec3x) -> Ray {
    let out = vnormalize_v(
        vsub_v(
            direction,
            vscale_v(normal, fx_mul_v(Fx { bits: 131072 }, vdot_v(direction, normal))),
        ),
    );
    Ray { origin: vadd_v(hit, vscale_v(vadd_v(normal, out), ren.shadow_bias)), direction: out }
}

/// The transmitted (refracted) ray by Snell's law, or `None` under
/// total internal reflection, where the square root would have no
/// real value and the transmitted branch must be skipped.
pub open spec fn transmission_ray_v(
    ren: Renderer,
    direction: Vec3x,
    hit: Vec3x,
    normal: Vec3x,
    index: Fx,
) -> Option<Ray> {
    let entering = vdot_v(direction, normal).bits < 0;
    let n = if entering {
        normal
    } else {
        vneg_v(normal)
    };
    let eta_i = if entering {
        Fx { bits: FX_SCALE }
    } else {
        index
    };
    let eta_t = if entering {
        index
    } else {
        Fx { bits: FX_SCALE }
    };
    let i_dot_n = if entering {
        fx_neg_v(vdot_v(direction, normal))
    } else {
        vdot_v(direction, normal)
    };
    let eta = fx_div_v(eta_i, eta_t);
    let k = fx_sub_v(
        Fx { bits: FX_SCALE },
        fx_mul_v(
            fx_mul_v(eta, eta),
            fx_sub_v(Fx { bits: FX_SCALE }, fx_mul_v(i_dot_n, i_dot_n)),
        ),
    );
    if k.bits < 0 {
        None
    } else {
        let out = vnormalize_v(
            vsub_v(
                vscale_v(vadd_v(direction, vscale_v(n, i_dot_n)), eta),
                vscale_v(n, fx_sqrt_v(k)),
            ),
        );
        Some(
            Ray {
                origin: vadd_v(hit, vscale_v(vadd_v(vneg_v(n), out), ren.shadow_bias)),
                direction: out,
            },
        )
    }
}

/// Dielectric Fresnel reflectance: the average of the squared s- and
/// p-polarization amplitudes, and one under total internal reflection.
pub open spec fn fresnel_v(direction: Vec3x, normal: Vec3x, index: Fx) -> Fx {
    let dir_dot_n = vdot_v(direction, normal);
    let eta_i = if dir_dot_n.bits > 0 {
        index
    } else {
        Fx { bits: FX_SCALE }
    };
    let eta_t = if dir_dot_n.bits > 0 {
        Fx { bits: FX_SCALE }
    } else {
        index
    };
    let sin_t = fx_mul_v(
        fx_div_v(eta_i, eta_t),
        fx_sqrt_v(
            fx_max_v(
                fx_sub_v(Fx { bits: FX_SCALE }, fx_mul_v(dir_dot_n, dir_dot_n)),
                Fx { bits: 0 },
            ),
        ),
    );
    if sin_t.bits > FX_SCALE {
        Fx { bits: FX_SCALE }
    } else {
        let cos_t = fx_sqrt_v(
            fx_max_v(fx_sub_v(Fx { bits: FX_SCALE }, fx_mul_v(sin_t, sin_t)), Fx { bits: 0 }),
        );
        let cos_i = fx_abs_v(cos_t);
        let r_s = fx_div_v(
            fx_sub_v(fx_mul_v(eta_t, cos_i), fx_mul_v(eta_i, cos_t)),
            fx_add_v(fx_mul_v(eta_t, cos_i), fx_mul_v(eta_i, cos_t)),
        );
        let r_p = fx_div_v(
            fx_sub_v(fx_mul_v(eta_i, cos_i), fx_mul_v(eta_t, cos_t)),
            fx_add_v(fx_mul_v(eta_i, cos_i), fx_mul_v(eta_t, cos_t)),
        );
        fx_div_v(
            fx_add_v(fx_mul_v(r_s, r_s), fx_mul_v(r_p, r_p)),
            Fx { bits: 131072 },
        )
    }
}

/// One light's contribution to a diffuse surface point: ambient lights
/// contribute unconditionally; directional and point lights are shadow
/// tested and fall off with the Lambertian cosine (and, for point
/// lights, the inverse square of the distance).
pub open spec fn light_term_v<S: Scene>(
    ren: Renderer,
    scene: &S,
    albedo: LinearRgb,
    position: Vec3x,
    normal: Vec3x,
    light: Light,
) -> LinearRgb {
    match light {
        Light::Ambient { color, intensity } => cscale_v(cmul_v(albedo, color), intensity),
        Light::Directional { direction, color, intensity } => {
            let dir_to_light = vneg_v(direction);
            let sray = shadow_ray_v(ren, position, normal, dir_to_light);
            if scene.hit_of(sray, Fx { bits: i64::MAX }) is Some {
                LinearRgb { red: Fx { bits: 0 }, green: Fx { bits: 0 }, blue: Fx { bits: 0 } }
            } else {
                let light_power = fx_mul_v(
                    fx_max_v(vdot_v(normal, dir_to_light), Fx { bits: 0 }),
                    intensity,
                );
                cdiv_v(cscale_v(cmul_v(albedo, color), light_power), Fx { bits: PI_BITS })
            }
        },
        Light::Point { position: light_position, color, intensity } => {
            let to_light = vsub_v(light_position, position);
            let dir_to_light = vnormalize_v(to_light);
            let sray = shadow_ray_v(ren, position, normal, dir_to_light);
            let distance_squared = vdot_v(to_light, to_light);
            if scene.hit_of(sray, fx_sqrt_v(distance_squared)) is Some {
                LinearRgb { red: Fx { bits: 0 }, green: Fx { bits: 0 }, blue: Fx { bits: 0 } }
            } else {
                let light_intensity = fx_div_v(
                    intensity,
                    fx_mul_v(
                        fx_mul_v(Fx { bits: 262144 }, Fx { bits: PI_BITS }),
                        distance_squared,
                    ),
                );
                let light_power = fx_mul_v(
                    fx_max_v(vdot_v(normal, dir_to_light), Fx { bits: 0 }),
                    light_intensity,
                );
                cdiv_v(cscale_v(cmul_v(albedo, color), light_power), Fx { bits: PI_BITS })
            }
        },
    }
}

/// The diffuse shade of a surface point under the first `n` lights.
pub open spec fn shade_v<S: Scene>(
    ren: Renderer,
    scene: &S,
    albedo: LinearRgb,
    position: Vec3x,
    normal: Vec3x,
    n: int,
) -> LinearRgb
    decreases n,
{
    if n <= 0 {
        LinearRgb { red: Fx { bits: 0 }, green: Fx { bits: 0 }, blue: Fx { bits: 0 } }
    } else {
        cadd_v(
            shade_v(ren, scene, albedo, position, normal, n - 1),
            light_term_v(ren, scene, albedo, position, normal, scene.lights_seq()[n - 1]),
        )
    }
}

/// The full diffuse shade: every light of the scene summed.
pub open spec fn shade_full_v<S: Scene>(
    ren: Renderer,
    scene: &S,
    albedo: LinearRgb,
    position: Vec3x,
    normal: Vec3x,
) -> LinearRgb {
    shade_v(ren, scene, albedo, position, normal, scene.lights_seq().len() as int)
}

/// The traced color of a ray at a recursion depth: the background once
/// the depth ceiling is reached or nothing is hit; otherwise the
/// material's response, with reflection and refraction traced one
/// level deeper and blended by reflectivity or Fresnel weight.
pub open spec fn trace_v<S: Scene>(ren: Renderer, scene: &S, ray: Ray, depth: u32) -> LinearRgb
    decreases ren.max_recursion_depth - depth,
{
    if depth >= ren.max_recursion_depth {
        ren.camera.background
    } else {
        match scene.hit_of(ray, Fx { bits: i64::MAX }) {
            None => ren.camera.background,
            Some(surface) => match surface.material {
                Material::Diffuse { albedo } => shade_full_v(
                    ren,
                    scene,
                    albedo,
                    surface.position,
                    surface.normal,
                ),
                Material::Reflective { albedo, reflectivity } => {
                    let local = shade_full_v(ren, scene, albedo, surface.position, surface.normal);
                    let reflected = trace_v(
                        ren,
                        scene,
                        reflect_ray_v(ren, ray.direction, surface.position, surface.normal),
                        (depth + 1) as u32,
                    );
                    mix_v(local, reflected, reflectivity)
                },
                Material::Refractive { albedo, index, transparency } => {
                    let kr = fresnel_v(ray.direction, surface.normal, index);
                    let reflected = trace_v(
                        ren,
                        scene,
                        reflect_ray_v(ren, ray.direction, surface.position, surface.normal),
                        (depth + 1) as u32,
                    );
                    if kr.bits < FX_SCALE {
                        match transmission_ray_v(
                            ren,
                            ray.direction,
                            surface.position,
                            surface.normal,
                            index,
                        ) {
                            Some(tray) => {
                                let refracted = trace_v(ren, scene, tray, (depth + 1) as u32);
                                mix_v(
                                    cscale_v(cmul_v(albedo, refracted), transparency),
                                    reflected,
                                    kr,
                                )
                            },
                            // Total internal reflection: skip the
                            // transmitted branch, as if the Fresnel
                            // weight were one.
                            None => reflected,
                        }
                    } else {
                        let black = LinearRgb {
                            red: Fx { bits: 0 },
                            green: Fx { bits: 0 },
                            blue: Fx { bits: 0 },
                        };
                        mix_v(cscale_v(cmul_v(albedo, black), transparency), reflected, kr)
                    }
                },
            },
        }
    }
}

/// Dielectric Fresnel reflectance of a ray direction against a surface
/// normal, for the given refractive index.
pub fn fresnel(direction: Vec3x, normal: Vec3x, index: Fx) -> (r: Fx)
    ensures
        r == fresnel_v(direction, normal, index),
{
    let dir_dot_n = vdot(direction, normal);
    let mut eta_i = Fx { bits: FX_SCALE };
    let mut eta_t = index;
    if dir_dot_n.bits > 0 {
        eta_i = eta_t;
        eta_t = Fx { bits: FX_SCALE };
    }
    let sin_t = fx_mul(
        fx_div(eta_i, eta_t),
        fx_sqrt(
            fx_max(fx_sub(Fx { bits: FX_SCALE }, fx_mul(dir_dot_n, dir_dot_n)), Fx { bits: 0 }),
        ),
    );
    if sin_t.bits > FX_SCALE {
        Fx { bits: FX_SCALE }
    } else {
        let cos_t = fx_sqrt(
            fx_max(fx_sub(Fx { bits: FX_SCALE }, fx_mul(sin_t, sin_t)), Fx { bits: 0 }),
        );
        let cos_i = fx_abs(cos_t);
        let r_s = fx_div(
            fx_sub(fx_mul(eta_t, cos_i), fx_mul(eta_i, cos_t)),
            fx_add(fx_mul(eta_t, cos_i), fx_mul(eta_i, cos_t)),
        );
        let r_p = fx_div(
            fx_sub(fx_mul(eta_i, cos_i), fx_mul(eta_t, cos_t)),
            fx_add(fx_mul(eta_i, cos_i), fx_mul(eta_t, cos_t)),
        );
        fx_div(fx_add(fx_mul(r_s, r_s), fx_mul(r_p, r_p)), Fx { bits: 131072 })
    }
}

impl Renderer {
    /// Builds the bias-offset ray that tests whether a light reaches a
    /// surface point.
    pub fn shadow_ray(&self, surface_position: Vec3x, surface_normal: Vec3x, dir_to_light: Vec3x) -> (r: Ray)
        ensures
            r == shadow_ray_v(*self, surface_position, surface_normal, dir_to_light),
    {
        Ray {
            origin: vadd(
                surface_position,
                vscale(vadd(surface_normal, dir_to_light), self.shadow_bias),
            ),
            direction: dir_to_light,
        }
    }

    /// Builds the mirror ray leaving a surface point.
    pub fn reflect_ray(&self, direction: Vec3x, hit: Vec3x, normal: Vec3x) -> (r: Ray)
        ensures
            r == reflect_ray_v(*self, direction, hit, normal),
    {
        let out = vnormalize(
            vsub(direction, vscale(normal, fx_mul(Fx { bits: 131072 }, vdot(direction, normal)))),
        );
        Ray { origin: vadd(hit, vscale(vadd(normal, out), self.shadow_bias)), direction: out }
    }

    /// Builds the transmitted ray by Snell's law, or `None` under total
    /// internal reflection.
    pub fn transmission_ray(&self, direction: Vec3x, hit: Vec3x, normal: Vec3x, index: Fx) -> (r:
        Option<Ray>)
        ensures
            r == transmission_ray_v(*self, direction, hit, normal, index),
    {
        let mut n = normal;
        let mut eta_t = index;
        let mut eta_i = Fx { bits: FX_SCALE };
        let mut i_dot_n = vdot(direction, normal);
        if i_dot_n.bits < 0 {
            i_dot_n = fx_neg(i_dot_n);
        } else {
            n = vneg(normal);
            eta_t = Fx { bits: FX_SCALE };
            eta_i = index;
        }
        let eta = fx_div(eta_i, eta_t);
        let k = fx_sub(
            Fx { bits: FX_SCALE },
            fx_mul(fx_mul(eta, eta), fx_sub(Fx { bits: FX_SCALE }, fx_mul(i_dot_n, i_dot_n))),
        );
        if k.bits < 0 {
            return None;
        }
        let out = vnormalize(
            vsub(vscale(vadd(direction, vscale(n, i_dot_n)), eta), vscale(n, fx_sqrt(k))),
        );
        Some(Ray { origin: vadd(hit, vscale(vadd(vneg(n), out), self.shadow_bias)), direction: out })
    }

    /// Sums every light's contribution at a diffuse surface point.
    pub fn shade_diffuse<S: Scene>(
        &self,
        scene: &S,
        albedo: LinearRgb,
        surface_position: Vec3x,
        surface_normal: Vec3x,
    ) -> (r: LinearRgb)
        ensures
            r == shade_full_v(*self, scene, albedo, surface_position, surface_normal),
    {
        let mut result = LinearRgb::black();
        let lights = scene.lights();
        let n = lights.len();
        let mut i: usize = 0;
        while i < n
            invariant
                i <= n,
                n == scene.lights_seq().len(),
                lights@ == scene.lights_seq(),
                result == shade_v(*self, scene, albedo, surface_position, surface_normal, i as int),
            decreases n - i,
        {
            let term: LinearRgb = match lights[i] {
                Light::Ambient { color, intensity } => cscale(cmul(albedo, color), intensity),
                Light::Directional { direction, color, intensity } => {
                    let dir_to_light = vneg(direction);
                    let sray = self.shadow_ray(surface_position, surface_normal, dir_to_light);
                    match scene.cast_ray(sray, Fx { bits: i64::MAX }) {
                        Some(_) => LinearRgb::black(),
                        None => {
                            let light_power = fx_mul(
                                fx_max(vdot(surface_normal, dir_to_light), Fx { bits: 0 }),
                                intensity,
                            );
                            cdiv(
                                cscale(cmul(albedo, color), light_power),
                                Fx { bits: PI_BITS },
                            )
                        },
                    }
                },
                Light::Point { position, color, intensity } => {
                    let to_light = vsub(position, surface_position);
                    let dir_to_light = vnormalize(to_light);
                    let sray = self.shadow_ray(surface_position, surface_normal, dir_to_light);
                    let distance_squared = vdot(to_light, to_light);
                    match scene.cast_ray(sray, fx_sqrt(distance_squared)) {
                        Some(_) => LinearRgb::black(),
                        None => {
                            let light_intensity = fx_div(
                                intensity,
                                fx_mul(
                                    fx_mul(Fx { bits: 262144 }, Fx { bits: PI_BITS }),
                                    distance_squared,
                                ),
                            );
                            let light_power = fx_mul(
                                fx_max(vdot(surface_normal, dir_to_light), Fx { bits: 0 }),
                                light_intensity,
                            );
                            cdiv(
                                cscale(cmul(albedo, color), light_power),
                                Fx { bits: PI_BITS },
                            )
                        },
                    }
                },
            };
            proof {
                assert(term == light_term_v(
                    *self,
                    scene,
                    albedo,
                    surface_position,
                    surface_normal,
                    scene.lights_seq()[i as int],
                ));
            }
            result = cadd(result, term);
            i = i + 1;
        }
        result
    }

    /// Traces a ray at the given recursion depth and returns its color.
    pub fn cast_ray<S: Scene>(&self, scene: &S, ray: Ray, depth: u32) -> (r: LinearRgb)
        ensures
            r == trace_v(*self, scene, ray, depth),
        decreases self.max_recursion_depth - depth,
    {
        if depth >= self.max_recursion_depth {
            return self.camera.background;
        }
        let surface: RayHit = match scene.cast_ray(ray, Fx { bits: i64::MAX }) {
            Some(surface) => surface,
            None => {
                return self.camera.background;
            },
        };
        match surface.material {
            Material::Diffuse { albedo } => self.shade_diffuse(
                scene,
                albedo,
                surface.position,
                surface.normal,
            ),
            Material::Reflective { albedo, reflectivity } => {
                let local = self.shade_diffuse(scene, albedo, surface.position, surface.normal);
                let reflected = self.cast_ray(
                    scene,
                    self.reflect_ray(ray.direction, surface.position, surface.normal),
                    depth + 1,
                );
                local.mix(&reflected, reflectivity)
            },
            Material::Refractive { albedo, index, transparency } => {
                let kr = fresnel(ray.direction, surface.normal, index);
                let reflected = self.cast_ray(
                    scene,
                    self.reflect_ray(ray.direction, surface.position, surface.normal),
                    depth + 1,
                );
                if kr.bits < FX_SCALE {
                    match self.transmission_ray(ray.direction, surface.position, surface.normal, index) {
                        Some(tray) => {
                            let refracted = self.cast_ray(scene, tray, depth + 1);
                            cscale(cmul(albedo, refracted), transparency).mix(&reflected, kr)
                        },
                        None => reflected,
                    }
                } else {
                    cscale(cmul(albedo, LinearRgb::black()), transparency).mix(&reflected, kr)
                }
            },
        }
    }
}

/// A diffuse surface lit by one ambient light receives exactly
/// `albedo * color * intensity`; no shadow test applies.
pub proof fn lemma_single_ambient_light<S: Scene>(
    ren: Renderer,
    scene: &S,
    albedo: LinearRgb,
    position: Vec3x,
    normal: Vec3x,
    color: LinearRgb,
    intensity: Fx,
)
    requires
        scene.lights_seq() == seq![Light::Ambient { color, intensity }],
    ensures
        shade_full_v(ren, scene, albedo, position, normal) == cscale_v(
            cmul_v(albedo, color),
            intensity,
        ),
{
    assert(scene.lights_seq().len() == 1);
    let term = light_term_v(ren, scene, albedo, position, normal, scene.lights_seq()[0]);
    assert(shade_full_v(ren, scene, albedo, position, normal) == cadd_v(
        shade_v(ren, scene, albedo, position, normal, 0),
        term,
    ));
    assert(cadd_v(
        LinearRgb { red: Fx { bits: 0 }, green: Fx { bits: 0 }, blue: Fx { bits: 0 } },
        term,
    ) == term);
}

/// A diffuse surface lit by one directional light whose shadow ray is
/// blocked receives nothing from it.
pub proof fn lemma_single_directional_shadowed<S: Scene>(
    ren: Renderer,
    scene: &S,
    albedo: LinearRgb,
    position: Vec3x,
    normal: Vec3x,
    direction: Vec3x,
    color: LinearRgb,
    intensity: Fx,
)
    requires
        scene.lights_seq() == seq![Light::Directional { direction, color, intensity }],
        scene.hit_of(
            shadow_ray_v(ren, position, normal, vneg_v(direction)),
            Fx { bits: i64::MAX },
        ) is Some,
    ensures
        shade_full_v(ren, scene, albedo, position, normal) == (LinearRgb {
            red: Fx { bits: 0 },
            green: Fx { bits: 0 },
            blue: Fx { bits: 0 },
        }),
{
    assert(scene.lights_seq().len() == 1);
    let term = light_term_v(ren, scene, albedo, position, normal, scene.lights_seq()[0]);
    assert(term == (LinearRgb {
        red: Fx { bits: 0 },
        green: Fx { bits: 0 },
        blue: Fx { bits: 0 },
    }));
    assert(shade_full_v(ren, scene, albedo, position, normal) == cadd_v(
        shade_v(ren, scene, albedo, position, normal, 0),
        term,
    ));
}

/// A reflective surface with reflectivity zero traces to exactly the
/// diffuse shade of the same hit, as if its material were
/// `Diffuse { albedo }`.
pub proof fn lemma_reflective_zero_is_diffuse<S: Scene>(
    ren: Renderer,
    scene: &S,
    ray: Ray,
    depth: u32,
    hit: RayHit,
    albedo: LinearRgb,
)
    requires
        depth < ren.max_recursion_depth,
        scene.hit_of(ray, Fx { bits: i64::MAX }) == Some(hit),
        hit.material == (Material::Reflective { albedo, reflectivity: Fx { bits: 0 } }),
    ensures
        trace_v(ren, scene, ray, depth) == shade_full_v(
            ren,
            scene,
            albedo,
            hit.position,
            hit.normal,
        ),
{
    let local = shade_full_v(ren, scene, albedo, hit.position, hit.normal);
    let reflected = trace_v(
        ren,
        scene,
        reflect_ray_v(ren, ray.direction, hit.position, hit.normal),
        (depth + 1) as u32,
    );
    lemma_mix_left_endpoint(local, reflected);
}

/// A reflective surface with reflectivity one ignores its local
/// diffuse term entirely: the trace is exactly the reflected trace.
pub proof fn lemma_reflective_one_ignores_local<S: Scene>(
    ren: Renderer,
    scene: &S,
    ray: Ray,
    depth: u32,
    hit: RayHit,
    albedo: LinearRgb,
)
    requires
        depth < ren.max_recursion_depth,
        scene.hit_of(ray, Fx { bits: i64::MAX }) == Some(hit),
        hit.material == (Material::Reflective { albedo, reflectivity: Fx { bits: FX_SCALE } }),
    ensures
        trace_v(ren, scene, ray, depth) == trace_v(
            ren,
            scene,
            reflect_ray_v(ren, ray.direction, hit.position, hit.normal),
            (depth + 1) as u32,
        ),
{
    let local = shade_full_v(ren, scene, albedo, hit.position, hit.normal);
    let reflected = trace_v(
        ren,
        scene,
        reflect_ray_v(ren, ray.direction, hit.position, hit.normal),
        (depth + 1) as u32,
    );
    lemma_mix_right_endpoint(local, reflected);
}

/// Once the recursion depth reaches the ceiling, a trace returns the
/// background color at once.
pub proof fn lemma_trace_depth_exhausted<S: Scene>(ren: Renderer, scene: &S, ray: Ray, depth: u32)
    requires
        depth >= ren.max_recursion_depth,
    ensures
        trace_v(ren, scene, ray, depth) == ren.camera.background,
{
}

/// In a hall of mirrors — every ray meets a fully reflective surface —
/// the trace walks the reflection chain until the depth ceiling and
/// returns the background color, never looping on.
pub proof fn lemma_mirror_scene_background<S: Scene>(ren: Renderer, scene: &S, ray: Ray, depth: u32)
    requires
        forall|r: Ray| #[trigger] scene.hit_of(r, Fx { bits: i64::MAX }) matches Some(h)
            ==> h.material matches Material::Reflective { albedo, reflectivity }
            && reflectivity == (Fx { bits: FX_SCALE }),
    ensures
        trace_v(ren, scene, ray, depth) == ren.camera.background,
    decreases ren.max_recursion_depth - depth,
{
    if depth >= ren.max_recursion_depth {
    } else {
        match scene.hit_of(ray, Fx { bits: i64::MAX }) {
            None => {},
            Some(hit) => {
                match hit.material {
                    Material::Reflective { albedo, reflectivity } => {
                        let next = reflect_ray_v(ren, ray.direction, hit.position, hit.normal);
                        lemma_mirror_scene_background(ren, scene, next, (depth + 1) as u32);
                        lemma_reflective_one_ignores_local(ren, scene, ray, depth, hit, albedo);
                    },
                    _ => {
                        assert(false);
                    },
                }
            },
        }
    }
}

} // verus!
