//! The optical description of a surface: immutable after construction and
//! shared by value across primitives.

use vstd::prelude::*;
use crate::fx::FX_ONE;
use crate::vector::{sv_nonneg, sv_unit_range, Vec3, V3};

verus! {

/// The refractive index of air: the sentinel medium every ray starts in.
pub const N_AIR: i64 = 65536;

/// Ghost mirror of `Material`.
pub struct MatV {
    pub albedo: V3,
    pub specular: V3,
    pub specularity: int,
    pub emissive: V3,
    pub roughness: int,
    pub fresnel_0: int,
    pub transparency: int,
    pub n: int,
}

#[derive(Clone, Copy, PartialEq, Eq, Structural, Debug)]
pub struct Material {
    /// Diffuse reflectance per channel, in [0, 1].
    pub albedo: Vec3,
    /// Tint applied on specular bounces, in [0, 1] per channel.
    pub specular: Vec3,
    /// Probability of a mirror bounce, in [0, 1].
    pub specularity: i64,
    /// Radiance contributed whenever a ray hits this surface.
    pub emissive: Vec3,
    /// Blend between mirror reflection and a cosine-weighted bounce, [0, 1].
    pub roughness: i64,
    /// Base reflectance at normal incidence for the Schlick approximation.
    pub fresnel_0: i64,
    /// Fraction of albedo kept on transmission, in [0, 1].
    pub transparency: i64,
    /// Refractive index; zero marks a material that never transmits.
    pub n: i64,
}

impl View for Material {
    type V = MatV;

    open spec fn view(&self) -> MatV {
        MatV {
            albedo: self.albedo@,
            specular: self.specular@,
            specularity: self.specularity as int,
            emissive: self.emissive@,
            roughness: self.roughness as int,
            fresnel_0: self.fresnel_0 as int,
            transparency: self.transparency as int,
            n: self.n as int,
        }
    }
}

/// A physically sensible material: reflectances and probabilities in [0, 1],
/// emission and refractive index non-negative.
pub open spec fn smat_wf(m: MatV) -> bool {
    sv_unit_range(m.albedo) && sv_unit_range(m.specular) && 0 <= m.specularity <= FX_ONE as int
        && sv_nonneg(m.emissive) && 0 <= m.roughness <= FX_ONE as int && 0 <= m.fresnel_0
        <= FX_ONE as int && 0 <= m.transparency <= FX_ONE as int && m.n >= 0
}

/// The material the no-hit sentinel intersection carries.
pub open spec fn spec_default_material() -> MatV {
    MatV {
        albedo: V3 { x: 0, y: 0, z: 0 },
        specular: V3 { x: 0, y: 0, z: 0 },
        specularity: 0,
        emissive: V3 { x: 0, y: 0, z: 0 },
        roughness: 13107,
        fresnel_0: 45875,
        transparency: 0,
        n: 85197,
    }
}

impl Material {
    /// The dark, slightly rough fallback material.
    pub fn default() -> (r: Material)
        ensures
            r@ == spec_default_material(),
            smat_wf(r@),
    {
        Material {
            albedo: Vec3 { x: 0, y: 0, z: 0 },
            specular: Vec3 { x: 0, y: 0, z: 0 },
            specularity: 0,
            emissive: Vec3 { x: 0, y: 0, z: 0 },
            roughness: 13107,
            fresnel_0: 45875,
            transparency: 0,
            n: 85197,
        }
    }
}

} // verus!
