//! The geometric primitives and the scene that owns them.
//!
//! A parallelogram stores normalized edge directions with separate lengths
//! and a derived unit normal; a cube is a factory for six parallelograms; a
//! scene is an unordered collection of primitives behind one closest-hit
//! query (in `render`).

use vstd::prelude::*;
use crate::fx::{spec_fx_div, spec_fx_neg, FX_ONE};
use crate::material::{MatV, Material};
use crate::render::{Intersection, InterV, Primitive, Ray, RayV};
use crate::vector::{
    sv_add, sv_cross, sv_dot, sv_minus, sv_neg, sv_norm, sv_normalized, sv_ok, sv_scale, Vec3, V3,
};

verus! {

/// Ghost mirror of `Parallelogram`.
pub struct PgramV {
    pub pos: V3,
    pub v1: V3,
    pub v2: V3,
    pub l1: int,
    pub l2: int,
    pub normal: V3,
    pub mat: MatV,
}

/// Ghost mirror of `Sphere`.
pub struct SphereV {
    pub centre: V3,
    pub radius: int,
    pub mat: MatV,
}

/// Ghost mirror of `Plane`.
pub struct PlaneV {
    pub normal: V3,
    pub pos: V3,
    pub mat: MatV,
}

#[derive(Clone, Copy, Debug)]
pub struct Parallelogram {
    /// A corner of the parallelogram.
    pub pos: Vec3,
    /// One side, adjacent to the corner (stored normalized).
    v1: Vec3,
    /// The other side (stored normalized).
    v2: Vec3,
    /// Length of the first side.
    l1: i64,
    /// Length of the second side.
    l2: i64,
    /// Unit normal, the cross of the two side directions.
    normal: Vec3,
    pub mat: Material,
}

impl View for Parallelogram {
    type V = PgramV;

    closed spec fn view(&self) -> PgramV {
        PgramV {
            pos: self.pos@,
            v1: self.v1@,
            v2: self.v2@,
            l1: self.l1 as int,
            l2: self.l2 as int,
            normal: self.normal@,
            mat: self.mat@,
        }
    }
}

/// The stored edges and normal really are outputs of normalization: bounded
/// scalars with non-negative side lengths.
pub open spec fn pgram_wf(p: PgramV) -> bool {
    sv_ok(p.v1) && sv_ok(p.v2) && sv_ok(p.normal) && p.l1 >= 0 && p.l2 >= 0
}

impl Parallelogram {
    pub fn new(pos: Vec3, v1: Vec3, v2: Vec3, mat: Material) -> (r: Parallelogram)
        ensures
            r@ == spec_pgram_new(pos@, v1@, v2@, mat@),
            pgram_wf(r@),
    {
        Parallelogram {
            pos,
            v1: v1.normalized(),
            v2: v2.normalized(),
            l1: v1.norm(),
            l2: v2.norm(),
            normal: v1.cross(&v2).normalized(),
            mat,
        }
    }
}

#[derive(Clone, Copy, Debug)]
pub struct Sphere {
    pub centre: Vec3,
    pub radius: i64,
    pub mat: Material,
}

impl View for Sphere {
    type V = SphereV;

    open spec fn view(&self) -> SphereV {
        SphereV { centre: self.centre@, radius: self.radius as int, mat: self.mat@ }
    }
}

#[derive(Clone, Copy, Debug)]
pub struct Plane {
    pub normal: Vec3,
    pub pos: Vec3,
    pub mat: Material,
}

impl View for Plane {
    type V = PlaneV;

    open spec fn view(&self) -> PlaneV {
        PlaneV { normal: self.normal@, pos: self.pos@, mat: self.mat@ }
    }
}

/// What `Parallelogram::new` stores: normalized edges, their lengths, and
/// the derived unit normal.
pub open spec fn spec_pgram_new(pos: V3, v1: V3, v2: V3, mat: MatV) -> PgramV {
    PgramV {
        pos: pos,
        v1: sv_normalized(v1),
        v2: sv_normalized(v2),
        l1: sv_norm(v1),
        l2: sv_norm(v2),
        normal: sv_normalized(sv_cross(v1, v2)),
        mat: mat,
    }
}

/// The six faces of an axis-aligned cube with the given corner and edge
/// length, outward normals.
pub open spec fn spec_cube(pos: V3, size: int, mat: MatV) -> Seq<PgramV> {
    let sx = V3 { x: size, y: 0, z: 0 };
    let sy = V3 { x: 0, y: size, z: 0 };
    let sz = V3 { x: 0, y: 0, z: size };
    let mx = sv_scale(sx, -(FX_ONE as int));
    let my = sv_scale(sy, -(FX_ONE as int));
    let mz = sv_scale(sz, -(FX_ONE as int));
    let opp = sv_add(pos, V3 { x: size, y: size, z: size });
    seq![
        spec_pgram_new(pos, sz, sx, mat),
        spec_pgram_new(pos, sx, sy, mat),
        spec_pgram_new(pos, sy, sz, mat),
        spec_pgram_new(opp, mx, mz, mat),
        spec_pgram_new(opp, my, mx, mat),
        spec_pgram_new(opp, mz, my, mat),
    ]
}

/// What the parallelogram intersection returns: the planar solve of the
/// containing plane, bounded by projection onto the two edge directions, the
/// normal flipped to oppose the incoming ray.
#[verifier::opaque]
pub open spec fn spec_pgram_intersect(p: PgramV, r: RayV) -> InterV {
    let mu = spec_fx_div(
        spec_fx_neg(sv_dot(sv_minus(r.origin, p.pos), p.normal)),
        sv_dot(r.dir, p.normal),
    );
    let pos = sv_add(r.origin, sv_scale(r.dir, mu));
    let hpp = sv_minus(pos, p.pos);
    let proj_1 = sv_dot(hpp, p.v1);
    let proj_2 = sv_dot(hpp, p.v2);
    if 0 <= proj_1 <= p.l1 && 0 <= proj_2 <= p.l2 && mu > 0 {
        let n = if sv_dot(p.normal, r.dir) > 0 {
            sv_neg(p.normal)
        } else {
            p.normal
        };
        InterV { hit: true, dist: mu, pos: pos, normal: n, mat: p.mat }
    } else {
        crate::render::spec_miss()
    }
}

impl Parallelogram {
    pub fn intersect(&self, ray: &Ray) -> (r: Intersection)
        ensures
            r@ == spec_pgram_intersect(self@, ray@),
            pgram_wf(self@) && r.hit ==> sv_dot(r@.normal, ray@.dir) <= 0,
    {
        proof {
            reveal(spec_pgram_intersect);
        }
        let mu = crate::fx::fx_div(
            crate::fx::fx_neg(ray.origin.minus(&self.pos).dot(&self.normal)),
            ray.dir.dot(&self.normal),
        );
        let pos = ray.origin.add(&ray.dir.scale(mu));
        let hit_plane_pos = pos.minus(&self.pos);
        let proj_1 = hit_plane_pos.dot(&self.v1);
        let proj_2 = hit_plane_pos.dot(&self.v2);
        let hit = 0 <= proj_1 && proj_1 <= self.l1 && 0 <= proj_2 && proj_2 <= self.l2 && mu > 0;
        if hit {
            let inside = self.normal.dot(&ray.dir) > 0;
            let n = if inside {
                self.normal.scale(-FX_ONE)
            } else {
                self.normal
            };
            proof {
                if pgram_wf(self@) && inside {
                    crate::vector::lemma_sv_dot_neg_left(self.normal@, ray.dir@);
                }
            }
            Intersection { hit: true, dist: mu, pos, normal: n, mat: self.mat }
        } else {
            Intersection::default()
        }
    }
}

/// Build the six faces of a cube from a corner and an edge length.
pub fn cube(pos: Vec3, size: i64, mat: Material) -> (r: [Parallelogram; 6])
    ensures
        forall|k: int|
            0 <= k < 6 ==> #[trigger] r[k]@ == spec_cube(pos@, size as int, mat@)[k] && pgram_wf(
                r[k]@,
            ),
{
    let x_edge = Vec3 { x: size, y: 0, z: 0 };
    let y_edge = Vec3 { x: 0, y: size, z: 0 };
    let z_edge = Vec3 { x: 0, y: 0, z: size };
    let mx = x_edge.scale(-FX_ONE);
    let my = y_edge.scale(-FX_ONE);
    let mz = z_edge.scale(-FX_ONE);
    let opp_pos = pos.add(&Vec3 { x: size, y: size, z: size });
    [
        Parallelogram::new(pos, z_edge, x_edge, mat),  // bottom
        Parallelogram::new(pos, x_edge, y_edge, mat),  // near
        Parallelogram::new(pos, y_edge, z_edge, mat),  // left
        Parallelogram::new(opp_pos, mx, mz, mat),  // top
        Parallelogram::new(opp_pos, my, mx, mat),  // far
        Parallelogram::new(opp_pos, mz, my, mat),  // right
    ]
}

/// An unordered collection of primitives; its one query, the closest hit,
/// lives in `render`.
pub struct Scene {
    pub objects: Vec<Primitive>,
}

impl View for Scene {
    type V = Seq<crate::render::PrimV>;

    open spec fn view(&self) -> Seq<crate::render::PrimV> {
        self.objects@.map_values(|p: Primitive| p@)
    }
}

} // verus!
