//! The rendering engine: rays, intersections, the closest-hit query over a
//! scene, the shading model (reflection, refraction, Fresnel-weighted branch
//! selection) and the per-pixel Monte-Carlo integrator.

use vstd::prelude::*;
use crate::fx::{
    fx_add, fx_clamp01, fx_div, fx_mul, fx_neg, fx_ok, fx_sqrt, fx_sub, spec_clamp01, spec_fx_add,
    spec_fx_div, spec_fx_mul, spec_fx_neg, spec_fx_sqrt, spec_fx_sub, FX_ONE,
};
use crate::material::{smat_wf, spec_default_material, MatV, Material, N_AIR};
use crate::rng::{spec_rng_next, spec_unit_from, Rng};
use crate::scene::{
    pgram_wf, spec_pgram_intersect, Parallelogram, PgramV, Plane, PlaneV, Scene, Sphere, SphereV,
};
use crate::vector::{
    lemma_sv_dot_neg_left, sm_apply, sv_add, sv_dot, sv_minus, sv_mult, sv_neg, sv_nonneg,
    sv_norm, sv_normalized, sv_ok, sv_scale, sv_zero, Mat4, Vec3, Vec4, V3, V4,
};

verus! {

/// Everything a render needs besides the pixel coordinates.
pub struct Context {
    pub scene: Scene,
    pub width: u32,
    pub height: u32,
    pub camera: Camera,
}

#[derive(Clone, Copy, Debug)]
pub struct Camera {
    /// Larger focal lengths narrow the field of view.
    pub focal_length: i64,
    pub pos: Vec3,
    /// Orientation from the look-at construction: orthonormal up to
    /// fixed-point rounding.
    pub rot: Mat4,
}

impl Camera {
    pub fn new(pos: Vec3, target: Vec3, focal_length: i64) -> (r: Camera)
        ensures
            r.pos == pos,
            r.focal_length == focal_length,
            ({
                let cols = crate::vector::sm_look_cols(sv_normalized(sv_minus(target@, pos@)));
                r.rot.elems[0][0] as int == cols.0.x && r.rot.elems[1][0] as int == cols.0.y
                    && r.rot.elems[2][0] as int == cols.0.z && r.rot.elems[0][1] as int == cols.1.x
                    && r.rot.elems[1][1] as int == cols.1.y && r.rot.elems[2][1] as int == cols.1.z
                    && r.rot.elems[0][2] as int == cols.2.x && r.rot.elems[1][2] as int == cols.2.y
                    && r.rot.elems[2][2] as int == cols.2.z && r.rot.elems[0][3] == 0
                    && r.rot.elems[1][3] == 0 && r.rot.elems[2][3] == 0 && r.rot.elems[3][0] == 0
                    && r.rot.elems[3][1] == 0 && r.rot.elems[3][2] == 0 && r.rot.elems[3][3]
                    == FX_ONE
            }),
    {
        Camera { focal_length, rot: Mat4::look_at(&target.minus(&pos).normalized()), pos }
    }
}

/// Ghost mirror of `Ray`.
pub struct RayV {
    pub origin: V3,
    pub dir: V3,
    pub color: V3,
    pub emitted: V3,
    pub n: int,
}

/// A transient per-sample ray: direction expected normalized, multiplicative
/// throughput, additive gathered radiance, and the refractive index of the
/// medium it travels in.
#[derive(Clone, Copy, Debug)]
pub struct Ray {
    pub origin: Vec3,
    pub dir: Vec3,
    pub color: Vec3,
    pub emitted: Vec3,
    pub n: i64,
}

impl View for Ray {
    type V = RayV;

    open spec fn view(&self) -> RayV {
        RayV {
            origin: self.origin@,
            dir: self.dir@,
            color: self.color@,
            emitted: self.emitted@,
            n: self.n as int,
        }
    }
}

/// Ghost mirror of `Intersection`.
pub struct InterV {
    pub hit: bool,
    pub dist: int,
    pub pos: V3,
    pub normal: V3,
    pub mat: MatV,
}

/// A hit record; when `hit` is false the other fields are the sentinel
/// values of `spec_miss` and must not be trusted.
#[derive(Clone, Copy, Debug)]
pub struct Intersection {
    pub hit: bool,
    pub dist: i64,
    pub pos: Vec3,
    pub normal: Vec3,
    pub mat: Material,
}

impl View for Intersection {
    type V = InterV;

    open spec fn view(&self) -> InterV {
        InterV {
            hit: self.hit,
            dist: self.dist as int,
            pos: self.pos@,
            normal: self.normal@,
            mat: self.mat@,
        }
    }
}

/// The no-hit sentinel: distance zero, zero vectors, the default material.
pub open spec fn spec_miss() -> InterV {
    InterV {
        hit: false,
        dist: 0,
        pos: sv_zero(),
        normal: sv_zero(),
        mat: spec_default_material(),
    }
}

impl Default for Intersection {
    fn default() -> (r: Intersection)
        ensures
            r@ == spec_miss(),
    {
        Intersection {
            hit: false,
            dist: 0,
            pos: Vec3 { x: 0, y: 0, z: 0 },
            normal: Vec3 { x: 0, y: 0, z: 0 },
            mat: Material::default(),
        }
    }
}

/// Ghost mirror of `Primitive`.
pub enum PrimV {
    Sphere(SphereV),
    Plane(PlaneV),
    Parallelogram(PgramV),
}

/// The closed set of shapes a scene may hold, behind one intersection
/// capability.
#[derive(Clone, Copy, Debug)]
pub enum Primitive {
    Sphere(Sphere),
    Plane(Plane),
    Parallelogram(Parallelogram),
}

impl View for Primitive {
    type V = PrimV;

    open spec fn view(&self) -> PrimV {
        match *self {
            Primitive::Sphere(s) => PrimV::Sphere(s@),
            Primitive::Plane(p) => PrimV::Plane(p@),
            Primitive::Parallelogram(p) => PrimV::Parallelogram(p@),
        }
    }
}

/// What the sphere intersection returns: the quadratic solve, preferring the
/// smaller positive root, the normal flipped to oppose the incoming ray.
#[verifier::opaque]
pub open spec fn spec_sphere_intersect(s: SphereV, r: RayV) -> InterV {
    let dp = sv_minus(r.origin, s.centre);
    let dir_dot_dp = sv_dot(r.dir, dp);
    let discr = spec_fx_add(
        spec_fx_sub(
            spec_fx_mul(dir_dot_dp, dir_dot_dp),
            spec_fx_mul(sv_norm(dp), sv_norm(dp)),
        ),
        spec_fx_mul(s.radius, s.radius),
    );
    if discr >= 0 {
        let sq = spec_fx_sqrt(discr);
        let near = spec_fx_sub(spec_fx_neg(dir_dot_dp), sq);
        let dist = if near < 0 {
            spec_fx_add(spec_fx_neg(dir_dot_dp), sq)
        } else {
            near
        };
        if dist > 0 {
            let pos = sv_add(r.origin, sv_scale(r.dir, dist));
            let n0 = sv_normalized(sv_minus(pos, s.centre));
            let n = if sv_dot(n0, r.dir) > 0 {
                sv_neg(n0)
            } else {
                n0
            };
            InterV { hit: true, dist: dist, pos: pos, normal: n, mat: s.mat }
        } else {
            spec_miss()
        }
    } else {
        spec_miss()
    }
}

/// What the plane intersection returns: the planar solve, hit iff the
/// distance is positive; the stored normal is returned as is.
#[verifier::opaque]
pub open spec fn spec_plane_intersect(p: PlaneV, r: RayV) -> InterV {
    let mu = spec_fx_div(
        spec_fx_neg(sv_dot(sv_minus(r.origin, p.pos), p.normal)),
        sv_dot(r.dir, p.normal),
    );
    InterV {
        hit: mu > 0,
        dist: mu,
        pos: sv_add(r.origin, sv_scale(r.dir, mu)),
        normal: p.normal,
        mat: p.mat,
    }
}

impl Sphere {
    pub fn intersect(&self, ray: &Ray) -> (r: Intersection)
        ensures
            r@ == spec_sphere_intersect(self@, ray@),
            r.hit ==> sv_dot(r@.normal, ray@.dir) <= 0,
            r.hit ==> sv_ok(r@.normal),
    {
        proof {
            reveal(spec_sphere_intersect);
        }
        let dp = ray.origin.minus(&self.centre);
        let dir_dot_dp = ray.dir.dot(&dp);
        let dp_norm = dp.norm();
        let discr = fx_add(
            fx_sub(fx_mul(dir_dot_dp, dir_dot_dp), fx_mul(dp_norm, dp_norm)),
            fx_mul(self.radius, self.radius),
        );
        if discr >= 0 {
            let sq = fx_sqrt(discr);
            let near = fx_sub(fx_neg(dir_dot_dp), sq);
            let dist = if near < 0 {
                fx_add(fx_neg(dir_dot_dp), sq)
            } else {
                near
            };
            if dist > 0 {
                let pos = ray.origin.add(&ray.dir.scale(dist));
                let normal = pos.minus(&self.centre).normalized();
                let oriented = if normal.dot(&ray.dir) > 0 {
                    proof {
                        lemma_sv_dot_neg_left(normal@, ray.dir@);
                    }
                    normal.scale(-FX_ONE)
                } else {
                    normal
                };
                return Intersection { hit: true, dist, pos, normal: oriented, mat: self.mat };
            }
        }
        Intersection::default()
    }
}

impl Plane {
    pub fn intersect(&self, ray: &Ray) -> (r: Intersection)
        ensures
            r@ == spec_plane_intersect(self@, ray@),
    {
        proof {
            reveal(spec_plane_intersect);
        }
        let mu = fx_div(
            fx_neg(ray.origin.minus(&self.pos).dot(&self.normal)),
            ray.dir.dot(&self.normal),
        );
        Intersection {
            hit: mu > 0,
            dist: mu,
            pos: ray.origin.add(&ray.dir.scale(mu)),
            normal: self.normal,
            mat: self.mat,
        }
    }
}

/// Dispatch over the closed set of shapes.
pub open spec fn spec_prim_intersect(p: PrimV, r: RayV) -> InterV {
    match p {
        PrimV::Sphere(s) => spec_sphere_intersect(s, r),
        PrimV::Plane(pl) => spec_plane_intersect(pl, r),
        PrimV::Parallelogram(pg) => spec_pgram_intersect(pg, r),
    }
}

/// The material a primitive is bound to.
pub open spec fn prim_mat(p: PrimV) -> MatV {
    match p {
        PrimV::Sphere(s) => s.mat,
        PrimV::Plane(pl) => pl.mat,
        PrimV::Parallelogram(pg) => pg.mat,
    }
}

impl Primitive {
    pub fn intersect(&self, ray: &Ray) -> (r: Intersection)
        ensures
            r@ == spec_prim_intersect(self@, ray@),
            r.hit && self@ is Sphere ==> sv_dot(r@.normal, ray@.dir) <= 0,
            r.hit && (self@ matches PrimV::Parallelogram(pg) && pgram_wf(pg)) ==> sv_dot(
                r@.normal,
                ray@.dir,
            ) <= 0,
    {
        match self {
            Primitive::Sphere(s) => s.intersect(ray),
            Primitive::Plane(p) => p.intersect(ray),
            Primitive::Parallelogram(p) => p.intersect(ray),
        }
    }
}

/// The closest hit over a prefix of the scene's primitives, first-encountered
/// primitive winning exact distance ties (strict less-than update).
pub open spec fn spec_scene_hit_upto(objs: Seq<PrimV>, r: RayV, n: nat) -> InterV
    decreases n,
{
    if n == 0 {
        spec_miss()
    } else {
        let prev = spec_scene_hit_upto(objs, r, (n - 1) as nat);
        let cur = spec_prim_intersect(objs[n - 1], r);
        if cur.hit && (cur.dist < prev.dist || !prev.hit) {
            cur
        } else {
            prev
        }
    }
}

/// The closest hit over the whole scene.
pub open spec fn spec_scene_hit(objs: Seq<PrimV>, r: RayV) -> InterV {
    spec_scene_hit_upto(objs, r, objs.len())
}

/// Resolve the nearest hit across every primitive of the scene: a linear
/// scan keeping the minimum positive-distance hit.
pub fn intersect(ray: &Ray, scene: &Scene) -> (r: Intersection)
    ensures
        r@ == spec_scene_hit(scene@, ray@),
{
    let mut inter = Intersection::default();
    let mut idx: usize = 0;
    while idx < scene.objects.len()
        invariant
            idx <= scene.objects.len(),
            inter@ == spec_scene_hit_upto(scene@, ray@, idx as nat),
        decreases scene.objects.len() - idx,
    {
        let s_inter = scene.objects[idx].intersect(ray);
        if s_inter.hit && (s_inter.dist < inter.dist || !inter.hit) {
            inter = s_inter;
        }
        idx = idx + 1;
    }
    inter
}

/// The perfect mirror reflection of `dir` about `normal`.
#[verifier::opaque]
pub open spec fn spec_mirror_reflect(dir: V3, normal: V3) -> V3 {
    sv_normalized(
        sv_minus(dir, sv_scale(normal, spec_fx_mul(2 * FX_ONE as int, sv_dot(normal, dir)))),
    )
}

/// A reflected bounce: the mirror direction blended with a fresh
/// cosine-weighted hemisphere sample, weighted by roughness, renormalized.
#[verifier::opaque]
pub open spec fn spec_reflect(dir: V3, normal: V3, roughness: int, s: int) -> (V3, int) {
    let reflected = spec_mirror_reflect(dir, normal);
    let (random_dir, s1) = crate::vector::spec_cosine_hemi(normal, s);
    (
        sv_normalized(
            sv_add(
                sv_scale(reflected, spec_fx_sub(FX_ONE as int, roughness)),
                sv_scale(random_dir, roughness),
            ),
        ),
        s1,
    )
}

/// A refracted direction for media indices `n1 -> n2`; when the radicand
/// turns negative (total internal reflection) the bounce falls back to the
/// perfect mirror reflection.
#[verifier::opaque]
pub open spec fn spec_refract(dir: V3, normal: V3, n1: int, n2: int) -> V3 {
    let nrm = sv_neg(normal);
    let nd = sv_dot(nrm, dir);
    let ratio = spec_fx_div(n2, n1);
    let radicand = spec_fx_sub(
        spec_fx_add(spec_fx_mul(nd, nd), spec_fx_mul(ratio, ratio)),
        FX_ONE as int,
    );
    if radicand < 0 {
        spec_mirror_reflect(dir, normal)
    } else {
        let sqr_root = spec_fx_sqrt(radicand);
        sv_normalized(
            sv_scale(
                sv_add(sv_scale(nrm, spec_fx_sub(sqr_root, nd)), dir),
                spec_fx_div(n1, n2),
            ),
        )
    }
}

/// The fifth power, by squaring.
pub open spec fn spec_pow5(x: int) -> int {
    let x2 = spec_fx_mul(x, x);
    let x4 = spec_fx_mul(x2, x2);
    spec_fx_mul(x4, x)
}

/// Schlick's approximation of the Fresnel reflectance, clamped into [0, 1]
/// (with exact unit vectors it already lies there; fixed-point rounding can
/// push the cosine out of range).
#[verifier::opaque]
pub open spec fn spec_schlick(fresnel_0: int, cos_theta: int) -> int {
    spec_clamp01(
        spec_fx_add(
            fresnel_0,
            spec_fx_mul(
                spec_fx_sub(FX_ONE as int, fresnel_0),
                spec_pow5(spec_fx_sub(FX_ONE as int, cos_theta)),
            ),
        ),
    )
}

fn mirror_reflect(dir: &Vec3, normal: &Vec3) -> (r: Vec3)
    ensures
        r@ == spec_mirror_reflect(dir@, normal@),
        sv_ok(r@),
{
    proof {
        reveal(spec_mirror_reflect);
    }
    dir.minus(&normal.scale(fx_mul(2 * FX_ONE, normal.dot(dir)))).normalized()
}

fn reflect(dir: &Vec3, normal: &Vec3, roughness: i64, rng: &mut Rng) -> (r: Vec3)
    ensures
        sv_ok(r@),
        *old(rng) matches Rng::Seeded { state: s0 } ==> (r@ == spec_reflect(
            dir@,
            normal@,
            roughness as int,
            s0 as int,
        ).0 && *final(rng) == (Rng::Seeded {
            state: spec_reflect(dir@, normal@, roughness as int, s0 as int).1 as u64,
        })),
        *old(rng) is Entropy ==> *final(rng) is Entropy,
{
    proof {
        reveal(spec_reflect);
    }
    let reflected_dir = mirror_reflect(dir, normal);
    let random_dir = Vec3::cosine_weighted_hemisphere(normal, rng);
    reflected_dir.scale(fx_sub(FX_ONE, roughness)).add(&random_dir.scale(roughness)).normalized()
}

fn refract(dir: &Vec3, normal: &Vec3, n1: i64, n2: i64) -> (r: Vec3)
    ensures
        r@ == spec_refract(dir@, normal@, n1 as int, n2 as int),
        sv_ok(r@),
{
    proof {
        reveal(spec_refract);
    }
    let nrm = normal.scale(-FX_ONE);
    let nd = nrm.dot(dir);
    let ratio = fx_div(n2, n1);
    let radicand = fx_sub(fx_add(fx_mul(nd, nd), fx_mul(ratio, ratio)), FX_ONE);
    if radicand < 0 {
        mirror_reflect(dir, normal)
    } else {
        let sqr_root = fx_sqrt(radicand);
        nrm.scale(fx_sub(sqr_root, nd)).add(dir).scale(fx_div(n1, n2)).normalized()
    }
}

/// The closest-hit query returns a hit exactly when some primitive is hit;
/// the returned record is one of the primitives' records, and no primitive
/// is hit strictly closer.
pub proof fn lemma_scene_hit_minimal(objs: Seq<PrimV>, r: RayV, n: nat)
    requires
        n <= objs.len(),
    ensures
        spec_scene_hit_upto(objs, r, n).hit <==> exists|i: int|
            0 <= i < n && #[trigger] spec_prim_intersect(objs[i], r).hit,
        spec_scene_hit_upto(objs, r, n).hit ==> exists|i: int|
            0 <= i < n && spec_scene_hit_upto(objs, r, n) == #[trigger] spec_prim_intersect(
                objs[i],
                r,
            ),
        forall|i: int|
            0 <= i < n && #[trigger] spec_prim_intersect(objs[i], r).hit ==> spec_scene_hit_upto(
                objs,
                r,
                n,
            ).dist <= spec_prim_intersect(objs[i], r).dist,
    decreases n,
{
    if n > 0 {
        lemma_scene_hit_minimal(objs, r, (n - 1) as nat);
        let prev = spec_scene_hit_upto(objs, r, (n - 1) as nat);
        let cur = spec_prim_intersect(objs[n - 1], r);
        if cur.hit && (cur.dist < prev.dist || !prev.hit) {
            assert(spec_scene_hit_upto(objs, r, n) == cur);
        } else {
            assert(spec_scene_hit_upto(objs, r, n) == prev);
        }
    }
}

/// The closest-hit query over the whole scene: it reports a hit exactly when
/// some primitive is hit, the returned record is one of the primitives'
/// records, and no primitive is hit strictly closer — so the result does not
/// depend on the order the primitives were inserted in, except at exact
/// distance ties, where the first encountered primitive wins.
pub proof fn lemma_closest_hit(objs: Seq<PrimV>, r: RayV)
    ensures
        spec_scene_hit(objs, r).hit <==> exists|i: int|
            0 <= i < objs.len() && #[trigger] spec_prim_intersect(objs[i], r).hit,
        spec_scene_hit(objs, r).hit ==> exists|i: int|
            0 <= i < objs.len() && spec_scene_hit(objs, r) == #[trigger] spec_prim_intersect(
                objs[i],
                r,
            ),
        forall|i: int|
            0 <= i < objs.len() && #[trigger] spec_prim_intersect(objs[i], r).hit
                ==> spec_scene_hit(objs, r).dist <= spec_prim_intersect(objs[i], r).dist,
{
    lemma_scene_hit_minimal(objs, r, objs.len());
}

/// A parallelogram only bounds its containing plane: whenever it reports a
/// hit, the distance is exactly what the unbounded plane through the same
/// point with the same normal reports, and that plane reports a hit too.
pub proof fn lemma_pgram_dist_matches_plane(p: PgramV, r: RayV)
    ensures
        spec_pgram_intersect(p, r).hit ==> {
            let plane = PlaneV { normal: p.normal, pos: p.pos, mat: p.mat };
            spec_plane_intersect(plane, r).hit && spec_pgram_intersect(p, r).dist
                == spec_plane_intersect(plane, r).dist
        },
{
    reveal(spec_pgram_intersect);
    reveal(spec_plane_intersect);
}

/// Every material in the scene is physically sensible.
pub open spec fn scene_mats_wf(objs: Seq<PrimV>) -> bool {
    forall|i: int| 0 <= i < objs.len() ==> smat_wf(#[trigger] prim_mat(objs[i]))
}

/// No material in the scene emits light.
pub open spec fn scene_dark(objs: Seq<PrimV>) -> bool {
    forall|i: int| 0 <= i < objs.len() ==> #[trigger] prim_mat(objs[i]).emissive == sv_zero()
}

/// A primitive's intersection record carries either that primitive's
/// material or the no-hit sentinel's.
pub proof fn lemma_prim_hit_mat(p: PrimV, r: RayV)
    ensures
        spec_prim_intersect(p, r).mat == prim_mat(p) || spec_prim_intersect(p, r).mat
            == spec_default_material(),
{
    reveal(spec_sphere_intersect);
    reveal(spec_plane_intersect);
    reveal(crate::scene::spec_pgram_intersect);
    match p {
        PrimV::Sphere(s) => {
            assert(spec_prim_intersect(p, r) == spec_sphere_intersect(s, r));
        },
        PrimV::Plane(pl) => {
            assert(spec_prim_intersect(p, r) == spec_plane_intersect(pl, r));
        },
        PrimV::Parallelogram(pg) => {
            assert(spec_prim_intersect(p, r) == spec_pgram_intersect(pg, r));
        },
    }
}

/// The closest-hit record's material is well formed in a well-formed scene,
/// and emits nothing in a dark scene.
pub proof fn lemma_scene_hit_mat(objs: Seq<PrimV>, r: RayV, n: nat)
    requires
        n <= objs.len(),
    ensures
        scene_mats_wf(objs) ==> smat_wf(spec_scene_hit_upto(objs, r, n).mat),
        scene_dark(objs) ==> spec_scene_hit_upto(objs, r, n).mat.emissive == sv_zero(),
    decreases n,
{
    if n == 0 {
        assert(smat_wf(spec_default_material()));
    } else {
        lemma_scene_hit_mat(objs, r, (n - 1) as nat);
        lemma_prim_hit_mat(objs[n - 1], r);
    }
}

/// One surface interaction: gather the surface's emission weighted by the
/// current throughput, then branch between a mirror bounce, a refraction and
/// a diffuse bounce. The new origin is nudged 66 raw units (about a
/// thousandth) along the normal after a reflection and against it after a
/// refraction, so the next query does not immediately re-hit the same
/// surface.
#[verifier::opaque]
pub open spec fn spec_shade(it: InterV, ray: RayV, s: int) -> (RayV, int) {
    let dotp = spec_fx_neg(sv_dot(it.normal, ray.dir));
    let k = spec_schlick(it.mat.fresnel_0, dotp);
    let emitted = sv_add(ray.emitted, sv_mult(it.mat.emissive, ray.color));
    let u1 = spec_unit_from(s);
    let s1 = spec_rng_next(s);
    if u1 < it.mat.specularity {
        let (nd, s2) = spec_reflect(ray.dir, it.normal, 0, s1);
        (
            RayV {
                origin: ray.origin,
                dir: nd,
                color: sv_scale(sv_mult(ray.color, it.mat.specular), k),
                emitted: emitted,
                n: ray.n,
            },
            s2,
        )
    } else {
        let u2 = spec_unit_from(s1);
        let s2 = spec_rng_next(s1);
        if u2 < spec_fx_sub(FX_ONE as int, k) {
            let next_n: int = if ray.n == it.mat.n {
                N_AIR as int
            } else {
                it.mat.n
            };
            (
                RayV {
                    origin: sv_add(it.pos, sv_scale(it.normal, -66)),
                    dir: spec_refract(ray.dir, it.normal, ray.n, next_n),
                    color: sv_scale(sv_mult(ray.color, it.mat.albedo), it.mat.transparency),
                    emitted: emitted,
                    n: next_n,
                },
                s2,
            )
        } else {
            let (nd, s3) = spec_reflect(ray.dir, it.normal, it.mat.roughness, s2);
            (
                RayV {
                    origin: sv_add(it.pos, sv_scale(it.normal, 66)),
                    dir: nd,
                    color: sv_mult(ray.color, it.mat.albedo),
                    emitted: emitted,
                    n: ray.n,
                },
                s3,
            )
        }
    }
}

/// One light path, traced through up to `bounces` surface interactions: the
/// returned ray holds the radiance the path gathered.
pub open spec fn spec_trace(objs: Seq<PrimV>, ray: RayV, bounces: nat, s: int) -> (RayV, int)
    decreases bounces,
{
    if bounces == 0 {
        (ray, s)
    } else {
        let it = spec_scene_hit(objs, ray);
        if !it.hit {
            (ray, s)
        } else {
            let (next, s1) = spec_shade(it, ray, s);
            spec_trace(objs, next, (bounces - 1) as nat, s1)
        }
    }
}

/// Shade one hit. With a well-formed material the new throughput and
/// radiance stay non-negative whatever the random draws; a non-emissive
/// material adds nothing to the gathered radiance.
fn shade(it: &Intersection, ray: Ray, rng: &mut Rng) -> (r: Ray)
    requires
        it.hit,
    ensures
        *old(rng) matches Rng::Seeded { state: s0 } ==> (r@ == spec_shade(
            it@,
            ray@,
            s0 as int,
        ).0 && *final(rng) == (Rng::Seeded { state: spec_shade(it@, ray@, s0 as int).1 as u64 })),
        *old(rng) is Entropy ==> *final(rng) is Entropy,
        smat_wf(it@.mat) && sv_nonneg(ray.color@) && sv_nonneg(ray.emitted@) ==> sv_nonneg(
            r.emitted@,
        ) && sv_nonneg(r.color@),
        it@.mat.emissive == sv_zero() && crate::vector::sv_ok(ray.emitted@) ==> r.emitted@
            == ray.emitted@,
{
    proof {
        reveal(spec_shade);
    }
    let dotp = fx_neg(it.normal.dot(&ray.dir));
    let k = schlick(it.mat.fresnel_0, dotp);
    let emitted = ray.emitted.add(&it.mat.emissive.mult(&ray.color));
    proof {
        if smat_wf(it@.mat) && sv_nonneg(ray.color@) && sv_nonneg(ray.emitted@) {
            crate::vector::lemma_sv_mult_nonneg(it.mat.emissive@, ray.color@);
        }
        if it@.mat.emissive == sv_zero() && crate::vector::sv_ok(ray.emitted@) {
            crate::vector::lemma_sv_mult_zero_left(ray.color@);
        }
    }
    let u1 = rng.next_unit();
    if u1 < it.mat.specularity {
        let new_dir = reflect(&ray.dir, &it.normal, 0, rng);
        let color = ray.color.mult(&it.mat.specular).scale(k);
        proof {
            if smat_wf(it@.mat) && sv_nonneg(ray.color@) {
                crate::vector::lemma_sv_mult_nonneg(ray.color@, it.mat.specular@);
                crate::vector::lemma_sv_scale_nonneg(
                    sv_mult(ray.color@, it.mat.specular@),
                    k as int,
                );
            }
        }
        Ray { origin: ray.origin, dir: new_dir, color, emitted, n: ray.n }
    } else {
        let u2 = rng.next_unit();
        if u2 < fx_sub(FX_ONE, k) {
            let next_n = if ray.n == it.mat.n {
                N_AIR
            } else {
                it.mat.n
            };
            let new_dir = refract(&ray.dir, &it.normal, ray.n, next_n);
            let color = ray.color.mult(&it.mat.albedo).scale(it.mat.transparency);
            proof {
                if smat_wf(it@.mat) && sv_nonneg(ray.color@) {
                    crate::vector::lemma_sv_mult_nonneg(ray.color@, it.mat.albedo@);
                    crate::vector::lemma_sv_scale_nonneg(
                        sv_mult(ray.color@, it.mat.albedo@),
                        it.mat.transparency as int,
                    );
                }
            }
            let origin = it.pos.add(&it.normal.scale(-66));
            Ray { origin, dir: new_dir, color, emitted, n: next_n }
        } else {
            let new_dir = reflect(&ray.dir, &it.normal, it.mat.roughness, rng);
            let color = ray.color.mult(&it.mat.albedo);
            proof {
                if smat_wf(it@.mat) && sv_nonneg(ray.color@) {
                    crate::vector::lemma_sv_mult_nonneg(ray.color@, it.mat.albedo@);
                }
            }
            let origin = it.pos.add(&it.normal.scale(66));
            Ray { origin, dir: new_dir, color, emitted, n: ray.n }
        }
    }
}

/// The state left by a reflected bounce is a 64-bit value.
pub proof fn lemma_reflect_state(dir: V3, normal: V3, roughness: int, s: int)
    requires
        0 <= s < 0x1_0000_0000_0000_0000,
    ensures
        0 <= spec_reflect(dir, normal, roughness, s).1 < 0x1_0000_0000_0000_0000,
{
    reveal(spec_reflect);
    crate::vector::lemma_cosine_state(normal, s);
}

/// The state left by shading one hit is a 64-bit value.
pub proof fn lemma_shade_state(it: InterV, ray: RayV, s: int)
    requires
        0 <= s < 0x1_0000_0000_0000_0000,
    ensures
        0 <= spec_shade(it, ray, s).1 < 0x1_0000_0000_0000_0000,
{
    reveal(spec_shade);
    crate::rng::lemma_rng_next_range(s);
    let s1 = spec_rng_next(s);
    crate::rng::lemma_rng_next_range(s1);
    lemma_reflect_state(ray.dir, it.normal, 0, s1);
    lemma_reflect_state(ray.dir, it.normal, it.mat.roughness, spec_rng_next(s1));
}

/// Trace one sample path: repeatedly resolve the closest hit and shade it;
/// stop on a miss or after `bounces` interactions.
///
/// With well-formed materials the gathered radiance and throughput stay
/// non-negative whatever the random draws; in a scene with no emissive
/// material nothing is ever gathered.
pub fn trace_path(scene: &Scene, ray: Ray, bounces: u32, rng: &mut Rng) -> (r: Ray)
    ensures
        *old(rng) matches Rng::Seeded { state: s0 } ==> (r@ == spec_trace(
            scene@,
            ray@,
            bounces as nat,
            s0 as int,
        ).0 && *final(rng) == (Rng::Seeded {
            state: spec_trace(scene@, ray@, bounces as nat, s0 as int).1 as u64,
        })),
        *old(rng) is Entropy ==> *final(rng) is Entropy,
        scene_mats_wf(scene@) && sv_nonneg(ray.color@) && sv_nonneg(ray.emitted@) ==> sv_nonneg(
            r.emitted@,
        ) && sv_nonneg(r.color@),
        scene_dark(scene@) && crate::vector::sv_ok(ray.emitted@) ==> r.emitted@ == ray.emitted@,
    decreases bounces,
{
    if bounces == 0 {
        return ray;
    }
    let it = intersect(&ray, scene);
    if !it.hit {
        return ray;
    }
    proof {
        lemma_scene_hit_mat(scene@, ray@, scene@.len());
    }
    let next = shade(&it, ray, rng);
    proof {
        if *old(rng) is Seeded {
            lemma_shade_state(it@, ray@, crate::rng::spec_state(*old(rng)));
        }
    }
    trace_path(scene, next, bounces - 1, rng)
}

/// The state left by a traced path is a 64-bit value.
pub proof fn lemma_trace_state(objs: Seq<PrimV>, ray: RayV, bounces: nat, s: int)
    requires
        0 <= s < 0x1_0000_0000_0000_0000,
    ensures
        0 <= spec_trace(objs, ray, bounces, s).1 < 0x1_0000_0000_0000_0000,
    decreases bounces,
{
    if bounces > 0 {
        let it = spec_scene_hit(objs, ray);
        if it.hit {
            lemma_shade_state(it, ray, s);
            let (next, s1) = spec_shade(it, ray, s);
            lemma_trace_state(objs, next, (bounces - 1) as nat, s1);
        }
    }
}

/// The emission gathered over a number of independent sample paths from the
/// same primary ray, summed, with the generator state left behind.
pub open spec fn spec_accum(objs: Seq<PrimV>, ray0: RayV, bounces: nat, k: nat, s: int) -> (
    V3,
    int,
)
    decreases k,
{
    if k == 0 {
        (sv_zero(), s)
    } else {
        let (acc, s1) = spec_accum(objs, ray0, bounces, (k - 1) as nat, s);
        let (tr, s2) = spec_trace(objs, ray0, bounces, s1);
        (sv_add(acc, tr.emitted), s2)
    }
}

/// The state left by accumulating sample paths is a 64-bit value.
pub proof fn lemma_accum_state(objs: Seq<PrimV>, ray0: RayV, bounces: nat, k: nat, s: int)
    requires
        0 <= s < 0x1_0000_0000_0000_0000,
    ensures
        0 <= spec_accum(objs, ray0, bounces, k, s).1 < 0x1_0000_0000_0000_0000,
    decreases k,
{
    if k > 0 {
        lemma_accum_state(objs, ray0, bounces, (k - 1) as nat, s);
        lemma_trace_state(objs, ray0, bounces, spec_accum(objs, ray0, bounces, (k - 1) as nat, s).1);
    }
}

fn sample_go(scene: &Scene, ray0: Ray, bounces: u32, k: u32, rng: &mut Rng) -> (acc: Vec3)
    ensures
        *old(rng) matches Rng::Seeded { state: s0 } ==> (acc@ == spec_accum(
            scene@,
            ray0@,
            bounces as nat,
            k as nat,
            s0 as int,
        ).0 && *final(rng) == (Rng::Seeded {
            state: spec_accum(scene@, ray0@, bounces as nat, k as nat, s0 as int).1 as u64,
        })),
        *old(rng) is Entropy ==> *final(rng) is Entropy,
        scene_mats_wf(scene@) && sv_nonneg(ray0.color@) && sv_nonneg(ray0.emitted@) ==> sv_nonneg(
            acc@,
        ),
        scene_dark(scene@) && ray0.emitted@ == sv_zero() ==> acc@ == sv_zero(),
    decreases k,
{
    if k == 0 {
        return Vec3 { x: 0, y: 0, z: 0 };
    }
    let acc = sample_go(scene, ray0, bounces, k - 1, rng);
    proof {
        if *old(rng) is Seeded {
            lemma_accum_state(
                scene@,
                ray0@,
                bounces as nat,
                (k - 1) as nat,
                crate::rng::spec_state(*old(rng)),
            );
        }
    }
    let tr = trace_path(scene, ray0, bounces, rng);
    acc.add(&tr.emitted)
}

/// The fixed-point pixel coordinate mapping: `2 * v / extent - 1`.
pub open spec fn spec_pixel_coord(v: int, extent: int) -> int {
    2 * v * 65536 / extent - 65536
}

fn pixel_coord(v: u32, extent: u32) -> (r: i64)
    requires
        extent > 0,
    ensures
        r as int == spec_pixel_coord(v as int, extent as int),
{
    let num: u64 = 2 * (v as u64) * 65536;
    ((num / (extent as u64)) as i64) - 65536
}

/// The world-space direction of the camera ray for a pixel.
pub open spec fn spec_cam_dir(cam: Camera, width: int, height: int, i: int, j: int) -> V3 {
    let x = spec_pixel_coord(i, width);
    let y = spec_pixel_coord(height - j - 1, height);
    let d = sv_normalized(V3 { x: x, y: y, z: spec_fx_neg(cam.focal_length as int) });
    let v4 = sm_apply(cam.rot, V4 { x: d.x, y: d.y, z: d.z, w: 0 });
    V3 { x: v4.x, y: v4.y, z: v4.z }
}

/// The primary ray for a pixel: full throughput, nothing gathered, air as
/// the starting medium.
pub open spec fn spec_first_ray(cam: Camera, width: int, height: int, i: int, j: int) -> RayV {
    RayV {
        origin: cam.pos@,
        dir: spec_cam_dir(cam, width, height, i, j),
        color: V3 { x: FX_ONE as int, y: FX_ONE as int, z: FX_ONE as int },
        emitted: sv_zero(),
        n: N_AIR as int,
    }
}

/// An averaged radiance channel mapped to an 8-bit value: clamp into [0, 1],
/// scale by 255.
pub open spec fn spec_to_channel(c: int) -> int {
    255 * spec_clamp01(c) / 65536
}

fn to_channel(c: i64) -> (r: u8)
    ensures
        r as int == spec_to_channel(c as int),
{
    let cl = fx_clamp01(c);
    let v = (255u64 * (cl as u64)) / 65536;
    proof {
        vstd::arithmetic::div_mod::lemma_div_is_ordered(
            255 * (cl as int),
            255int * 65536int,
            65536int,
        );
        vstd::arithmetic::div_mod::lemma_div_by_multiple(255int, 65536int);
        vstd::arithmetic::div_mod::lemma_div_pos_is_pos(255 * (cl as int), 65536int);
    }
    v as u8
}

/// The color of one pixel: the sample-averaged gathered radiance, clamped
/// and quantized per channel, with the generator state left behind.
pub open spec fn spec_pixel(
    objs: Seq<PrimV>,
    cam: Camera,
    width: int,
    height: int,
    i: int,
    j: int,
    bounces: nat,
    samples: nat,
    s: int,
) -> ((int, int, int), int) {
    let ray0 = spec_first_ray(cam, width, height, i, j);
    let (acc, s1) = spec_accum(objs, ray0, bounces, samples, s);
    let avg = V3 {
        x: crate::fx::spec_fx_div_int(acc.x, samples as int),
        y: crate::fx::spec_fx_div_int(acc.y, samples as int),
        z: crate::fx::spec_fx_div_int(acc.z, samples as int),
    };
    ((spec_to_channel(avg.x), spec_to_channel(avg.y), spec_to_channel(avg.z)), s1)
}

/// One RGB output pixel, each channel in [0, 255].
#[derive(Clone, Copy, PartialEq, Eq, Structural, Debug)]
pub struct Rgb8 {
    pub r: u8,
    pub g: u8,
    pub b: u8,
}

/// Render one pixel: generate the camera ray, average the radiance gathered
/// by `samples_per_pixel` independent paths of up to `bounces` interactions,
/// and map the estimate to 8-bit channels.
///
/// A seeded generator makes the result a pure function of the arguments; a
/// scene with no emissive material renders black whatever the draws.
pub fn pixel_shader(
    ctx: &Context,
    i: u32,
    j: u32,
    bounces: u8,
    samples_per_pixel: u32,
    rng: &mut Rng,
) -> (r: Rgb8)
    requires
        i < ctx.width,
        j < ctx.height,
        samples_per_pixel >= 1,
    ensures
        *old(rng) matches Rng::Seeded { state: s0 } ==> ({
            let px = spec_pixel(
                ctx.scene@,
                ctx.camera,
                ctx.width as int,
                ctx.height as int,
                i as int,
                j as int,
                bounces as nat,
                samples_per_pixel as nat,
                s0 as int,
            );
            r.r as int == px.0.0 && r.g as int == px.0.1 && r.b as int == px.0.2 && *final(rng)
                == (Rng::Seeded { state: px.1 as u64 })
        }),
        *old(rng) is Entropy ==> *final(rng) is Entropy,
        scene_dark(ctx.scene@) ==> r == (Rgb8 { r: 0, g: 0, b: 0 }),
{
    let xi = pixel_coord(i, ctx.width);
    let yi = pixel_coord(ctx.height - j - 1, ctx.height);
    let cam_dir = ctx.camera.rot.apply_dir3(
        &Vec3 { x: xi, y: yi, z: fx_neg(ctx.camera.focal_length) }.normalized(),
    ).as_vec3();
    let ray0 = Ray {
        origin: ctx.camera.pos,
        dir: cam_dir,
        color: Vec3::one(),
        emitted: Vec3::zero(),
        n: N_AIR,
    };
    let acc = sample_go(&ctx.scene, ray0, bounces as u32, samples_per_pixel, rng);
    let samples = samples_per_pixel as i64;
    let avg_x = crate::fx::fx_div_int(acc.x, samples);
    let avg_y = crate::fx::fx_div_int(acc.y, samples);
    let avg_z = crate::fx::fx_div_int(acc.z, samples);
    proof {
        if scene_dark(ctx.scene@) {
            vstd::arithmetic::div_mod::lemma_div_of0(samples as int);
            vstd::arithmetic::div_mod::lemma_div_of0(65536);
        }
    }
    Rgb8 { r: to_channel(avg_x), g: to_channel(avg_y), b: to_channel(avg_z) }
}

/// The reasons a render configuration is rejected.
#[derive(Clone, Copy, PartialEq, Eq, Structural, Debug)]
pub enum ConfigError {
    ZeroWidth,
    ZeroHeight,
    ZeroBounces,
    ZeroSamples,
}

/// Check a render configuration before any work starts: zero image
/// dimensions, a zero bounce budget and a zero sample count are rejected,
/// in that order; everything else is accepted.
pub fn validate_config(width: u32, height: u32, bounces: u8, samples_per_pixel: u32) -> (r: Result<
    (),
    ConfigError,
>)
    ensures
        width == 0 ==> r == Result::<(), ConfigError>::Err(ConfigError::ZeroWidth),
        width > 0 && height == 0 ==> r == Result::<(), ConfigError>::Err(ConfigError::ZeroHeight),
        width > 0 && height > 0 && bounces == 0 ==> r == Result::<(), ConfigError>::Err(
            ConfigError::ZeroBounces,
        ),
        width > 0 && height > 0 && bounces > 0 && samples_per_pixel == 0 ==> r == Result::<
            (),
            ConfigError,
        >::Err(ConfigError::ZeroSamples),
        width > 0 && height > 0 && bounces > 0 && samples_per_pixel > 0 ==> r == Result::<
            (),
            ConfigError,
        >::Ok(()),
{
    if width == 0 {
        Err(ConfigError::ZeroWidth)
    } else if height == 0 {
        Err(ConfigError::ZeroHeight)
    } else if bounces == 0 {
        Err(ConfigError::ZeroBounces)
    } else if samples_per_pixel == 0 {
        Err(ConfigError::ZeroSamples)
    } else {
        Ok(())
    }
}

fn schlick(fresnel_0: i64, cos_theta: i64) -> (r: i64)
    ensures
        r as int == spec_schlick(fresnel_0 as int, cos_theta as int),
        0 <= r <= FX_ONE,
{
    proof {
        reveal(spec_schlick);
    }
    let one_m = fx_sub(FX_ONE, cos_theta);
    let p2 = fx_mul(one_m, one_m);
    let p4 = fx_mul(p2, p2);
    let p5 = fx_mul(p4, one_m);
    fx_clamp01(fx_add(fresnel_0, fx_mul(fx_sub(FX_ONE, fresnel_0), p5)))
}

} // verus!
