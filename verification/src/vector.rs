//! 3-vectors, 4-vectors and 4x4 homogeneous transforms over fixed-point
//! scalars, together with the hemisphere sampling constructors the shading
//! model draws bounce directions from.
//!
//! Each executable operation has a spec twin over the ghost mirror types
//! (`V3`, `V4`), and its contract states that the result equals the twin of
//! its arguments, so vector expressions are pinned down exactly.

use vstd::prelude::*;
use crate::fx::{
    fx_add, fx_div, fx_mul, fx_sqrt, fx_sub, fx_ok, lemma_fx_mul_neg_one, lemma_fx_mul_neg_right,
    lemma_sat_neg, spec_fx_add, spec_fx_div, spec_fx_mul, spec_fx_sqrt, spec_fx_sub, FX_ONE,
};
use crate::rng::{spec_rng_next, spec_unit_from, Rng};

verus! {

/// Ghost mirror of `Vec3`: unbounded integer components.
pub struct V3 {
    pub x: int,
    pub y: int,
    pub z: int,
}

/// Ghost mirror of `Vec4`.
pub struct V4 {
    pub x: int,
    pub y: int,
    pub z: int,
    pub w: int,
}

#[derive(Clone, Copy, PartialEq, Eq, Structural, Debug)]
pub struct Vec3 {
    pub x: i64,
    pub y: i64,
    pub z: i64,
}

impl View for Vec3 {
    type V = V3;

    open spec fn view(&self) -> V3 {
        V3 { x: self.x as int, y: self.y as int, z: self.z as int }
    }
}

pub open spec fn sv_ok(a: V3) -> bool {
    fx_ok(a.x) && fx_ok(a.y) && fx_ok(a.z)
}

pub open spec fn sv_zero() -> V3 {
    V3 { x: 0, y: 0, z: 0 }
}

/// Component-wise non-negative.
pub open spec fn sv_nonneg(a: V3) -> bool {
    a.x >= 0 && a.y >= 0 && a.z >= 0
}

/// Every component inside the unit interval [0, 1].
pub open spec fn sv_unit_range(a: V3) -> bool {
    0 <= a.x <= FX_ONE as int && 0 <= a.y <= FX_ONE as int && 0 <= a.z <= FX_ONE as int
}

pub open spec fn sv_add(a: V3, b: V3) -> V3 {
    V3 {
        x: spec_fx_add(a.x, b.x),
        y: spec_fx_add(a.y, b.y),
        z: spec_fx_add(a.z, b.z),
    }
}

pub open spec fn sv_scale(a: V3, s: int) -> V3 {
    V3 {
        x: spec_fx_mul(a.x, s),
        y: spec_fx_mul(a.y, s),
        z: spec_fx_mul(a.z, s),
    }
}

pub open spec fn sv_minus(a: V3, b: V3) -> V3 {
    sv_add(a, sv_scale(b, -(FX_ONE as int)))
}

pub open spec fn sv_mult(a: V3, b: V3) -> V3 {
    V3 {
        x: spec_fx_mul(a.x, b.x),
        y: spec_fx_mul(a.y, b.y),
        z: spec_fx_mul(a.z, b.z),
    }
}

pub open spec fn sv_dot(a: V3, b: V3) -> int {
    spec_fx_add(
        spec_fx_add(spec_fx_mul(a.x, b.x), spec_fx_mul(a.y, b.y)),
        spec_fx_mul(a.z, b.z),
    )
}

pub open spec fn sv_cross(a: V3, b: V3) -> V3 {
    V3 {
        x: spec_fx_sub(spec_fx_mul(a.y, b.z), spec_fx_mul(a.z, b.y)),
        y: spec_fx_sub(spec_fx_mul(a.z, b.x), spec_fx_mul(a.x, b.z)),
        z: spec_fx_sub(spec_fx_mul(a.x, b.y), spec_fx_mul(a.y, b.x)),
    }
}

pub open spec fn sv_norm(a: V3) -> int {
    spec_fx_sqrt(sv_dot(a, a))
}

/// Scaling by the reciprocal norm; the zero vector (reciprocal of zero is
/// zero) normalizes to the zero vector.
pub open spec fn sv_normalized(a: V3) -> V3 {
    sv_scale(a, spec_fx_div(FX_ONE as int, sv_norm(a)))
}

pub open spec fn sv_neg(a: V3) -> V3 {
    sv_scale(a, -(FX_ONE as int))
}

impl Vec3 {
    pub fn zero() -> (r: Vec3)
        ensures
            r@ == sv_zero(),
    {
        Vec3 { x: 0, y: 0, z: 0 }
    }

    pub fn one() -> (r: Vec3)
        ensures
            r@ == (V3 { x: FX_ONE as int, y: FX_ONE as int, z: FX_ONE as int }),
    {
        Vec3 { x: FX_ONE, y: FX_ONE, z: FX_ONE }
    }

    pub fn add(&self, other: &Vec3) -> (r: Vec3)
        ensures
            r@ == sv_add(self@, other@),
            sv_ok(r@),
    {
        Vec3 {
            x: fx_add(self.x, other.x),
            y: fx_add(self.y, other.y),
            z: fx_add(self.z, other.z),
        }
    }

    pub fn scale(&self, s: i64) -> (r: Vec3)
        ensures
            r@ == sv_scale(self@, s as int),
            sv_ok(r@),
    {
        Vec3 {
            x: fx_mul(self.x, s),
            y: fx_mul(self.y, s),
            z: fx_mul(self.z, s),
        }
    }

    pub fn minus(&self, other: &Vec3) -> (r: Vec3)
        ensures
            r@ == sv_minus(self@, other@),
            sv_ok(r@),
    {
        self.add(&other.scale(-FX_ONE))
    }

    pub fn mult(&self, other: &Vec3) -> (r: Vec3)
        ensures
            r@ == sv_mult(self@, other@),
            sv_ok(r@),
    {
        Vec3 {
            x: fx_mul(self.x, other.x),
            y: fx_mul(self.y, other.y),
            z: fx_mul(self.z, other.z),
        }
    }

    pub fn dot(&self, other: &Vec3) -> (r: i64)
        ensures
            r as int == sv_dot(self@, other@),
            fx_ok(r as int),
    {
        fx_add(
            fx_add(fx_mul(self.x, other.x), fx_mul(self.y, other.y)),
            fx_mul(self.z, other.z),
        )
    }

    pub fn cross(&self, other: &Vec3) -> (r: Vec3)
        ensures
            r@ == sv_cross(self@, other@),
            sv_ok(r@),
    {
        Vec3 {
            x: fx_sub(fx_mul(self.y, other.z), fx_mul(self.z, other.y)),
            y: fx_sub(fx_mul(self.z, other.x), fx_mul(self.x, other.z)),
            z: fx_sub(fx_mul(self.x, other.y), fx_mul(self.y, other.x)),
        }
    }

    pub fn norm(&self) -> (r: i64)
        ensures
            r as int == sv_norm(self@),
            r >= 0,
    {
        fx_sqrt(self.dot(self))
    }

    pub fn normalized(&self) -> (r: Vec3)
        ensures
            r@ == sv_normalized(self@),
            sv_ok(r@),
    {
        self.scale(fx_div(FX_ONE, self.norm()))
    }

    /// Rodrigues rotation about a unit axis, given the cosine and sine of the
    /// rotation angle (the caller supplies them; there is no trigonometry
    /// here).
    pub fn rotate_around(&self, axis: &Vec3, cos: i64, sin: i64) -> (r: Vec3)
        ensures
            r@ == sv_rotate_around(self@, axis@, cos as int, sin as int),
            sv_ok(r@),
    {
        proof {
            reveal(sv_rotate_around);
        }
        let omc = fx_sub(FX_ONE, cos);
        Vec3 {
            x: fx_add(
                fx_add(
                    fx_mul(fx_add(cos, fx_mul(fx_mul(axis.x, axis.x), omc)), self.x),
                    fx_mul(fx_sub(fx_mul(fx_mul(axis.x, axis.y), omc), fx_mul(axis.z, sin)), self.y),
                ),
                fx_mul(fx_add(fx_mul(fx_mul(axis.x, axis.z), omc), fx_mul(axis.y, sin)), self.z),
            ),
            y: fx_add(
                fx_add(
                    fx_mul(fx_add(fx_mul(fx_mul(axis.x, axis.y), omc), fx_mul(axis.z, sin)), self.x),
                    fx_mul(fx_add(cos, fx_mul(fx_mul(axis.y, axis.y), omc)), self.y),
                ),
                fx_mul(fx_sub(fx_mul(fx_mul(axis.y, axis.z), omc), fx_mul(axis.x, sin)), self.z),
            ),
            z: fx_add(
                fx_add(
                    fx_mul(fx_sub(fx_mul(fx_mul(axis.x, axis.z), omc), fx_mul(axis.y, sin)), self.x),
                    fx_mul(fx_add(fx_mul(fx_mul(axis.z, axis.y), omc), fx_mul(axis.x, sin)), self.y),
                ),
                fx_mul(fx_add(cos, fx_mul(fx_mul(axis.z, axis.z), omc)), self.z),
            ),
        }
    }

    /// Rotate `self` so that the local +z axis lines up with `normal`.
    ///
    /// When the normal already points (anti)parallel to +z within the scalar
    /// granularity, the vector is returned unchanged (or negated); otherwise
    /// the rotation axis is `z x normal` and the sine comes from
    /// `sqrt(1 - cos^2)`.
    pub fn rotate_to_face(&self, normal: &Vec3) -> (r: Vec3)
        ensures
            r@ == sv_rotate_to_face(self@, normal@),
            sv_ok(r@) || r@ == self@,
    {
        proof {
            reveal(sv_rotate_to_face);
        }
        let forward = Vec3 { x: 0, y: 0, z: FX_ONE };
        let cos = forward.dot(normal);
        if cos >= FX_ONE {
            *self
        } else if cos <= -FX_ONE {
            self.scale(-FX_ONE)
        } else {
            let axis = forward.cross(normal).normalized();
            let sin = fx_sqrt(fx_sub(FX_ONE, fx_mul(cos, cos)));
            self.rotate_around(&axis, cos, sin)
        }
    }

    /// Per-component affine remap of `[x1, x2]` onto `[y1, y2]`.
    pub fn affine(&self, x1: i64, x2: i64, y1: i64, y2: i64) -> (r: Vec3)
        ensures
            r@ == (V3 {
                x: spec_affine1(self.x as int, x1 as int, x2 as int, y1 as int, y2 as int),
                y: spec_affine1(self.y as int, x1 as int, x2 as int, y1 as int, y2 as int),
                z: spec_affine1(self.z as int, x1 as int, x2 as int, y1 as int, y2 as int),
            }),
            sv_ok(r@),
    {
        Vec3 {
            x: affine1(self.x, x1, x2, y1, y2),
            y: affine1(self.y, x1, x2, y1, y2),
            z: affine1(self.z, x1, x2, y1, y2),
        }
    }

    /// Apply a scalar function to each component.
    pub fn apply_to_each<F: Fn(i64) -> i64>(&self, closure: F) -> (r: Vec3)
        requires
            closure.requires((self.x,)),
            closure.requires((self.y,)),
            closure.requires((self.z,)),
        ensures
            closure.ensures((self.x,), r.x),
            closure.ensures((self.y,), r.y),
            closure.ensures((self.z,), r.z),
    {
        Vec3 { x: closure(self.x), y: closure(self.y), z: closure(self.z) }
    }
}

pub open spec fn spec_affine1(x: int, x1: int, x2: int, y1: int, y2: int) -> int {
    spec_fx_add(
        spec_fx_div(spec_fx_mul(spec_fx_sub(y2, y1), spec_fx_sub(x, x1)), spec_fx_sub(x2, x1)),
        y1,
    )
}

fn affine1(x: i64, x1: i64, x2: i64, y1: i64, y2: i64) -> (r: i64)
    ensures
        r as int == spec_affine1(x as int, x1 as int, x2 as int, y1 as int, y2 as int),
        fx_ok(r as int),
{
    fx_add(fx_div(fx_mul(fx_sub(y2, y1), fx_sub(x, x1)), fx_sub(x2, x1)), y1)
}

#[verifier::opaque]
pub open spec fn sv_rotate_around(a: V3, axis: V3, cos: int, sin: int) -> V3 {
    let omc = spec_fx_sub(FX_ONE as int, cos);
    V3 {
        x: spec_fx_add(
            spec_fx_add(
                spec_fx_mul(spec_fx_add(cos, spec_fx_mul(spec_fx_mul(axis.x, axis.x), omc)), a.x),
                spec_fx_mul(
                    spec_fx_sub(
                        spec_fx_mul(spec_fx_mul(axis.x, axis.y), omc),
                        spec_fx_mul(axis.z, sin),
                    ),
                    a.y,
                ),
            ),
            spec_fx_mul(
                spec_fx_add(spec_fx_mul(spec_fx_mul(axis.x, axis.z), omc), spec_fx_mul(axis.y, sin)),
                a.z,
            ),
        ),
        y: spec_fx_add(
            spec_fx_add(
                spec_fx_mul(
                    spec_fx_add(spec_fx_mul(spec_fx_mul(axis.x, axis.y), omc), spec_fx_mul(axis.z, sin)),
                    a.x,
                ),
                spec_fx_mul(spec_fx_add(cos, spec_fx_mul(spec_fx_mul(axis.y, axis.y), omc)), a.y),
            ),
            spec_fx_mul(
                spec_fx_sub(spec_fx_mul(spec_fx_mul(axis.y, axis.z), omc), spec_fx_mul(axis.x, sin)),
                a.z,
            ),
        ),
        z: spec_fx_add(
            spec_fx_add(
                spec_fx_mul(
                    spec_fx_sub(spec_fx_mul(spec_fx_mul(axis.x, axis.z), omc), spec_fx_mul(axis.y, sin)),
                    a.x,
                ),
                spec_fx_mul(
                    spec_fx_add(spec_fx_mul(spec_fx_mul(axis.z, axis.y), omc), spec_fx_mul(axis.x, sin)),
                    a.y,
                ),
            ),
            spec_fx_mul(spec_fx_add(cos, spec_fx_mul(spec_fx_mul(axis.z, axis.z), omc)), a.z),
        ),
    }
}

#[verifier::opaque]
pub open spec fn sv_rotate_to_face(a: V3, normal: V3) -> V3 {
    let fwd = V3 { x: 0, y: 0, z: FX_ONE as int };
    let cos = sv_dot(fwd, normal);
    if cos >= FX_ONE as int {
        a
    } else if cos <= -(FX_ONE as int) {
        sv_neg(a)
    } else {
        let axis = sv_normalized(sv_cross(fwd, normal));
        let sin = spec_fx_sqrt(spec_fx_sub(FX_ONE as int, spec_fx_mul(cos, cos)));
        sv_rotate_around(a, axis, cos, sin)
    }
}

/// Remap of a unit draw in [0, 1) onto [-1, 1): what the affine map used by
/// the cube sampler computes on that range.
pub proof fn lemma_affine_unit(u: int)
    requires
        0 <= u < FX_ONE as int,
    ensures
        spec_affine1(u, 0, FX_ONE as int, -(FX_ONE as int), FX_ONE as int) == 2 * u - FX_ONE as int,
{
    let w = spec_fx_sub(FX_ONE as int, -(FX_ONE as int));
    let x = spec_fx_sub(u, 0);
    assert(w == 2 * FX_ONE as int && x == u);
    crate::fx::lemma_mul_subst(w, x, 2 * FX_ONE as int, u);
    crate::fx::lemma_tdiv_exact(2 * u, FX_ONE as int);
    assert(spec_fx_mul(spec_fx_sub(FX_ONE as int, -(FX_ONE as int)), spec_fx_sub(u, 0)) == 2 * u);
    assert(spec_fx_div(2 * u, FX_ONE as int) == 2 * u);
}

/// A point drawn uniformly from the cube [-1, 1)^3, and the generator state
/// it leaves behind.
pub open spec fn spec_cube_vec(s: int) -> (V3, int) {
    let u1 = spec_unit_from(s);
    let s1 = spec_rng_next(s);
    let u2 = spec_unit_from(s1);
    let s2 = spec_rng_next(s1);
    let u3 = spec_unit_from(s2);
    let s3 = spec_rng_next(s2);
    (
        V3 {
            x: spec_affine1(u1, 0, FX_ONE as int, -(FX_ONE as int), FX_ONE as int),
            y: spec_affine1(u2, 0, FX_ONE as int, -(FX_ONE as int), FX_ONE as int),
            z: spec_affine1(u3, 0, FX_ONE as int, -(FX_ONE as int), FX_ONE as int),
        },
        s3,
    )
}

/// Rejection sampling of a direction on the unit sphere: keep drawing cube
/// points until one falls inside the unit ball, then normalize; after the
/// given number of rejected draws the +z axis is returned so the search
/// terminates.
pub open spec fn spec_unit_vec(s: int, tries: nat) -> (V3, int)
    decreases tries,
{
    if tries == 0 {
        (V3 { x: 0, y: 0, z: FX_ONE as int }, s)
    } else {
        let (v, s1) = spec_cube_vec(s);
        if sv_norm(v) < FX_ONE as int {
            (sv_normalized(v), s1)
        } else {
            spec_unit_vec(s1, (tries - 1) as nat)
        }
    }
}

/// A sphere direction flipped into the hemisphere around `n`.
pub open spec fn spec_hemi_vec(n: V3, s: int) -> (V3, int) {
    let (v, s1) = spec_unit_vec(s, 16);
    if sv_dot(n, v) >= 0 {
        (v, s1)
    } else {
        (sv_neg(v), s1)
    }
}

/// Rejection sampling of a direction on the unit circle: draw points of
/// [-1, 1)^2 until one falls inside the unit disk (and away from the origin),
/// then normalize; after the given number of rejected draws the +x axis is
/// returned.
pub open spec fn spec_disk_dir(s: int, tries: nat) -> (int, int, int)
    decreases tries,
{
    if tries == 0 {
        (FX_ONE as int, 0, s)
    } else {
        let a = 2 * spec_unit_from(s) - FX_ONE as int;
        let s1 = spec_rng_next(s);
        let b = 2 * spec_unit_from(s1) - FX_ONE as int;
        let s2 = spec_rng_next(s1);
        let d2 = spec_fx_add(spec_fx_mul(a, a), spec_fx_mul(b, b));
        if 0 < d2 <= FX_ONE as int {
            let inv = spec_fx_div(FX_ONE as int, spec_fx_sqrt(d2));
            (spec_fx_mul(a, inv), spec_fx_mul(b, inv), s2)
        } else {
            spec_disk_dir(s2, (tries - 1) as nat)
        }
    }
}

/// The cosine-weighted hemisphere sample around `n`: elevation from
/// `sqrt(u)`, azimuth uniform on the disk, rotated to face the normal.
#[verifier::opaque]
pub open spec fn spec_cosine_hemi(n: V3, s: int) -> (V3, int) {
    let u = spec_unit_from(s);
    let s1 = spec_rng_next(s);
    let z = spec_fx_sqrt(u);
    let planar = spec_fx_sqrt(spec_fx_sub(FX_ONE as int, u));
    let (dx, dy, s2) = spec_disk_dir(s1, 16);
    (
        sv_rotate_to_face(
            V3 { x: spec_fx_mul(dx, planar), y: spec_fx_mul(dy, planar), z: z },
            n,
        ),
        s2,
    )
}

impl Vec3 {
    /// A vector drawn uniformly from the cube [-1, 1)^3.
    pub fn random_vector_in_unit_cube(rng: &mut Rng) -> (r: Vec3)
        ensures
            -(FX_ONE as int) <= r@.x < FX_ONE as int,
            -(FX_ONE as int) <= r@.y < FX_ONE as int,
            -(FX_ONE as int) <= r@.z < FX_ONE as int,
            *old(rng) matches Rng::Seeded { state: s0 } ==> (r@ == spec_cube_vec(s0 as int).0
                && *final(rng) == (Rng::Seeded { state: spec_cube_vec(s0 as int).1 as u64 })),
            *old(rng) is Entropy ==> *final(rng) is Entropy,
    {
        let u1 = rng.next_unit();
        let u2 = rng.next_unit();
        let u3 = rng.next_unit();
        let r = Vec3 { x: u1, y: u2, z: u3 }.affine(0, FX_ONE, -FX_ONE, FX_ONE);
        proof {
            lemma_affine_unit(u1 as int);
            lemma_affine_unit(u2 as int);
            lemma_affine_unit(u3 as int);
        }
        r
    }

    /// A direction drawn from the unit sphere by bounded rejection; after 16
    /// rejected draws the +z axis is returned so the search terminates.
    pub fn random_unit_vector(rng: &mut Rng) -> (r: Vec3)
        ensures
            sv_ok(r@),
            *old(rng) matches Rng::Seeded { state: s0 } ==> (r@ == spec_unit_vec(s0 as int, 16).0
                && *final(rng) == (Rng::Seeded { state: spec_unit_vec(s0 as int, 16).1 as u64 })),
            *old(rng) is Entropy ==> *final(rng) is Entropy,
    {
        unit_vec_go(rng, 16)
    }

    /// A sphere direction flipped into the hemisphere around `normal`.
    pub fn random_vector_in_hemisphere(normal: &Vec3, rng: &mut Rng) -> (r: Vec3)
        ensures
            sv_ok(r@),
            sv_dot(normal@, r@) >= 0,
            *old(rng) matches Rng::Seeded { state: s0 } ==> (r@ == spec_hemi_vec(
                normal@,
                s0 as int,
            ).0 && *final(rng) == (Rng::Seeded {
                state: spec_hemi_vec(normal@, s0 as int).1 as u64,
            })),
            *old(rng) is Entropy ==> *final(rng) is Entropy,
    {
        let v = Self::random_unit_vector(rng);
        let d = normal.dot(&v);
        if d >= 0 {
            v
        } else {
            proof {
                lemma_sv_dot_neg(normal@, v@);
            }
            v.scale(-FX_ONE)
        }
    }

    /// A cosine-weighted hemisphere sample around `normal`.
    pub fn cosine_weighted_hemisphere(normal: &Vec3, rng: &mut Rng) -> (r: Vec3)
        ensures
            *old(rng) matches Rng::Seeded { state: s0 } ==> (r@ == spec_cosine_hemi(
                normal@,
                s0 as int,
            ).0 && *final(rng) == (Rng::Seeded {
                state: spec_cosine_hemi(normal@, s0 as int).1 as u64,
            })),
            *old(rng) is Entropy ==> *final(rng) is Entropy,
            sv_ok(r@),
    {
        proof {
            reveal(spec_cosine_hemi);
        }
        let u = rng.next_unit();
        let z = fx_sqrt(u);
        let planar = fx_sqrt(fx_sub(FX_ONE, u));
        let (dx, dy) = disk_dir_go(rng, 16);
        let local = Vec3 { x: fx_mul(dx, planar), y: fx_mul(dy, planar), z: z };
        local.rotate_to_face(normal)
    }
}

fn unit_vec_go(rng: &mut Rng, tries: u64) -> (r: Vec3)
    ensures
        sv_ok(r@),
        *old(rng) matches Rng::Seeded { state: s0 } ==> (r@ == spec_unit_vec(
            s0 as int,
            tries as nat,
        ).0 && *final(rng) == (Rng::Seeded {
            state: spec_unit_vec(s0 as int, tries as nat).1 as u64,
        })),
        *old(rng) is Entropy ==> *final(rng) is Entropy,
    decreases tries,
{
    if tries == 0 {
        return Vec3 { x: 0, y: 0, z: FX_ONE };
    }
    let v = Vec3::random_vector_in_unit_cube(rng);
    if v.norm() < FX_ONE {
        v.normalized()
    } else {
        unit_vec_go(rng, tries - 1)
    }
}

fn disk_dir_go(rng: &mut Rng, tries: u64) -> (r: (i64, i64))
    ensures
        fx_ok(r.0 as int),
        fx_ok(r.1 as int),
        *old(rng) matches Rng::Seeded { state: s0 } ==> ({
            let (dx, dy, s2) = spec_disk_dir(s0 as int, tries as nat);
            r.0 as int == dx && r.1 as int == dy && *final(rng) == (Rng::Seeded {
                state: s2 as u64,
            })
        }),
        *old(rng) is Entropy ==> *final(rng) is Entropy,
    decreases tries,
{
    if tries == 0 {
        return (FX_ONE, 0);
    }
    let a = 2 * rng.next_unit() - FX_ONE;
    let b = 2 * rng.next_unit() - FX_ONE;
    let d2 = fx_add(fx_mul(a, a), fx_mul(b, b));
    if 0 < d2 && d2 <= FX_ONE {
        let inv = fx_div(FX_ONE, fx_sqrt(d2));
        (fx_mul(a, inv), fx_mul(b, inv))
    } else {
        disk_dir_go(rng, tries - 1)
    }
}

#[derive(Clone, Copy, PartialEq, Eq, Structural, Debug)]
pub struct Vec4 {
    x: i64,
    y: i64,
    z: i64,
    w: i64,
}

impl View for Vec4 {
    type V = V4;

    closed spec fn view(&self) -> V4 {
        V4 { x: self.x as int, y: self.y as int, z: self.z as int, w: self.w as int }
    }
}

impl Vec4 {
    pub fn as_vec3(&self) -> (r: Vec3)
        ensures
            r@ == (V3 { x: self@.x, y: self@.y, z: self@.z }),
    {
        Vec3 { x: self.x, y: self.y, z: self.z }
    }
}

#[derive(Clone, Copy, Debug)]
pub struct Mat4 {
    pub elems: [[i64; 4]; 4],
}

/// One entry of a matrix product: the row-times-column sum, accumulated left
/// to right from zero.
pub open spec fn sm_entry(a: Mat4, b: Mat4, i: int, j: int) -> int {
    spec_fx_add(
        spec_fx_add(
            spec_fx_add(
                spec_fx_add(0, spec_fx_mul(a.elems[i][0] as int, b.elems[0][j] as int)),
                spec_fx_mul(a.elems[i][1] as int, b.elems[1][j] as int),
            ),
            spec_fx_mul(a.elems[i][2] as int, b.elems[2][j] as int),
        ),
        spec_fx_mul(a.elems[i][3] as int, b.elems[3][j] as int),
    )
}

/// One component of a matrix applied to a 4-vector.
pub open spec fn sm_apply_comp(m: Mat4, v: V4, i: int) -> int {
    spec_fx_add(
        spec_fx_add(
            spec_fx_add(
                spec_fx_add(0, spec_fx_mul(m.elems[i][0] as int, v.x)),
                spec_fx_mul(m.elems[i][1] as int, v.y),
            ),
            spec_fx_mul(m.elems[i][2] as int, v.z),
        ),
        spec_fx_mul(m.elems[i][3] as int, v.w),
    )
}

pub open spec fn sm_apply(m: Mat4, v: V4) -> V4 {
    V4 {
        x: sm_apply_comp(m, v, 0),
        y: sm_apply_comp(m, v, 1),
        z: sm_apply_comp(m, v, 2),
        w: sm_apply_comp(m, v, 3),
    }
}

/// The three basis columns of the look-at transform: forward is the negated
/// view direction, right comes from the world up axis, up completes the
/// basis.
pub open spec fn sm_look_cols(dir: V3) -> (V3, V3, V3) {
    let up = V3 { x: 0, y: FX_ONE as int, z: 0 };
    let c3 = sv_scale(dir, -(FX_ONE as int));
    let c1 = sv_normalized(sv_cross(up, c3));
    let c2 = sv_cross(c3, c1);
    (c1, c2, c3)
}

fn mul_entry(a: &Mat4, b: &Mat4, i: usize, j: usize) -> (r: i64)
    requires
        i < 4,
        j < 4,
    ensures
        r as int == sm_entry(*a, *b, i as int, j as int),
        fx_ok(r as int),
{
    let mut sum: i64 = 0;
    sum = fx_add(sum, fx_mul(a.elems[i][0], b.elems[0][j]));
    sum = fx_add(sum, fx_mul(a.elems[i][1], b.elems[1][j]));
    sum = fx_add(sum, fx_mul(a.elems[i][2], b.elems[2][j]));
    sum = fx_add(sum, fx_mul(a.elems[i][3], b.elems[3][j]));
    sum
}

impl Mat4 {
    pub fn product(&self, other: &Mat4) -> (r: Mat4)
        ensures
            forall|i: int, j: int|
                0 <= i < 4 && 0 <= j < 4 ==> r.elems[i][j] as int == sm_entry(
                    *self,
                    *other,
                    i,
                    j,
                ),
    {
        Mat4 {
            elems: [
                [
                    mul_entry(self, other, 0, 0),
                    mul_entry(self, other, 0, 1),
                    mul_entry(self, other, 0, 2),
                    mul_entry(self, other, 0, 3),
                ],
                [
                    mul_entry(self, other, 1, 0),
                    mul_entry(self, other, 1, 1),
                    mul_entry(self, other, 1, 2),
                    mul_entry(self, other, 1, 3),
                ],
                [
                    mul_entry(self, other, 2, 0),
                    mul_entry(self, other, 2, 1),
                    mul_entry(self, other, 2, 2),
                    mul_entry(self, other, 2, 3),
                ],
                [
                    mul_entry(self, other, 3, 0),
                    mul_entry(self, other, 3, 1),
                    mul_entry(self, other, 3, 2),
                    mul_entry(self, other, 3, 3),
                ],
            ],
        }
    }

    pub fn apply(&self, other: &Vec4) -> (r: Vec4)
        ensures
            r@ == sm_apply(*self, other@),
    {
        Vec4 {
            x: apply_comp(self, other, 0),
            y: apply_comp(self, other, 1),
            z: apply_comp(self, other, 2),
            w: apply_comp(self, other, 3),
        }
    }

    /// Apply to a position: homogeneous coordinate one.
    pub fn apply_pos3(&self, other: &Vec3) -> (r: Vec4)
        ensures
            r@ == sm_apply(
                *self,
                V4 { x: other@.x, y: other@.y, z: other@.z, w: FX_ONE as int },
            ),
    {
        let v4 = Vec4 { x: other.x, y: other.y, z: other.z, w: FX_ONE };
        self.apply(&v4)
    }

    /// Apply to a direction: homogeneous coordinate zero, so translation
    /// columns drop out.
    pub fn apply_dir3(&self, other: &Vec3) -> (r: Vec4)
        ensures
            r@ == sm_apply(*self, V4 { x: other@.x, y: other@.y, z: other@.z, w: 0 }),
    {
        let v4 = Vec4 { x: other.x, y: other.y, z: other.z, w: 0 };
        self.apply(&v4)
    }

    #[allow(non_snake_case)]
    pub fn fromColumns(col_1: &Vec3, col_2: &Vec3, col_3: &Vec3) -> (r: Mat4)
        ensures
            r.elems[0][0] as int == col_1@.x && r.elems[0][1] as int == col_2@.x && r.elems[0][2]
                as int == col_3@.x && r.elems[0][3] == 0,
            r.elems[1][0] as int == col_1@.y && r.elems[1][1] as int == col_2@.y && r.elems[1][2]
                as int == col_3@.y && r.elems[1][3] == 0,
            r.elems[2][0] as int == col_1@.z && r.elems[2][1] as int == col_2@.z && r.elems[2][2]
                as int == col_3@.z && r.elems[2][3] == 0,
            r.elems[3][0] == 0 && r.elems[3][1] == 0 && r.elems[3][2] == 0 && r.elems[3][3]
                == FX_ONE,
    {
        Mat4 {
            elems: [
                [col_1.x, col_2.x, col_3.x, 0],
                [col_1.y, col_2.y, col_3.y, 0],
                [col_1.z, col_2.z, col_3.z, 0],
                [0, 0, 0, FX_ONE],
            ],
        }
    }

    /// The camera orientation looking along `dir`: an orthonormal basis (up
    /// to fixed-point rounding) whose forward axis is the negated direction.
    pub fn look_at(dir: &Vec3) -> (r: Mat4)
        ensures
            r.elems[0][0] as int == sm_look_cols(dir@).0.x && r.elems[1][0] as int == sm_look_cols(
                dir@,
            ).0.y && r.elems[2][0] as int == sm_look_cols(dir@).0.z,
            r.elems[0][1] as int == sm_look_cols(dir@).1.x && r.elems[1][1] as int == sm_look_cols(
                dir@,
            ).1.y && r.elems[2][1] as int == sm_look_cols(dir@).1.z,
            r.elems[0][2] as int == sm_look_cols(dir@).2.x && r.elems[1][2] as int == sm_look_cols(
                dir@,
            ).2.y && r.elems[2][2] as int == sm_look_cols(dir@).2.z,
            r.elems[0][3] == 0 && r.elems[1][3] == 0 && r.elems[2][3] == 0,
            r.elems[3][0] == 0 && r.elems[3][1] == 0 && r.elems[3][2] == 0 && r.elems[3][3]
                == FX_ONE,
    {
        let col_3 = dir.scale(-FX_ONE);
        let col_1 = Vec3 { x: 0, y: FX_ONE, z: 0 }.cross(&col_3).normalized();
        let col_2 = col_3.cross(&col_1);
        Mat4::fromColumns(&col_1, &col_2, &col_3)
    }
}

fn apply_comp(m: &Mat4, v: &Vec4, i: usize) -> (r: i64)
    requires
        i < 4,
    ensures
        r as int == sm_apply_comp(*m, v@, i as int),
        fx_ok(r as int),
{
    let vs = [v.x, v.y, v.z, v.w];
    let mut sum: i64 = 0;
    sum = fx_add(sum, fx_mul(m.elems[i][0], vs[0]));
    sum = fx_add(sum, fx_mul(m.elems[i][1], vs[1]));
    sum = fx_add(sum, fx_mul(m.elems[i][2], vs[2]));
    sum = fx_add(sum, fx_mul(m.elems[i][3], vs[3]));
    sum
}

/// The state left by the disk sampler is a 64-bit value.
pub proof fn lemma_disk_dir_state(s: int, tries: nat)
    requires
        0 <= s < 0x1_0000_0000_0000_0000,
    ensures
        0 <= spec_disk_dir(s, tries).2 < 0x1_0000_0000_0000_0000,
    decreases tries,
{
    if tries > 0 {
        crate::rng::lemma_rng_next_range(s);
        let s1 = spec_rng_next(s);
        crate::rng::lemma_rng_next_range(s1);
        let s2 = spec_rng_next(s1);
        lemma_disk_dir_state(s2, (tries - 1) as nat);
    }
}

/// The state left by the cosine-weighted hemisphere sampler is a 64-bit
/// value.
pub proof fn lemma_cosine_state(n: V3, s: int)
    requires
        0 <= s < 0x1_0000_0000_0000_0000,
    ensures
        0 <= spec_cosine_hemi(n, s).1 < 0x1_0000_0000_0000_0000,
{
    reveal(spec_cosine_hemi);
    crate::rng::lemma_rng_next_range(s);
    lemma_disk_dir_state(spec_rng_next(s), 16);
}

/// Non-negativity is preserved by the component-wise product.
pub proof fn lemma_sv_mult_nonneg(a: V3, b: V3)
    requires
        sv_nonneg(a),
        sv_nonneg(b),
    ensures
        sv_nonneg(sv_mult(a, b)),
{
    crate::fx::lemma_fx_mul_nonneg(a.x, b.x);
    crate::fx::lemma_fx_mul_nonneg(a.y, b.y);
    crate::fx::lemma_fx_mul_nonneg(a.z, b.z);
}

/// Non-negativity is preserved by scaling with a non-negative factor.
pub proof fn lemma_sv_scale_nonneg(a: V3, s: int)
    requires
        sv_nonneg(a),
        s >= 0,
    ensures
        sv_nonneg(sv_scale(a, s)),
{
    crate::fx::lemma_fx_mul_nonneg(a.x, s);
    crate::fx::lemma_fx_mul_nonneg(a.y, s);
    crate::fx::lemma_fx_mul_nonneg(a.z, s);
}

/// Multiplying the zero vector component-wise gives the zero vector.
pub proof fn lemma_sv_mult_zero_left(b: V3)
    ensures
        sv_mult(sv_zero(), b) == sv_zero(),
{
    crate::fx::lemma_fx_mul_zero_left(b.x);
    crate::fx::lemma_fx_mul_zero_left(b.y);
    crate::fx::lemma_fx_mul_zero_left(b.z);
}

/// Negating a bounded vector negates each component exactly.
pub proof fn lemma_sv_neg_components(v: V3)
    requires
        sv_ok(v),
    ensures
        sv_neg(v) == (V3 { x: -v.x, y: -v.y, z: -v.z }),
{
    lemma_fx_mul_neg_one(v.x);
    lemma_fx_mul_neg_one(v.y);
    lemma_fx_mul_neg_one(v.z);
}

/// Negating the first argument flips a dot product: the sign test behind
/// every front/back-face decision.
pub proof fn lemma_sv_dot_neg_left(n: V3, d: V3)
    requires
        sv_ok(n),
    ensures
        sv_dot(sv_neg(n), d) == -sv_dot(n, d),
{
    lemma_sv_neg_components(n);
    crate::fx::lemma_fx_mul_neg_left(n.x, d.x);
    crate::fx::lemma_fx_mul_neg_left(n.y, d.y);
    crate::fx::lemma_fx_mul_neg_left(n.z, d.z);
    lemma_sat_neg(
        spec_fx_mul(n.x, d.x) + spec_fx_mul(n.y, d.y),
    );
    lemma_sat_neg(
        spec_fx_add(spec_fx_mul(n.x, d.x), spec_fx_mul(n.y, d.y)) + spec_fx_mul(n.z, d.z),
    );
}

/// Negation flips a dot product: the sign test behind every front/back-face
/// decision.
pub proof fn lemma_sv_dot_neg(n: V3, v: V3)
    requires
        sv_ok(v),
    ensures
        sv_dot(n, sv_neg(v)) == -sv_dot(n, v),
{
    lemma_fx_mul_neg_one(v.x);
    lemma_fx_mul_neg_one(v.y);
    lemma_fx_mul_neg_one(v.z);
    assert(sv_neg(v).x == -v.x);
    assert(sv_neg(v).y == -v.y);
    assert(sv_neg(v).z == -v.z);
    lemma_fx_mul_neg_right(n.x, v.x);
    lemma_fx_mul_neg_right(n.y, v.y);
    lemma_fx_mul_neg_right(n.z, v.z);
    lemma_sat_neg(
        spec_fx_mul(n.x, v.x) + spec_fx_mul(n.y, v.y),
    );
    lemma_sat_neg(
        spec_fx_add(spec_fx_mul(n.x, v.x), spec_fx_mul(n.y, v.y)) + spec_fx_mul(n.z, v.z),
    );
}

} // verus!
