//! Fixed-point vector and matrix arithmetic.
//!
//! World-space quantities are carried as signed 64-bit fixed-point
//! numbers with [`FX_ONE`] (2^16) standing for 1.0: positions and scales
//! in world units, rotations as unit quaternions whose components lie in
//! [-1.0, 1.0].  All arithmetic here is exact integer arithmetic with
//! truncation toward zero on the one fractional multiply, so every
//! computation is fully specified.

use vstd::arithmetic::div_mod::{lemma_div_is_ordered, lemma_div_pos_is_pos};
use vstd::prelude::*;

verus! {

/// The fixed-point representation of 1.0.
pub const FX_ONE: i64 = 65536;

/// Largest magnitude either operand of a fixed-point multiply may have
/// (2^39); the quotient of such a product is well inside `i64`.
pub const FX_MUL_LIMIT: i64 = 0x80_0000_0000;

/// Largest magnitude a world-space position component may have (2^48
/// fixed-point units, i.e. 2^32 world units): squared distances of such
/// positions fit an `i128` with room to spare.
pub const POS_LIMIT: i64 = 0x1_0000_0000_0000;

/// Largest magnitude a scale component may have (2^30 fixed-point units).
pub const SCALE_LIMIT: i64 = 0x4000_0000;

/// One degree in fixed-point radians: round(pi / 180 * 2^16).
pub const FX_RAD_PER_DEG: i64 = 1144;

/// The fixed-point product of `a` and `b`: `a * b / 2^16`, truncated
/// toward zero (the rounding of this library's fractional multiply).
pub open spec fn fx_mul_spec(a: int, b: int) -> int {
    let p = a * b;
    if p >= 0 {
        p / (FX_ONE as int)
    } else {
        -((-p) / (FX_ONE as int))
    }
}

/// The magnitude of a truncating fixed-point product is bounded by the
/// bound of the untruncated product divided by 2^16.
pub proof fn lemma_fx_mul_bound(a: int, b: int, ab: int, bb: int)
    requires
        -ab <= a <= ab,
        -bb <= b <= bb,
        0 <= ab,
        0 <= bb,
    ensures
        -((ab * bb) / (FX_ONE as int)) <= fx_mul_spec(a, b) <= (ab * bb) / (FX_ONE as int),
{
    assert(-(ab * bb) <= a * b <= ab * bb) by (nonlinear_arith)
        requires
            -ab <= a <= ab,
            -bb <= b <= bb,
            0 <= ab,
            0 <= bb,
    ;
    let p = a * b;
    if p >= 0 {
        lemma_div_is_ordered(p, ab * bb, FX_ONE as int);
        lemma_div_pos_is_pos(p, FX_ONE as int);
    } else {
        lemma_div_is_ordered(-p, ab * bb, FX_ONE as int);
        lemma_div_pos_is_pos(-p, FX_ONE as int);
    }
}

/// Fixed-point multiply: `a * b / 2^16`, truncated toward zero.
pub fn fx_mul(a: i64, b: i64) -> (r: i64)
    requires
        -FX_MUL_LIMIT <= a <= FX_MUL_LIMIT,
        -FX_MUL_LIMIT <= b <= FX_MUL_LIMIT,
    ensures
        r == fx_mul_spec(a as int, b as int),
{
    proof {
        assert(-((FX_MUL_LIMIT as int) * (FX_MUL_LIMIT as int)) <= (a as int) * (b as int)
            <= (FX_MUL_LIMIT as int) * (FX_MUL_LIMIT as int)) by (nonlinear_arith)
            requires
                -FX_MUL_LIMIT <= a <= FX_MUL_LIMIT,
                -FX_MUL_LIMIT <= b <= FX_MUL_LIMIT,
        ;
    }
    let p: i128 = (a as i128) * (b as i128);
    if p >= 0 {
        let q: u128 = (p as u128) / 65536;
        proof {
            lemma_div_pos_is_pos(p as int, FX_ONE as int);
            lemma_div_is_ordered(
                p as int,
                (FX_MUL_LIMIT as int) * (FX_MUL_LIMIT as int),
                FX_ONE as int,
            );
        }
        q as i64
    } else {
        let q: u128 = ((-p) as u128) / 65536;
        proof {
            lemma_div_pos_is_pos(-(p as int), FX_ONE as int);
            lemma_div_is_ordered(
                -(p as int),
                (FX_MUL_LIMIT as int) * (FX_MUL_LIMIT as int),
                FX_ONE as int,
            );
        }
        -(q as i64)
    }
}

/// A three-component fixed-point vector.
#[derive(Debug, Clone, Copy, PartialEq, Eq, Structural)]
pub struct Vec3Fx {
    pub x: i64,
    pub y: i64,
    pub z: i64,
}

impl Vec3Fx {
    /// Builds a vector from its components.
    pub fn new(x: i64, y: i64, z: i64) -> (r: Vec3Fx)
        ensures
            r == (Vec3Fx { x, y, z }),
    {
        Vec3Fx { x, y, z }
    }

    /// The zero vector.
    pub fn zero() -> (r: Vec3Fx)
        ensures
            r == (Vec3Fx { x: 0, y: 0, z: 0 }),
    {
        Vec3Fx { x: 0, y: 0, z: 0 }
    }

    /// The unit vector (1.0, 1.0, 1.0).
    pub fn one() -> (r: Vec3Fx)
        ensures
            r == (Vec3Fx { x: FX_ONE as i64, y: FX_ONE as i64, z: FX_ONE as i64 }),
    {
        Vec3Fx { x: FX_ONE, y: FX_ONE, z: FX_ONE }
    }

    /// Components small enough that squared distances fit an `i128`.
    pub open spec fn bounded(&self) -> bool {
        &&& -POS_LIMIT <= self.x <= POS_LIMIT
        &&& -POS_LIMIT <= self.y <= POS_LIMIT
        &&& -POS_LIMIT <= self.z <= POS_LIMIT
    }

    /// Components small enough to be scale factors.
    pub open spec fn scale_bounded(&self) -> bool {
        &&& -SCALE_LIMIT <= self.x <= SCALE_LIMIT
        &&& -SCALE_LIMIT <= self.y <= SCALE_LIMIT
        &&& -SCALE_LIMIT <= self.z <= SCALE_LIMIT
    }
}

/// The squared euclidean distance between `a` and `b`, exactly, in
/// squared fixed-point units.
pub open spec fn dist_sq_spec(a: Vec3Fx, b: Vec3Fx) -> int {
    (a.x - b.x) * (a.x - b.x) + (a.y - b.y) * (a.y - b.y) + (a.z - b.z) * (a.z - b.z)
}

/// Computes the exact squared distance between two bounded positions.
pub fn dist_sq(a: &Vec3Fx, b: &Vec3Fx) -> (r: i128)
    requires
        a.bounded(),
        b.bounded(),
    ensures
        r == dist_sq_spec(*a, *b),
{
    let dx: i128 = (a.x as i128) - (b.x as i128);
    let dy: i128 = (a.y as i128) - (b.y as i128);
    let dz: i128 = (a.z as i128) - (b.z as i128);
    proof {
        let lim = 2 * (POS_LIMIT as int);
        assert(dx * dx <= lim * lim && dx * dx >= 0) by (nonlinear_arith)
            requires
                -lim <= dx <= lim,
                0 <= lim,
        ;
        assert(dy * dy <= lim * lim && dy * dy >= 0) by (nonlinear_arith)
            requires
                -lim <= dy <= lim,
                0 <= lim,
        ;
        assert(dz * dz <= lim * lim && dz * dz >= 0) by (nonlinear_arith)
            requires
                -lim <= dz <= lim,
                0 <= lim,
        ;
    }
    dx * dx + dy * dy + dz * dz
}

/// A two-component fixed-point vector.
#[derive(Debug, Clone, Copy, PartialEq, Eq, Structural)]
pub struct Vec2Fx {
    pub x: i64,
    pub y: i64,
}

/// A four-component fixed-point vector (one matrix column).
#[derive(Debug, Clone, Copy, PartialEq, Eq, Structural)]
pub struct Vec4Fx {
    pub x: i64,
    pub y: i64,
    pub z: i64,
    pub w: i64,
}

/// A rotation quaternion in fixed point; a unit rotation has components
/// in [-1.0, 1.0].
#[derive(Debug, Clone, Copy, PartialEq, Eq, Structural)]
pub struct QuatFx {
    pub x: i64,
    pub y: i64,
    pub z: i64,
    pub w: i64,
}

impl QuatFx {
    /// The identity rotation as a spec value.
    pub open spec fn identity_spec() -> QuatFx {
        QuatFx { x: 0, y: 0, z: 0, w: FX_ONE as i64 }
    }

    /// The identity rotation.
    pub fn identity() -> (r: QuatFx)
        ensures
            r == QuatFx::identity_spec(),
    {
        QuatFx { x: 0, y: 0, z: 0, w: FX_ONE }
    }

    /// All components within [-1.0, 1.0]; holds of every unit quaternion.
    pub open spec fn unit_bounded(&self) -> bool {
        &&& -FX_ONE <= self.x <= FX_ONE
        &&& -FX_ONE <= self.y <= FX_ONE
        &&& -FX_ONE <= self.z <= FX_ONE
        &&& -FX_ONE <= self.w <= FX_ONE
    }
}

/// A column-major 4x4 fixed-point matrix.
#[derive(Debug, Clone, Copy, PartialEq, Eq, Structural)]
pub struct Mat4Fx {
    pub x_axis: Vec4Fx,
    pub y_axis: Vec4Fx,
    pub z_axis: Vec4Fx,
    pub w_axis: Vec4Fx,
}

/// What `Mat4Fx::from_scale_rotation_translation` computes: the rotation
/// matrix of `q`, its columns multiplied by the matching component of
/// `scale`, with `translation` in the final column.  Stated entry by
/// entry over exact fixed-point arithmetic.
pub open spec fn srt_post(r: Mat4Fx, scale: Vec3Fx, q: QuatFx, translation: Vec3Fx) -> bool {
    let x2 = q.x + q.x;
    let y2 = q.y + q.y;
    let z2 = q.z + q.z;
    let xx = fx_mul_spec(q.x as int, x2 as int);
    let xy = fx_mul_spec(q.x as int, y2 as int);
    let xz = fx_mul_spec(q.x as int, z2 as int);
    let yy = fx_mul_spec(q.y as int, y2 as int);
    let yz = fx_mul_spec(q.y as int, z2 as int);
    let zz = fx_mul_spec(q.z as int, z2 as int);
    let wx = fx_mul_spec(q.w as int, x2 as int);
    let wy = fx_mul_spec(q.w as int, y2 as int);
    let wz = fx_mul_spec(q.w as int, z2 as int);
    &&& r.x_axis.x == fx_mul_spec(scale.x as int, FX_ONE - (yy + zz))
    &&& r.x_axis.y == fx_mul_spec(scale.x as int, xy + wz)
    &&& r.x_axis.z == fx_mul_spec(scale.x as int, xz - wy)
    &&& r.x_axis.w == 0
    &&& r.y_axis.x == fx_mul_spec(scale.y as int, xy - wz)
    &&& r.y_axis.y == fx_mul_spec(scale.y as int, FX_ONE - (xx + zz))
    &&& r.y_axis.z == fx_mul_spec(scale.y as int, yz + wx)
    &&& r.y_axis.w == 0
    &&& r.z_axis.x == fx_mul_spec(scale.z as int, xz + wy)
    &&& r.z_axis.y == fx_mul_spec(scale.z as int, yz - wx)
    &&& r.z_axis.z == fx_mul_spec(scale.z as int, FX_ONE - (xx + yy))
    &&& r.z_axis.w == 0
    &&& r.w_axis == (Vec4Fx {
        x: translation.x,
        y: translation.y,
        z: translation.z,
        w: FX_ONE as i64,
    })
}

/// The unit scale vector (1.0, 1.0, 1.0).
pub open spec fn unit_scale() -> Vec3Fx {
    Vec3Fx { x: FX_ONE as i64, y: FX_ONE as i64, z: FX_ONE as i64 }
}

/// The matrix `Mat4Fx::from_scale_rotation_translation` computes, as one
/// spec value.
pub open spec fn srt_spec(scale: Vec3Fx, q: QuatFx, translation: Vec3Fx) -> Mat4Fx {
    let x2 = q.x + q.x;
    let y2 = q.y + q.y;
    let z2 = q.z + q.z;
    let xx = fx_mul_spec(q.x as int, x2 as int);
    let xy = fx_mul_spec(q.x as int, y2 as int);
    let xz = fx_mul_spec(q.x as int, z2 as int);
    let yy = fx_mul_spec(q.y as int, y2 as int);
    let yz = fx_mul_spec(q.y as int, z2 as int);
    let zz = fx_mul_spec(q.z as int, z2 as int);
    let wx = fx_mul_spec(q.w as int, x2 as int);
    let wy = fx_mul_spec(q.w as int, y2 as int);
    let wz = fx_mul_spec(q.w as int, z2 as int);
    Mat4Fx {
        x_axis: Vec4Fx {
            x: fx_mul_spec(scale.x as int, FX_ONE - (yy + zz)) as i64,
            y: fx_mul_spec(scale.x as int, xy + wz) as i64,
            z: fx_mul_spec(scale.x as int, xz - wy) as i64,
            w: 0,
        },
        y_axis: Vec4Fx {
            x: fx_mul_spec(scale.y as int, xy - wz) as i64,
            y: fx_mul_spec(scale.y as int, FX_ONE - (xx + zz)) as i64,
            z: fx_mul_spec(scale.y as int, yz + wx) as i64,
            w: 0,
        },
        z_axis: Vec4Fx {
            x: fx_mul_spec(scale.z as int, xz + wy) as i64,
            y: fx_mul_spec(scale.z as int, yz - wx) as i64,
            z: fx_mul_spec(scale.z as int, FX_ONE - (xx + yy)) as i64,
            w: 0,
        },
        w_axis: Vec4Fx {
            x: translation.x,
            y: translation.y,
            z: translation.z,
            w: FX_ONE as i64,
        },
    }
}

/// A matrix satisfying the entry-by-entry description is the spec value:
/// each entry equals an `i64`, so the narrowing in `srt_spec` is exact.
pub proof fn lemma_srt_post_is_srt_spec(r: Mat4Fx, scale: Vec3Fx, q: QuatFx, translation: Vec3Fx)
    requires
        srt_post(r, scale, q, translation),
    ensures
        r == srt_spec(scale, q, translation),
{
}

impl Mat4Fx {
    /// Composes a model matrix: scale, then rotation, then translation,
    /// in that order.
    pub fn from_scale_rotation_translation(scale: Vec3Fx, rotation: QuatFx, translation: Vec3Fx) -> (r: Mat4Fx)
        requires
            rotation.unit_bounded(),
            scale.scale_bounded(),
        ensures
            srt_post(r, scale, rotation, translation),
    {
        let q = rotation;
        let x2: i64 = q.x + q.x;
        let y2: i64 = q.y + q.y;
        let z2: i64 = q.z + q.z;
        let xx: i64 = fx_mul(q.x, x2);
        let xy: i64 = fx_mul(q.x, y2);
        let xz: i64 = fx_mul(q.x, z2);
        let yy: i64 = fx_mul(q.y, y2);
        let yz: i64 = fx_mul(q.y, z2);
        let zz: i64 = fx_mul(q.z, z2);
        let wx: i64 = fx_mul(q.w, x2);
        let wy: i64 = fx_mul(q.w, y2);
        let wz: i64 = fx_mul(q.w, z2);
        proof {
            let one = FX_ONE as int;
            lemma_fx_mul_bound(q.x as int, x2 as int, one, 2 * one);
            lemma_fx_mul_bound(q.x as int, y2 as int, one, 2 * one);
            lemma_fx_mul_bound(q.x as int, z2 as int, one, 2 * one);
            lemma_fx_mul_bound(q.y as int, y2 as int, one, 2 * one);
            lemma_fx_mul_bound(q.y as int, z2 as int, one, 2 * one);
            lemma_fx_mul_bound(q.z as int, z2 as int, one, 2 * one);
            lemma_fx_mul_bound(q.w as int, x2 as int, one, 2 * one);
            lemma_fx_mul_bound(q.w as int, y2 as int, one, 2 * one);
            lemma_fx_mul_bound(q.w as int, z2 as int, one, 2 * one);
        }
        let x_axis = Vec4Fx {
            x: fx_mul(scale.x, FX_ONE - (yy + zz)),
            y: fx_mul(scale.x, xy + wz),
            z: fx_mul(scale.x, xz - wy),
            w: 0,
        };
        let y_axis = Vec4Fx {
            x: fx_mul(scale.y, xy - wz),
            y: fx_mul(scale.y, FX_ONE - (xx + zz)),
            z: fx_mul(scale.y, yz + wx),
            w: 0,
        };
        let z_axis = Vec4Fx {
            x: fx_mul(scale.z, xz + wy),
            y: fx_mul(scale.z, yz - wx),
            z: fx_mul(scale.z, FX_ONE - (xx + yy)),
            w: 0,
        };
        let w_axis = Vec4Fx { x: translation.x, y: translation.y, z: translation.z, w: FX_ONE };
        Mat4Fx { x_axis, y_axis, z_axis, w_axis }
    }
}

/// Law: composing with the identity rotation and unit scale yields a pure
/// translation matrix: the identity in the upper-left block and the
/// translation in the final column.
pub proof fn lemma_identity_srt_is_translation(r: Mat4Fx, translation: Vec3Fx)
    requires
        srt_post(r, unit_scale(), QuatFx::identity_spec(), translation),
    ensures
        r.x_axis == (Vec4Fx { x: FX_ONE as i64, y: 0, z: 0, w: 0 }),
        r.y_axis == (Vec4Fx { x: 0, y: FX_ONE as i64, z: 0, w: 0 }),
        r.z_axis == (Vec4Fx { x: 0, y: 0, z: FX_ONE as i64, w: 0 }),
        r.w_axis == (Vec4Fx {
            x: translation.x,
            y: translation.y,
            z: translation.z,
            w: FX_ONE as i64,
        }),
{
    assert(fx_mul_spec(0, 0) == 0);
    assert(fx_mul_spec(FX_ONE as int, 0) == 0);
    assert(fx_mul_spec(FX_ONE as int, FX_ONE as int) == FX_ONE);
}

/// A euler-angle rotation in fixed-point radians.
#[derive(Debug, Clone, Copy, PartialEq, Eq, Structural, Default)]
pub struct EulerRotation {
    pub x: i64,
    pub y: i64,
    pub z: i64,
}

/// One of the three world axes.
#[derive(Debug, Clone, Copy, PartialEq, Eq, Structural)]
pub enum Axis {
    X,
    Y,
    Z,
}

/// Marker for types that can stand for a world-space position.
pub trait Position {

}

impl Position for Vec3Fx {

}

/// Marker for types that can stand for a rotation.
pub trait Rotation {

}

impl Rotation for QuatFx {

}

/// Unit conversions on scalars.
pub trait Conversions<T> {
    /// What the conversion to radians returns.
    spec fn to_rad_spec(self) -> T;

    /// Converts a quantity in degrees to radians.
    fn to_rad(self) -> (r: T)
        ensures
            r == self.to_rad_spec(),
    ;
}

impl Conversions<i64> for i64 {
    /// Degrees to fixed-point radians: multiply by pi / 180.
    open spec fn to_rad_spec(self) -> i64 {
        fx_mul_spec(self as int, FX_RAD_PER_DEG as int) as i64
    }

    fn to_rad(self) -> (r: i64) {
        let p: i128 = (self as i128) * (FX_RAD_PER_DEG as i128);
        proof {
            assert(-(0x8000_0000_0000_0000i128 as int) * (FX_RAD_PER_DEG as int) <= (self as int)
                * (FX_RAD_PER_DEG as int) <= (0x8000_0000_0000_0000i128 as int) * (
            FX_RAD_PER_DEG as int)) by (nonlinear_arith)
                requires
                    -0x8000_0000_0000_0000i128 <= self as int <= 0x8000_0000_0000_0000i128,
            ;
        }
        if p >= 0 {
            let q: u128 = (p as u128) / 65536;
            proof {
                lemma_div_pos_is_pos(p as int, FX_ONE as int);
                lemma_div_is_ordered(
                    p as int,
                    0x8000_0000_0000_0000 * (FX_RAD_PER_DEG as int),
                    FX_ONE as int,
                );
            }
            q as i64
        } else {
            let q: u128 = ((-p) as u128) / 65536;
            proof {
                lemma_div_pos_is_pos(-(p as int), FX_ONE as int);
                lemma_div_is_ordered(
                    -(p as int),
                    0x8000_0000_0000_0000 * (FX_RAD_PER_DEG as int),
                    FX_ONE as int,
                );
            }
            -(q as i64)
        }
    }
}

} // verus!
