//! Saturating fixed-point arithmetic used by the simulation.
//!
//! The engine this core serves keeps velocities, forces and transforms as
//! floating-point values.  Here every such quantity is a fixed-point integer,
//! and a planar rotation is an explicit cosine/sine pair scaled by
//! [`ROT_ONE`].  Accumulating operations saturate at the `i64` range instead
//! of overflowing.

use vstd::prelude::*;

verus! {

/// Fixed-point scale of a rotation's cosine and sine components: a unit
/// rotation has `c*c + s*s` close to `ROT_ONE * ROT_ONE`.
pub const ROT_ONE: i64 = 65536;

/// Largest magnitude admitted for lengths and scale factors that are fed to
/// [`rotate_point`], chosen so that every intermediate product fits in `i64`.
pub const GEOM_LIMIT: i64 = 0x2000_0000_0000;

/// `a + b` clamped to the `i64` range.
pub open spec fn sat_add_spec(a: int, b: int) -> int {
    if a + b > i64::MAX {
        i64::MAX as int
    } else if a + b < i64::MIN {
        i64::MIN as int
    } else {
        a + b
    }
}

/// `v` clamped to the closed interval `[lo, hi]`.
pub open spec fn clamp_spec(v: int, lo: int, hi: int) -> int {
    if v < lo {
        lo
    } else if v > hi {
        hi
    } else {
        v
    }
}

/// Quotient of `p / ROT_ONE` rounded towards zero, the rounding the engine's
/// fixed-point normalisation uses.
pub open spec fn rot_scale_down(p: int) -> int {
    if p >= 0 {
        p / (ROT_ONE as int)
    } else {
        -((-p) / (ROT_ONE as int))
    }
}

/// Saturating addition on `i64`.
pub fn sat_add(a: i64, b: i64) -> (r: i64)
    ensures
        r == sat_add_spec(a as int, b as int),
{
    if b >= 0 {
        if a > i64::MAX - b {
            i64::MAX
        } else {
            a + b
        }
    } else {
        if a < i64::MIN - b {
            i64::MIN
        } else {
            a + b
        }
    }
}

/// `v` clamped to `[lo, hi]`.
pub fn clamp_i64(v: i64, lo: i64, hi: i64) -> (r: i64)
    requires
        lo <= hi,
    ensures
        r == clamp_spec(v as int, lo as int, hi as int),
{
    if v < lo {
        lo
    } else if v > hi {
        hi
    } else {
        v
    }
}

/// A planar rotation as a fixed-point cosine/sine pair.  `Rot::identity`
/// leaves a point unchanged under [`rotate_point`].
#[derive(Clone, Copy, Debug, PartialEq, Eq, Structural)]
pub struct Rot {
    pub c: i64,
    pub s: i64,
}

impl Rot {
    /// True when both components are small enough for [`rotate_point`].
    pub open spec fn bounded(self) -> bool {
        -ROT_ONE <= self.c <= ROT_ONE && -ROT_ONE <= self.s <= ROT_ONE
    }

    /// The rotation by zero radians.
    pub fn identity() -> (r: Rot)
        ensures
            r == (Rot { c: ROT_ONE, s: 0i64 }),
            r.bounded(),
    {
        Rot { c: ROT_ONE, s: 0 }
    }
}

/// Abscissa of `(x, y)` rotated by `r`, before scaling down.
pub open spec fn rotated_x_spec(r: Rot, x: int, y: int) -> int {
    rot_scale_down(r.c * x - r.s * y)
}

/// Ordinate of `(x, y)` rotated by `r`, before scaling down.
pub open spec fn rotated_y_spec(r: Rot, x: int, y: int) -> int {
    rot_scale_down(r.s * x + r.c * y)
}

/// Divides a product of a coordinate and a fixed-point rotation component by
/// `ROT_ONE`, rounding towards zero.
fn scale_down(p: i64) -> (r: i64)
    requires
        p > i64::MIN,
    ensures
        r == rot_scale_down(p as int),
{
    if p >= 0 {
        p / ROT_ONE
    } else {
        let m: i64 = -p;
        -(m / ROT_ONE)
    }
}

/// Rotates the point `(x, y)` by `r`.
///
/// The coordinate bound keeps both cross products inside the `i64` range:
/// `|c*x| + |s*y| <= 2 * ROT_ONE * GEOM_LIMIT < i64::MAX`.
pub fn rotate_point(r: Rot, x: i64, y: i64) -> (p: (i64, i64))
    requires
        r.bounded(),
        -GEOM_LIMIT <= x <= GEOM_LIMIT,
        -GEOM_LIMIT <= y <= GEOM_LIMIT,
    ensures
        p.0 == rotated_x_spec(r, x as int, y as int),
        p.1 == rotated_y_spec(r, x as int, y as int),
        -0x4000_0000_0000 <= p.0 <= 0x4000_0000_0000,
        -0x4000_0000_0000 <= p.1 <= 0x4000_0000_0000,
{
    proof {
        assert(-0x2000_0000_0000_0000 <= r.c * x <= 0x2000_0000_0000_0000
            && -0x2000_0000_0000_0000 <= r.s * y <= 0x2000_0000_0000_0000
            && -0x2000_0000_0000_0000 <= r.s * x <= 0x2000_0000_0000_0000
            && -0x2000_0000_0000_0000 <= r.c * y <= 0x2000_0000_0000_0000)
            by (nonlinear_arith)
            requires
                -ROT_ONE <= r.c <= ROT_ONE,
                -ROT_ONE <= r.s <= ROT_ONE,
                -GEOM_LIMIT <= x <= GEOM_LIMIT,
                -GEOM_LIMIT <= y <= GEOM_LIMIT,
        ;
    }
    let px: i64 = r.c * x - r.s * y;
    let py: i64 = r.s * x + r.c * y;
    (scale_down(px), scale_down(py))
}

} // verus!
