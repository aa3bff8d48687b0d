//! Displacement vectors in the plane: field-wise algebra, tolerant equality,
//! Euclidean magnitude and normalization.
//!
//! Components are exact fixed-point values: `i64` counts of raw units, with
//! [`UNIT`] raw units to one unit of length. One raw unit is therefore
//! `10^-7` of a unit, which is also the tolerance [`EPSILON`] of the
//! kernel's tolerant equality.

use vstd::prelude::*;

use crate::num::{
    abs_val, div_trunc, isqrt, lemma_sqrt_floor_at_least, lemma_sqrt_floor_below,
    lemma_sqrt_floor_bounds, sqrt_floor,
};
use crate::point::Point;

verus! {

/// Raw units to one unit of length.
pub const UNIT: i64 = 10_000_000;

/// Tolerance of the tolerant equality, in raw units: one raw unit, the exact
/// image of `10^-7` of a unit of length.
pub const EPSILON: i64 = 1;

/// Largest component magnitude, in raw units, that a vector may hold. It is
/// twice the coordinate bound of a position, so that the difference of any
/// two positions is a representable vector.
pub const VEC_LIMIT: i64 = 2_000_000_000;

/// A displacement in the plane, in raw fixed-point components.
#[derive(Clone, Copy, PartialEq, Debug)]
pub struct Vector {
    pub dx: i64,
    pub dy: i64,
}

impl Vector {
    /// Both components lie within the kernel's displacement space.
    pub open spec fn wf(self) -> bool {
        &&& -VEC_LIMIT <= self.dx <= VEC_LIMIT
        &&& -VEC_LIMIT <= self.dy <= VEC_LIMIT
    }

    /// The squared magnitude, as a mathematical integer.
    pub open spec fn mag2(self) -> int {
        self.dx * self.dx + self.dy * self.dy
    }

    /// Tolerant equality: both component-wise absolute differences are below
    /// [`EPSILON`].
    pub open spec fn approx_eq(self, other: Vector) -> bool {
        &&& abs_val(self.dx - other.dx) < EPSILON
        &&& abs_val(self.dy - other.dy) < EPSILON
    }

    /// The unit vector in the direction of `self`, as normalization computes
    /// it: each component scaled by [`UNIT`] and divided, truncating, by the
    /// magnitude.
    pub open spec fn normalized_spec(self) -> Vector {
        let m = sqrt_floor(self.mag2());
        Vector {
            dx: div_trunc(self.dx * UNIT, m) as i64,
            dy: div_trunc(self.dy * UNIT, m) as i64,
        }
    }

    /// The additive identity.
    pub fn zero() -> (v: Vector)
        ensures
            v == (Vector { dx: 0i64, dy: 0i64 }),
    {
        Vector { dx: 0, dy: 0 }
    }

    /// The displacement from `rhs` to `lhs`: the field-wise difference of the
    /// two positions. The sole bridge from point space into vector space.
    pub fn difference(lhs: &Point, rhs: &Point) -> (v: Vector)
        requires
            lhs.wf(),
            rhs.wf(),
        ensures
            v.dx == lhs.x - rhs.x,
            v.dy == lhs.y - rhs.y,
            v.wf(),
    {
        Vector { dx: lhs.x - rhs.x, dy: lhs.y - rhs.y }
    }

    /// Field-wise addition.
    pub fn add(&self, rhs: &Vector) -> (r: Vector)
        requires
            i64::MIN <= self.dx + rhs.dx <= i64::MAX,
            i64::MIN <= self.dy + rhs.dy <= i64::MAX,
        ensures
            r.dx == self.dx + rhs.dx,
            r.dy == self.dy + rhs.dy,
    {
        Vector { dx: self.dx + rhs.dx, dy: self.dy + rhs.dy }
    }

    /// Field-wise in-place accumulation.
    pub fn add_assign(&mut self, rhs: &Vector)
        requires
            i64::MIN <= old(self).dx + rhs.dx <= i64::MAX,
            i64::MIN <= old(self).dy + rhs.dy <= i64::MAX,
        ensures
            final(self).dx == old(self).dx + rhs.dx,
            final(self).dy == old(self).dy + rhs.dy,
    {
        self.dx = self.dx + rhs.dx;
        self.dy = self.dy + rhs.dy;
    }

    /// Field-wise scalar multiplication by an integer scalar.
    pub fn scale(&self, scalar: i64) -> (r: Vector)
        requires
            i64::MIN <= self.dx * scalar <= i64::MAX,
            i64::MIN <= self.dy * scalar <= i64::MAX,
        ensures
            r.dx == self.dx * scalar,
            r.dy == self.dy * scalar,
    {
        Vector { dx: self.dx * scalar, dy: self.dy * scalar }
    }

    /// Field-wise scalar division by a nonzero integer scalar, truncating
    /// toward zero.
    pub fn div(&self, scalar: i64) -> (r: Vector)
        requires
            self.wf(),
            scalar != 0,
            scalar != i64::MIN,
        ensures
            r.dx == div_trunc(self.dx as int, scalar as int),
            r.dy == div_trunc(self.dy as int, scalar as int),
            r.wf(),
    {
        let ak: i64 = if scalar < 0 {
            -scalar
        } else {
            scalar
        };
        let rdx = div_trunc_exec(self.dx, ak, scalar < 0);
        let rdy = div_trunc_exec(self.dy, ak, scalar < 0);
        Vector { dx: rdx, dy: rdy }
    }

    /// The inner product of the two vectors, in raw units squared.
    pub fn dot(&self, rhs: &Vector) -> (r: i64)
        requires
            self.wf(),
            rhs.wf(),
        ensures
            r == self.dx * rhs.dx + self.dy * rhs.dy,
    {
        proof {
            assert(-4_000_000_000_000_000_000 <= self.dx * rhs.dx <= 4_000_000_000_000_000_000)
                by (nonlinear_arith)
                requires
                    -2_000_000_000 <= self.dx <= 2_000_000_000,
                    -2_000_000_000 <= rhs.dx <= 2_000_000_000,
            ;
            assert(-4_000_000_000_000_000_000 <= self.dy * rhs.dy <= 4_000_000_000_000_000_000)
                by (nonlinear_arith)
                requires
                    -2_000_000_000 <= self.dy <= 2_000_000_000,
                    -2_000_000_000 <= rhs.dy <= 2_000_000_000,
            ;
        }
        self.dx * rhs.dx + self.dy * rhs.dy
    }

    /// Tolerant equality of the two vectors.
    pub fn approx_equals(&self, other: &Vector) -> (r: bool)
        requires
            self.wf(),
            other.wf(),
        ensures
            r == self.approx_eq(*other),
    {
        let dx_diff = self.dx - other.dx;
        let dy_diff = self.dy - other.dy;
        let x = if dx_diff < 0 {
            -dx_diff
        } else {
            dx_diff
        };
        let y = if dy_diff < 0 {
            -dy_diff
        } else {
            dy_diff
        };
        x < EPSILON && y < EPSILON
    }

    /// The Euclidean norm, rounded down to a raw unit: the floor square root
    /// of the squared magnitude. Always at least zero.
    pub fn magnitude(&self) -> (r: i64)
        requires
            self.wf(),
        ensures
            r == sqrt_floor(self.mag2()),
            r >= 0,
    {
        proof {
            assert(0 <= self.dx * self.dx <= 4_000_000_000_000_000_000) by (nonlinear_arith)
                requires
                    -2_000_000_000 <= self.dx <= 2_000_000_000,
            ;
            assert(0 <= self.dy * self.dy <= 4_000_000_000_000_000_000) by (nonlinear_arith)
                requires
                    -2_000_000_000 <= self.dy <= 2_000_000_000,
            ;
        }
        let d: i64 = self.dx * self.dx + self.dy * self.dy;
        let r = isqrt(d as u64);
        proof {
            lemma_sqrt_floor_below(d as int, 3_000_000_001);
        }
        r as i64
    }

    /// The unit vector in the same direction, or `None` when the vector is
    /// the zero vector under tolerant equality: a zero vector has no defined
    /// direction, and no default direction is substituted.
    pub fn normalized(&self) -> (r: Option<Vector>)
        requires
            self.wf(),
        ensures
            self.approx_eq((Vector { dx: 0i64, dy: 0i64 })) <==> r is None,
            !self.approx_eq((Vector { dx: 0i64, dy: 0i64 })) ==> r == Some(self.normalized_spec()),
            !self.approx_eq((Vector { dx: 0i64, dy: 0i64 })) ==> self.normalized_spec().wf(),
    {
        if self.approx_equals(&Vector::zero()) {
            return None;
        }
        proof {
            assert(self.mag2() >= 1) by (nonlinear_arith)
                requires
                    self.dx != 0 || self.dy != 0,
                    self.mag2() == self.dx * self.dx + self.dy * self.dy,
            ;
            lemma_sqrt_floor_at_least(self.mag2(), 1);
            assert(self.dx * self.dx <= self.mag2() && self.dy * self.dy <= self.mag2())
                by (nonlinear_arith)
                requires
                    self.mag2() == self.dx * self.dx + self.dy * self.dy,
            ;
        }
        let magnitude = self.magnitude();
        let rdx = scale_to_unit(self.dx, magnitude, Ghost(self.mag2()));
        let rdy = scale_to_unit(self.dy, magnitude, Ghost(self.mag2()));
        Some(Vector { dx: rdx, dy: rdy })
    }
}

/// One component of normalization: `c * UNIT / m`, truncating toward zero.
/// `m` is the magnitude of the vector that `c` is a component of, passed with
/// its squared magnitude `d` so that `|c| <= m` is known.
fn scale_to_unit(c: i64, m: i64, Ghost(d): Ghost<int>) -> (r: i64)
    requires
        -VEC_LIMIT <= c <= VEC_LIMIT,
        m >= 1,
        m == sqrt_floor(d),
        c * c <= d,
    ensures
        r == div_trunc(c * UNIT, m as int),
        -UNIT <= r <= UNIT,
{
    proof {
        lemma_sqrt_floor_bounds(d);
        assert(abs_val(c as int) <= m) by (nonlinear_arith)
            requires
                c * c <= d,
                d < (m + 1) * (m + 1),
                m >= 1,
        ;
    }
    let ac: i64 = if c < 0 {
        -c
    } else {
        c
    };
    let prod: i64 = ac * UNIT;
    let q: i64 = ((prod as u64) / (m as u64)) as i64;
    proof {
        vstd::arithmetic::div_mod::lemma_div_is_ordered(prod as int, m as int * UNIT, m as int);
        vstd::arithmetic::div_mod::lemma_div_multiples_vanish(UNIT as int, m as int);
        vstd::arithmetic::div_mod::lemma_div_pos_is_pos(prod as int, m as int);
    }
    if c < 0 {
        -q
    } else {
        q
    }
}

/// The quotient `c / ak` with the sign of the true quotient, truncating
/// toward zero: `ak` is the divisor's absolute value and `flip` whether the
/// divisor is negative.
fn div_trunc_exec(c: i64, ak: i64, flip: bool) -> (r: i64)
    requires
        -VEC_LIMIT <= c <= VEC_LIMIT,
        ak >= 1,
    ensures
        flip ==> r == div_trunc(c as int, -(ak as int)),
        !flip ==> r == div_trunc(c as int, ak as int),
        -VEC_LIMIT <= r <= VEC_LIMIT,
{
    let ac: i64 = if c < 0 {
        -c
    } else {
        c
    };
    let q: i64 = ((ac as u64) / (ak as u64)) as i64;
    proof {
        vstd::arithmetic::div_mod::lemma_div_is_ordered(ac as int, VEC_LIMIT as int, ak as int);
        vstd::arithmetic::div_mod::lemma_div_nonincreasing(VEC_LIMIT as int, ak as int);
        vstd::arithmetic::div_mod::lemma_div_pos_is_pos(ac as int, ak as int);
    }
    if (c < 0) != flip {
        -q
    } else {
        q
    }
}

/// Normalization is accurate: for a vector at least one unit long (magnitude
/// at least [`UNIT`] raw units), the magnitude of the normalized vector lies
/// within three raw units — three times `10^-7` of a unit — below one unit,
/// and never above it.
pub proof fn lemma_normalized_magnitude_near_unit(v: Vector)
    requires
        v.wf(),
        sqrt_floor(v.mag2()) >= UNIT,
    ensures
        UNIT - 3 <= sqrt_floor(v.normalized_spec().mag2()) <= UNIT,
{
    let u = UNIT as int;
    let dx = v.dx as int;
    let dy = v.dy as int;
    let d = v.mag2();
    let m = sqrt_floor(d);
    let a = abs_val(dx);
    let b = abs_val(dy);
    assert(a == dx || a == -dx);
    assert(b == dy || b == -dy);
    assert(d == a * a + b * b) by (nonlinear_arith)
        requires
            d == dx * dx + dy * dy,
            a == dx || a == -dx,
            b == dy || b == -dy,
    ;
    assert(d >= 0) by (nonlinear_arith)
        requires
            d == a * a + b * b,
            a >= 0,
            b >= 0,
    ;
    lemma_sqrt_floor_bounds(d);
    assert((m + 1) * (m + 1) == m * m + 2 * m + 1) by (nonlinear_arith);
    assert(a <= m && b <= m) by (nonlinear_arith)
        requires
            d == a * a + b * b,
            a >= 0,
            b >= 0,
            m >= 0,
            d < (m + 1) * (m + 1),
            (m + 1) * (m + 1) == m * m + 2 * m + 1,
    ;

    let q = (a * u) / m;
    let p = (b * u) / m;
    vstd::arithmetic::div_mod::lemma_fundamental_div_mod(a * u, m);
    vstd::arithmetic::div_mod::lemma_mod_bound(a * u, m);
    vstd::arithmetic::div_mod::lemma_fundamental_div_mod(b * u, m);
    vstd::arithmetic::div_mod::lemma_mod_bound(b * u, m);
    vstd::arithmetic::div_mod::lemma_div_pos_is_pos(a * u, m);
    vstd::arithmetic::div_mod::lemma_div_pos_is_pos(b * u, m);
    vstd::arithmetic::div_mod::lemma_div_is_ordered(a * u, m * u, m);
    vstd::arithmetic::div_mod::lemma_div_is_ordered(b * u, m * u, m);
    vstd::arithmetic::div_mod::lemma_div_multiples_vanish(u, m);
    assert(m * q <= a * u < m * q + m);
    assert(m * p <= b * u < m * p + m);
    assert(0 <= q <= u);
    assert(0 <= p <= u);

    let mq = m * q;
    let mp = m * p;
    let au = a * u;
    let bu = b * u;

    // The squared magnitude of the normalized vector, scaled by m * m, is
    // within 2 * m * u raw units of d * u * u on either side.
    assert(mq * mq <= au * au) by (nonlinear_arith)
        requires
            0 <= mq,
            mq <= au,
    ;
    assert(mp * mp <= bu * bu) by (nonlinear_arith)
        requires
            0 <= mp,
            mp <= bu,
    ;
    assert(mq * mq >= au * au - 2 * au * m) by (nonlinear_arith)
        requires
            mq >= 0,
            au < mq + m,
            au >= 0,
            m >= 1,
    ;
    assert(mp * mp >= bu * bu - 2 * bu * m) by (nonlinear_arith)
        requires
            mp >= 0,
            bu < mp + m,
            bu >= 0,
            m >= 1,
    ;
    assert(mq * mq == (m * m) * (q * q) && mp * mp == (m * m) * (p * p)) by (nonlinear_arith)
        requires
            mq == m * q,
            mp == m * p,
    ;
    assert(au * au + bu * bu == d * (u * u)) by (nonlinear_arith)
        requires
            au == a * u,
            bu == b * u,
            d == a * a + b * b,
    ;
    assert((m * m) * (q * q + p * p) == (m * m) * (q * q) + (m * m) * (p * p))
        by (nonlinear_arith);

    // Upper bound: the scaled squared magnitude stays at or below
    // (u + 1) * (u + 1), exclusive, once m is at least u.
    assert(d * (u * u) <= (m * m + 2 * m) * (u * u)) by (nonlinear_arith)
        requires
            d <= m * m + 2 * m,
    ;
    assert((m * m) * (u * u + 2 * u + 1) > (m * m + 2 * m) * (u * u)) by (nonlinear_arith)
        requires
            m >= u,
            u >= 1,
    ;
    assert(q * q + p * p <= u * u + 2 * u) by (nonlinear_arith)
        requires
            (m * m) * (q * q + p * p) <= (m * m + 2 * m) * (u * u),
            (m * m) * (u * u + 2 * u + 1) > (m * m + 2 * m) * (u * u),
            m >= 1,
    ;

    // Lower bound: the scaled squared magnitude keeps the squared magnitude
    // at or above u * u - 4 * u.
    assert(2 * au * m + 2 * bu * m <= 4 * u * (m * m)) by (nonlinear_arith)
        requires
            au == a * u,
            bu == b * u,
            a + b <= 2 * m,
            u >= 1,
            m >= 1,
            a >= 0,
            b >= 0,
    ;
    assert(d * (u * u) >= (m * m) * (u * u)) by (nonlinear_arith)
        requires
            d >= m * m,
    ;
    assert((m * m) * (q * q + p * p) >= (m * m) * (u * u) - 4 * u * (m * m));
    assert(q * q + p * p >= u * u - 4 * u) by (nonlinear_arith)
        requires
            (m * m) * (q * q + p * p) >= (m * m) * (u * u) - 4 * u * (m * m),
            m >= 1,
    ;

    // The components of the normalized vector are exactly q and p up to sign.
    let nv = v.normalized_spec();
    assert(abs_val(dx * u) == a * u && abs_val(dy * u) == b * u);
    assert(nv.dx as int == q || nv.dx as int == -q);
    assert(nv.dy as int == p || nv.dy as int == -p);
    assert(nv.mag2() == q * q + p * p) by (nonlinear_arith)
        requires
            nv.mag2() == (nv.dx as int) * (nv.dx as int) + (nv.dy as int) * (nv.dy as int),
            nv.dx as int == q || nv.dx as int == -q,
            nv.dy as int == p || nv.dy as int == -p,
    ;

    assert((u - 3) * (u - 3) <= q * q + p * p && q * q + p * p < (u + 1) * (u + 1))
        by (nonlinear_arith)
        requires
            q * q + p * p >= u * u - 4 * u,
            q * q + p * p <= u * u + 2 * u,
            u == 10_000_000,
    ;
    lemma_sqrt_floor_at_least(nv.mag2(), u - 3);
    lemma_sqrt_floor_below(nv.mag2(), u + 1);
}

} // verus!
