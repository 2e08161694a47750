//! The clamped unit-interval scalar used for every opacity and alpha value.
//!
//! A `PercentScalar` stores a fraction of the form `value / UNIT` in fixed
//! point.  Construction clamps arbitrary input into `[0, UNIT]`, so no
//! representable scalar ever escapes the unit interval, and combining two
//! scalars multiplies the fractions they stand for, truncating to the
//! nearest representable value below.

use vstd::prelude::*;
use vstd::arithmetic::div_mod::{
    lemma_div_is_ordered, lemma_div_multiples_vanish, lemma_div_pos_is_pos,
    lemma_fundamental_div_mod, lemma_mod_bound,
};

verus! {

/// Number of fixed-point steps in the unit interval: a scalar holding
/// `UNIT` stands for 1.0 and one holding `0` stands for 0.0.
pub const UNIT: u32 = 65536;

/// What clamping an arbitrary signed input into `[0, UNIT]` yields.
pub open spec fn clamped(raw: int) -> int {
    if raw < 0 {
        0
    } else if raw > UNIT {
        UNIT as int
    } else {
        raw
    }
}

/// The truncating fixed-point product: the largest representable value
/// not above `(x / UNIT) * (y / UNIT)`, expressed in units of `1 / UNIT`.
pub open spec fn mul_down(x: int, y: int) -> int {
    (x * y) / (UNIT as int)
}

/// A fixed-point value lies in the unit interval.
pub open spec fn ps_wf(v: int) -> bool {
    0 <= v <= UNIT
}

/// Two fixed-point values are within one representable step of each
/// other: the tolerance that truncating composition can introduce.
pub open spec fn ps_close(x: int, y: int) -> bool {
    -1 <= x - y <= 1
}

/// A scalar confined to `[0, 1]`, stored as `value / UNIT` in fixed point.
///
/// Every construction path clamps, so a well-typed value always satisfies
/// `ps_wf`; out-of-range input is corrected, never rejected.
#[derive(Clone, Copy, Debug, PartialEq, Eq, Structural)]
pub struct PercentScalar {
    value: u32,
}

impl View for PercentScalar {
    type V = int;

    closed spec fn view(&self) -> int {
        self.value as int
    }
}

impl PercentScalar {
    #[verifier::type_invariant]
    spec fn inv(self) -> bool {
        ps_wf(self@)
    }

    /// Builds a scalar from a signed fixed-point input, clamping it into
    /// the unit interval; never fails.
    pub fn new(raw: i64) -> (r: Self)
        ensures
            r@ == clamped(raw as int),
    {
        if raw < 0 {
            PercentScalar { value: 0 }
        } else if raw > UNIT as i64 {
            PercentScalar { value: UNIT }
        } else {
            PercentScalar { value: raw as u32 }
        }
    }

    /// The stored fixed-point value, always within `[0, UNIT]`.
    pub fn get(self) -> (r: u32)
        ensures
            r as int == self@,
            ps_wf(self@),
    {
        proof {
            use_type_invariant(self);
        }
        self.value
    }

    /// Percentage-of-percentage composition: the truncating fixed-point
    /// product of the two fractions, which needs no further clamping.
    pub fn combine(self, other: Self) -> (r: Self)
        ensures
            r@ == mul_down(self@, other@),
            ps_wf(r@),
    {
        proof {
            use_type_invariant(self);
            use_type_invariant(other);
            let u = UNIT as int;
            assert(0 <= self@ * other@ <= u * u) by (nonlinear_arith)
                requires
                    0 <= self@ <= u,
                    0 <= other@ <= u,
            ;
        }
        let prod: u64 = (self.value as u64) * (other.value as u64);
        let q: u64 = prod / (UNIT as u64);
        proof {
            let u = UNIT as int;
            lemma_div_is_ordered(self@ * other@, u * u, u);
            lemma_div_multiples_vanish(u, u);
            lemma_div_pos_is_pos(self@ * other@, u);
        }
        PercentScalar { value: q as u32 }
    }

    /// Uniform scaling of an unconstrained fixed-point quantity `x` by this
    /// scalar; the result is not re-clamped.
    pub fn scale(self, x: u32) -> (r: u32)
        ensures
            r as int == mul_down(self@, x as int),
    {
        proof {
            use_type_invariant(self);
            let u = UNIT as int;
            assert(0 <= self@ * (x as int) <= u * 0xffff_ffff) by (nonlinear_arith)
                requires
                    0 <= self@ <= u,
                    0 <= x as int <= 0xffff_ffff,
            ;
        }
        let prod: u64 = (self.value as u64) * (x as u64);
        let q: u64 = prod / (UNIT as u64);
        proof {
            let u = UNIT as int;
            lemma_div_is_ordered(self@ * (x as int), u * 0xffff_ffff, u);
            lemma_div_multiples_vanish(0xffff_ffff, u);
            lemma_div_pos_is_pos(self@ * (x as int), u);
        }
        q as u32
    }
}

impl Default for PercentScalar {
    /// The default scalar is 1.0: fully opaque, no attenuation.
    fn default() -> (r: Self)
        ensures
            r@ == UNIT as int,
    {
        PercentScalar { value: UNIT }
    }
}

/// The fraction a scalar stands for is never negative.
pub proof fn lemma_percent_nonneg(p: PercentScalar)
    ensures
        0 <= p@,
{
}

/// The view determines the scalar: equal fractions are equal values.
pub proof fn lemma_percent_view_injective(p: PercentScalar, q: PercentScalar)
    requires
        p@ == q@,
    ensures
        p == q,
{
}

/// Scaling by 1.0 is the identity on any nonnegative quantity.
pub proof fn lemma_mul_down_one(x: int)
    requires
        0 <= x,
    ensures
        mul_down(x, UNIT as int) == x,
{
    let u = UNIT as int;
    assert(x * u == u * x) by (nonlinear_arith);
    lemma_div_multiples_vanish(x, u);
}

/// The truncating product never leaves the unit interval and never
/// exceeds its unconstrained operand.
pub proof fn lemma_mul_down_bounds(x: int, y: int)
    requires
        0 <= x,
        ps_wf(y),
    ensures
        0 <= mul_down(x, y) <= x,
{
    let u = UNIT as int;
    assert(0 <= x * y <= x * u) by (nonlinear_arith)
        requires
            0 <= x,
            0 <= y <= u,
    ;
    lemma_div_pos_is_pos(x * y, u);
    lemma_div_is_ordered(x * y, x * u, u);
    lemma_mul_down_one(x);
}

/// For unit-range operands the truncating product is already in range:
/// clamping it is the identity, so `combine` returns exactly the clamped
/// product of the two fractions.
pub proof fn lemma_mul_down_needs_no_clamp(x: int, y: int)
    requires
        ps_wf(x),
        ps_wf(y),
    ensures
        clamped(mul_down(x, y)) == mul_down(x, y),
{
    lemma_mul_down_bounds(x, y);
}

/// Composition of scalars is commutative.
pub proof fn lemma_mul_down_comm(x: int, y: int)
    ensures
        mul_down(x, y) == mul_down(y, x),
{
    assert(x * y == y * x) by (nonlinear_arith);
}

/// Associativity of composition up to truncation: scaling `v` by `a` and
/// then by `b` lands within one fixed-point step of scaling `v` by the
/// composition of `a` and `b`.
#[verifier::rlimit(50)]
pub proof fn lemma_mul_down_assoc_close(v: int, a: int, b: int)
    requires
        ps_wf(v),
        ps_wf(a),
        ps_wf(b),
    ensures
        -1 <= mul_down(mul_down(v, a), b) - mul_down(v, mul_down(a, b)) <= 1,
{
    let u = UNIT as int;
    let d1 = (v * a) / u;
    let r1 = (v * a) % u;
    let lft = (d1 * b) / u;
    let r2 = (d1 * b) % u;
    let d2 = (a * b) / u;
    let q1 = (a * b) % u;
    let rgt = (v * d2) / u;
    let q2 = (v * d2) % u;
    lemma_fundamental_div_mod(v * a, u);
    lemma_mod_bound(v * a, u);
    lemma_fundamental_div_mod(d1 * b, u);
    lemma_mod_bound(d1 * b, u);
    lemma_fundamental_div_mod(a * b, u);
    lemma_mod_bound(a * b, u);
    lemma_fundamental_div_mod(v * d2, u);
    lemma_mod_bound(v * d2, u);
    let s1 = r1 * b + r2 * u;
    let s2 = v * q1 + q2 * u;
    assert((v * a) * b == u * (d1 * b) + r1 * b) by (nonlinear_arith)
        requires
            v * a == u * d1 + r1,
    ;
    assert(lft * (u * u) == (v * a) * b - s1) by (nonlinear_arith)
        requires
            (v * a) * b == u * (d1 * b) + r1 * b,
            d1 * b == u * lft + r2,
            s1 == r1 * b + r2 * u,
    ;
    assert(v * (a * b) == u * (v * d2) + v * q1) by (nonlinear_arith)
        requires
            a * b == u * d2 + q1,
    ;
    assert(rgt * (u * u) == v * (a * b) - s2) by (nonlinear_arith)
        requires
            v * (a * b) == u * (v * d2) + v * q1,
            v * d2 == u * rgt + q2,
            s2 == v * q1 + q2 * u,
    ;
    assert((v * a) * b == v * (a * b)) by (nonlinear_arith);
    assert(0 <= s1 < 2 * (u * u)) by (nonlinear_arith)
        requires
            s1 == r1 * b + r2 * u,
            0 <= r1 < u,
            0 <= r2 < u,
            0 <= b <= u,
            0 < u,
    ;
    assert(0 <= s2 < 2 * (u * u)) by (nonlinear_arith)
        requires
            s2 == v * q1 + q2 * u,
            0 <= q1 < u,
            0 <= q2 < u,
            0 <= v <= u,
            0 < u,
    ;
    assert(-1 <= lft - rgt <= 1) by (nonlinear_arith)
        requires
            lft * (u * u) == v * (a * b) - s1,
            rgt * (u * u) == v * (a * b) - s2,
            0 <= s1 < 2 * (u * u),
            0 <= s2 < 2 * (u * u),
            0 < u,
    ;
}

} // verus!
