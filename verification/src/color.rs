//! Colors with unit-interval channels, and the one operation the style
//! model asks of them: scaling the alpha channel by a percent scalar.

use vstd::prelude::*;
use crate::percent::{
    lemma_mul_down_assoc_close, lemma_mul_down_bounds, lemma_mul_down_one, lemma_percent_nonneg,
    lemma_percent_view_injective, mul_down, ps_close, ps_wf, PercentScalar, UNIT,
};

verus! {

/// An RGBA color whose four channels are unit-interval scalars.
#[derive(Clone, Copy, Debug, PartialEq, Eq, Structural)]
pub struct Color {
    pub r: PercentScalar,
    pub g: PercentScalar,
    pub b: PercentScalar,
    pub a: PercentScalar,
}

/// `res` is `c` with its alpha channel attenuated by `f` and every other
/// channel untouched.
pub open spec fn color_scaled(c: Color, f: PercentScalar, res: Color) -> bool {
    &&& res.r == c.r
    &&& res.g == c.g
    &&& res.b == c.b
    &&& res.a@ == mul_down(c.a@, f@)
}

/// Every channel of the color is well formed.
pub open spec fn color_wf(c: Color) -> bool {
    ps_wf(c.r@) && ps_wf(c.g@) && ps_wf(c.b@) && ps_wf(c.a@)
}

impl Color {
    /// Builds a color from its four channels.
    pub fn new(r: PercentScalar, g: PercentScalar, b: PercentScalar, a: PercentScalar) -> (c: Self)
        ensures
            c.r == r,
            c.g == g,
            c.b == b,
            c.a == a,
    {
        Color { r, g, b, a }
    }

    /// The fully transparent black color.
    pub fn transparent() -> (c: Self)
        ensures
            c.r@ == 0,
            c.g@ == 0,
            c.b@ == 0,
            c.a@ == 0,
    {
        let zero = PercentScalar::new(0);
        Color { r: zero, g: zero, b: zero, a: zero }
    }

    /// Multiplies the alpha channel by `factor`, leaving red, green and
    /// blue untouched; returns a new color, the input is consumed.
    pub fn scale_alpha(self, factor: PercentScalar) -> (res: Self)
        ensures
            color_scaled(self, factor, res),
    {
        Color { r: self.r, g: self.g, b: self.b, a: self.a.combine(factor) }
    }
}

/// The two colors agree on red, green and blue, and their alphas are
/// within one fixed-point step of each other.
pub open spec fn color_close(x: Color, y: Color) -> bool {
    &&& x.r == y.r
    &&& x.g == y.g
    &&& x.b == y.b
    &&& ps_close(x.a@, y.a@)
}

/// Scaling preserves well-formedness: attenuating a well-formed color
/// by a well-formed factor yields a well-formed color.
pub proof fn lemma_color_scaled_wf(c: Color, f: PercentScalar, r: Color)
    requires
        color_wf(c),
        ps_wf(f@),
        color_scaled(c, f, r),
    ensures
        color_wf(r),
{
    lemma_mul_down_bounds(c.a@, f@);
}

/// Scaling a color's alpha by 1.0 returns the color unchanged.
pub proof fn lemma_color_scaled_one(c: Color, f: PercentScalar, r: Color)
    requires
        f@ == UNIT as int,
        color_scaled(c, f, r),
    ensures
        r == c,
{
    lemma_percent_nonneg(c.a);
    lemma_mul_down_one(c.a@);
    lemma_percent_view_injective(r.a, c.a);
}

/// Scaling a color's alpha by `a` and then by `b` lands within one
/// fixed-point step of scaling it once by the composition of `a` and `b`.
pub proof fn lemma_color_scaled_assoc(
    c: Color,
    a: PercentScalar,
    b: PercentScalar,
    ab: PercentScalar,
    t: Color,
    twice: Color,
    once: Color,
)
    requires
        color_wf(c),
        ps_wf(a@),
        ps_wf(b@),
        ab@ == mul_down(a@, b@),
        color_scaled(c, a, t),
        color_scaled(t, b, twice),
        color_scaled(c, ab, once),
    ensures
        color_close(twice, once),
{
    lemma_mul_down_assoc_close(c.a@, a@, b@);
}

} // verus!
