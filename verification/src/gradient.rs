//! Multi-stop gradients: an ordered sequence of color stops, each with a
//! unit-interval position, and whole-structure alpha scaling that
//! attenuates every stop's alpha identically while keeping order.

use vstd::prelude::*;
use crate::color::{
    color_close, color_scaled, color_wf, lemma_color_scaled_assoc, lemma_color_scaled_one,
    lemma_color_scaled_wf, Color,
};
use crate::percent::{mul_down, ps_wf, PercentScalar, UNIT};

verus! {

/// One stop of a gradient: a color placed at a normalized offset along
/// the gradient axis.
#[derive(Clone, Copy, Debug, PartialEq, Eq, Structural)]
pub struct GradientStop {
    pub offset: PercentScalar,
    pub color: Color,
}

/// `res` is `s` with its color's alpha attenuated by `f`; the offset is
/// untouched.
pub open spec fn stop_scaled(s: GradientStop, f: PercentScalar, res: GradientStop) -> bool {
    &&& res.offset == s.offset
    &&& color_scaled(s.color, f, res.color)
}

/// Every stop of the sequence is scaled positionally: same length, and
/// the stop at each index is the scaled original at that index.
pub open spec fn stops_scaled(
    s: Seq<GradientStop>,
    f: PercentScalar,
    res: Seq<GradientStop>,
) -> bool {
    &&& res.len() == s.len()
    &&& forall|i: int| 0 <= i < s.len() ==> stop_scaled(s[i], f, #[trigger] res[i])
}

/// Every stop's color is well formed.
pub open spec fn stops_wf(s: Seq<GradientStop>) -> bool {
    forall|i: int| 0 <= i < s.len() ==> color_wf(#[trigger] s[i].color)
}

/// A linear multi-stop gradient; paint order and interpolation follow
/// the stop order.
#[derive(Clone, Debug, PartialEq)]
pub struct Gradient {
    pub stops: Vec<GradientStop>,
}

impl Gradient {
    /// Scales every stop's alpha by `factor`, preserving stop order and
    /// every offset; returns a new gradient, the input is consumed.
    pub fn scale_alpha(self, factor: PercentScalar) -> (res: Self)
        ensures
            stops_scaled(self.stops@, factor, res.stops@),
    {
        let n = self.stops.len();
        let mut out: Vec<GradientStop> = Vec::new();
        let mut i: usize = 0;
        while i < n
            invariant
                n == self.stops@.len(),
                i <= n,
                out@.len() == i,
                forall|j: int| 0 <= j < i ==> stop_scaled(self.stops@[j], factor, #[trigger] out@[j]),
            decreases n - i,
        {
            let s = self.stops[i];
            out.push(GradientStop { offset: s.offset, color: s.color.scale_alpha(factor) });
            i = i + 1;
        }
        Gradient { stops: out }
    }
}

/// The two stop sequences agree everywhere, except that alphas at each
/// position may differ by one fixed-point step.
pub open spec fn stops_close(x: Seq<GradientStop>, y: Seq<GradientStop>) -> bool {
    &&& x.len() == y.len()
    &&& forall|i: int| 0 <= i < x.len() ==> (#[trigger] x[i].offset == y[i].offset
        && color_close(x[i].color, y[i].color))
}

/// Scaling preserves well-formedness of every stop in the sequence.
pub proof fn lemma_stops_scaled_wf(s: Seq<GradientStop>, f: PercentScalar, r: Seq<GradientStop>)
    requires
        stops_wf(s),
        ps_wf(f@),
        stops_scaled(s, f, r),
    ensures
        stops_wf(r),
{
    assert forall|i: int| 0 <= i < r.len() implies color_wf(#[trigger] r[i].color) by {
        lemma_color_scaled_wf(s[i].color, f, r[i].color);
    }
}

/// Scaling every stop by 1.0 returns the stop sequence unchanged.
pub proof fn lemma_stops_scaled_one(s: Seq<GradientStop>, f: PercentScalar, r: Seq<GradientStop>)
    requires
        f@ == UNIT as int,
        stops_scaled(s, f, r),
    ensures
        r == s,
{
    assert forall|i: int| 0 <= i < s.len() implies r[i] == s[i] by {
        lemma_color_scaled_one(s[i].color, f, r[i].color);
    }
    assert(r =~= s);
}

/// Scaling every stop by `a` and then by `b` lands within one
/// fixed-point step, at each position, of scaling once by the
/// composition of `a` and `b`.
pub proof fn lemma_stops_scaled_assoc(
    s: Seq<GradientStop>,
    a: PercentScalar,
    b: PercentScalar,
    ab: PercentScalar,
    t: Seq<GradientStop>,
    twice: Seq<GradientStop>,
    once: Seq<GradientStop>,
)
    requires
        stops_wf(s),
        ps_wf(a@),
        ps_wf(b@),
        ab@ == mul_down(a@, b@),
        stops_scaled(s, a, t),
        stops_scaled(t, b, twice),
        stops_scaled(s, ab, once),
    ensures
        stops_close(twice, once),
{
    assert forall|i: int|
        0 <= i < twice.len() implies (#[trigger] twice[i].offset == once[i].offset
        && color_close(twice[i].color, once[i].color)) by {
        lemma_color_scaled_assoc(
            s[i].color,
            a,
            b,
            ab,
            t[i].color,
            twice[i].color,
            once[i].color,
        );
    }
}

} // verus!
