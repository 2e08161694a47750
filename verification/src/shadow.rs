//! Drop and inset shadows, and the ordered stack of them a surface
//! carries.  Paint order is sequence order: later entries are drawn on
//! top.  Structural equality of stacks compares length, then elementwise.

use vstd::prelude::*;
use crate::color::{
    color_close, color_scaled, color_wf, lemma_color_scaled_assoc, lemma_color_scaled_one,
    lemma_color_scaled_wf, Color,
};
use crate::geometry::Vector;
use crate::percent::{mul_down, ps_wf, PercentScalar, UNIT};

verus! {

/// One box shadow: color, offset, blur radius and spread in pixels, and
/// whether it is drawn inside the surface instead of behind it.
#[derive(Clone, Copy, Debug, PartialEq, Eq, Structural)]
pub struct ExtBoxShadow {
    /// The color of the shadow.
    pub color: Color,
    /// The offset of the shadow.
    pub offset: Vector,
    /// The blur radius of the shadow in pixels.
    pub blur_radius: u32,
    /// The spread distance of the shadow in pixels.
    pub spread: u32,
    /// Whether this is an inner shadow.
    pub is_inset: bool,
}

/// `res` is `s` with its color's alpha attenuated by `f`; offset, blur,
/// spread and the inset flag pass through untouched.
pub open spec fn box_shadow_scaled(s: ExtBoxShadow, f: PercentScalar, res: ExtBoxShadow) -> bool {
    &&& color_scaled(s.color, f, res.color)
    &&& res.offset == s.offset
    &&& res.blur_radius == s.blur_radius
    &&& res.spread == s.spread
    &&& res.is_inset == s.is_inset
}

/// Every shadow of the sequence is scaled positionally: same length, and
/// the entry at each index is the scaled original at that index.
pub open spec fn stack_scaled(
    s: Seq<ExtBoxShadow>,
    f: PercentScalar,
    res: Seq<ExtBoxShadow>,
) -> bool {
    &&& res.len() == s.len()
    &&& forall|i: int| 0 <= i < s.len() ==> box_shadow_scaled(s[i], f, #[trigger] res[i])
}

/// Every shadow color of the sequence is well formed.
pub open spec fn stack_wf(s: Seq<ExtBoxShadow>) -> bool {
    forall|i: int| 0 <= i < s.len() ==> color_wf(#[trigger] s[i].color)
}

impl ExtBoxShadow {
    /// Scales only the shadow color's alpha by `factor`; every geometric
    /// field passes through untouched.
    pub fn scale_alpha(self, factor: PercentScalar) -> (res: Self)
        ensures
            box_shadow_scaled(self, factor, res),
    {
        ExtBoxShadow { color: self.color.scale_alpha(factor), ..self }
    }
}

/// An ordered stack of box shadows.
#[derive(Clone, Debug)]
pub struct ExtShadow {
    /// The shadows, in paint order.
    pub shadows: Vec<ExtBoxShadow>,
}

impl ExtShadow {
    /// Maps alpha scaling over every shadow entry, preserving order;
    /// returns a new stack, the input is consumed.
    pub fn scale_alpha(self, factor: PercentScalar) -> (res: Self)
        ensures
            stack_scaled(self.shadows@, factor, res.shadows@),
    {
        let n = self.shadows.len();
        let mut out: Vec<ExtBoxShadow> = Vec::new();
        let mut i: usize = 0;
        while i < n
            invariant
                n == self.shadows@.len(),
                i <= n,
                out@.len() == i,
                forall|j: int| 0 <= j < i ==> box_shadow_scaled(
                    self.shadows@[j],
                    factor,
                    #[trigger] out@[j],
                ),
            decreases n - i,
        {
            let s = self.shadows[i];
            out.push(s.scale_alpha(factor));
            i = i + 1;
        }
        ExtShadow { shadows: out }
    }
}

impl PartialEq for ExtShadow {
    /// Stacks of different lengths are never equal; stacks of equal
    /// length are equal exactly when every positional pair is equal.
    fn eq(&self, other: &Self) -> (r: bool) {
        if self.shadows.len() != other.shadows.len() {
            false
        } else {
            let len = self.shadows.len();
            let mut i: usize = 0;
            let mut all_eq = true;
            while i < len
                invariant
                    len == self.shadows@.len(),
                    len == other.shadows@.len(),
                    i <= len,
                    all_eq <==> (forall|j: int|
                        0 <= j < i ==> self.shadows@[j] == #[trigger] other.shadows@[j]),
                decreases len - i,
            {
                if self.shadows[i] != other.shadows[i] {
                    all_eq = false;
                }
                i = i + 1;
            }
            proof {
                if all_eq {
                    assert(self.shadows@ =~= other.shadows@);
                }
            }
            all_eq
        }
    }
}

impl vstd::std_specs::cmp::PartialEqSpecImpl for ExtShadow {
    open spec fn obeys_eq_spec() -> bool {
        true
    }

    open spec fn eq_spec(&self, other: &Self) -> bool {
        self.shadows@ == other.shadows@
    }
}

impl Default for ExtShadow {
    /// The empty stack: no shadows at all.
    fn default() -> (r: Self)
        ensures
            r.shadows@ == Seq::<ExtBoxShadow>::empty(),
    {
        ExtShadow { shadows: Vec::new() }
    }
}

/// The two shadow sequences agree everywhere, except that the color
/// alpha at each position may differ by one fixed-point step.
pub open spec fn stack_close(x: Seq<ExtBoxShadow>, y: Seq<ExtBoxShadow>) -> bool {
    &&& x.len() == y.len()
    &&& forall|i: int| 0 <= i < x.len() ==> (#[trigger] x[i].offset == y[i].offset
        && x[i].blur_radius == y[i].blur_radius && x[i].spread == y[i].spread
        && x[i].is_inset == y[i].is_inset && color_close(x[i].color, y[i].color))
}

/// Scaling preserves well-formedness of every shadow color in the
/// sequence.
pub proof fn lemma_stack_scaled_wf(s: Seq<ExtBoxShadow>, f: PercentScalar, r: Seq<ExtBoxShadow>)
    requires
        stack_wf(s),
        ps_wf(f@),
        stack_scaled(s, f, r),
    ensures
        stack_wf(r),
{
    assert forall|i: int| 0 <= i < r.len() implies color_wf(#[trigger] r[i].color) by {
        lemma_color_scaled_wf(s[i].color, f, r[i].color);
    }
}

/// Scaling every shadow by 1.0 returns the sequence unchanged.
pub proof fn lemma_stack_scaled_one(s: Seq<ExtBoxShadow>, f: PercentScalar, r: Seq<ExtBoxShadow>)
    requires
        f@ == UNIT as int,
        stack_scaled(s, f, r),
    ensures
        r == s,
{
    assert forall|i: int| 0 <= i < s.len() implies r[i] == s[i] by {
        lemma_color_scaled_one(s[i].color, f, r[i].color);
    }
    assert(r =~= s);
}

/// Scaling every shadow by `a` and then by `b` lands within one
/// fixed-point step, at each position, of scaling once by the
/// composition of `a` and `b`.
pub proof fn lemma_stack_scaled_assoc(
    s: Seq<ExtBoxShadow>,
    a: PercentScalar,
    b: PercentScalar,
    ab: PercentScalar,
    t: Seq<ExtBoxShadow>,
    twice: Seq<ExtBoxShadow>,
    once: Seq<ExtBoxShadow>,
)
    requires
        stack_wf(s),
        ps_wf(a@),
        ps_wf(b@),
        ab@ == mul_down(a@, b@),
        stack_scaled(s, a, t),
        stack_scaled(t, b, twice),
        stack_scaled(s, ab, once),
    ensures
        stack_close(twice, once),
{
    assert forall|i: int|
        0 <= i < twice.len() implies (#[trigger] twice[i].offset == once[i].offset
        && twice[i].blur_radius == once[i].blur_radius && twice[i].spread == once[i].spread
        && twice[i].is_inset == once[i].is_inset && color_close(twice[i].color, once[i].color)) by {
        lemma_color_scaled_assoc(
            s[i].color,
            a,
            b,
            ab,
            t[i].color,
            twice[i].color,
            once[i].color,
        );
    }
}

/// Sequence equality of shadow stacks is exactly "same length, and every
/// positional pair equal".
pub proof fn lemma_stack_eq_elementwise(a: Seq<ExtBoxShadow>, b: Seq<ExtBoxShadow>)
    ensures
        (a == b) <==> (a.len() == b.len() && (forall|i: int|
            0 <= i < a.len() ==> a[i] == #[trigger] b[i])),
{
    if a.len() == b.len() && (forall|i: int| 0 <= i < a.len() ==> a[i] == #[trigger] b[i]) {
        assert(a =~= b);
    }
}

} // verus!
