//! The terminal styled-surface aggregate handed to draw-call emission:
//! bounds, a path shape, a border, a shadow stack and a pixel-snapping
//! flag, plus the single opacity-composition entry point a renderer
//! calls once per draw.

use vstd::prelude::*;
use crate::border::{
    border_close, border_eq, border_scaled, border_wf, lemma_border_scaled_assoc,
    lemma_border_scaled_one, lemma_border_scaled_wf, ExtBorder,
};
use crate::geometry::{Radius, Rectangle, Vector};
use crate::percent::{mul_down, ps_wf, PercentScalar, UNIT};
use crate::shadow::{
    lemma_stack_scaled_assoc, lemma_stack_scaled_one, lemma_stack_scaled_wf, stack_close,
    stack_scaled, stack_wf, ExtShadow,
};

verus! {

/// The shape a surface is clipped and stroked along.
#[derive(Clone, Debug, PartialEq)]
pub enum ExtPath {
    /// A closed polygon whose points are normalized to the surface
    /// bounds; interpretation of the coordinates is the rasterizer's.
    Polygon(Vec<Vector>),
    /// A rounded rectangle over the surface bounds with four
    /// independent corner radii.
    Quad(Radius),
}

/// The two paths hold the same variant with equal contents, comparing
/// polygons by their point sequences.
pub open spec fn path_eq(x: ExtPath, y: ExtPath) -> bool {
    match (x, y) {
        (ExtPath::Polygon(p), ExtPath::Polygon(q)) => p@ == q@,
        (ExtPath::Quad(r), ExtPath::Quad(s)) => r == s,
        _ => false,
    }
}

/// A styled surface: the aggregate consumed by draw-call emission.
/// Constructed per draw, transformed by value, never mutated in place.
#[derive(Clone, Debug)]
pub struct ExtPolygon {
    /// The bounds of the surface.
    pub bounds: Rectangle,
    /// The path of the surface.
    pub path: ExtPath,
    /// The border, drawn on the inside of the bounds.
    pub border: ExtBorder,
    /// The shadow stack of the surface.
    pub shadow: ExtShadow,
    /// Whether the surface should be snapped to the pixel grid.
    pub snap: bool,
}

/// `res` is `s` with every reachable alpha attenuated by `f`: the
/// border's background and every shadow color; bounds, path and the
/// snap flag pass through untouched.
pub open spec fn surface_scaled(s: ExtPolygon, f: PercentScalar, res: ExtPolygon) -> bool {
    &&& res.bounds == s.bounds
    &&& res.path == s.path
    &&& res.snap == s.snap
    &&& border_scaled(s.border, f, res.border)
    &&& stack_scaled(s.shadow.shadows@, f, res.shadow.shadows@)
}

/// Every alpha reachable from the surface is well formed.
pub open spec fn surface_wf(s: ExtPolygon) -> bool {
    border_wf(s.border) && stack_wf(s.shadow.shadows@)
}

/// The two surfaces are field-equal: equal bounds, path, snap flag,
/// border and shadow stack, comparing sequences by contents.
pub open spec fn surface_eq(x: ExtPolygon, y: ExtPolygon) -> bool {
    &&& x.bounds == y.bounds
    &&& path_eq(x.path, y.path)
    &&& x.snap == y.snap
    &&& border_eq(x.border, y.border)
    &&& x.shadow.shadows@ == y.shadow.shadows@
}

/// The two surfaces agree everywhere, except that each reachable alpha
/// may differ by one fixed-point step.
pub open spec fn surface_close(x: ExtPolygon, y: ExtPolygon) -> bool {
    &&& x.bounds == y.bounds
    &&& path_eq(x.path, y.path)
    &&& x.snap == y.snap
    &&& border_close(x.border, y.border)
    &&& stack_close(x.shadow.shadows@, y.shadow.shadows@)
}

impl ExtPolygon {
    /// Scales every reachable alpha of the surface by `alpha` in one
    /// call: the border's background and every shadow color; bounds,
    /// path and snap flag pass through untouched.  Returns a new value,
    /// the input is consumed.
    pub fn scale_alpha(self, alpha: PercentScalar) -> (res: Self)
        ensures
            surface_scaled(self, alpha, res),
    {
        let ExtPolygon { bounds, path, border, shadow, snap } = self;
        ExtPolygon {
            bounds,
            path,
            border: border.scale_alpha(alpha),
            shadow: shadow.scale_alpha(alpha),
            snap,
        }
    }
}

/// Scaling preserves well-formedness: attenuating a well-formed surface
/// by a well-formed factor yields a well-formed surface, so composition
/// can be chained indefinitely.
pub proof fn lemma_surface_scaled_wf(s: ExtPolygon, f: PercentScalar, r: ExtPolygon)
    requires
        surface_wf(s),
        ps_wf(f@),
        surface_scaled(s, f, r),
    ensures
        surface_wf(r),
{
    lemma_border_scaled_wf(s.border, f, r.border);
    lemma_stack_scaled_wf(s.shadow.shadows@, f, r.shadow.shadows@);
}

/// Scaling a surface by 1.0 is the identity: the result is field-equal
/// to the original.
pub proof fn lemma_surface_scaled_one(s: ExtPolygon, f: PercentScalar, r: ExtPolygon)
    requires
        f@ == UNIT as int,
        surface_scaled(s, f, r),
    ensures
        surface_eq(r, s),
{
    lemma_border_scaled_one(s.border, f, r.border);
    lemma_stack_scaled_one(s.shadow.shadows@, f, r.shadow.shadows@);
}

/// Associativity of opacity composition up to truncation: scaling a
/// surface by `a` and then by `b` agrees with scaling it once by the
/// composition of `a` and `b` on every field, with each reachable alpha
/// within one fixed-point step.
pub proof fn lemma_surface_scaled_assoc(
    s: ExtPolygon,
    a: PercentScalar,
    b: PercentScalar,
    ab: PercentScalar,
    t: ExtPolygon,
    twice: ExtPolygon,
    once: ExtPolygon,
)
    requires
        surface_wf(s),
        ps_wf(a@),
        ps_wf(b@),
        ab@ == mul_down(a@, b@),
        surface_scaled(s, a, t),
        surface_scaled(t, b, twice),
        surface_scaled(s, ab, once),
    ensures
        surface_close(twice, once),
{
    lemma_border_scaled_assoc(s.border, a, b, ab, t.border, twice.border, once.border);
    lemma_stack_scaled_assoc(
        s.shadow.shadows@,
        a,
        b,
        ab,
        t.shadow.shadows@,
        twice.shadow.shadows@,
        once.shadow.shadows@,
    );
}

} // verus!
