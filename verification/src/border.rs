//! Borders: a background fill (a border may itself be a gradient or an
//! image), a stroke descriptor, and a width in pixels.  Width 0 means no
//! visible border regardless of the background.

use vstd::prelude::*;
use crate::background::{
    bg_close, bg_eq, bg_scaled, bg_wf, lemma_bg_scaled_assoc, lemma_bg_scaled_one,
    lemma_bg_scaled_wf, ExtBackground,
};
use crate::color::Color;
use crate::geometry::Radius;
use crate::percent::{mul_down, ps_wf, PercentScalar, UNIT};
use crate::stroke::{ExLineJoin, ExStroke, ExStrokeStyle};

verus! {

/// The border of a styled surface, drawn on the inside of its bounds.
#[derive(Clone, Debug, PartialEq)]
pub struct ExtBorder {
    /// The fill of the border.
    pub background: ExtBackground,
    /// The stroke used by the border.
    pub stroke: ExStroke,
    /// The width of the border in pixels.
    pub width: u32,
}

/// The background is a solid, fully transparent color.
pub open spec fn bg_is_transparent(bg: ExtBackground) -> bool {
    bg matches ExtBackground::Color(c) && c.r@ == 0 && c.g@ == 0 && c.b@ == 0 && c.a@ == 0
}

/// `res` is `b` with its background's alphas attenuated by `f`; stroke
/// and width pass through untouched.
pub open spec fn border_scaled(b: ExtBorder, f: PercentScalar, res: ExtBorder) -> bool {
    &&& bg_scaled(b.background, f, res.background)
    &&& res.stroke == b.stroke
    &&& res.width == b.width
}

/// Every alpha reachable from the border is well formed.
pub open spec fn border_wf(b: ExtBorder) -> bool {
    bg_wf(b.background)
}

impl ExtBorder {
    /// A one-pixel border with a fully transparent background and the
    /// default stroke; the radius argument only shapes the owning path
    /// and leaves the border's own fields untouched.
    pub fn rounded(_radius: Radius) -> (r: Self)
        ensures
            bg_is_transparent(r.background),
            r.stroke == (ExStroke { style: ExStrokeStyle::Solid, join: ExLineJoin::Miter }),
            r.width == 1,
    {
        ExtBorder {
            background: ExtBackground::Color(Color::transparent()),
            stroke: ExStroke::default(),
            width: 1,
        }
    }

    /// A one-pixel solid border filled with the given color.
    pub fn from_color(color: Color) -> (r: Self)
        ensures
            r.background == ExtBackground::Color(color),
            r.stroke == (ExStroke { style: ExStrokeStyle::Solid, join: ExLineJoin::Miter }),
            r.width == 1,
    {
        ExtBorder {
            background: ExtBackground::Color(color),
            stroke: ExStroke::new(ExStrokeStyle::Solid, ExLineJoin::Miter),
            width: 1,
        }
    }

    /// Scales the background's alphas by `factor`; stroke and width pass
    /// through untouched.  Returns a new border, the input is consumed.
    pub fn scale_alpha(self, factor: PercentScalar) -> (res: Self)
        ensures
            border_scaled(self, factor, res),
    {
        ExtBorder {
            background: self.background.scale_alpha(factor),
            stroke: self.stroke,
            width: self.width,
        }
    }
}

/// The two borders hold equal backgrounds, strokes and widths.
pub open spec fn border_eq(x: ExtBorder, y: ExtBorder) -> bool {
    &&& bg_eq(x.background, y.background)
    &&& x.stroke == y.stroke
    &&& x.width == y.width
}

/// The two borders agree everywhere, except that each reachable alpha
/// may differ by one fixed-point step.
pub open spec fn border_close(x: ExtBorder, y: ExtBorder) -> bool {
    &&& bg_close(x.background, y.background)
    &&& x.stroke == y.stroke
    &&& x.width == y.width
}

/// Scaling preserves well-formedness of every alpha reachable from the
/// border.
pub proof fn lemma_border_scaled_wf(b: ExtBorder, f: PercentScalar, r: ExtBorder)
    requires
        border_wf(b),
        ps_wf(f@),
        border_scaled(b, f, r),
    ensures
        border_wf(r),
{
    lemma_bg_scaled_wf(b.background, f, r.background);
}

/// Scaling a border by 1.0 returns an equal border.
pub proof fn lemma_border_scaled_one(b: ExtBorder, f: PercentScalar, r: ExtBorder)
    requires
        f@ == UNIT as int,
        border_scaled(b, f, r),
    ensures
        border_eq(r, b),
{
    lemma_bg_scaled_one(b.background, f, r.background);
}

/// Scaling a border by `a` and then by `b` lands within one fixed-point
/// step of scaling once by the composition of `a` and `b`.
pub proof fn lemma_border_scaled_assoc(
    b0: ExtBorder,
    a: PercentScalar,
    b: PercentScalar,
    ab: PercentScalar,
    t: ExtBorder,
    twice: ExtBorder,
    once: ExtBorder,
)
    requires
        border_wf(b0),
        ps_wf(a@),
        ps_wf(b@),
        ab@ == mul_down(a@, b@),
        border_scaled(b0, a, t),
        border_scaled(t, b, twice),
        border_scaled(b0, ab, once),
    ensures
        border_close(twice, once),
{
    lemma_bg_scaled_assoc(
        b0.background,
        a,
        b,
        ab,
        t.background,
        twice.background,
        once.background,
    );
}

impl Default for ExtBorder {
    /// A fully transparent border of zero width.
    fn default() -> (r: Self)
        ensures
            bg_is_transparent(r.background),
            r.stroke == (ExStroke { style: ExStrokeStyle::Solid, join: ExLineJoin::Miter }),
            r.width == 0,
    {
        ExtBorder {
            background: ExtBackground::Color(Color::transparent()),
            stroke: ExStroke::default(),
            width: 0,
        }
    }
}

} // verus!
