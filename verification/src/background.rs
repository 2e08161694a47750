//! The background fill of a surface or border: a tagged union over a
//! solid color, a multi-stop gradient, or an image fill with its own
//! placement, repeat flags, sizing policy and opacity.

use vstd::prelude::*;
use crate::color::{
    color_close, color_scaled, color_wf, lemma_color_scaled_assoc, lemma_color_scaled_one,
    lemma_color_scaled_wf, Color,
};
use crate::gradient::{
    lemma_stops_scaled_assoc, lemma_stops_scaled_one, lemma_stops_scaled_wf, stops_close,
    stops_scaled, stops_wf, Gradient,
};
use crate::percent::{
    lemma_mul_down_assoc_close, lemma_mul_down_bounds, lemma_mul_down_one, lemma_percent_nonneg,
    lemma_percent_view_injective, mul_down, ps_close, ps_wf, PercentScalar, UNIT,
};

verus! {

/// How an image fill is sized inside its container.
#[derive(Clone, Copy, Debug, PartialEq, Eq, Structural)]
pub enum ExtImageSize {
    /// Native image size.
    Auto,
    /// Scale to fill the container, preserving aspect ratio; may crop.
    Cover,
    /// Scale to fit inside the container, preserving aspect ratio.
    Contain,
    /// Fixed size in pixels.
    Px(u32, u32),
    /// Fraction of the container on each axis, in fixed point
    /// (`UNIT` stands for the full container extent).
    Percent(u32, u32),
}

/// An image fill: a handle to the image resource, per-axis repeat flags,
/// a normalized position inside the container, a sizing policy, and the
/// layer's own opacity.
#[derive(Clone, Copy, Debug, PartialEq, Eq, Structural)]
pub struct ExtImageBackground {
    /// Identifier of the image resource held by the host renderer.
    pub handle: u64,
    /// Whether the image repeats horizontally.
    pub repeat_x: bool,
    /// Whether the image repeats vertically.
    pub repeat_y: bool,
    /// Normalized horizontal position of the image inside the container.
    pub position_x: PercentScalar,
    /// Normalized vertical position of the image inside the container.
    pub position_y: PercentScalar,
    /// Sizing policy of the image.
    pub size: ExtImageSize,
    /// Opacity of the image layer.
    pub alpha: PercentScalar,
}

/// `res` is `s` with its layer opacity recombined with `f`; handle,
/// repeats, position and sizing are untouched.
pub open spec fn image_scaled(
    s: ExtImageBackground,
    f: PercentScalar,
    res: ExtImageBackground,
) -> bool {
    &&& res.handle == s.handle
    &&& res.repeat_x == s.repeat_x
    &&& res.repeat_y == s.repeat_y
    &&& res.position_x == s.position_x
    &&& res.position_y == s.position_y
    &&& res.size == s.size
    &&& res.alpha@ == mul_down(s.alpha@, f@)
}

/// The image layer's opacity is well formed.
pub open spec fn image_wf(s: ExtImageBackground) -> bool {
    ps_wf(s.alpha@)
}

impl ExtImageBackground {
    /// Recombines the image layer's own opacity with `factor`; every
    /// other field passes through untouched.
    pub fn scale_alpha(self, factor: PercentScalar) -> (res: Self)
        ensures
            image_scaled(self, factor, res),
    {
        ExtImageBackground { alpha: self.alpha.combine(factor), ..self }
    }
}

/// A background fill.
#[derive(Clone, Debug, PartialEq)]
pub enum ExtBackground {
    /// A solid color.
    Color(Color),
    /// Linear interpolation between several color stops.
    Gradient(Gradient),
    /// An image fill.
    Image(ExtImageBackground),
}

/// `res` is `bg` with every reachable alpha attenuated by `f`: the solid
/// color's alpha, every gradient stop's alpha, or the image layer's
/// opacity; the variant and all other data are kept.
pub open spec fn bg_scaled(bg: ExtBackground, f: PercentScalar, res: ExtBackground) -> bool {
    match (bg, res) {
        (ExtBackground::Color(c), ExtBackground::Color(rc)) => color_scaled(c, f, rc),
        (ExtBackground::Gradient(g), ExtBackground::Gradient(rg)) => stops_scaled(
            g.stops@,
            f,
            rg.stops@,
        ),
        (ExtBackground::Image(i), ExtBackground::Image(ri)) => image_scaled(i, f, ri),
        _ => false,
    }
}

/// Every alpha reachable from the background is well formed.
pub open spec fn bg_wf(bg: ExtBackground) -> bool {
    match bg {
        ExtBackground::Color(c) => color_wf(c),
        ExtBackground::Gradient(g) => stops_wf(g.stops@),
        ExtBackground::Image(i) => image_wf(i),
    }
}

impl ExtBackground {
    /// Scales every alpha reachable from this background by `factor`,
    /// delegating to the variant's own composition rule; returns a new
    /// value, the input is consumed.
    pub fn scale_alpha(self, factor: PercentScalar) -> (res: Self)
        ensures
            bg_scaled(self, factor, res),
    {
        match self {
            ExtBackground::Color(c) => ExtBackground::Color(c.scale_alpha(factor)),
            ExtBackground::Gradient(g) => ExtBackground::Gradient(g.scale_alpha(factor)),
            ExtBackground::Image(i) => ExtBackground::Image(i.scale_alpha(factor)),
        }
    }
}

/// The two backgrounds hold the same variant with equal contents,
/// comparing gradients by their stop sequences.
pub open spec fn bg_eq(x: ExtBackground, y: ExtBackground) -> bool {
    match (x, y) {
        (ExtBackground::Color(c), ExtBackground::Color(d)) => c == d,
        (ExtBackground::Gradient(g), ExtBackground::Gradient(h)) => g.stops@ == h.stops@,
        (ExtBackground::Image(i), ExtBackground::Image(j)) => i == j,
        _ => false,
    }
}

/// The two backgrounds agree everywhere, except that each reachable
/// alpha may differ by one fixed-point step.
pub open spec fn bg_close(x: ExtBackground, y: ExtBackground) -> bool {
    match (x, y) {
        (ExtBackground::Color(c), ExtBackground::Color(d)) => color_close(c, d),
        (ExtBackground::Gradient(g), ExtBackground::Gradient(h)) => stops_close(
            g.stops@,
            h.stops@,
        ),
        (ExtBackground::Image(i), ExtBackground::Image(j)) => {
            &&& i.handle == j.handle
            &&& i.repeat_x == j.repeat_x
            &&& i.repeat_y == j.repeat_y
            &&& i.position_x == j.position_x
            &&& i.position_y == j.position_y
            &&& i.size == j.size
            &&& ps_close(i.alpha@, j.alpha@)
        },
        _ => false,
    }
}

/// Scaling preserves well-formedness of every alpha reachable from the
/// background.
pub proof fn lemma_bg_scaled_wf(bg: ExtBackground, f: PercentScalar, r: ExtBackground)
    requires
        bg_wf(bg),
        ps_wf(f@),
        bg_scaled(bg, f, r),
    ensures
        bg_wf(r),
{
    match (bg, r) {
        (ExtBackground::Color(c), ExtBackground::Color(rc)) => {
            lemma_color_scaled_wf(c, f, rc);
        },
        (ExtBackground::Gradient(g), ExtBackground::Gradient(rg)) => {
            lemma_stops_scaled_wf(g.stops@, f, rg.stops@);
        },
        (ExtBackground::Image(i), ExtBackground::Image(ri)) => {
            lemma_mul_down_bounds(i.alpha@, f@);
        },
        _ => {},
    }
}

/// Scaling a background by 1.0 returns an equal background.
pub proof fn lemma_bg_scaled_one(bg: ExtBackground, f: PercentScalar, r: ExtBackground)
    requires
        f@ == UNIT as int,
        bg_scaled(bg, f, r),
    ensures
        bg_eq(r, bg),
{
    match (bg, r) {
        (ExtBackground::Color(c), ExtBackground::Color(rc)) => {
            lemma_color_scaled_one(c, f, rc);
        },
        (ExtBackground::Gradient(g), ExtBackground::Gradient(rg)) => {
            lemma_stops_scaled_one(g.stops@, f, rg.stops@);
        },
        (ExtBackground::Image(i), ExtBackground::Image(ri)) => {
            lemma_percent_nonneg(i.alpha);
            lemma_mul_down_one(i.alpha@);
            lemma_percent_view_injective(ri.alpha, i.alpha);
        },
        _ => {},
    }
}

/// Scaling a background by `a` and then by `b` lands within one
/// fixed-point step of scaling once by the composition of `a` and `b`.
pub proof fn lemma_bg_scaled_assoc(
    bg: ExtBackground,
    a: PercentScalar,
    b: PercentScalar,
    ab: PercentScalar,
    t: ExtBackground,
    twice: ExtBackground,
    once: ExtBackground,
)
    requires
        bg_wf(bg),
        ps_wf(a@),
        ps_wf(b@),
        ab@ == mul_down(a@, b@),
        bg_scaled(bg, a, t),
        bg_scaled(t, b, twice),
        bg_scaled(bg, ab, once),
    ensures
        bg_close(twice, once),
{
    match (bg, t) {
        (ExtBackground::Color(c), ExtBackground::Color(tc)) => {
            lemma_color_scaled_assoc(
                c,
                a,
                b,
                ab,
                tc,
                twice->Color_0,
                once->Color_0,
            );
        },
        (ExtBackground::Gradient(g), ExtBackground::Gradient(tg)) => {
            lemma_stops_scaled_assoc(
                g.stops@,
                a,
                b,
                ab,
                tg.stops@,
                twice->Gradient_0.stops@,
                once->Gradient_0.stops@,
            );
        },
        (ExtBackground::Image(i), ExtBackground::Image(ti)) => {
            lemma_mul_down_assoc_close(i.alpha@, a@, b@);
        },
        _ => {},
    }
}

impl From<Color> for ExtBackground {
    /// A solid-color background.
    fn from(color: Color) -> (res: ExtBackground) {
        ExtBackground::Color(color)
    }
}

impl vstd::std_specs::convert::FromSpecImpl<Color> for ExtBackground {
    open spec fn obeys_from_spec() -> bool {
        true
    }

    open spec fn from_spec(color: Color) -> ExtBackground {
        ExtBackground::Color(color)
    }
}

impl From<Gradient> for ExtBackground {
    /// A gradient background.
    fn from(gradient: Gradient) -> (res: ExtBackground) {
        ExtBackground::Gradient(gradient)
    }
}

impl vstd::std_specs::convert::FromSpecImpl<Gradient> for ExtBackground {
    open spec fn obeys_from_spec() -> bool {
        true
    }

    open spec fn from_spec(gradient: Gradient) -> ExtBackground {
        ExtBackground::Gradient(gradient)
    }
}

} // verus!
