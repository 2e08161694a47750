//! Stroke descriptors for borders: solid or dashed line style, the cap
//! shape of dashes, and the join shape between segments.  Pure value
//! types; strokes carry no opacity of their own.

use vstd::prelude::*;

verus! {

/// The cap drawn at each end of a dash.
#[derive(Clone, Copy, Debug, PartialEq, Eq, Structural)]
pub enum ExDashLineCap {
    /// No cap: the dash ends flat at its endpoint.
    Butt,
    /// A semicircular cap.
    Round,
    /// A square cap extending past the endpoint.
    Square,
}

impl Default for ExDashLineCap {
    /// Dashes end flat by default.
    fn default() -> (r: Self)
        ensures
            r == ExDashLineCap::Butt,
    {
        ExDashLineCap::Butt
    }
}

/// A dashed stroke: the length of each dash, the gap between dashes,
/// both in pixels, and the cap shape of each dash.
#[derive(Clone, Copy, Debug, PartialEq, Eq, Structural)]
pub struct ExDashedStroke {
    pub dash_length: u32,
    pub gap: u32,
    pub cap: ExDashLineCap,
}

impl Default for ExDashedStroke {
    /// Zero-length dashes with no gap and flat caps.
    fn default() -> (r: Self)
        ensures
            r == (ExDashedStroke { dash_length: 0, gap: 0, cap: ExDashLineCap::Butt }),
    {
        ExDashedStroke { dash_length: 0, gap: 0, cap: ExDashLineCap::Butt }
    }
}

/// Whether a stroke is drawn solid or dashed.
#[derive(Clone, Copy, Debug, PartialEq, Eq, Structural)]
pub enum ExStrokeStyle {
    /// An unbroken line.
    Solid,
    /// A dashed line with the given dash descriptor.
    Dashed(ExDashedStroke),
}

impl Default for ExStrokeStyle {
    /// Strokes are solid by default.
    fn default() -> (r: Self)
        ensures
            r == ExStrokeStyle::Solid,
    {
        ExStrokeStyle::Solid
    }
}

/// The shape drawn where two stroke segments meet.
#[derive(Clone, Copy, Debug, PartialEq, Eq, Structural)]
pub enum ExLineJoin {
    /// A sharp corner.
    Miter,
    /// A rounded corner.
    Round,
    /// A flattened corner.
    Bevel,
}

impl Default for ExLineJoin {
    /// Joins are mitered by default.
    fn default() -> (r: Self)
        ensures
            r == ExLineJoin::Miter,
    {
        ExLineJoin::Miter
    }
}

/// A stroke descriptor: line style plus join shape.
#[derive(Clone, Copy, Debug, PartialEq, Eq, Structural)]
pub struct ExStroke {
    /// The line style of the stroke.
    pub style: ExStrokeStyle,
    /// The join shape of the stroke.
    pub join: ExLineJoin,
}

impl ExStroke {
    /// Builds a stroke from a line style and a join shape.
    pub fn new(style: ExStrokeStyle, join: ExLineJoin) -> (r: Self)
        ensures
            r == (ExStroke { style, join }),
    {
        ExStroke { style, join }
    }
}

impl Default for ExStroke {
    /// A solid, mitered stroke.
    fn default() -> (r: Self)
        ensures
            r == (ExStroke { style: ExStrokeStyle::Solid, join: ExLineJoin::Miter }),
    {
        ExStroke { style: ExStrokeStyle::Solid, join: ExLineJoin::Miter }
    }
}

} // verus!
