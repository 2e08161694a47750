//! The layer compositor's per-frame coordinate mapping: where a source
//! layer lands, in normalized device coordinates, when it is blitted
//! into a destination pixel rectangle on a render target.
//!
//! The mapping is exact.  Destination rectangle and viewport are given
//! in integer physical pixels, so every NDC component is the rational
//! `num / den` with the viewport extent as denominator; conversion to
//! the GPU's floating-point uniform record is the caller's one rounding
//! step.  The quad is described by its center and size: for a
//! destination rectangle `(x, y, w, h)` with top-left origin inside a
//! viewport `(vw, vh)`, the center is `(x + w/2, y + h/2)`, and
//!
//! ```text
//! ndc_cx = (center_x / vw) * 2 - 1 = (2x + w - vw) / vw
//! ndc_cy = 1 - (center_y / vh) * 2 = (vh - 2y - h) / vh
//! ndc_w  = (w / vw) * 2            = 2w / vw
//! ndc_h  = (h / vh) * 2            = 2h / vh
//! ```

use vstd::prelude::*;

verus! {

/// Numerator of the NDC center-x coordinate over denominator `vw`.
pub open spec fn ndc_cx_num(x: int, w: int, vw: int) -> int {
    2 * x + w - vw
}

/// Numerator of the NDC center-y coordinate over denominator `vh`; the
/// pixel y axis points down, so the sign flips.
pub open spec fn ndc_cy_num(y: int, h: int, vh: int) -> int {
    vh - (2 * y + h)
}

/// Numerator of the NDC quad width over denominator `vw`.
pub open spec fn ndc_w_num(w: int) -> int {
    2 * w
}

/// Numerator of the NDC quad height over denominator `vh`.
pub open spec fn ndc_h_num(h: int) -> int {
    2 * h
}

/// The uniform rectangle record of one blit, as exact rationals: in
/// record order, the quad center `(cx_num / den_x, cy_num / den_y)` and
/// the quad size `(w_num / den_x, h_num / den_y)`, all in normalized
/// device coordinates.
#[derive(Clone, Copy, Debug, PartialEq, Eq, Structural)]
pub struct NdcRect {
    /// Numerator of the quad center's x coordinate.
    pub cx_num: i64,
    /// Numerator of the quad center's y coordinate.
    pub cy_num: i64,
    /// Numerator of the quad's width.
    pub w_num: i64,
    /// Numerator of the quad's height.
    pub h_num: i64,
    /// Denominator of the x-axis components: the viewport width.
    pub den_x: u32,
    /// Denominator of the y-axis components: the viewport height.
    pub den_y: u32,
}

/// Maps a destination pixel rectangle `(x, y, w, h)`, origin top-left,
/// onto the render target's normalized device coordinates.
///
/// A viewport with a zero axis admits no mapping (the division is
/// undefined) and is rejected; a zero-area destination rectangle is
/// fine and yields a degenerate, invisible quad.
pub fn blit_rect_ndc(dst_rect_px: (u32, u32, u32, u32), viewport_size_px: (u32, u32)) -> (r:
    Option<NdcRect>)
    ensures
        r is Some <==> viewport_size_px.0 > 0 && viewport_size_px.1 > 0,
        r matches Some(rec) ==> {
            &&& rec.den_x == viewport_size_px.0
            &&& rec.den_y == viewport_size_px.1
            &&& rec.cx_num == ndc_cx_num(
                dst_rect_px.0 as int,
                dst_rect_px.2 as int,
                viewport_size_px.0 as int,
            )
            &&& rec.cy_num == ndc_cy_num(
                dst_rect_px.1 as int,
                dst_rect_px.3 as int,
                viewport_size_px.1 as int,
            )
            &&& rec.w_num == ndc_w_num(dst_rect_px.2 as int)
            &&& rec.h_num == ndc_h_num(dst_rect_px.3 as int)
        },
{
    let (x, y, w, h) = dst_rect_px;
    let (vw, vh) = viewport_size_px;
    if vw == 0 || vh == 0 {
        None
    } else {
        Some(
            NdcRect {
                cx_num: 2 * (x as i64) + (w as i64) - (vw as i64),
                cy_num: (vh as i64) - (2 * (y as i64) + (h as i64)),
                w_num: 2 * (w as i64),
                h_num: 2 * (h as i64),
                den_x: vw,
                den_y: vh,
            },
        )
    }
}

/// The pixel a horizontal NDC coordinate `num / vw` lands on:
/// `(ndc + 1) / 2 * vw`, written over the numerator.
pub open spec fn px_of_ndc_x(num: int, vw: int) -> int {
    (num + vw) / 2
}

/// The pixel a vertical NDC coordinate `num / vh` lands on; the pixel
/// y axis points down, so `(1 - ndc) / 2 * vh`, written over the
/// numerator.
pub open spec fn px_of_ndc_y(num: int, vh: int) -> int {
    (vh - num) / 2
}

/// The mapped quad's four corners land exactly on the destination
/// rectangle's four corners in the target's pixel space: the left and
/// right NDC edges map back to pixels `x` and `x + w`, and the top and
/// bottom edges to pixels `y` and `y + h`.
pub proof fn lemma_blit_corners_exact(x: int, y: int, w: int, h: int, vw: int, vh: int)
    requires
        vw > 0,
        vh > 0,
    ensures
        px_of_ndc_x(ndc_cx_num(x, w, vw) - ndc_w_num(w) / 2, vw) == x,
        px_of_ndc_x(ndc_cx_num(x, w, vw) + ndc_w_num(w) / 2, vw) == x + w,
        px_of_ndc_y(ndc_cy_num(y, h, vh) + ndc_h_num(h) / 2, vh) == y,
        px_of_ndc_y(ndc_cy_num(y, h, vh) - ndc_h_num(h) / 2, vh) == y + h,
{
}

/// A destination rectangle that covers the viewport exactly maps to the
/// full clip space: center at the origin and a size of 2 by 2.
pub proof fn lemma_full_viewport_blit(vw: int, vh: int)
    requires
        vw > 0,
        vh > 0,
    ensures
        ndc_cx_num(0, vw, vw) == 0,
        ndc_cy_num(0, vh, vh) == 0,
        ndc_w_num(vw) == 2 * vw,
        ndc_h_num(vh) == 2 * vh,
{
}

/// Extra per-target compositor state reserved by the host renderer;
/// carries nothing yet.
#[derive(Clone, Copy, Debug, PartialEq, Eq, Structural)]
pub struct State {}

impl Default for State {
    /// The empty state.
    fn default() -> (r: Self)
        ensures
            r == (State {  }),
    {
        State {  }
    }
}

} // verus!
