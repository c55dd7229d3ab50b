//! Overlay geometry.
//!
//! The overlay code is drawn at a position and font scale proportional to the
//! base image's dimensions: font scale (width/3, height/1.7), anchor
//! (width/3.5, height/6). Each component is kept as an exact rational — a
//! numerator over a fixed denominator — so the proportionality is exact;
//! [`layout_px`] truncates to whole pixels for the drawing call.

use vstd::prelude::*;

verus! {

/// Denominator of the font x-scale: the scale is width / 3 px.
pub const SCALE_X_DEN: u64 = 3;

/// Denominator of the font y-scale: the scale is 10 * height / 17 px
/// (height divided by 1.7).
pub const SCALE_Y_DEN: u64 = 17;

/// Denominator of the anchor x-coordinate: the anchor is 2 * width / 7 px
/// (width divided by 3.5).
pub const ANCHOR_X_DEN: u64 = 7;

/// Denominator of the anchor y-coordinate: the anchor is height / 6 px.
pub const ANCHOR_Y_DEN: u64 = 6;

/// Brightness delta applied to the working copy before the overlay is drawn.
pub const BRIGHTNESS_DELTA: i32 = -25;

/// Overlay font scale and anchor for a base image, as exact rationals: each
/// field is the numerator of the pixel value over the matching `*_DEN`
/// denominator.
#[derive(Clone, Copy, Debug, PartialEq, Eq, Structural)]
pub struct OverlayLayout {
    /// Font x-scale numerator (denominator [`SCALE_X_DEN`]).
    pub scale_x_num: u64,
    /// Font y-scale numerator (denominator [`SCALE_Y_DEN`]).
    pub scale_y_num: u64,
    /// Anchor x numerator (denominator [`ANCHOR_X_DEN`]).
    pub anchor_x_num: u64,
    /// Anchor y numerator (denominator [`ANCHOR_Y_DEN`]).
    pub anchor_y_num: u64,
}

/// The layout numerators for an image of the given dimensions.
pub open spec fn spec_overlay_layout(width: int, height: int) -> OverlayLayout {
    OverlayLayout {
        scale_x_num: width as u64,
        scale_y_num: (10 * height) as u64,
        anchor_x_num: (2 * width) as u64,
        anchor_y_num: height as u64,
    }
}

/// Computes the overlay layout for a base image of the given dimensions.
pub fn overlay_layout(width: u32, height: u32) -> (r: OverlayLayout)
    ensures
        r == spec_overlay_layout(width as int, height as int),
{
    OverlayLayout {
        scale_x_num: width as u64,
        scale_y_num: 10 * (height as u64),
        anchor_x_num: 2 * (width as u64),
        anchor_y_num: height as u64,
    }
}

/// The overlay layout is linear in the image dimensions: doubling both
/// dimensions doubles both anchor coordinates and both scale components.
pub proof fn lemma_overlay_layout_linear(width: int, height: int)
    requires
        0 <= width <= u32::MAX,
        0 <= height <= u32::MAX,
    ensures
        spec_overlay_layout(2 * width, 2 * height).scale_x_num == 2 * spec_overlay_layout(
            width,
            height,
        ).scale_x_num,
        spec_overlay_layout(2 * width, 2 * height).scale_y_num == 2 * spec_overlay_layout(
            width,
            height,
        ).scale_y_num,
        spec_overlay_layout(2 * width, 2 * height).anchor_x_num == 2 * spec_overlay_layout(
            width,
            height,
        ).anchor_x_num,
        spec_overlay_layout(2 * width, 2 * height).anchor_y_num == 2 * spec_overlay_layout(
            width,
            height,
        ).anchor_y_num,
{
}

/// Truncates a layout to whole-pixel values, in the order font x-scale,
/// font y-scale, anchor x, anchor y.
pub fn layout_px(l: &OverlayLayout) -> (r: (u64, u64, u64, u64))
    ensures
        r.0 == l.scale_x_num / SCALE_X_DEN,
        r.1 == l.scale_y_num / SCALE_Y_DEN,
        r.2 == l.anchor_x_num / ANCHOR_X_DEN,
        r.3 == l.anchor_y_num / ANCHOR_Y_DEN,
{
    (
        l.scale_x_num / SCALE_X_DEN,
        l.scale_y_num / SCALE_Y_DEN,
        l.anchor_x_num / ANCHOR_X_DEN,
        l.anchor_y_num / ANCHOR_Y_DEN,
    )
}

} // verus!
