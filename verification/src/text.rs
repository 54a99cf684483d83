//! Text anchor calculation: the nine-way alignment formulas that place a
//! label's top-left screen position inside an element's device rectangle.
//!
//! The text width estimate is a deliberate monospace heuristic — character
//! count times a fixed per-character width times the label's scale — not true
//! glyph metrics, so proportional-width text lands approximately. That is a
//! known precision limitation kept for cheapness, not a defect to fix here.
//!
//! Anchors are top-left screen-space pixel positions, produced at
//! `ANCHOR_SCALE` fixed-point units per pixel so that the halving steps in the
//! centering formulas stay exact.

use vstd::prelude::*;

use crate::geometry::{
    Coordinate, DeviceRect, ScreenSize, COORD_LIMIT, SCALE, device_rect_wf, elem_x, elem_y,
    element_to_device, lemma_mul_bound,
};

verus! {

/// Fixed-point units per pixel of an anchor coordinate: `4 * SCALE * SCALE`.
pub const ANCHOR_SCALE: i128 = 4_000_000_000_000;

/// `SCALE * SCALE`, the number of vertex device units in half a pixel.
pub const SCALE_SQ: i128 = 1_000_000_000_000;

/// Largest label length (in characters) the anchor formulas accept; far
/// beyond anything a UI shows, present only to bound the width estimate.
pub const TEXT_LIMIT: u64 = 1_000_000_000_000;

/// Vertical placement of a label within its element.
#[derive(Clone, Copy, Debug, PartialEq, Eq, Structural)]
pub enum VerticalAlignment {
    Top,
    Center,
    Bottom,
}

/// Horizontal placement of a label within its element.
#[derive(Clone, Copy, Debug, PartialEq, Eq, Structural)]
pub enum HorizontalAlignment {
    Left,
    Center,
    Right,
}

/// A label's two-axis placement.
#[derive(Clone, Copy, Debug, PartialEq, Eq, Structural)]
pub struct Alignment {
    pub vertical: VerticalAlignment,
    pub horizontal: HorizontalAlignment,
}

/// The anchor position, in `ANCHOR_SCALE` units per pixel, of a label aligned
/// inside the element spanning `e_start`..`e_end` of the panel whose device
/// rectangle is `pxmin`..`pxmax` by `pymin`..`pymax`, on a screen of size
/// `screen`, for a label of `n` characters at scale `s / SCALE`.
///
/// Each case starts from the element's device-space top-left corner shifted
/// into top-left-origin screen space, then applies the width/height
/// correction of its alignment: horizontal centering or right-alignment
/// subtracts the estimated text width (`n` times 15 pixels times the scale),
/// vertical centering or bottom-alignment subtracts half the element's
/// device-space height or a fixed line-height offset.
pub open spec fn spec_text_anchor(
    alignment: Alignment,
    e_start: Coordinate,
    e_end: Coordinate,
    pxmin: int,
    pymin: int,
    pxmax: int,
    pymax: int,
    screen: ScreenSize,
    n: int,
    s: int,
) -> (int, int) {
    let fx0 = elem_x(e_start.x as int, pxmin, pxmax);
    let fx1 = elem_x(e_end.x as int, pxmin, pxmax);
    let fy0 = elem_y(e_start.y as int, pymin, pymax);
    let fy1 = elem_y(e_end.y as int, pymin, pymax);
    let cx = 2 * (screen.width as int) * (SCALE_SQ as int);
    let cy = 2 * (screen.height as int) * (SCALE_SQ as int);
    let base_x = cx + 2 * fx0;
    let y_top = cy - 2 * fy0;
    let y_bottom = cy - 2 * fy1;
    let half_y = fy0 - fy1;
    let half_x = fx1 - fx0;
    let full_x = 2 * (fx1 - fx0);
    let ns = n * s;
    let center_text_offset = 30 * ns * (SCALE as int);
    let full_text_offset = 60 * ns * (SCALE as int);
    let side_pad = 60 * s * (SCALE as int);
    let double_pad = 120 * s * (SCALE as int);
    let fixed_pad = 60 * (SCALE_SQ as int);
    match (alignment.horizontal, alignment.vertical) {
        (HorizontalAlignment::Left, VerticalAlignment::Top) => (base_x, y_top),
        (HorizontalAlignment::Left, VerticalAlignment::Center) => (
            base_x + side_pad,
            y_top + half_y - side_pad,
        ),
        (HorizontalAlignment::Left, VerticalAlignment::Bottom) => (base_x, y_bottom - double_pad),
        (HorizontalAlignment::Center, VerticalAlignment::Top) => (
            base_x + half_x - center_text_offset,
            y_top,
        ),
        (HorizontalAlignment::Center, VerticalAlignment::Center) => (
            base_x + half_x - center_text_offset,
            y_top + half_y - side_pad,
        ),
        (HorizontalAlignment::Center, VerticalAlignment::Bottom) => (
            base_x + half_x - center_text_offset,
            y_bottom - fixed_pad,
        ),
        (HorizontalAlignment::Right, VerticalAlignment::Top) => (
            base_x + full_x - full_text_offset,
            y_top,
        ),
        (HorizontalAlignment::Right, VerticalAlignment::Center) => (
            base_x + full_x - full_text_offset,
            y_top + half_y - fixed_pad,
        ),
        (HorizontalAlignment::Right, VerticalAlignment::Bottom) => (
            base_x + full_x - full_text_offset,
            y_bottom - fixed_pad,
        ),
    }
}

/// Computes a label's anchor position and scale factor. The returned scale is
/// `SCALE`, the fixed-point value of `1.0`; the anchor coordinates are in
/// `ANCHOR_SCALE` units per pixel.
pub fn text_alignment(
    e_start: Coordinate,
    e_end: Coordinate,
    panel: DeviceRect,
    screen: ScreenSize,
    alignment: &Alignment,
    text: &(String, i64),
) -> (r: ((i128, i128), i64))
    requires
        e_start.wf(),
        e_end.wf(),
        device_rect_wf(panel),
        -COORD_LIMIT <= text.1 <= COORD_LIMIT,
        text.0@.len() <= TEXT_LIMIT,
    ensures
        r.0.0 as int == spec_text_anchor(
            *alignment,
            e_start,
            e_end,
            panel.x_min as int,
            panel.y_min as int,
            panel.x_max as int,
            panel.y_max as int,
            screen,
            text.0@.len() as int,
            text.1 as int,
        ).0,
        r.0.1 as int == spec_text_anchor(
            *alignment,
            e_start,
            e_end,
            panel.x_min as int,
            panel.y_min as int,
            panel.x_max as int,
            panel.y_max as int,
            screen,
            text.0@.len() as int,
            text.1 as int,
        ).1,
        r.1 == SCALE,
{
    let fine = element_to_device(e_start, e_end, panel);
    let n = text.0.as_str().unicode_len();
    let s = text.1;
    proof {
        lemma_mul_bound(
            2 * screen.width as int,
            SCALE_SQ as int,
            2 * u32::MAX as int,
            SCALE_SQ as int,
        );
        lemma_mul_bound(
            2 * screen.height as int,
            SCALE_SQ as int,
            2 * u32::MAX as int,
            SCALE_SQ as int,
        );
        lemma_mul_bound(n as int, s as int, TEXT_LIMIT as int, COORD_LIMIT as int);
        lemma_mul_bound(60 * s as int, SCALE as int, 60 * COORD_LIMIT as int, SCALE as int);
        lemma_mul_bound(120 * s as int, SCALE as int, 120 * COORD_LIMIT as int, SCALE as int);
    }
    let cx = 2 * (screen.width as i128) * SCALE_SQ;
    let cy = 2 * (screen.height as i128) * SCALE_SQ;
    let base_x = cx + 2 * fine.x_min;
    let y_top = cy - 2 * fine.y_top;
    let y_bottom = cy - 2 * fine.y_bottom;
    let half_y = fine.y_top - fine.y_bottom;
    let half_x = fine.x_max - fine.x_min;
    let full_x = 2 * (fine.x_max - fine.x_min);
    let ns = (n as i128) * (s as i128);
    proof {
        lemma_mul_bound(
            30 * ns as int,
            SCALE as int,
            30 * (TEXT_LIMIT as int) * (COORD_LIMIT as int),
            SCALE as int,
        );
        lemma_mul_bound(
            60 * ns as int,
            SCALE as int,
            60 * (TEXT_LIMIT as int) * (COORD_LIMIT as int),
            SCALE as int,
        );
    }
    let center_text_offset = 30 * ns * (SCALE as i128);
    let full_text_offset = 60 * ns * (SCALE as i128);
    let side_pad = 60 * (s as i128) * (SCALE as i128);
    let double_pad = 120 * (s as i128) * (SCALE as i128);
    let fixed_pad = 60 * SCALE_SQ;
    let anchor = match (alignment.horizontal, alignment.vertical) {
        (HorizontalAlignment::Left, VerticalAlignment::Top) => (base_x, y_top),
        (HorizontalAlignment::Left, VerticalAlignment::Center) => (
            base_x + side_pad,
            y_top + half_y - side_pad,
        ),
        (HorizontalAlignment::Left, VerticalAlignment::Bottom) => (base_x, y_bottom - double_pad),
        (HorizontalAlignment::Center, VerticalAlignment::Top) => (
            base_x + half_x - center_text_offset,
            y_top,
        ),
        (HorizontalAlignment::Center, VerticalAlignment::Center) => (
            base_x + half_x - center_text_offset,
            y_top + half_y - side_pad,
        ),
        (HorizontalAlignment::Center, VerticalAlignment::Bottom) => (
            base_x + half_x - center_text_offset,
            y_bottom - fixed_pad,
        ),
        (HorizontalAlignment::Right, VerticalAlignment::Top) => (
            base_x + full_x - full_text_offset,
            y_top,
        ),
        (HorizontalAlignment::Right, VerticalAlignment::Center) => (
            base_x + full_x - full_text_offset,
            y_top + half_y - fixed_pad,
        ),
        (HorizontalAlignment::Right, VerticalAlignment::Bottom) => (
            base_x + full_x - full_text_offset,
            y_bottom - fixed_pad,
        ),
    };
    (anchor, SCALE)
}

} // verus!
