//! Coordinate transforms from normalized fractional coordinates to
//! center-origin device coordinates.
//!
//! Normalized coordinates grow rightwards and downwards, with `(0, 0)` the
//! top-left corner of the parent and `(SCALE, SCALE)` standing for `(1.0, 1.0)`,
//! the bottom-right corner. Device coordinates are center-origin with the Y
//! axis growing upwards, as the graphics pipeline consumes them.
//!
//! Two fixed-point resolutions appear:
//! - a panel device coordinate `v` stands for `v / (2 * SCALE)` pixels;
//! - a vertex (element) device coordinate `v` stands for
//!   `v / (2 * SCALE * SCALE)` pixels.
//! The extra factor lets an element rectangle, itself normalized within its
//! panel, be interpolated across the panel's device rectangle exactly, with no
//! rounding and therefore no drift under repeated relayout.

use vstd::prelude::*;

verus! {

/// Number of fixed-point units in one whole normalized unit (the value `1.0`).
pub const SCALE: i64 = 1_000_000;

/// Largest magnitude accepted for a normalized coordinate (a thousand times
/// `SCALE`). Normalized coordinates are conceptually in `[0, 1]` but are not
/// clamped; this generous bound only serves to keep every transform free of
/// arithmetic overflow.
pub const COORD_LIMIT: i64 = 1_000_000_000;

/// Bound on each component of a panel device rectangle. Any panel whose
/// normalized coordinates respect `COORD_LIMIT` maps below this bound on every
/// screen size.
pub const PANEL_DEVICE_LIMIT: i128 = 10_000_000_000_000_000_000;

/// Bound on each component of a vertex (element) device rectangle.
pub const VERTEX_DEVICE_LIMIT: i128 = 100_000_000_000_000_000_000_000_000_000;

/// A point in normalized fractional coordinates: `x` stands for `x / SCALE`
/// of the parent's horizontal extent, `y` likewise for the vertical one.
#[derive(Clone, Copy, Debug, PartialEq, Eq, Structural)]
pub struct Coordinate {
    pub x: i64,
    pub y: i64,
}

/// A screen extent in whole pixels.
#[derive(Clone, Copy, Debug, PartialEq, Eq, Structural)]
pub struct ScreenSize {
    pub width: u32,
    pub height: u32,
}

/// A panel rectangle in center-origin device coordinates, at
/// `2 * SCALE` units per pixel. `y_max` is the top edge, `y_min` the bottom.
#[derive(Clone, Copy, Debug, PartialEq, Eq, Structural)]
pub struct DeviceRect {
    pub x_min: i128,
    pub y_min: i128,
    pub x_max: i128,
    pub y_max: i128,
}

/// A quad rectangle in center-origin device coordinates, at
/// `2 * SCALE * SCALE` units per pixel. `y_top` is the top edge.
#[derive(Clone, Copy, Debug, PartialEq, Eq, Structural)]
pub struct QuadRect {
    pub x_min: i128,
    pub y_top: i128,
    pub x_max: i128,
    pub y_bottom: i128,
}

impl Coordinate {
    /// Both components within `COORD_LIMIT`.
    pub open spec fn wf(self) -> bool {
        &&& -COORD_LIMIT <= self.x <= COORD_LIMIT
        &&& -COORD_LIMIT <= self.y <= COORD_LIMIT
    }

    pub fn new(x: i64, y: i64) -> (c: Coordinate)
        requires
            -COORD_LIMIT <= x <= COORD_LIMIT,
            -COORD_LIMIT <= y <= COORD_LIMIT,
        ensures
            c.x == x,
            c.y == y,
            c.wf(),
    {
        Coordinate { x, y }
    }
}

impl ScreenSize {
    pub fn new(width: u32, height: u32) -> (s: ScreenSize)
        ensures
            s.width == width,
            s.height == height,
    {
        ScreenSize { width, height }
    }
}

/// Horizontal device coordinate (at `2 * SCALE` units per pixel) of the
/// normalized coordinate `a / SCALE` on a screen `w` pixels wide: the pixel
/// position `a * w / SCALE`, shifted so that the screen center is zero.
pub open spec fn dev_x(a: int, w: int) -> int {
    2 * a * w - w * (SCALE as int)
}

/// Vertical device coordinate (at `2 * SCALE` units per pixel) of the
/// normalized coordinate `a / SCALE` on a screen `h` pixels tall. Normalized Y
/// grows downward while device Y grows upward, so the axis is flipped around
/// the screen's vertical center.
pub open spec fn dev_y(a: int, h: int) -> int {
    h * (SCALE as int) - 2 * a * h
}

/// Horizontal device coordinate (at `2 * SCALE * SCALE` units per pixel) of an
/// element edge at `b / SCALE` of the way across a panel spanning
/// `[pmin, pmax]` in panel device units.
pub open spec fn elem_x(b: int, pmin: int, pmax: int) -> int {
    pmin * (SCALE as int) + b * (pmax - pmin)
}

/// Vertical device coordinate (at `2 * SCALE * SCALE` units per pixel) of an
/// element edge at `b / SCALE` of the way down a panel spanning
/// `[pymin, pymax]` in panel device units. The element's local top (`b = 0`)
/// lies on the panel's device-space maximum Y.
pub open spec fn elem_y(b: int, pymin: int, pymax: int) -> int {
    pymax * (SCALE as int) - b * (pymax - pymin)
}

/// Every component within `PANEL_DEVICE_LIMIT`.
pub open spec fn device_rect_wf(r: DeviceRect) -> bool {
    &&& -PANEL_DEVICE_LIMIT <= r.x_min <= PANEL_DEVICE_LIMIT
    &&& -PANEL_DEVICE_LIMIT <= r.y_min <= PANEL_DEVICE_LIMIT
    &&& -PANEL_DEVICE_LIMIT <= r.x_max <= PANEL_DEVICE_LIMIT
    &&& -PANEL_DEVICE_LIMIT <= r.y_max <= PANEL_DEVICE_LIMIT
}

/// Every component within `VERTEX_DEVICE_LIMIT`.
pub open spec fn quad_rect_wf(r: QuadRect) -> bool {
    &&& -VERTEX_DEVICE_LIMIT <= r.x_min <= VERTEX_DEVICE_LIMIT
    &&& -VERTEX_DEVICE_LIMIT <= r.y_top <= VERTEX_DEVICE_LIMIT
    &&& -VERTEX_DEVICE_LIMIT <= r.x_max <= VERTEX_DEVICE_LIMIT
    &&& -VERTEX_DEVICE_LIMIT <= r.y_bottom <= VERTEX_DEVICE_LIMIT
}

/// The product of two values bounded in magnitude is bounded by the product of
/// the bounds.
pub proof fn lemma_mul_bound(a: int, b: int, bound_a: int, bound_b: int)
    by (nonlinear_arith)
    requires
        -bound_a <= a <= bound_a,
        -bound_b <= b <= bound_b,
        0 <= bound_a,
        0 <= bound_b,
    ensures
        -(bound_a * bound_b) <= a * b <= bound_a * bound_b,
{
}

/// Converts a panel's normalized rectangle into center-origin device
/// coordinates: each normalized coordinate is scaled by the screen's pixel
/// extent and re-centered on the screen's midpoint, with the Y axis flipped.
/// The result is exact, so repeated relayout with identical inputs cannot
/// drift.
pub fn panel_to_device(start: Coordinate, end: Coordinate, screen: ScreenSize) -> (r: DeviceRect)
    requires
        start.wf(),
        end.wf(),
    ensures
        r.x_min as int == dev_x(start.x as int, screen.width as int),
        r.x_max as int == dev_x(end.x as int, screen.width as int),
        r.y_max as int == dev_y(start.y as int, screen.height as int),
        r.y_min as int == dev_y(end.y as int, screen.height as int),
        device_rect_wf(r),
{
    let w = screen.width as i128;
    let h = screen.height as i128;
    proof {
        lemma_mul_bound(2 * start.x as int, w as int, 2 * COORD_LIMIT as int, u32::MAX as int);
        lemma_mul_bound(2 * end.x as int, w as int, 2 * COORD_LIMIT as int, u32::MAX as int);
        lemma_mul_bound(2 * start.y as int, h as int, 2 * COORD_LIMIT as int, u32::MAX as int);
        lemma_mul_bound(2 * end.y as int, h as int, 2 * COORD_LIMIT as int, u32::MAX as int);
        lemma_mul_bound(w as int, SCALE as int, u32::MAX as int, SCALE as int);
        lemma_mul_bound(h as int, SCALE as int, u32::MAX as int, SCALE as int);
    }
    let w_half = w * (SCALE as i128);
    let h_half = h * (SCALE as i128);
    let x_min = 2 * (start.x as i128) * w - w_half;
    let x_max = 2 * (end.x as i128) * w - w_half;
    let y_max = h_half - 2 * (start.y as i128) * h;
    let y_min = h_half - 2 * (end.y as i128) * h;
    DeviceRect { x_min, y_min, x_max, y_max }
}

/// Linearly interpolates an element's normalized-within-panel rectangle across
/// the panel's already-transformed device rectangle, flipping vertical order:
/// the element's local top maps to the panel's device-space maximum Y. The
/// result is one fixed-point resolution finer than its input, which keeps the
/// interpolation exact.
pub fn element_to_device(e_start: Coordinate, e_end: Coordinate, panel: DeviceRect) -> (r:
    QuadRect)
    requires
        e_start.wf(),
        e_end.wf(),
        device_rect_wf(panel),
    ensures
        r.x_min as int == elem_x(e_start.x as int, panel.x_min as int, panel.x_max as int),
        r.x_max as int == elem_x(e_end.x as int, panel.x_min as int, panel.x_max as int),
        r.y_top as int == elem_y(e_start.y as int, panel.y_min as int, panel.y_max as int),
        r.y_bottom as int == elem_y(e_end.y as int, panel.y_min as int, panel.y_max as int),
        quad_rect_wf(r),
{
    let x_span = panel.x_max - panel.x_min;
    let y_span = panel.y_max - panel.y_min;
    proof {
        lemma_mul_bound(e_start.x as int, x_span as int, COORD_LIMIT as int, 2 * PANEL_DEVICE_LIMIT as int);
        lemma_mul_bound(e_end.x as int, x_span as int, COORD_LIMIT as int, 2 * PANEL_DEVICE_LIMIT as int);
        lemma_mul_bound(e_start.y as int, y_span as int, COORD_LIMIT as int, 2 * PANEL_DEVICE_LIMIT as int);
        lemma_mul_bound(e_end.y as int, y_span as int, COORD_LIMIT as int, 2 * PANEL_DEVICE_LIMIT as int);
        lemma_mul_bound(panel.x_min as int, SCALE as int, PANEL_DEVICE_LIMIT as int, SCALE as int);
        lemma_mul_bound(panel.y_max as int, SCALE as int, PANEL_DEVICE_LIMIT as int, SCALE as int);
    }
    let x_min = panel.x_min * (SCALE as i128) + (e_start.x as i128) * x_span;
    let x_max = panel.x_min * (SCALE as i128) + (e_end.x as i128) * x_span;
    let y_top = panel.y_max * (SCALE as i128) - (e_start.y as i128) * y_span;
    let y_bottom = panel.y_max * (SCALE as i128) - (e_end.y as i128) * y_span;
    QuadRect { x_min, y_top, x_max, y_bottom }
}

/// Re-expresses a panel device rectangle at the finer vertex resolution, so
/// that a panel background quad and element quads share one unit.
pub fn rect_to_fine(panel: DeviceRect) -> (r: QuadRect)
    requires
        device_rect_wf(panel),
    ensures
        r.x_min as int == panel.x_min * SCALE,
        r.x_max as int == panel.x_max * SCALE,
        r.y_top as int == panel.y_max * SCALE,
        r.y_bottom as int == panel.y_min * SCALE,
        quad_rect_wf(r),
{
    proof {
        lemma_mul_bound(panel.x_min as int, SCALE as int, PANEL_DEVICE_LIMIT as int, SCALE as int);
        lemma_mul_bound(panel.x_max as int, SCALE as int, PANEL_DEVICE_LIMIT as int, SCALE as int);
        lemma_mul_bound(panel.y_min as int, SCALE as int, PANEL_DEVICE_LIMIT as int, SCALE as int);
        lemma_mul_bound(panel.y_max as int, SCALE as int, PANEL_DEVICE_LIMIT as int, SCALE as int);
    }
    QuadRect {
        x_min: panel.x_min * (SCALE as i128),
        y_top: panel.y_max * (SCALE as i128),
        x_max: panel.x_max * (SCALE as i128),
        y_bottom: panel.y_min * (SCALE as i128),
    }
}

/// A panel spanning the whole normalized range maps onto the whole screen:
/// its device extents are symmetric around zero (the screen center) and its
/// spans equal the screen's pixel dimensions. A span of one pixel measures
/// `2 * SCALE` device units.
pub proof fn lemma_panel_full_screen(screen: ScreenSize)
    ensures
        dev_x(0, screen.width as int) + dev_x(SCALE as int, screen.width as int) == 0,
        dev_x(SCALE as int, screen.width as int) - dev_x(0, screen.width as int) == 2 * SCALE
            * screen.width,
        dev_y(0, screen.height as int) + dev_y(SCALE as int, screen.height as int) == 0,
        dev_y(0, screen.height as int) - dev_y(SCALE as int, screen.height as int) == 2 * SCALE
            * screen.height,
{
    let w = screen.width as int;
    let h = screen.height as int;
    let s = SCALE as int;
    assert((2 * s * w - w * s) + (2 * 0 * w - w * s) == 0) by (nonlinear_arith);
    assert((2 * s * w - w * s) - (2 * 0 * w - w * s) == 2 * s * w) by (nonlinear_arith);
    assert((h * s - 2 * 0 * h) + (h * s - 2 * s * h) == 0) by (nonlinear_arith);
    assert((h * s - 2 * 0 * h) - (h * s - 2 * s * h) == 2 * s * h) by (nonlinear_arith);
}

/// An element covering the whole of its panel reproduces the panel's own
/// device rectangle exactly, re-expressed at the vertex resolution.
pub proof fn lemma_element_identity(panel: DeviceRect)
    ensures
        elem_x(0, panel.x_min as int, panel.x_max as int) == panel.x_min * SCALE,
        elem_x(SCALE as int, panel.x_min as int, panel.x_max as int) == panel.x_max * SCALE,
        elem_y(0, panel.y_min as int, panel.y_max as int) == panel.y_max * SCALE,
        elem_y(SCALE as int, panel.y_min as int, panel.y_max as int) == panel.y_min * SCALE,
{
}

/// Device coordinates scale linearly with the screen size: enlarging the
/// screen by a factor scales every device coordinate by the same factor while
/// the normalized geometry stays unchanged.
pub proof fn lemma_device_scales_with_screen(a: int, w: int, m: int)
    ensures
        dev_x(a, m * w) == m * dev_x(a, w),
        dev_y(a, m * w) == m * dev_y(a, w),
{
    let s = SCALE as int;
    assert(2 * a * (m * w) - (m * w) * s == m * (2 * a * w - w * s)) by (nonlinear_arith);
    assert((m * w) * s - 2 * a * (m * w) == m * (w * s - 2 * a * w)) by (nonlinear_arith);
}

} // verus!
