//! Coordinate transform behavior: screen-centering, the element identity
//! case, stability under repetition, and linear scaling with screen size.

use gfx::geometry::{
    element_to_device, panel_to_device, rect_to_fine, Coordinate, ScreenSize, SCALE,
};

#[test]
fn full_screen_panel_is_centered_and_spans_screen() {
    let start = Coordinate::new(0, 0);
    let end = Coordinate::new(SCALE, SCALE);
    let screen = ScreenSize::new(1024, 768);
    let r = panel_to_device(start, end, screen);
    assert_eq!(r.x_min + r.x_max, 0);
    assert_eq!(r.y_min + r.y_max, 0);
    assert_eq!(r.x_max - r.x_min, 2 * (SCALE as i128) * 1024);
    assert_eq!(r.y_max - r.y_min, 2 * (SCALE as i128) * 768);
}

#[test]
fn panel_to_device_concrete_values() {
    // A panel over the top fifth of an 800x600 screen.
    let r = panel_to_device(
        Coordinate::new(0, 0),
        Coordinate::new(SCALE, 200_000),
        ScreenSize::new(800, 600),
    );
    assert_eq!(r.x_min, -800_000_000);
    assert_eq!(r.x_max, 800_000_000);
    assert_eq!(r.y_max, 600_000_000);
    assert_eq!(r.y_min, 360_000_000);
}

#[test]
fn element_identity_reproduces_panel_rect() {
    let panel = panel_to_device(
        Coordinate::new(250_000, 250_000),
        Coordinate::new(750_000, 750_000),
        ScreenSize::new(800, 600),
    );
    let fine = element_to_device(Coordinate::new(0, 0), Coordinate::new(SCALE, SCALE), panel);
    let expected = rect_to_fine(panel);
    assert_eq!(fine, expected);
}

#[test]
fn transforms_are_stable_under_repetition() {
    let start = Coordinate::new(125_000, 300_000);
    let end = Coordinate::new(900_000, 1_000_000);
    let screen = ScreenSize::new(1920, 1080);
    let first = panel_to_device(start, end, screen);
    let second = panel_to_device(start, end, screen);
    assert_eq!(first, second);
    let e0 = Coordinate::new(100_000, 0);
    let e1 = Coordinate::new(500_000, 650_000);
    assert_eq!(element_to_device(e0, e1, first), element_to_device(e0, e1, second));
}

#[test]
fn doubling_screen_size_doubles_device_coordinates() {
    let start = Coordinate::new(250_000, 250_000);
    let end = Coordinate::new(750_000, 750_000);
    let small = panel_to_device(start, end, ScreenSize::new(800, 600));
    let large = panel_to_device(start, end, ScreenSize::new(1600, 1200));
    assert_eq!(large.x_min, 2 * small.x_min);
    assert_eq!(large.x_max, 2 * small.x_max);
    assert_eq!(large.y_min, 2 * small.y_min);
    assert_eq!(large.y_max, 2 * small.y_max);
}
