//! Hit-test dispatch, hover transitions, and color restoration.

use gfx::definitions::{GuiEvent, InteractionStyle, UiAtlas};
use gfx::geometry::{Coordinate, SCALE};
use gfx::interface::{Element, EventProducer, Interface, Panel};

fn demo_interface() -> Interface {
    // One panel over the top fifth of the screen with one clickable element
    // over its left half, as in the end-to-end scenario.
    let mut itf = Interface::new(UiAtlas::new(64, 64));
    let mut panel = Panel::new(Coordinate::new(0, 0), Coordinate::new(SCALE, 200_000));
    let element = Element::new(
        Coordinate::new(0, 0),
        Coordinate::new(500_000, SCALE),
        "solid",
    )
    .with_fn(
        EventProducer::new(Some(GuiEvent::Highlight)),
        InteractionStyle::OnClick,
    );
    panel.add_element(element);
    itf.add_panel(panel);
    itf
}

#[test]
fn click_inside_element_dispatches_highlight_at_address_zero() {
    let itf = demo_interface();
    let hit = itf.handle_interaction(Coordinate::new(250_000, 100_000), InteractionStyle::OnClick);
    assert_eq!(hit, Some((Some(GuiEvent::Highlight), (0, 0))));
}

#[test]
fn click_outside_element_dispatches_nothing() {
    let itf = demo_interface();
    let hit = itf.handle_interaction(Coordinate::new(750_000, 100_000), InteractionStyle::OnClick);
    assert!(hit.is_none());
}

#[test]
fn hover_does_not_trigger_click_handler() {
    let itf = demo_interface();
    let hit = itf.handle_interaction(Coordinate::new(250_000, 100_000), InteractionStyle::OnHover);
    assert!(hit.is_none());
}

#[test]
fn earlier_overlapping_element_wins() {
    let mut itf = Interface::new(UiAtlas::new(64, 64));
    let mut panel = Panel::new(Coordinate::new(0, 0), Coordinate::new(SCALE, SCALE));
    // Two elements covering the same area, both clickable.
    let first = Element::new(Coordinate::new(0, 0), Coordinate::new(SCALE, SCALE), "a")
        .with_fn(
            EventProducer::new(Some(GuiEvent::ChangeLayoutToProjectView)),
            InteractionStyle::OnClick,
        );
    let second = Element::new(Coordinate::new(0, 0), Coordinate::new(SCALE, SCALE), "b")
        .with_fn(
            EventProducer::new(Some(GuiEvent::ChangeLayoutToFileExplorer)),
            InteractionStyle::OnClick,
        );
    panel.add_element(first);
    panel.add_element(second);
    itf.add_panel(panel);
    let hit = itf.handle_interaction(Coordinate::new(500_000, 500_000), InteractionStyle::OnClick);
    assert_eq!(
        hit,
        Some((Some(GuiEvent::ChangeLayoutToProjectView), (0, 0)))
    );
}

#[test]
fn matched_element_consumes_hit_even_without_event() {
    let mut itf = Interface::new(UiAtlas::new(64, 64));
    let mut panel = Panel::new(Coordinate::new(0, 0), Coordinate::new(SCALE, SCALE));
    // The first element consumes the click but produces no event; the
    // second would produce one, but the search must not reach it.
    let consumer = Element::new(Coordinate::new(0, 0), Coordinate::new(SCALE, SCALE), "a")
        .with_fn(EventProducer::new(None), InteractionStyle::OnClick);
    let producer = Element::new(Coordinate::new(0, 0), Coordinate::new(SCALE, SCALE), "b")
        .with_fn(
            EventProducer::new(Some(GuiEvent::DisplaySettingsMenu)),
            InteractionStyle::OnClick,
        );
    panel.add_element(consumer);
    panel.add_element(producer);
    itf.add_panel(panel);
    let hit = itf.handle_interaction(Coordinate::new(500_000, 500_000), InteractionStyle::OnClick);
    assert_eq!(hit, Some((None, (0, 0))));
}

#[test]
fn cursor_bounds_check_matches_panels() {
    let itf = demo_interface();
    assert!(itf.is_cursor_within_menu_panel_bounds(Coordinate::new(500_000, 100_000)));
    assert!(!itf.is_cursor_within_menu_panel_bounds(Coordinate::new(500_000, 900_000)));
}

#[test]
fn repeated_tints_then_one_restore_yield_original_color() {
    let mut itf = Interface::new(UiAtlas::new(64, 64));
    let mut panel = Panel::new(Coordinate::new(0, 0), Coordinate::new(SCALE, SCALE));
    let element = Element::new(Coordinate::new(0, 0), Coordinate::new(SCALE, SCALE), "solid")
        .with_color("#112233ff");
    panel.add_element(element);
    itf.add_panel(panel);
    let original = itf.panels[0].elements[0].original_color;
    for _ in 0..5 {
        itf.panels[0].elements[0].with_temp_color("#999999ff");
    }
    assert_ne!(itf.panels[0].elements[0].color, original);
    assert_eq!(itf.panels[0].elements[0].original_color, original);
    itf.reset_all_element_colors();
    assert_eq!(itf.panels[0].elements[0].color, original);
    assert_eq!(itf.panels[0].elements[0].original_color, original);
}

#[test]
fn hover_change_tints_and_restores() {
    let mut itf = Interface::new(UiAtlas::new(64, 64));
    let mut panel = Panel::new(Coordinate::new(0, 0), Coordinate::new(SCALE, SCALE));
    panel.add_element(
        Element::new(Coordinate::new(0, 0), Coordinate::new(SCALE, 500_000), "a")
            .with_color("#112233ff"),
    );
    panel.add_element(
        Element::new(Coordinate::new(0, 500_000), Coordinate::new(SCALE, SCALE), "b")
            .with_color("#445566ff"),
    );
    itf.add_panel(panel);
    let first_original = itf.panels[0].elements[0].color;
    let second_original = itf.panels[0].elements[1].color;

    // Hover enters the first element.
    let dirty = itf.apply_hover_change(None, Some((0, 0)));
    assert!(dirty);
    assert_ne!(itf.panels[0].elements[0].color, first_original);

    // No movement between frames: nothing changes.
    let dirty = itf.apply_hover_change(Some((0, 0)), Some((0, 0)));
    assert!(!dirty);

    // Hover moves to the second element: the first is restored.
    let dirty = itf.apply_hover_change(Some((0, 0)), Some((0, 1)));
    assert!(dirty);
    assert_eq!(itf.panels[0].elements[0].color, first_original);
    assert_ne!(itf.panels[0].elements[1].color, second_original);

    // Hover leaves: the second is restored too.
    let dirty = itf.apply_hover_change(Some((0, 1)), None);
    assert!(dirty);
    assert_eq!(itf.panels[0].elements[1].color, second_original);
}

#[test]
fn stale_previous_address_is_ignored_after_rebuild() {
    let mut itf = demo_interface();
    // An address remembered from a larger, discarded tree.
    let dirty = itf.apply_hover_change(Some((4, 7)), None);
    assert!(dirty);
    assert_eq!(
        itf.handle_interaction(Coordinate::new(250_000, 100_000), InteractionStyle::OnClick),
        Some((Some(GuiEvent::Highlight), (0, 0)))
    );
}
