//! Buffer packing, render emission lockstep, buffer sizing, and text
//! anchoring.

use gfx::definitions::{Frac, InteractionStyle, UiAtlas, UiAtlasTexture};
use gfx::geometry::{panel_to_device, Coordinate, ScreenSize, SCALE};
use gfx::interface::{Element, EventProducer, Interface, Panel};
use gfx::pack::quad_index_pattern;
use gfx::text::{text_alignment, Alignment, HorizontalAlignment, VerticalAlignment, ANCHOR_SCALE};

fn sample_tree() -> Interface {
    // Three panels: two renderable, one invisible; four elements in all.
    let mut atlas = UiAtlas::new(64, 64);
    atlas.add_entry(UiAtlasTexture::new("solid".to_string(), 0, 0, 16, 16));
    let mut itf = Interface::new(atlas);

    let mut header = Panel::new(Coordinate::new(0, 0), Coordinate::new(SCALE, 20_000))
        .with_color("#0d1117ff");
    header.add_element(
        Element::new(Coordinate::new(0, 0), Coordinate::new(25_000, SCALE), "solid")
            .with_color("#0d1117ff")
            .with_fn(
                EventProducer::new(Some(gfx::definitions::GuiEvent::Highlight)),
                InteractionStyle::OnHover,
            ),
    );
    itf.add_panel(header);

    let mut body = Panel::new(Coordinate::new(200_000, 100_000), Coordinate::new(800_000, 900_000));
    body.add_element(Element::new(
        Coordinate::new(0, 0),
        Coordinate::new(SCALE, 200_000),
        "",
    ));
    body.add_element(Element::new(
        Coordinate::new(0, 200_000),
        Coordinate::new(SCALE, 400_000),
        "",
    ));
    itf.add_panel(body);

    let mut overlay = Panel::new(Coordinate::new(400_000, 400_000), Coordinate::new(600_000, 600_000))
        .with_color("#ff0000ff");
    overlay.add_element(
        Element::new(Coordinate::new(0, 0), Coordinate::new(SCALE, SCALE), "solid")
            .with_color("#ff0000ff"),
    );
    itf.add_panel(overlay);

    itf
}

#[test]
fn pack_and_render_walk_in_lockstep() {
    let itf = sample_tree();
    let screen = ScreenSize::new(800, 600);
    let frame = itf.pack_frame(screen);
    let slices = itf.draw_slices();
    // Two renderable panels plus four elements: six quads.
    assert_eq!(frame.quads.len(), 6);
    assert_eq!(slices.len(), 6);
    for (i, (quad, slice)) in frame.quads.iter().zip(slices.iter()).enumerate() {
        assert_eq!(quad.offset, (i as u64) * 128);
        assert_eq!(slice.offset, quad.offset);
        assert_eq!(slice.length, 128);
        assert_eq!(quad.offset % 128, 0);
    }
}

#[test]
fn buffer_sizing_matches_quad_count() {
    let itf = sample_tree();
    assert_eq!(itf.required_vertex_count(), 4 * 6);
    assert_eq!(itf.vertex_buffer_bytes(), 4 * 6 * 32);
}

#[test]
fn index_pattern_is_two_triangles_over_one_quad() {
    assert_eq!(quad_index_pattern(), vec![0u16, 2, 1, 1, 2, 3]);
}

#[test]
fn packed_panel_quad_has_expected_geometry_and_winding() {
    let itf = sample_tree();
    let screen = ScreenSize::new(800, 600);
    let frame = itf.pack_frame(screen);
    // First quad is the header panel background: top fiftieth of the screen.
    let rect = panel_to_device(
        Coordinate::new(0, 0),
        Coordinate::new(SCALE, 20_000),
        screen,
    );
    let q = &frame.quads[0].quad;
    let s = SCALE as i128;
    assert_eq!(q.top_left.x, rect.x_min * s);
    assert_eq!(q.top_left.y, rect.y_max * s);
    assert_eq!(q.top_right.x, rect.x_max * s);
    assert_eq!(q.top_right.y, rect.y_max * s);
    assert_eq!(q.bottom_left.x, rect.x_min * s);
    assert_eq!(q.bottom_left.y, rect.y_min * s);
    assert_eq!(q.bottom_right.x, rect.x_max * s);
    assert_eq!(q.bottom_right.y, rect.y_min * s);
    // The header color came from its hex literal.
    assert_eq!((q.top_left.color.r, q.top_left.color.g, q.top_left.color.b), (13, 17, 23));
    // Its texture resolves to the one atlas entry.
    assert_eq!(q.top_left.uv.u, Frac { num: 0, den: 64 });
    assert_eq!(q.bottom_right.uv.u, Frac { num: 16, den: 64 });
}

#[test]
fn unmatched_texture_name_packs_zero_uvs() {
    let itf = sample_tree();
    let frame = itf.pack_frame(ScreenSize::new(800, 600));
    // Quads 2 and 3 belong to the invisible body panel's elements, whose
    // texture name is empty and matches nothing.
    let q = &frame.quads[2].quad;
    assert_eq!(q.top_left.uv.u, Frac { num: 0, den: 1 });
    assert_eq!(q.bottom_right.uv.v, Frac { num: 0, den: 1 });
}

#[test]
fn labeled_elements_produce_text_sections_in_walk_order() {
    let mut itf = sample_tree();
    let mut labeled = Panel::new(Coordinate::new(0, 0), Coordinate::new(SCALE, SCALE));
    labeled.add_element(
        Element::new(Coordinate::new(0, 0), Coordinate::new(SCALE, SCALE), "solid").with_text(
            Alignment {
                vertical: VerticalAlignment::Center,
                horizontal: HorizontalAlignment::Center,
            },
            "File",
            700_000,
        ),
    );
    itf.add_panel(labeled);
    let frame = itf.pack_frame(ScreenSize::new(800, 600));
    assert_eq!(frame.texts.len(), 1);
    assert_eq!(frame.texts[0].content, "File");
    assert_eq!(frame.texts[0].scale, 700_000);
}

#[test]
fn center_center_anchor_subtracts_half_text_width_and_height() {
    // A full-screen panel with a full-size element on an 800x600 screen:
    // the element center is pixel (400, 300); a two-character label at
    // scale 1.0 is estimated 30 pixels wide and the formula steps 15 pixels
    // back on each axis, so the anchor lands at (385, 285).
    let screen = ScreenSize::new(800, 600);
    let panel = panel_to_device(Coordinate::new(0, 0), Coordinate::new(SCALE, SCALE), screen);
    let alignment = Alignment {
        vertical: VerticalAlignment::Center,
        horizontal: HorizontalAlignment::Center,
    };
    let text = ("ab".to_string(), SCALE);
    let ((x, y), scale) = text_alignment(
        Coordinate::new(0, 0),
        Coordinate::new(SCALE, SCALE),
        panel,
        screen,
        &alignment,
        &text,
    );
    assert_eq!(x, 385 * ANCHOR_SCALE);
    assert_eq!(y, 285 * ANCHOR_SCALE);
    assert_eq!(scale, SCALE);
}

#[test]
fn left_top_anchor_is_element_top_left_in_screen_space() {
    let screen = ScreenSize::new(800, 600);
    let panel = panel_to_device(Coordinate::new(0, 0), Coordinate::new(SCALE, SCALE), screen);
    let alignment = Alignment {
        vertical: VerticalAlignment::Top,
        horizontal: HorizontalAlignment::Left,
    };
    let text = ("x".to_string(), SCALE);
    let ((x, y), _scale) = text_alignment(
        Coordinate::new(0, 0),
        Coordinate::new(SCALE, SCALE),
        panel,
        screen,
        &alignment,
        &text,
    );
    assert_eq!(x, 0);
    assert_eq!(y, 0);
}
