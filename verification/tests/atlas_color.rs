//! Color parsing and texture-atlas UV resolution.

use gfx::color::{is_valid_hex_color, Color};
use gfx::definitions::{Frac, UiAtlas, UiAtlasTexture};

#[test]
fn from_hex_parses_channels_exactly() {
    let c = Color::from_hex("#0d1117ff");
    assert_eq!((c.r, c.g, c.b, c.a), (13, 17, 23, 255));
    let c = Color::from_hex("#999999ff");
    assert_eq!((c.r, c.g, c.b, c.a), (153, 153, 153, 255));
    let c = Color::from_hex("#ffffffff");
    assert_eq!((c.r, c.g, c.b, c.a), (255, 255, 255, 255));
    let c = Color::from_hex("#00000000");
    assert_eq!((c.r, c.g, c.b, c.a), (0, 0, 0, 0));
    let c = Color::from_hex("#A1b2C3d4");
    assert_eq!((c.r, c.g, c.b, c.a), (0xa1, 0xb2, 0xc3, 0xd4));
}

#[test]
fn hex_validation_accepts_only_well_formed_literals() {
    assert!(is_valid_hex_color("#12345678"));
    assert!(is_valid_hex_color("#abcdefAB"));
    assert!(!is_valid_hex_color("12345678"));
    assert!(!is_valid_hex_color("#1234567"));
    assert!(!is_valid_hex_color("#123456789"));
    assert!(!is_valid_hex_color("#12g45678"));
    assert!(!is_valid_hex_color(""));
}

#[test]
fn atlas_entries_derive_exact_uv_fractions() {
    let mut atlas = UiAtlas::new(256, 128);
    atlas.add_entry(UiAtlasTexture::new("folder".to_string(), 10, 20, 30, 40));
    let uv = atlas.resolve("folder");
    assert_eq!(uv.top_left.u, Frac { num: 10, den: 256 });
    assert_eq!(uv.top_left.v, Frac { num: 20, den: 128 });
    assert_eq!(uv.bottom_right.u, Frac { num: 40, den: 256 });
    assert_eq!(uv.bottom_right.v, Frac { num: 60, den: 128 });
    assert_eq!(uv.top_right.u, Frac { num: 40, den: 256 });
    assert_eq!(uv.top_right.v, Frac { num: 20, den: 128 });
    assert_eq!(uv.bottom_left.u, Frac { num: 10, den: 256 });
    assert_eq!(uv.bottom_left.v, Frac { num: 60, den: 128 });
}

#[test]
fn absent_texture_name_resolves_to_all_zero_uvs() {
    let mut atlas = UiAtlas::new(256, 128);
    atlas.add_entry(UiAtlasTexture::new("folder".to_string(), 10, 20, 30, 40));
    let uv = atlas.resolve("missing");
    let zero = Frac { num: 0, den: 1 };
    assert_eq!(uv.top_left.u, zero);
    assert_eq!(uv.top_left.v, zero);
    assert_eq!(uv.top_right.u, zero);
    assert_eq!(uv.top_right.v, zero);
    assert_eq!(uv.bottom_left.u, zero);
    assert_eq!(uv.bottom_left.v, zero);
    assert_eq!(uv.bottom_right.u, zero);
    assert_eq!(uv.bottom_right.v, zero);
}

#[test]
fn resolve_on_empty_atlas_yields_zero_uvs() {
    let atlas = UiAtlas::new(64, 64);
    let uv = atlas.resolve("anything");
    assert_eq!(uv.top_left.u, Frac { num: 0, den: 1 });
    assert_eq!(uv.bottom_right.v, Frac { num: 0, den: 1 });
}

#[test]
fn later_entry_of_same_name_shadows_earlier() {
    let mut atlas = UiAtlas::new(100, 100);
    atlas.add_entry(UiAtlasTexture::new("icon".to_string(), 0, 0, 10, 10));
    atlas.add_entry(UiAtlasTexture::new("icon".to_string(), 50, 50, 10, 10));
    let uv = atlas.resolve("icon");
    assert_eq!(uv.top_left.u, Frac { num: 50, den: 100 });
    assert_eq!(uv.top_left.v, Frac { num: 50, den: 100 });
}
