//! Shared definitions: the closed set of UI events, interaction kinds,
//! page/menu states, and the texture atlas the packer resolves UV rectangles
//! from.

use vstd::prelude::*;

verus! {

/// The closed set of symbolic events the engine can hand back to the
/// composition layer. The engine never interprets their meaning.
#[derive(Clone, Copy, Debug, PartialEq, Eq, Structural)]
pub enum GuiEvent {
    ChangeLayoutToFileExplorer,
    ChangeLayoutToProjectView,
    DisplaySettingsMenu,
    Highlight,
}

/// Which full-screen page the composition layer currently shows.
#[derive(Clone, Copy, Debug, PartialEq, Eq, Structural)]
pub enum GuiPageState {
    ProjectView,
    FileExplorer,
}

/// Which overlay menu, if any, is open.
#[derive(Clone, Copy, Debug, PartialEq, Eq, Structural)]
pub enum GuiMenuState {
    SettingsMenu,
}

/// The two independent interaction slots an element can carry a handler for.
#[derive(Clone, Copy, Debug, PartialEq, Eq, Structural)]
pub enum InteractionStyle {
    OnClick,
    OnHover,
}

/// An exact fraction `num / den`, used for texture UV coordinates so that
/// atlas lookups are deterministic and drift-free. The host divides once at
/// the GPU boundary.
#[derive(Clone, Copy, Debug, PartialEq, Eq, Structural)]
pub struct Frac {
    pub num: u64,
    pub den: u64,
}

/// One UV corner.
#[derive(Clone, Copy, Debug, PartialEq, Eq, Structural)]
pub struct UvPoint {
    pub u: Frac,
    pub v: Frac,
}

/// The four UV corners of a quad, in the winding the packer emits vertices.
#[derive(Clone, Copy, Debug, PartialEq, Eq, Structural)]
pub struct QuadUv {
    pub top_left: UvPoint,
    pub top_right: UvPoint,
    pub bottom_right: UvPoint,
    pub bottom_left: UvPoint,
}

/// The zero fraction.
pub open spec fn zero_frac() -> Frac {
    Frac { num: 0, den: 1 }
}

/// The all-zero UV rectangle: the silent fallback for texture names that are
/// absent from the atlas (visually a degenerate/blank texture sample).
pub open spec fn zero_quad_uv() -> QuadUv {
    QuadUv {
        top_left: (UvPoint { u: zero_frac(), v: zero_frac() }),
        top_right: (UvPoint { u: zero_frac(), v: zero_frac() }),
        bottom_right: (UvPoint { u: zero_frac(), v: zero_frac() }),
        bottom_left: (UvPoint { u: zero_frac(), v: zero_frac() }),
    }
}

/// The all-zero UV corner.
fn zero_uv_point() -> (p: UvPoint)
    ensures
        p == (UvPoint { u: zero_frac(), v: zero_frac() }),
{
    UvPoint { u: Frac { num: 0, den: 1 }, v: Frac { num: 0, den: 1 } }
}

/// A named sub-rectangle of the atlas image, in atlas pixel space, with its
/// normalized UV corner pair derived once at atlas construction time.
#[derive(Clone, Debug)]
pub struct UiAtlasTexture {
    pub name: String,
    pub x_start: u32,
    pub y_start: u32,
    pub image_width: u32,
    pub image_height: u32,
    pub start_coord: Option<(Frac, Frac)>,
    pub end_coord: Option<(Frac, Frac)>,
}

/// A texture atlas snapshot: the image extent in pixels and the ordered list
/// of named entries. The engine only reads the derived UVs and never mutates
/// the atlas.
#[derive(Clone, Debug)]
pub struct UiAtlas {
    pub entries: Vec<UiAtlasTexture>,
    pub width: u32,
    pub height: u32,
}

/// `entry` with its UV corner pair derived against an atlas of the given
/// pixel extent: each pixel coordinate becomes the exact fraction of the
/// atlas extent.
pub open spec fn with_tex_coords(entry: UiAtlasTexture, width: u32, height: u32) -> UiAtlasTexture {
    UiAtlasTexture {
        start_coord: Some(
            (
                (Frac { num: entry.x_start as u64, den: width as u64 }),
                (Frac { num: entry.y_start as u64, den: height as u64 }),
            ),
        ),
        end_coord: Some(
            (
                (
                    Frac {
                        num: (entry.x_start as u64 + entry.image_width as u64) as u64,
                        den: width as u64,
                    }
                ),
                (
                    Frac {
                        num: (entry.y_start as u64 + entry.image_height as u64) as u64,
                        den: height as u64,
                    }
                ),
            ),
        ),
        ..entry
    }
}

/// The entry a texture name resolves to: the latest entry carrying that name,
/// or nothing. Later entries shadow earlier ones of the same name.
pub open spec fn atlas_match(entries: Seq<UiAtlasTexture>, name: Seq<char>) -> Option<
    UiAtlasTexture,
>
    decreases entries.len(),
{
    if entries.len() == 0 {
        None
    } else if entries.last().name@ == name {
        Some(entries.last())
    } else {
        atlas_match(entries.drop_last(), name)
    }
}

/// The four UV corners an entry yields, in the packer's vertex winding.
pub open spec fn quad_uv_of(entry: UiAtlasTexture) -> QuadUv {
    let s = entry.start_coord.unwrap();
    let e = entry.end_coord.unwrap();
    QuadUv {
        top_left: (UvPoint { u: s.0, v: s.1 }),
        top_right: (UvPoint { u: e.0, v: s.1 }),
        bottom_right: (UvPoint { u: e.0, v: e.1 }),
        bottom_left: (UvPoint { u: s.0, v: e.1 }),
    }
}

/// The UV rectangle a name resolves to against these entries: the matched
/// entry's corners, or the all-zero rectangle when no entry matches.
pub open spec fn spec_resolve(entries: Seq<UiAtlasTexture>, name: Seq<char>) -> QuadUv {
    match atlas_match(entries, name) {
        Some(entry) => quad_uv_of(entry),
        None => zero_quad_uv(),
    }
}

impl UiAtlas {
    /// Every entry has its UV pair derived, as `add_entry` guarantees.
    pub open spec fn wf(&self) -> bool {
        forall|i: int|
            0 <= i < self.entries@.len() ==> (#[trigger] self.entries@[i]).start_coord.is_some()
                && self.entries@[i].end_coord.is_some()
    }

    pub fn new(width: u32, height: u32) -> (atlas: UiAtlas)
        ensures
            atlas.entries@.len() == 0,
            atlas.width == width,
            atlas.height == height,
            atlas.wf(),
    {
        UiAtlas { entries: Vec::new(), width, height }
    }

    /// Appends an entry, deriving its UV pair against this atlas's extent
    /// once, here, not per frame.
    pub fn add_entry(&mut self, entry: UiAtlasTexture)
        ensures
            final(self).entries@ == old(self).entries@.push(
                with_tex_coords(entry, old(self).width, old(self).height),
            ),
            final(self).width == old(self).width,
            final(self).height == old(self).height,
            old(self).wf() ==> final(self).wf(),
    {
        let width = self.width;
        let height = self.height;
        let derived = entry.generate_tex_coords(width, height);
        self.entries.push(derived);
    }

    /// Resolves a texture name to its UV corners: the latest entry of that
    /// name wins, and a name absent from the atlas yields the all-zero UV
    /// rectangle rather than an error.
    pub fn resolve(&self, name: &str) -> (uv: QuadUv)
        requires
            self.wf(),
        ensures
            uv == spec_resolve(self.entries@, name@),
    {
        let mut result = QuadUv {
            top_left: zero_uv_point(),
            top_right: zero_uv_point(),
            bottom_right: zero_uv_point(),
            bottom_left: zero_uv_point(),
        };
        let name_owned = name.to_owned();
        let mut i: usize = 0;
        while i < self.entries.len()
            invariant
                self.wf(),
                i <= self.entries@.len(),
                name_owned@ == name@,
                result == spec_resolve(self.entries@.take(i as int), name@),
            decreases self.entries@.len() - i,
        {
            if self.entries[i].name == name_owned {
                let s = self.entries[i].start_coord.unwrap();
                let e = self.entries[i].end_coord.unwrap();
                result = QuadUv {
                    top_left: UvPoint { u: s.0, v: s.1 },
                    top_right: UvPoint { u: e.0, v: s.1 },
                    bottom_right: UvPoint { u: e.0, v: e.1 },
                    bottom_left: UvPoint { u: s.0, v: e.1 },
                };
            }
            proof {
                assert(self.entries@.take(i + 1).drop_last() =~= self.entries@.take(i as int));
                assert(self.entries@.take(i + 1).last() == self.entries@[i as int]);
            }
            i = i + 1;
        }
        proof {
            assert(self.entries@.take(self.entries@.len() as int) =~= self.entries@);
        }
        result
    }
}

impl UiAtlasTexture {
    pub fn new(name: String, x_0: u32, y_0: u32, image_width: u32, image_height: u32) -> (t:
        UiAtlasTexture)
        ensures
            t.name == name,
            t.x_start == x_0,
            t.y_start == y_0,
            t.image_width == image_width,
            t.image_height == image_height,
            t.start_coord.is_none(),
            t.end_coord.is_none(),
    {
        UiAtlasTexture {
            name,
            x_start: x_0,
            y_start: y_0,
            image_width,
            image_height,
            start_coord: None,
            end_coord: None,
        }
    }

    /// Derives the entry's normalized UV corner pair from its pixel rectangle
    /// and the atlas extent.
    fn generate_tex_coords(self, width: u32, height: u32) -> (t: UiAtlasTexture)
        ensures
            t == with_tex_coords(self, width, height),
    {
        let x0 = Frac { num: self.x_start as u64, den: width as u64 };
        let y0 = Frac { num: self.y_start as u64, den: height as u64 };
        let x1 = Frac { num: self.x_start as u64 + self.image_width as u64, den: width as u64 };
        let y1 = Frac { num: self.y_start as u64 + self.image_height as u64, den: height as u64 };
        UiAtlasTexture { start_coord: Some((x0, y0)), end_coord: Some((x1, y1)), ..self }
    }
}

} // verus!
