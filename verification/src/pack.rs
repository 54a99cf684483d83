//! The vertex/buffer packer and the render emission walk.
//!
//! Both walk the panel tree in the same fixed order — each renderable panel's
//! background quad first, then every element of that panel — and both advance
//! a byte offset by one quad per step. The two traversals must stay in
//! lockstep, or the renderer binds the wrong slice for a quad; here that
//! lockstep is a proved consequence of their contracts.
//!
//! A quad is four vertices in the winding top-left, top-right, bottom-left,
//! bottom-right, matched to the shared index pattern `[0, 2, 1, 1, 2, 3]`.
//! The GPU-side vertex record is `{position: 2 floats, color: 4 floats,
//! uv: 2 floats}`, 32 bytes, so one quad occupies 128 buffer bytes; the host
//! converts each `PackedVertex` to that record without reordering.

use vstd::prelude::*;

use crate::color::Color;
use crate::definitions::{spec_resolve, UiAtlas, UvPoint};
use crate::geometry::{
    dev_x, dev_y, elem_x, elem_y, element_to_device, rect_to_fine, ScreenSize, SCALE,
};
use crate::interface::{Element, Interface, Panel};
use crate::text::{spec_text_anchor, text_alignment};

verus! {

/// Size in bytes of one GPU vertex record: two position floats, four color
/// floats, two UV floats, four bytes each.
pub const VERTEX_BYTES: u64 = 32;

/// Size in bytes of one quad: four vertex records.
pub const QUAD_BYTES: u64 = 128;

/// Largest quad count the packer accepts; keeps every byte offset far below
/// the range of a 64-bit buffer address.
pub const QUAD_LIMIT: u64 = 1_000_000_000;

/// One vertex of a packed quad: a position at the vertex device resolution,
/// the node's color, and one UV corner.
#[derive(Clone, Copy, Debug, PartialEq, Eq, Structural)]
pub struct PackedVertex {
    pub x: i128,
    pub y: i128,
    pub color: Color,
    pub uv: UvPoint,
}

/// Four vertices in the fixed winding the index pattern expects.
#[derive(Clone, Copy, Debug, PartialEq, Eq, Structural)]
pub struct Quad {
    pub top_left: PackedVertex,
    pub top_right: PackedVertex,
    pub bottom_left: PackedVertex,
    pub bottom_right: PackedVertex,
}

/// A quad together with the byte offset at which its vertex data is written
/// into the vertex buffer.
#[derive(Clone, Copy, Debug, PartialEq, Eq, Structural)]
pub struct PackedQuad {
    pub offset: u64,
    pub quad: Quad,
}

/// One text label to hand to the external rasterizer: anchor position in
/// `ANCHOR_SCALE` units per pixel, the string, and its scale factor in
/// `SCALE` units.
#[derive(Clone, Debug)]
pub struct TextSection {
    pub x: i128,
    pub y: i128,
    pub content: String,
    pub scale: i64,
}

/// Everything one update pass computes: the quads to write into the vertex
/// buffer and the text sections to queue.
#[derive(Clone, Debug)]
pub struct PackedFrame {
    pub quads: Vec<PackedQuad>,
    pub texts: Vec<TextSection>,
}

/// One vertex-buffer slice to bind for one indexed draw call.
#[derive(Clone, Copy, Debug, PartialEq, Eq, Structural)]
pub struct DrawSlice {
    pub offset: u64,
    pub length: u64,
}

/// The panel's device rectangle as `(x_min, y_min, x_max, y_max)`.
pub open spec fn panel_dev(p: Panel, screen: ScreenSize) -> (int, int, int, int) {
    (
        dev_x(p.start_coordinate.x as int, screen.width as int),
        dev_y(p.end_coordinate.y as int, screen.height as int),
        dev_x(p.end_coordinate.x as int, screen.width as int),
        dev_y(p.start_coordinate.y as int, screen.height as int),
    )
}

/// The node a quad is emitted for: a panel's background, or one element of a
/// panel.
pub open spec fn panel_sources(p: Panel) -> Seq<(Panel, Option<Element>)> {
    (if p.renderable {
        seq![(p, None::<Element>)]
    } else {
        Seq::empty()
    }) + p.elements@.map_values(|e: Element| (p, Some(e)))
}

/// The first `e` quad sources of a panel: its background (when renderable)
/// and its first `e` elements.
pub open spec fn panel_sources_upto(p: Panel, e: int) -> Seq<(Panel, Option<Element>)> {
    (if p.renderable {
        seq![(p, None::<Element>)]
    } else {
        Seq::empty()
    }) + p.elements@.take(e).map_values(|el: Element| (p, Some(el)))
}

/// All quad sources of a panel sequence, in the fixed walk order.
pub open spec fn quad_sources(ps: Seq<Panel>) -> Seq<(Panel, Option<Element>)>
    decreases ps.len(),
{
    if ps.len() == 0 {
        Seq::empty()
    } else {
        quad_sources(ps.drop_last()) + panel_sources(ps.last())
    }
}

/// Number of quads one update pass emits for this tree: one per renderable
/// panel background plus one per element.
pub open spec fn spec_quad_count(itf: Interface) -> int {
    quad_sources(itf.panels@).len() as int
}

/// Whether an element carries a complete label: both a text payload and an
/// alignment.
pub open spec fn has_label(e: Element) -> bool {
    e.text.is_some() && e.text_alignment.is_some()
}

/// The labeled elements among `es`, paired with their panel, in order.
pub open spec fn texts_of_elements(p: Panel, es: Seq<Element>) -> Seq<(Panel, Element)>
    decreases es.len(),
{
    if es.len() == 0 {
        Seq::empty()
    } else {
        texts_of_elements(p, es.drop_last()) + (if has_label(es.last()) {
            seq![(p, es.last())]
        } else {
            Seq::empty()
        })
    }
}

/// All text sections of a panel sequence, in the fixed walk order.
pub open spec fn text_sources(ps: Seq<Panel>) -> Seq<(Panel, Element)>
    decreases ps.len(),
{
    if ps.len() == 0 {
        Seq::empty()
    } else {
        text_sources(ps.drop_last()) + texts_of_elements(ps.last(), ps.last().elements@)
    }
}

/// The vertex has the given position, color and UV corner.
pub open spec fn vertex_matches(v: PackedVertex, x: int, y: int, color: Color, uv: UvPoint) -> bool {
    &&& v.x as int == x
    &&& v.y as int == y
    &&& v.color == color
    &&& v.uv == uv
}

/// The quad is exactly what the walk emits for its source node: a panel
/// background quad spans the panel's own device rectangle; an element quad
/// spans the element's rectangle interpolated across the panel's; each
/// carries the node's color and the UV corners its texture name resolves to.
pub open spec fn quad_matches(
    q: Quad,
    src: (Panel, Option<Element>),
    atlas: UiAtlas,
    screen: ScreenSize,
) -> bool {
    let p = src.0;
    let pd = panel_dev(p, screen);
    match src.1 {
        None => {
            let uv = spec_resolve(atlas.entries@, p.texture_name@);
            let s = SCALE as int;
            &&& vertex_matches(q.top_left, pd.0 * s, pd.3 * s, p.color, uv.top_left)
            &&& vertex_matches(q.top_right, pd.2 * s, pd.3 * s, p.color, uv.top_right)
            &&& vertex_matches(q.bottom_left, pd.0 * s, pd.1 * s, p.color, uv.bottom_left)
            &&& vertex_matches(q.bottom_right, pd.2 * s, pd.1 * s, p.color, uv.bottom_right)
        },
        Some(e) => {
            let uv = spec_resolve(atlas.entries@, e.texture_name@);
            let x0 = elem_x(e.start_coordinate.x as int, pd.0, pd.2);
            let x1 = elem_x(e.end_coordinate.x as int, pd.0, pd.2);
            let yt = elem_y(e.start_coordinate.y as int, pd.1, pd.3);
            let yb = elem_y(e.end_coordinate.y as int, pd.1, pd.3);
            &&& vertex_matches(q.top_left, x0, yt, e.color, uv.top_left)
            &&& vertex_matches(q.top_right, x1, yt, e.color, uv.top_right)
            &&& vertex_matches(q.bottom_left, x0, yb, e.color, uv.bottom_left)
            &&& vertex_matches(q.bottom_right, x1, yb, e.color, uv.bottom_right)
        },
    }
}

/// The packed quads are exactly the quads of `srcs`, in order, at
/// consecutive byte offsets of one quad each.
pub open spec fn quads_match(
    quads: Seq<PackedQuad>,
    srcs: Seq<(Panel, Option<Element>)>,
    atlas: UiAtlas,
    screen: ScreenSize,
) -> bool {
    &&& quads.len() == srcs.len()
    &&& forall|i: int|
        0 <= i < quads.len() ==> (#[trigger] quads[i]).offset as int == i * QUAD_BYTES
    &&& forall|i: int| 0 <= i < quads.len() ==> quad_matches((#[trigger] quads[i]).quad, srcs[i], atlas, screen)
}

/// The section is exactly what the walk emits for its labeled element: the
/// element's own string and scale, anchored by the nine-way alignment
/// formulas against the element's place in its panel.
pub open spec fn section_matches(ts: TextSection, src: (Panel, Element), screen: ScreenSize) -> bool {
    let p = src.0;
    let e = src.1;
    let pd = panel_dev(p, screen);
    let anchor = spec_text_anchor(
        e.text_alignment.unwrap(),
        e.start_coordinate,
        e.end_coordinate,
        pd.0,
        pd.1,
        pd.2,
        pd.3,
        screen,
        e.text.unwrap().0@.len() as int,
        e.text.unwrap().1 as int,
    );
    &&& ts.content == e.text.unwrap().0
    &&& ts.scale == e.text.unwrap().1
    &&& ts.x as int == anchor.0
    &&& ts.y as int == anchor.1
}

/// The packed sections are exactly the sections of `srcs`, in order.
pub open spec fn texts_match(
    texts: Seq<TextSection>,
    srcs: Seq<(Panel, Element)>,
    screen: ScreenSize,
) -> bool {
    &&& texts.len() == srcs.len()
    &&& forall|i: int| 0 <= i < texts.len() ==> section_matches(#[trigger] texts[i], srcs[i], screen)
}

/// Everything `pack_frame` promises of its result.
pub open spec fn frame_post(itf: Interface, screen: ScreenSize, frame: PackedFrame) -> bool {
    &&& quads_match(frame.quads@, quad_sources(itf.panels@), itf.atlas, screen)
    &&& texts_match(frame.texts@, text_sources(itf.panels@), screen)
}

/// Everything `draw_slices` promises of its result.
pub open spec fn slices_post(itf: Interface, slices: Seq<DrawSlice>) -> bool {
    &&& slices.len() == spec_quad_count(itf)
    &&& forall|i: int|
        0 <= i < slices.len() ==> (#[trigger] slices[i]).offset as int == i * QUAD_BYTES
            && slices[i].length == QUAD_BYTES
}

/// Number of renderable panels.
pub open spec fn renderable_count(ps: Seq<Panel>) -> int
    decreases ps.len(),
{
    if ps.len() == 0 {
        0
    } else {
        renderable_count(ps.drop_last()) + if ps.last().renderable {
            1int
        } else {
            0int
        }
    }
}

/// Total number of elements across all panels.
pub open spec fn total_elements(ps: Seq<Panel>) -> int
    decreases ps.len(),
{
    if ps.len() == 0 {
        0
    } else {
        total_elements(ps.drop_last()) + ps.last().elements@.len()
    }
}

/// One step of the walk: the sources of the first `i + 1` panels are the
/// sources of the first `i` followed by panel `i`'s own.
proof fn lemma_sources_take_step(ps: Seq<Panel>, i: int)
    requires
        0 <= i < ps.len(),
    ensures
        quad_sources(ps.take(i + 1)) == quad_sources(ps.take(i)) + panel_sources(ps[i]),
        text_sources(ps.take(i + 1)) == text_sources(ps.take(i)) + texts_of_elements(
            ps[i],
            ps[i].elements@,
        ),
{
    assert(ps.take(i + 1).drop_last() =~= ps.take(i));
    assert(ps.take(i + 1).last() == ps[i]);
}

/// Walking further never emits fewer quads.
proof fn lemma_sources_prefix_le(ps: Seq<Panel>, i: int)
    requires
        0 <= i <= ps.len(),
    ensures
        quad_sources(ps.take(i)).len() <= quad_sources(ps).len(),
    decreases ps.len() - i,
{
    if i == ps.len() {
        assert(ps.take(i) =~= ps);
    } else {
        lemma_sources_take_step(ps, i);
        lemma_sources_prefix_le(ps, i + 1);
    }
}

/// The quad count is the renderable-panel count plus the element count.
proof fn lemma_quad_count_formula(ps: Seq<Panel>)
    ensures
        quad_sources(ps).len() == renderable_count(ps) + total_elements(ps),
    decreases ps.len(),
{
    if ps.len() > 0 {
        lemma_quad_count_formula(ps.drop_last());
    }
}

impl Interface {
    /// Number of vertices the GPU vertex buffer must hold for this tree:
    /// four for every renderable panel background and four for every
    /// element, in tree order. A buffer allocated for a smaller count is
    /// stale once the tree grows, so reallocation must follow every rebuild.
    pub fn required_vertex_count(&self) -> (n: u64)
        requires
            spec_quad_count(*self) <= QUAD_LIMIT,
        ensures
            n == 4 * spec_quad_count(*self),
    {
        let mut count: u64 = 0;
        let mut p: usize = 0;
        while p < self.panels.len()
            invariant
                p <= self.panels@.len(),
                spec_quad_count(*self) <= QUAD_LIMIT,
                count == quad_sources(self.panels@.take(p as int)).len(),
            decreases self.panels@.len() - p,
        {
            proof {
                lemma_sources_take_step(self.panels@, p as int);
                lemma_sources_prefix_le(self.panels@, p as int + 1);
            }
            if self.panels[p].renderable {
                count = count + 1;
            }
            count = count + self.panels[p].elements.len() as u64;
            p = p + 1;
        }
        proof {
            assert(self.panels@.take(self.panels@.len() as int) =~= self.panels@);
        }
        4 * count
    }

    /// Exact byte size of the vertex buffer for this tree.
    pub fn vertex_buffer_bytes(&self) -> (n: u64)
        requires
            spec_quad_count(*self) <= QUAD_LIMIT,
        ensures
            n == 4 * spec_quad_count(*self) * VERTEX_BYTES,
    {
        let count = self.required_vertex_count();
        count * VERTEX_BYTES
    }

    /// Walks panels in order and emits, for each renderable panel a
    /// background quad and for each element an element quad, at consecutive
    /// byte offsets, together with one text section per labeled element.
    /// This is the compute half of an update pass; the host writes the quads
    /// into the vertex buffer at exactly these offsets and queues the
    /// sections with the text rasterizer.
    pub fn pack_frame(&self, screen_size: ScreenSize) -> (frame: PackedFrame)
        requires
            self.wf(),
            spec_quad_count(*self) <= QUAD_LIMIT,
        ensures
            frame_post(*self, screen_size, frame),
    {
        let mut quads: Vec<PackedQuad> = Vec::new();
        let mut texts: Vec<TextSection> = Vec::new();
        let mut offset: u64 = 0;
        let mut p: usize = 0;
        while p < self.panels.len()
            invariant
                self.wf(),
                spec_quad_count(*self) <= QUAD_LIMIT,
                p <= self.panels@.len(),
                quads_match(
                    quads@,
                    quad_sources(self.panels@.take(p as int)),
                    self.atlas,
                    screen_size,
                ),
                texts_match(texts@, text_sources(self.panels@.take(p as int)), screen_size),
                offset == quads@.len() * QUAD_BYTES,
            decreases self.panels@.len() - p,
        {
            proof {
                lemma_sources_take_step(self.panels@, p as int);
                lemma_sources_prefix_le(self.panels@, p as int + 1);
            }
            let panel_rect = self.panels[p].calculate_absolute_coordinates(screen_size);
            let panel_uv = self.atlas.resolve(self.panels[p].texture_name.as_str());
            if self.panels[p].renderable {
                let fine = rect_to_fine(panel_rect);
                let color = self.panels[p].color;
                quads.push(
                    PackedQuad {
                        offset,
                        quad: Quad {
                            top_left: PackedVertex {
                                x: fine.x_min,
                                y: fine.y_top,
                                color,
                                uv: panel_uv.top_left,
                            },
                            top_right: PackedVertex {
                                x: fine.x_max,
                                y: fine.y_top,
                                color,
                                uv: panel_uv.top_right,
                            },
                            bottom_left: PackedVertex {
                                x: fine.x_min,
                                y: fine.y_bottom,
                                color,
                                uv: panel_uv.bottom_left,
                            },
                            bottom_right: PackedVertex {
                                x: fine.x_max,
                                y: fine.y_bottom,
                                color,
                                uv: panel_uv.bottom_right,
                            },
                        },
                    },
                );
                offset = offset + QUAD_BYTES;
            }
            let mut e: usize = 0;
            while e < self.panels[p].elements.len()
                invariant
                    self.wf(),
                    spec_quad_count(*self) <= QUAD_LIMIT,
                    p < self.panels@.len(),
                    e <= self.panels@[p as int].elements@.len(),
                    panel_rect.x_min as int == panel_dev(self.panels@[p as int], screen_size).0,
                    panel_rect.y_min as int == panel_dev(self.panels@[p as int], screen_size).1,
                    panel_rect.x_max as int == panel_dev(self.panels@[p as int], screen_size).2,
                    panel_rect.y_max as int == panel_dev(self.panels@[p as int], screen_size).3,
                    crate::geometry::device_rect_wf(panel_rect),
                    quads_match(
                        quads@,
                        quad_sources(self.panels@.take(p as int)) + panel_sources_upto(
                            self.panels@[p as int],
                            e as int,
                        ),
                        self.atlas,
                        screen_size,
                    ),
                    texts_match(
                        texts@,
                        text_sources(self.panels@.take(p as int)) + texts_of_elements(
                            self.panels@[p as int],
                            self.panels@[p as int].elements@.take(e as int),
                        ),
                        screen_size,
                    ),
                    offset == quads@.len() * QUAD_BYTES,
                decreases self.panels@[p as int].elements@.len() - e,
            {
                proof {
                    lemma_sources_take_step(self.panels@, p as int);
                    lemma_sources_prefix_le(self.panels@, p as int + 1);
                    assert(self.panels@[p as int].elements@.take(e + 1).drop_last()
                        =~= self.panels@[p as int].elements@.take(e as int));
                    assert(panel_sources_upto(self.panels@[p as int], e + 1) =~= panel_sources_upto(
                        self.panels@[p as int],
                        e as int,
                    ).push((self.panels@[p as int], Some(self.panels@[p as int].elements@[e as int]))));
                    assert(panel_sources_upto(
                        self.panels@[p as int],
                        self.panels@[p as int].elements@.len() as int,
                    ) =~= panel_sources(self.panels@[p as int]));
                }
                let elem_uv = self.atlas.resolve(self.panels[p].elements[e].texture_name.as_str());
                let fine = element_to_device(
                    self.panels[p].elements[e].start_coordinate,
                    self.panels[p].elements[e].end_coordinate,
                    panel_rect,
                );
                let color = self.panels[p].elements[e].color;
                quads.push(
                    PackedQuad {
                        offset,
                        quad: Quad {
                            top_left: PackedVertex {
                                x: fine.x_min,
                                y: fine.y_top,
                                color,
                                uv: elem_uv.top_left,
                            },
                            top_right: PackedVertex {
                                x: fine.x_max,
                                y: fine.y_top,
                                color,
                                uv: elem_uv.top_right,
                            },
                            bottom_left: PackedVertex {
                                x: fine.x_min,
                                y: fine.y_bottom,
                                color,
                                uv: elem_uv.bottom_left,
                            },
                            bottom_right: PackedVertex {
                                x: fine.x_max,
                                y: fine.y_bottom,
                                color,
                                uv: elem_uv.bottom_right,
                            },
                        },
                    },
                );
                offset = offset + QUAD_BYTES;
                let has_text = self.panels[p].elements[e].text.is_some();
                let has_align = self.panels[p].elements[e].text_alignment.is_some();
                if has_text && has_align {
                    let alignment = self.panels[p].elements[e].text_alignment.unwrap();
                    let text_ref = self.panels[p].elements[e].text.as_ref().unwrap();
                    let anchor = text_alignment(
                        self.panels[p].elements[e].start_coordinate,
                        self.panels[p].elements[e].end_coordinate,
                        panel_rect,
                        screen_size,
                        &alignment,
                        text_ref,
                    );
                    texts.push(
                        TextSection {
                            x: anchor.0.0,
                            y: anchor.0.1,
                            content: text_ref.0.clone(),
                            scale: text_ref.1,
                        },
                    );
                }
                e = e + 1;
            }
            proof {
                assert(self.panels@[p as int].elements@.take(
                    self.panels@[p as int].elements@.len() as int,
                ) =~= self.panels@[p as int].elements@);
                assert(panel_sources_upto(
                    self.panels@[p as int],
                    self.panels@[p as int].elements@.len() as int,
                ) =~= panel_sources(self.panels@[p as int]));
            }
            p = p + 1;
        }
        proof {
            assert(self.panels@.take(self.panels@.len() as int) =~= self.panels@);
        }
        PackedFrame { quads, texts }
    }

    /// Replays the identical traversal as the packer and yields, for each
    /// quad, the vertex-buffer slice to bind for its one indexed draw call.
    /// This is the compute half of render emission; the host binds the index
    /// buffer once, then binds each slice and draws six indices.
    pub fn draw_slices(&self) -> (slices: Vec<DrawSlice>)
        requires
            spec_quad_count(*self) <= QUAD_LIMIT,
        ensures
            slices_post(*self, slices@),
    {
        let mut slices: Vec<DrawSlice> = Vec::new();
        let mut offset: u64 = 0;
        let mut p: usize = 0;
        while p < self.panels.len()
            invariant
                spec_quad_count(*self) <= QUAD_LIMIT,
                p <= self.panels@.len(),
                slices@.len() == quad_sources(self.panels@.take(p as int)).len(),
                forall|i: int|
                    0 <= i < slices@.len() ==> (#[trigger] slices@[i]).offset as int == i
                        * QUAD_BYTES && slices@[i].length == QUAD_BYTES,
                offset == slices@.len() * QUAD_BYTES,
            decreases self.panels@.len() - p,
        {
            proof {
                lemma_sources_take_step(self.panels@, p as int);
                lemma_sources_prefix_le(self.panels@, p as int + 1);
            }
            if self.panels[p].renderable {
                slices.push(DrawSlice { offset, length: QUAD_BYTES });
                offset = offset + QUAD_BYTES;
            }
            let mut e: usize = 0;
            while e < self.panels[p].elements.len()
                invariant
                    spec_quad_count(*self) <= QUAD_LIMIT,
                    p < self.panels@.len(),
                    e <= self.panels@[p as int].elements@.len(),
                    slices@.len() == quad_sources(self.panels@.take(p as int)).len()
                        + panel_sources_upto(self.panels@[p as int], e as int).len(),
                    quad_sources(self.panels@.take(p as int)).len() + panel_sources(
                        self.panels@[p as int],
                    ).len() <= spec_quad_count(*self),
                    forall|i: int|
                        0 <= i < slices@.len() ==> (#[trigger] slices@[i]).offset as int == i
                            * QUAD_BYTES && slices@[i].length == QUAD_BYTES,
                    offset == slices@.len() * QUAD_BYTES,
                decreases self.panels@[p as int].elements@.len() - e,
            {
                proof {
                    assert(self.panels@[p as int].elements@.take(e + 1).drop_last()
                        =~= self.panels@[p as int].elements@.take(e as int));
                    assert(panel_sources_upto(self.panels@[p as int], e + 1) =~= panel_sources_upto(
                        self.panels@[p as int],
                        e as int,
                    ).push((self.panels@[p as int], Some(self.panels@[p as int].elements@[e as int]))));
                    assert(panel_sources_upto(
                        self.panels@[p as int],
                        self.panels@[p as int].elements@.len() as int,
                    ) =~= panel_sources(self.panels@[p as int]));
                }
                slices.push(DrawSlice { offset, length: QUAD_BYTES });
                offset = offset + QUAD_BYTES;
                e = e + 1;
            }
            proof {
                assert(self.panels@[p as int].elements@.take(
                    self.panels@[p as int].elements@.len() as int,
                ) =~= self.panels@[p as int].elements@);
                assert(panel_sources_upto(
                    self.panels@[p as int],
                    self.panels@[p as int].elements@.len() as int,
                ) =~= panel_sources(self.panels@[p as int]));
            }
            p = p + 1;
        }
        proof {
            assert(self.panels@.take(self.panels@.len() as int) =~= self.panels@);
        }
        slices
    }
}

/// The fixed index pattern shared by every quad: two triangles over the four
/// vertices in the packer's winding.
pub fn quad_index_pattern() -> (v: Vec<u16>)
    ensures
        v@ == seq![0u16, 2u16, 1u16, 1u16, 2u16, 3u16],
{
    let mut v: Vec<u16> = Vec::new();
    v.push(0);
    v.push(2);
    v.push(1);
    v.push(1);
    v.push(2);
    v.push(3);
    proof {
        assert(v@ =~= seq![0u16, 2u16, 1u16, 1u16, 2u16, 3u16]);
    }
    v
}

/// Buffer offset lockstep: for one tree, the packer and the renderer emit
/// the same number of quads — one per renderable panel plus one per element
/// — at the same byte offsets, each a multiple of one quad's byte size. The
/// renderer therefore binds exactly the slice each quad was written to.
pub proof fn lemma_pack_render_lockstep(
    itf: Interface,
    screen: ScreenSize,
    frame: PackedFrame,
    slices: Seq<DrawSlice>,
)
    requires
        frame_post(itf, screen, frame),
        slices_post(itf, slices),
    ensures
        frame.quads@.len() == renderable_count(itf.panels@) + total_elements(itf.panels@),
        slices.len() == frame.quads@.len(),
        forall|i: int|
            0 <= i < slices.len() ==> (#[trigger] slices[i]).offset == frame.quads@[i].offset,
        forall|i: int| 0 <= i < slices.len() ==> (#[trigger] slices[i]).offset as int % (
        QUAD_BYTES as int) == 0,
{
    lemma_quad_count_formula(itf.panels@);
    assert forall|i: int| 0 <= i < slices.len() implies (#[trigger] slices[i]).offset as int % (
    QUAD_BYTES as int) == 0 by {
        vstd::arithmetic::div_mod::lemma_mod_multiples_basic(i, QUAD_BYTES as int);
    }
}

} // verus!
