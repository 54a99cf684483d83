//! The scene model — an `Interface` owning ordered `Panel`s which own ordered
//! `Element`s — together with the hit-test dispatcher and the hover
//! transition.
//!
//! Building order is paint order is packing order; panels and elements are
//! append-only and their geometry is immutable after construction. The only
//! mutation is the hover tint of an element's `color`, which is exactly
//! reversible because `original_color` is never overwritten.

use vstd::prelude::*;

use crate::color::{spec_from_hex, valid_hex_color, Color};
use crate::definitions::{GuiEvent, InteractionStyle, UiAtlas};
use crate::geometry::{
    dev_x, dev_y, device_rect_wf, panel_to_device, Coordinate, DeviceRect, ScreenSize, COORD_LIMIT,
};
use crate::text::{Alignment, TEXT_LIMIT};

verus! {

/// A handler an element carries in one of its interaction slots: triggering
/// it yields a fixed optional event. This is the engine's tagged
/// event-producer standing in for an arbitrary callable — handlers take no
/// arguments and see no element state, so all they can do is hand back an
/// event for the composition layer.
#[derive(Clone, Copy, Debug, PartialEq, Eq, Structural)]
pub struct EventProducer {
    pub event: Option<GuiEvent>,
}

impl EventProducer {
    pub fn new(event: Option<GuiEvent>) -> (p: EventProducer)
        ensures
            p == (EventProducer { event }),
    {
        EventProducer { event }
    }

    /// The event this handler produces when triggered.
    pub fn produce(&self) -> (r: Option<GuiEvent>)
        ensures
            r == self.event,
    {
        self.event
    }
}

/// A leaf UI node: a rectangle in coordinates normalized *within its owning
/// panel*, visual attributes, an optional text label, and the two independent
/// interaction slots.
pub struct Element {
    pub start_coordinate: Coordinate,
    pub end_coordinate: Coordinate,
    pub color: Color,
    pub original_color: Color,
    pub text: Option<(String, i64)>,
    pub text_alignment: Option<Alignment>,
    pub on_click: Option<EventProducer>,
    pub on_hover: Option<EventProducer>,
    pub texture_name: String,
}

/// A top-level rectangular region in screen-normalized coordinates, owning
/// its elements in construction order, with an optional renderable
/// background.
pub struct Panel {
    pub elements: Vec<Element>,
    pub start_coordinate: Coordinate,
    pub end_coordinate: Coordinate,
    pub renderable: bool,
    pub texture_name: String,
    pub color: Color,
}

/// The owned tree of UI nodes plus the texture atlas snapshot it resolves
/// texture names against. Panel order is paint order.
pub struct Interface {
    pub panels: Vec<Panel>,
    pub atlas: UiAtlas,
}

/// Opaque white, the default color of panels and elements (`#ffffffff`).
pub open spec fn default_white() -> Color {
    Color { r: 255, g: 255, b: 255, a: 255 }
}

/// The fixed temporary tint applied to the hovered element (`#999999ff`).
pub open spec fn hover_tint() -> Color {
    Color { r: 153, g: 153, b: 153, a: 255 }
}

/// `e` with its visible color replaced, everything else — including the
/// remembered original color — untouched.
pub open spec fn tint_element(e: Element, c: Color) -> Element {
    Element { color: c, ..e }
}

/// `e` with its visible color restored to the remembered original.
pub open spec fn restore_element(e: Element) -> Element {
    Element { color: e.original_color, ..e }
}

/// The event an element's slot for `kind` yields when triggered: the
/// handler's fixed response, or nothing when the slot is empty.
pub open spec fn spec_response(e: Element, kind: InteractionStyle) -> Option<GuiEvent> {
    let slot = if kind == InteractionStyle::OnClick {
        e.on_click
    } else {
        e.on_hover
    };
    match slot {
        Some(p) => p.event,
        None => None,
    }
}

/// Whether the slot of `e` for `kind` holds a handler.
pub open spec fn has_handler(e: Element, kind: InteractionStyle) -> bool {
    if kind == InteractionStyle::OnClick {
        e.on_click.is_some()
    } else {
        e.on_hover.is_some()
    }
}

/// The panel's normalized rectangle contains the cursor position.
pub open spec fn panel_contains(p: Panel, pos: Coordinate) -> bool {
    &&& p.start_coordinate.x <= pos.x <= p.end_coordinate.x
    &&& p.start_coordinate.y <= pos.y <= p.end_coordinate.y
}

/// The element's panel-local rectangle contains the cursor position relative
/// to the panel's origin.
pub open spec fn element_contains(e: Element, rel_x: int, rel_y: int) -> bool {
    &&& e.start_coordinate.x <= rel_x <= e.end_coordinate.x
    &&& e.start_coordinate.y <= rel_y <= e.end_coordinate.y
}

/// The element both contains the relative cursor position and owns a handler
/// for the interaction kind — the condition for winning the hit-test.
pub open spec fn element_matches(e: Element, rel_x: int, rel_y: int, kind: InteractionStyle) -> bool {
    element_contains(e, rel_x, rel_y) && has_handler(e, kind)
}

/// No panel contains the cursor.
pub open spec fn no_containing_panel(panels: Seq<Panel>, pos: Coordinate) -> bool {
    forall|i: int| 0 <= i < panels.len() ==> !panel_contains(#[trigger] panels[i], pos)
}

/// `pi` is the first panel, in tree order, containing the cursor.
pub open spec fn is_first_containing(panels: Seq<Panel>, pos: Coordinate, pi: int) -> bool {
    &&& 0 <= pi < panels.len()
    &&& panel_contains(panels[pi], pos)
    &&& forall|j: int| 0 <= j < pi ==> !panel_contains(#[trigger] panels[j], pos)
}

/// No element of the panel matches the relative cursor position and kind.
pub open spec fn no_matching_element(p: Panel, rel_x: int, rel_y: int, kind: InteractionStyle) -> bool {
    forall|i: int|
        0 <= i < p.elements@.len() ==> !element_matches(#[trigger] p.elements@[i], rel_x, rel_y, kind)
}

/// `ei` is the first element of `p`, in construction order, matching the
/// relative cursor position and kind.
pub open spec fn is_first_matching(
    p: Panel,
    rel_x: int,
    rel_y: int,
    kind: InteractionStyle,
    ei: int,
) -> bool {
    &&& 0 <= ei < p.elements@.len()
    &&& element_matches(p.elements@[ei], rel_x, rel_y, kind)
    &&& forall|j: int| 0 <= j < ei ==> !element_matches(#[trigger] p.elements@[j], rel_x, rel_y, kind)
}

/// What the hit-test dispatcher returns. The first panel containing the
/// cursor owns the hit; within it, the first element containing the relative
/// cursor position and carrying a handler of the requested kind wins,
/// whether or not its handler produces an event — a matched node consumes the
/// hit, and the search never falls through to later elements or panels.
pub open spec fn dispatch_post(
    itf: Interface,
    pos: Coordinate,
    kind: InteractionStyle,
    r: Option<(Option<GuiEvent>, (usize, usize))>,
) -> bool {
    match r {
        Some(hit) => {
            let (response, (pi, ei)) = hit;
            let p = itf.panels@[pi as int];
            let rel_x = pos.x - p.start_coordinate.x;
            let rel_y = pos.y - p.start_coordinate.y;
            &&& is_first_containing(itf.panels@, pos, pi as int)
            &&& is_first_matching(p, rel_x, rel_y, kind, ei as int)
            &&& response == spec_response(p.elements@[ei as int], kind)
        },
        None => {
            ||| no_containing_panel(itf.panels@, pos)
            ||| exists|pi: int|
                {
                    let p = itf.panels@[pi];
                    &&& #[trigger] is_first_containing(itf.panels@, pos, pi)
                    &&& no_matching_element(
                        p,
                        pos.x - p.start_coordinate.x,
                        pos.y - p.start_coordinate.y,
                        kind,
                    )
                }
        },
    }
}

/// `e` after a whole run of tints, applied in order.
pub open spec fn tint_many(e: Element, tints: Seq<Color>) -> Element
    decreases tints.len(),
{
    if tints.len() == 0 {
        e
    } else {
        tint_many(tint_element(e, tints.first()), tints.drop_first())
    }
}

/// Hover-restore idempotence: however many times an element is tinted, the
/// remembered original color survives untouched, so a single restore brings
/// the visible color back to exactly the original.
pub proof fn lemma_hover_restore_idempotent(e: Element, tints: Seq<Color>)
    ensures
        tint_many(e, tints).original_color == e.original_color,
        restore_element(tint_many(e, tints)).color == e.original_color,
    decreases tints.len(),
{
    if tints.len() > 0 {
        lemma_hover_restore_idempotent(tint_element(e, tints.first()), tints.drop_first());
    }
}

/// At most one panel is the first to contain the cursor.
pub proof fn lemma_first_containing_unique(panels: Seq<Panel>, pos: Coordinate, a: int, b: int)
    requires
        is_first_containing(panels, pos, a),
        is_first_containing(panels, pos, b),
    ensures
        a == b,
{
    if a < b {
        assert(!panel_contains(panels[a], pos));
    } else if b < a {
        assert(!panel_contains(panels[b], pos));
    }
}

/// The panel index of a successful hit.
pub open spec fn hit_panel_index(r: Option<(Option<GuiEvent>, (usize, usize))>) -> int {
    let (response, (pi, ei)) = r.unwrap();
    pi as int
}

/// The element index of a successful hit.
pub open spec fn hit_element_index(r: Option<(Option<GuiEvent>, (usize, usize))>) -> int {
    let (response, (pi, ei)) = r.unwrap();
    ei as int
}

/// When the panel at `pi` is the first to contain the cursor and its
/// element at `i` matches, the dispatcher reports a hit in that panel, at
/// `i` or earlier.
pub proof fn lemma_dispatch_hit(
    itf: Interface,
    pos: Coordinate,
    kind: InteractionStyle,
    r: Option<(Option<GuiEvent>, (usize, usize))>,
    pi: int,
    i: int,
)
    requires
        dispatch_post(itf, pos, kind, r),
        is_first_containing(itf.panels@, pos, pi),
        0 <= i < itf.panels@[pi].elements@.len(),
        element_matches(
            itf.panels@[pi].elements@[i],
            pos.x - itf.panels@[pi].start_coordinate.x,
            pos.y - itf.panels@[pi].start_coordinate.y,
            kind,
        ),
    ensures
        r.is_some(),
        hit_panel_index(r) == pi,
        hit_element_index(r) <= i,
{
    match r {
        None => {
            assert(panel_contains(itf.panels@[pi], pos));
            if !no_containing_panel(itf.panels@, pos) {
                let pi2 = choose|pi2: int|
                    #[trigger] is_first_containing(itf.panels@, pos, pi2) && no_matching_element(
                        itf.panels@[pi2],
                        pos.x - itf.panels@[pi2].start_coordinate.x,
                        pos.y - itf.panels@[pi2].start_coordinate.y,
                        kind,
                    );
                lemma_first_containing_unique(itf.panels@, pos, pi, pi2);
                assert(false);
            }
        },
        Some(hit) => {
            let hp = (hit.1).0;
            let he = (hit.1).1;
            lemma_first_containing_unique(itf.panels@, pos, pi, hp as int);
            assert(!(i < he as int));
        },
    }
}

/// Dispatch order: when two elements of the hit panel both contain the
/// cursor and both own a matching handler, the one appearing earlier in
/// construction order wins the hit-test — the dispatcher never reports the
/// later one, whatever z-order intuition might suggest.
pub proof fn lemma_dispatch_order(
    itf: Interface,
    pos: Coordinate,
    kind: InteractionStyle,
    r: Option<(Option<GuiEvent>, (usize, usize))>,
    pi: int,
    i: int,
    j: int,
)
    requires
        dispatch_post(itf, pos, kind, r),
        is_first_containing(itf.panels@, pos, pi),
        0 <= i < j < itf.panels@[pi].elements@.len(),
        element_matches(
            itf.panels@[pi].elements@[i],
            pos.x - itf.panels@[pi].start_coordinate.x,
            pos.y - itf.panels@[pi].start_coordinate.y,
            kind,
        ),
    ensures
        r.is_some(),
        hit_panel_index(r) == pi,
        hit_element_index(r) <= i,
        hit_element_index(r) < j,
{
    lemma_dispatch_hit(itf, pos, kind, r, pi, i);
}

/// The new element equals the old with only its visible color restored.
pub open spec fn element_reset_of(ne: Element, oe: Element) -> bool {
    ne == restore_element(oe)
}

/// The new panel equals the old with every element's visible color restored.
pub open spec fn panel_reset_of(np: Panel, op: Panel) -> bool {
    &&& np.elements@.len() == op.elements@.len()
    &&& forall|i: int|
        0 <= i < op.elements@.len() ==> element_reset_of(
            #[trigger] np.elements@[i],
            op.elements@[i],
        )
    &&& np.start_coordinate == op.start_coordinate
    &&& np.end_coordinate == op.end_coordinate
    &&& np.renderable == op.renderable
    &&& np.texture_name == op.texture_name
    &&& np.color == op.color
}

impl Element {
    /// Geometry and label within the bounds every transform accepts.
    pub open spec fn wf(&self) -> bool {
        &&& self.start_coordinate.wf()
        &&& self.end_coordinate.wf()
        &&& match self.text {
            Some(t) => -COORD_LIMIT <= t.1 <= COORD_LIMIT && t.0@.len() <= TEXT_LIMIT,
            None => true,
        }
    }

    /// A fresh element: opaque white, no label, no handlers.
    pub fn new(start_coordinate: Coordinate, end_coordinate: Coordinate, texture_name: &str) -> (e:
        Element)
        requires
            start_coordinate.wf(),
            end_coordinate.wf(),
        ensures
            e.start_coordinate == start_coordinate,
            e.end_coordinate == end_coordinate,
            e.color == default_white(),
            e.original_color == default_white(),
            e.text.is_none(),
            e.text_alignment.is_none(),
            e.on_click.is_none(),
            e.on_hover.is_none(),
            e.texture_name@ == texture_name@,
            e.wf(),
    {
        Element {
            start_coordinate,
            end_coordinate,
            color: Color::new(255, 255, 255, 255),
            original_color: Color::new(255, 255, 255, 255),
            text: None,
            text_alignment: None,
            on_click: None,
            on_hover: None,
            texture_name: texture_name.to_owned(),
        }
    }

    /// Installs a handler in the slot the interaction kind selects.
    pub fn with_fn(self, func: EventProducer, style: InteractionStyle) -> (e: Element)
        ensures
            style == InteractionStyle::OnClick ==> e == (Element { on_click: Some(func), ..self }),
            style == InteractionStyle::OnHover ==> e == (Element { on_hover: Some(func), ..self }),
    {
        match style {
            InteractionStyle::OnClick => Element { on_click: Some(func), ..self },
            InteractionStyle::OnHover => Element { on_hover: Some(func), ..self },
        }
    }

    /// Sets both the visible and the remembered original color.
    pub fn with_color(self, color: &str) -> (e: Element)
        requires
            valid_hex_color(color@),
        ensures
            e == (Element {
                color: spec_from_hex(color@),
                original_color: spec_from_hex(color@),
                ..self
            }),
    {
        let new_color = Color::from_hex(color);
        Element { color: new_color, original_color: new_color, ..self }
    }

    /// Attaches a text label with its alignment and scale factor.
    pub fn with_text(self, alignment: Alignment, text: &str, scale: i64) -> (e: Element)
        requires
            -COORD_LIMIT <= scale <= COORD_LIMIT,
            text@.len() <= TEXT_LIMIT,
        ensures
            e.text.is_some(),
            e.text.unwrap().0@ == text@,
            e.text.unwrap().1 == scale,
            e.text_alignment == Some(alignment),
            e == (Element { text: e.text, text_alignment: Some(alignment), ..self }),
    {
        Element { text: Some((text.to_owned(), scale)), text_alignment: Some(alignment), ..self }
    }

    /// Triggers the handler in the slot the interaction kind selects, if any,
    /// and hands back its event.
    pub fn handle_click(&self, interaction_type: InteractionStyle) -> (r: Option<GuiEvent>)
        ensures
            r == spec_response(*self, interaction_type),
    {
        let function_src = if interaction_type == InteractionStyle::OnClick {
            &self.on_click
        } else {
            &self.on_hover
        };
        if let Some(func) = function_src {
            func.produce()
        } else {
            None
        }
    }

    /// Overwrites only the visible color. The remembered original color is
    /// never touched, which keeps any run of tints reversible by one restore.
    pub fn with_temp_color(&mut self, color: &str)
        requires
            valid_hex_color(color@),
        ensures
            *final(self) == tint_element(*old(self), spec_from_hex(color@)),
    {
        let new_color = Color::from_hex(color);
        self.color = new_color;
    }
}

impl Panel {
    /// Geometry within bounds and every element well-formed.
    pub open spec fn wf(&self) -> bool {
        &&& self.start_coordinate.wf()
        &&& self.end_coordinate.wf()
        &&& forall|i: int| 0 <= i < self.elements@.len() ==> (#[trigger] self.elements@[i]).wf()
    }

    /// A fresh panel: no elements, non-renderable, opaque white over the
    /// default solid texture.
    pub fn new(start_coordinate: Coordinate, end_coordinate: Coordinate) -> (p: Panel)
        requires
            start_coordinate.wf(),
            end_coordinate.wf(),
        ensures
            p.elements@.len() == 0,
            p.start_coordinate == start_coordinate,
            p.end_coordinate == end_coordinate,
            p.renderable == false,
            p.texture_name@ == "solid"@,
            p.color == default_white(),
            p.wf(),
    {
        Panel {
            elements: Vec::new(),
            start_coordinate,
            end_coordinate,
            renderable: false,
            texture_name: "solid".to_owned(),
            color: Color::new(255, 255, 255, 255),
        }
    }

    /// Appends an element; construction order is paint and hit-test order.
    pub fn add_element(&mut self, element: Element)
        ensures
            final(self).elements@ == old(self).elements@.push(element),
            final(self).start_coordinate == old(self).start_coordinate,
            final(self).end_coordinate == old(self).end_coordinate,
            final(self).renderable == old(self).renderable,
            final(self).texture_name == old(self).texture_name,
            final(self).color == old(self).color,
    {
        self.elements.push(element);
    }

    /// Gives the panel a renderable background of the given color.
    pub fn with_color(self, color: &str) -> (p: Panel)
        requires
            valid_hex_color(color@),
        ensures
            p == (Panel { renderable: true, color: spec_from_hex(color@), ..self }),
    {
        Panel { renderable: true, color: Color::from_hex(color), ..self }
    }

    /// This panel's rectangle in center-origin device coordinates.
    pub fn calculate_absolute_coordinates(&self, screen_size: ScreenSize) -> (r: DeviceRect)
        requires
            self.start_coordinate.wf(),
            self.end_coordinate.wf(),
        ensures
            r.x_min as int == dev_x(self.start_coordinate.x as int, screen_size.width as int),
            r.x_max as int == dev_x(self.end_coordinate.x as int, screen_size.width as int),
            r.y_max as int == dev_y(self.start_coordinate.y as int, screen_size.height as int),
            r.y_min as int == dev_y(self.end_coordinate.y as int, screen_size.height as int),
            device_rect_wf(r),
    {
        panel_to_device(self.start_coordinate, self.end_coordinate, screen_size)
    }
}

impl Interface {
    /// Atlas well-formed and every panel well-formed.
    pub open spec fn wf(&self) -> bool {
        &&& self.atlas.wf()
        &&& forall|i: int| 0 <= i < self.panels@.len() ==> (#[trigger] self.panels@[i]).wf()
    }

    pub fn new(atlas: UiAtlas) -> (itf: Interface)
        requires
            atlas.wf(),
        ensures
            itf.panels@.len() == 0,
            itf.atlas == atlas,
            itf.wf(),
    {
        Interface { panels: Vec::new(), atlas }
    }

    /// Appends a panel; registration order is paint and hit-test order.
    pub fn add_panel(&mut self, panel: Panel)
        ensures
            final(self).panels@ == old(self).panels@.push(panel),
            final(self).atlas == old(self).atlas,
    {
        self.panels.push(panel);
    }

    /// Resolves a cursor position and interaction kind into the triggered
    /// event and the owning node's address, or nothing when no node matches.
    pub fn handle_interaction(
        &self,
        position: Coordinate,
        interaction_type: InteractionStyle,
    ) -> (r: Option<(Option<GuiEvent>, (usize, usize))>)
        requires
            self.wf(),
            position.wf(),
        ensures
            dispatch_post(*self, position, interaction_type, r),
    {
        let mut i: usize = 0;
        while i < self.panels.len()
            invariant
                self.wf(),
                position.wf(),
                i <= self.panels@.len(),
                forall|j: int| 0 <= j < i ==> !panel_contains(#[trigger] self.panels@[j], position),
            decreases self.panels@.len() - i,
        {
            if position.x >= self.panels[i].start_coordinate.x && position.x
                <= self.panels[i].end_coordinate.x && position.y
                >= self.panels[i].start_coordinate.y && position.y
                <= self.panels[i].end_coordinate.y {
                let rel_x = position.x - self.panels[i].start_coordinate.x;
                let rel_y = position.y - self.panels[i].start_coordinate.y;
                let mut j: usize = 0;
                while j < self.panels[i].elements.len()
                    invariant
                        self.wf(),
                        position.wf(),
                        i < self.panels@.len(),
                        is_first_containing(self.panels@, position, i as int),
                        rel_x == position.x - self.panels@[i as int].start_coordinate.x,
                        rel_y == position.y - self.panels@[i as int].start_coordinate.y,
                        j <= self.panels@[i as int].elements@.len(),
                        forall|k: int|
                            0 <= k < j ==> !element_matches(
                                #[trigger] self.panels@[i as int].elements@[k],
                                rel_x as int,
                                rel_y as int,
                                interaction_type,
                            ),
                    decreases self.panels@[i as int].elements@.len() - j,
                {
                    let has_match = rel_x >= self.panels[i].elements[j].start_coordinate.x && rel_x
                        <= self.panels[i].elements[j].end_coordinate.x && rel_y
                        >= self.panels[i].elements[j].start_coordinate.y && rel_y
                        <= self.panels[i].elements[j].end_coordinate.y && (if interaction_type
                        == InteractionStyle::OnClick {
                        self.panels[i].elements[j].on_click.is_some()
                    } else {
                        self.panels[i].elements[j].on_hover.is_some()
                    });
                    if has_match {
                        let response = self.panels[i].elements[j].handle_click(interaction_type);
                        return Some((response, (i, j)));
                    }
                    j = j + 1;
                }
                return None;
            }
            i = i + 1;
        }
        None
    }

    /// Whether any panel's rectangle contains the cursor position.
    pub fn is_cursor_within_menu_panel_bounds(&self, position: Coordinate) -> (b: bool)
        ensures
            b == !no_containing_panel(self.panels@, position),
    {
        let mut i: usize = 0;
        while i < self.panels.len()
            invariant
                i <= self.panels@.len(),
                forall|j: int| 0 <= j < i ==> !panel_contains(#[trigger] self.panels@[j], position),
            decreases self.panels@.len() - i,
        {
            if position.x >= self.panels[i].start_coordinate.x && position.x
                <= self.panels[i].end_coordinate.x && position.y
                >= self.panels[i].start_coordinate.y && position.y
                <= self.panels[i].end_coordinate.y {
                return true;
            }
            i = i + 1;
        }
        false
    }

    /// Restores every element's visible color to its remembered original.
    pub fn reset_all_element_colors(&mut self)
        ensures
            final(self).panels@.len() == old(self).panels@.len(),
            forall|p: int|
                0 <= p < old(self).panels@.len() ==> panel_reset_of(
                    #[trigger] final(self).panels@[p],
                    old(self).panels@[p],
                ),
            final(self).atlas == old(self).atlas,
    {
        let ghost orig = *self;
        let mut p: usize = 0;
        while p < self.panels.len()
            invariant
                self.panels@.len() == orig.panels@.len(),
                self.atlas == orig.atlas,
                p <= self.panels@.len(),
                forall|k: int|
                    0 <= k < p ==> panel_reset_of(#[trigger] self.panels@[k], orig.panels@[k]),
                forall|k: int| p <= k < self.panels@.len() ==> self.panels@[k] == orig.panels@[k],
            decreases self.panels@.len() - p,
        {
            let mut e: usize = 0;
            while e < self.panels[p].elements.len()
                invariant
                    self.panels@.len() == orig.panels@.len(),
                    self.atlas == orig.atlas,
                    p < self.panels@.len(),
                    e <= self.panels@[p as int].elements@.len(),
                    forall|k: int|
                        0 <= k < p ==> panel_reset_of(#[trigger] self.panels@[k], orig.panels@[k]),
                    forall|k: int|
                        p < k < self.panels@.len() ==> self.panels@[k] == orig.panels@[k],
                    self.panels@[p as int].elements@.len() == orig.panels@[
                        p as int
                    ].elements@.len(),
                    forall|k: int|
                        0 <= k < e ==> element_reset_of(
                            #[trigger] self.panels@[p as int].elements@[k],
                            orig.panels@[p as int].elements@[k],
                        ),
                    forall|k: int|
                        e <= k < self.panels@[p as int].elements@.len() ==> self.panels@[
                            p as int
                        ].elements@[k] == orig.panels@[p as int].elements@[k],
                    self.panels@[p as int].start_coordinate == orig.panels@[
                        p as int
                    ].start_coordinate,
                    self.panels@[p as int].end_coordinate == orig.panels@[p as int].end_coordinate,
                    self.panels@[p as int].renderable == orig.panels@[p as int].renderable,
                    self.panels@[p as int].texture_name == orig.panels@[p as int].texture_name,
                    self.panels@[p as int].color == orig.panels@[p as int].color,
                decreases self.panels@[p as int].elements@.len() - e,
            {
                let restored = self.panels[p].elements[e].original_color;
                self.panels[p].elements[e].color = restored;
                e = e + 1;
            }
            p = p + 1;
        }
    }

    /// Applies the hover transition between two frames: when the hovered
    /// address changed, the previously hovered element (if its address is
    /// still in bounds after a rebuild) gets its original color back and the
    /// newly hovered element is tinted. The result says whether anything may
    /// have changed, so the caller knows to repack and redraw.
    pub fn apply_hover_change(
        &mut self,
        previous: Option<(usize, usize)>,
        current: Option<(usize, usize)>,
    ) -> (dirty: bool)
        requires
            current matches Some(addr) ==> addr.0 < old(self).panels@.len() && addr.1 < old(
                self,
            ).panels@[addr.0 as int].elements@.len(),
        ensures
            dirty == (previous != current),
            !dirty ==> *final(self) == *old(self),
            dirty ==> final(self).atlas == old(self).atlas && final(self).panels@.len() == old(
                self,
            ).panels@.len(),
            dirty ==> forall|p: usize, e: usize|
                #![trigger final(self).panels@[p as int].elements@[e as int]]
                p < old(self).panels@.len() && e < old(self).panels@[p as int].elements@.len()
                    ==> final(self).panels@[p as int].elements@[e as int] == (if current == Some(
                    (p, e),
                ) {
                    tint_element(old(self).panels@[p as int].elements@[e as int], hover_tint())
                } else if previous == Some((p, e)) {
                    restore_element(old(self).panels@[p as int].elements@[e as int])
                } else {
                    old(self).panels@[p as int].elements@[e as int]
                }),
            dirty ==> forall|p: int|
                #![trigger final(self).panels@[p]]
                0 <= p < old(self).panels@.len() ==> {
                    &&& final(self).panels@[p].elements@.len() == old(
                        self,
                    ).panels@[p].elements@.len()
                    &&& final(self).panels@[p].start_coordinate == old(
                        self,
                    ).panels@[p].start_coordinate
                    &&& final(self).panels@[p].end_coordinate == old(self).panels@[p].end_coordinate
                    &&& final(self).panels@[p].renderable == old(self).panels@[p].renderable
                    &&& final(self).panels@[p].texture_name == old(self).panels@[p].texture_name
                    &&& final(self).panels@[p].color == old(self).panels@[p].color
                },
    {
        let ghost s0 = *self;
        let same = match (previous, current) {
            (None, None) => true,
            (Some(a), Some(b)) => a.0 == b.0 && a.1 == b.1,
            _ => false,
        };
        if same {
            return false;
        }
        if let Some((pp, pe)) = previous {
            if pp < self.panels.len() && pe < self.panels[pp].elements.len() {
                let restored = self.panels[pp].elements[pe].original_color;
                self.panels[pp].elements[pe].color = restored;
            }
        }
        let ghost s1 = *self;
        if let Some((cp, ce)) = current {
            proof {
                reveal_strlit("#999999ff");
                assert(valid_hex_color("#999999ff"@));
                assert(spec_from_hex("#999999ff"@) == hover_tint());
            }
            self.panels[cp].elements[ce].with_temp_color("#999999ff");
        }
        proof {
            assert forall|p: usize, e: usize|
                p < s0.panels@.len() && e
                    < s0.panels@[p as int].elements@.len() implies #[trigger] self.panels@[
                p as int
            ].elements@[e as int] == (if current == Some((p, e)) {
                tint_element(s0.panels@[p as int].elements@[e as int], hover_tint())
            } else if previous == Some((p, e)) {
                restore_element(s0.panels@[p as int].elements@[e as int])
            } else {
                s0.panels@[p as int].elements@[e as int]
            }) by {
                assert(s1.panels@[p as int].elements@[e as int] == (if previous == Some((p, e)) {
                    restore_element(s0.panels@[p as int].elements@[e as int])
                } else {
                    s0.panels@[p as int].elements@[e as int]
                }));
            }
        }
        true
    }
}

} // verus!
