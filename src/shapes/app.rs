//! The editing model: the document, the fill color for new shapes, and the
//! drag that is being tracked, if any.

use vstd::prelude::*;

use crate::framework::tracker::{Interface, Next};
use crate::framework::tracking::{Event, PointerPosition, Selector};
use crate::shapes::document::{delete, demo_shapes, lookup, set_geometry, unique_ids, upsert, Document, ShapeId};
use crate::shapes::geometry::{Color, Geometry, Shape, Style, XYPoint};

verus! {

/// The page coordinates of a pointer event as a point.
pub open spec fn page_point(p: PointerPosition) -> XYPoint {
    XYPoint { x: p.page_x as i64, y: p.page_y as i64 }
}

/// Both coordinates lie in the range of page coordinates.
pub open spec fn in_page_range(p: XYPoint) -> bool {
    &&& i32::MIN <= p.x <= i32::MAX
    &&& i32::MIN <= p.y <= i32::MAX
}

/// The smaller of two coordinates and the non-negative distance to the other.
pub open spec fn min_span(a: int, b: int) -> (int, int) {
    if a < b {
        (a, b - a)
    } else {
        (b, a - b)
    }
}

/// The color that follows `c` for new shapes: the next one in the cycle,
/// passing over white.
pub open spec fn next_fill_color(c: Color) -> Color {
    if c.next() == Color::White {
        c.next().next()
    } else {
        c.next()
    }
}

/// A drag that creates a rectangle: the id reserved for it, where the drag
/// started, and the style it gets.
#[derive(Clone, Copy, Debug, PartialEq, Eq, Structural)]
pub struct DragNewRect {
    pub shape_id: ShapeId,
    pub mouse_down_position: XYPoint,
    pub style: Style,
}

/// A drag that moves a shape: its id, its geometry when the drag started, and
/// where the drag started.
#[derive(Clone, Copy, Debug, PartialEq, Eq, Structural)]
pub struct DragShape {
    pub shape_id: ShapeId,
    pub original_geometry: Geometry,
    pub mouse_down_position: XYPoint,
}

/// The drag in progress, if any.
#[derive(Clone, Copy, Debug, PartialEq, Eq, Structural)]
pub enum TrackingState {
    Idle,
    DragNewRect(DragNewRect),
    DragShape(DragShape),
}

impl DragNewRect {
    /// The rectangle spanned by the down position and `p`, or `None` when it
    /// is empty along either axis.
    pub open spec fn rectangle_for(self, p: XYPoint) -> Option<Geometry> {
        let (min_x, span_x) = min_span(self.mouse_down_position.x as int, p.x as int);
        let (min_y, span_y) = min_span(self.mouse_down_position.y as int, p.y as int);
        if 0 < span_x && 0 < span_y {
            Some(
                Geometry::Rectangle {
                    top_left: XYPoint { x: min_x as i64, y: min_y as i64 },
                    size: XYPoint { x: span_x as i64, y: span_y as i64 },
                },
            )
        } else {
            None
        }
    }

    /// The document after the pointer reached `p`: the rectangle is stored
    /// under the reserved id, or removed when it is empty.
    pub open spec fn apply(self, s: Seq<(ShapeId, Shape)>, p: XYPoint) -> Seq<(ShapeId, Shape)> {
        match self.rectangle_for(p) {
            Some(geometry) => upsert(s, self.shape_id, Shape { geometry, style: self.style }),
            None => delete(s, self.shape_id),
        }
    }
}

impl DragShape {
    /// The original geometry moved by the pointer's displacement from the
    /// down position.
    pub open spec fn geometry_for(self, p: XYPoint) -> Geometry {
        self.original_geometry.offset_spec(
            XYPoint {
                x: (p.x - self.mouse_down_position.x) as i64,
                y: (p.y - self.mouse_down_position.y) as i64,
            },
        )
    }

    pub open spec fn apply(self, s: Seq<(ShapeId, Shape)>, p: XYPoint) -> Seq<(ShapeId, Shape)> {
        set_geometry(s, self.shape_id, self.geometry_for(p))
    }
}

impl TrackingState {
    /// A drag started inside the page, and a new rectangle's id was handed out
    /// before `next_id`.
    pub open spec fn wf(self, next_id: u64) -> bool {
        match self {
            TrackingState::Idle => true,
            TrackingState::DragNewRect(d) => d.shape_id.0 < next_id && in_page_range(d.mouse_down_position),
            TrackingState::DragShape(d) => in_page_range(d.mouse_down_position),
        }
    }

    pub open spec fn is_idle(self) -> bool {
        self is Idle
    }
}

/// The abstract state of a `Model`.
pub struct ModelState {
    pub shapes: Seq<(ShapeId, Shape)>,
    pub next_id: u64,
    pub fill_color: Color,
    pub tracking_state: TrackingState,
}

impl ModelState {
    pub open spec fn inv(self) -> bool {
        &&& unique_ids(self.shapes)
        &&& forall|i: int| 0 <= i < self.shapes.len() ==> (#[trigger] self.shapes[i]).0.0 < self.next_id
        &&& self.tracking_state.wf(self.next_id)
    }
}

/// The demo document, red as the fill color, and no drag in progress.
pub open spec fn demo_state() -> ModelState {
    ModelState { shapes: demo_shapes(), next_id: 2, fill_color: Color::Red, tracking_state: TrackingState::Idle }
}

/// Messages that update the model.
#[derive(Clone, Copy, Debug, PartialEq, Eq, Structural)]
pub enum Msg {
    /// The pointer went down on a shape.
    ShapeMouseDown(ShapeId, PointerPosition),
    /// The pointer went down on the background.
    BackgroundMouseDown(PointerPosition),
    /// A pointer event while a drag may be tracked.
    FromTracking(Event),
}

impl Msg {
    pub fn from_tracking(tracking_event: &Event) -> (r: Msg)
        ensures
            r == Msg::FromTracking(*tracking_event),
    {
        Msg::FromTracking(*tracking_event)
    }
}

/// The state after a tracking event: the active drag recomputes the document
/// from its snapshot, and a release ends the drag.
pub open spec fn tracking_step(m: ModelState, e: Event) -> ModelState {
    let p = page_point(e.mouse_event);
    match m.tracking_state {
        TrackingState::Idle => m,
        TrackingState::DragNewRect(d) => ModelState {
            shapes: d.apply(m.shapes, p),
            tracking_state: if e.selector == Selector::MouseUp { TrackingState::Idle } else { m.tracking_state },
            ..m
        },
        TrackingState::DragShape(d) => ModelState {
            shapes: d.apply(m.shapes, p),
            tracking_state: if e.selector == Selector::MouseUp { TrackingState::Idle } else { m.tracking_state },
            ..m
        },
    }
}

/// The state after a press on the shape `id`: a drag of that shape replaces
/// any drag in progress; a press on a missing shape changes nothing.
pub open spec fn shape_press_step(m: ModelState, id: ShapeId, p: PointerPosition) -> ModelState {
    match lookup(m.shapes, id) {
        Some(shape) => ModelState {
            tracking_state: TrackingState::DragShape(
                DragShape { shape_id: id, original_geometry: shape.geometry, mouse_down_position: page_point(p) },
            ),
            ..m
        },
        None => m,
    }
}

/// The state after a press on the background: a fresh id is reserved for a
/// new rectangle in the current color, whose drag replaces any drag in
/// progress, and the fill color moves on. When no id is left, the drag
/// state is kept.
pub open spec fn background_press_step(m: ModelState, p: PointerPosition) -> ModelState {
    if m.next_id < u64::MAX {
        ModelState {
            next_id: (m.next_id + 1) as u64,
            fill_color: next_fill_color(m.fill_color),
            tracking_state: TrackingState::DragNewRect(
                DragNewRect {
                    shape_id: ShapeId(m.next_id),
                    mouse_down_position: page_point(p),
                    style: Style { fill: m.fill_color },
                },
            ),
            ..m
        }
    } else {
        ModelState { fill_color: next_fill_color(m.fill_color), ..m }
    }
}

/// The state after any message.
pub open spec fn step(m: ModelState, msg: Msg) -> ModelState {
    match msg {
        Msg::ShapeMouseDown(id, p) => shape_press_step(m, id, p),
        Msg::BackgroundMouseDown(p) => background_press_step(m, p),
        Msg::FromTracking(e) => tracking_step(m, e),
    }
}

/// The document being edited, the fill color for new shapes, and the drag in
/// progress.
pub struct Model {
    doc: Document,
    fill_color: Color,
    tracking_state: TrackingState,
}

impl View for Model {
    type V = ModelState;

    closed spec fn view(&self) -> ModelState {
        ModelState {
            shapes: self.doc.entries(),
            next_id: self.doc.next_id(),
            fill_color: self.fill_color,
            tracking_state: self.tracking_state,
        }
    }
}

/// The page coordinates of a pointer event.
pub fn get_page_coordinates(mouse_event: &PointerPosition) -> (r: XYPoint)
    ensures
        r == page_point(*mouse_event),
        in_page_range(r),
{
    XYPoint::new(mouse_event.page_x as i64, mouse_event.page_y as i64)
}

/// The smaller coordinate and the non-negative span to the other one.
fn to_min_span(x1: i64, x2: i64) -> (r: (i64, i64))
    requires
        i64::MIN <= x2 - x1 <= i64::MAX,
        i64::MIN <= x1 - x2 <= i64::MAX,
    ensures
        r.0 == min_span(x1 as int, x2 as int).0,
        r.1 == min_span(x1 as int, x2 as int).1,
{
    if x1 < x2 {
        (x1, x2 - x1)
    } else {
        (x2, x1 - x2)
    }
}

/// The color name used for `color` when drawing.
pub fn svg_color(color: &Color) -> (r: String)
    ensures
        r@ == svg_color_name(*color)@,
{
    match color {
        Color::Red => "red".to_owned(),
        Color::Orange => "orange".to_owned(),
        Color::Yellow => "yellow".to_owned(),
        Color::Green => "green".to_owned(),
        Color::Blue => "blue".to_owned(),
        Color::Indigo => "indigo".to_owned(),
        Color::Violet => "violet".to_owned(),
        Color::White => "white".to_owned(),
        Color::Black => "black".to_owned(),
    }
}

/// The name of each color.
pub open spec fn svg_color_name(color: Color) -> &'static str {
    match color {
        Color::Red => "red",
        Color::Orange => "orange",
        Color::Yellow => "yellow",
        Color::Green => "green",
        Color::Blue => "blue",
        Color::Indigo => "indigo",
        Color::Violet => "violet",
        Color::White => "white",
        Color::Black => "black",
    }
}

/// Moves to the next color, passing over white.
fn advance_fill_color(color: Color) -> (r: Color)
    ensures
        r == next_fill_color(color),
{
    let mut fill = color;
    loop
        invariant_except_break
            fill == color || (color.next() == Color::White && fill == Color::White),
        ensures
            fill == next_fill_color(color),
        decreases
            if fill == Color::Violet { 1int } else { 0int },
    {
        fill.advance();
        if fill != Color::White {
            break;
        }
    }
    fill
}

impl Model {
    pub open spec fn wf(&self) -> bool {
        self@.inv()
    }

    /// A model holding the demo document.
    pub fn new() -> (r: Model)
        ensures
            r.wf(),
            r@ == demo_state(),
    {
        Self::new_demo()
    }

    /// A model editing `doc`, with no drag in progress and red as the fill
    /// color.
    pub fn with_document(doc: Document) -> (r: Model)
        requires
            doc.wf(),
        ensures
            r.wf(),
            r@.shapes == doc.entries(),
            r@.next_id == doc.next_id(),
            r@.fill_color == Color::Red,
            r@.tracking_state is Idle,
    {
        Model { doc, fill_color: Color::Red, tracking_state: TrackingState::Idle }
    }

    fn new_demo() -> (r: Model)
        ensures
            r.wf(),
            r@ == demo_state(),
    {
        Model { doc: Document::new_demo(), fill_color: Color::Red, tracking_state: TrackingState::Idle }
    }

    pub fn document(&self) -> (r: &Document)
        ensures
            r.entries() == self@.shapes,
            r.next_id() == self@.next_id,
            self.wf() ==> r.wf(),
    {
        &self.doc
    }

    pub fn tracking_state(&self) -> (r: TrackingState)
        ensures
            r == self@.tracking_state,
    {
        self.tracking_state
    }

    pub fn fill_color(&self) -> (r: Color)
        ensures
            r == self@.fill_color,
    {
        self.fill_color
    }

    /// Applies `msg`: a press starts a drag, replacing any drag in progress; a
    /// tracking event is handed to the drag in progress, if any.
    pub fn update(&mut self, msg: &Msg)
        requires
            old(self).wf(),
        ensures
            final(self).wf(),
            final(self)@ == step(old(self)@, *msg),
    {
        match msg {
            Msg::ShapeMouseDown(shape_id, mouse_down) => {
                DragShape::start(self, shape_id, mouse_down);
            },
            Msg::BackgroundMouseDown(mouse_down) => {
                DragNewRect::start(self, mouse_down);
                self.fill_color = advance_fill_color(self.fill_color);
            },
            Msg::FromTracking(tracking_event) => {
                let state = self.tracking_state;
                state.update_model_for_tracking_event(self, tracking_event);
            },
        }
    }

    fn get_new_shape_style(&self) -> (r: Style)
        ensures
            r == (Style { fill: self@.fill_color }),
    {
        Style::new(self.fill_color)
    }

    fn upsert_shape_with_id(&mut self, shape_id: &ShapeId, new_shape: Shape)
        requires
            old(self).doc.wf(),
            shape_id.0 < old(self)@.next_id,
        ensures
            final(self).doc.wf(),
            final(self)@ == (ModelState { shapes: upsert(old(self)@.shapes, *shape_id, new_shape), ..old(self)@ }),
    {
        self.doc.upsert_shape_with_id(shape_id, new_shape);
    }

    fn delete_shape_with_id(&mut self, shape_id: &ShapeId)
        requires
            old(self).doc.wf(),
        ensures
            final(self).doc.wf(),
            final(self)@ == (ModelState { shapes: delete(old(self)@.shapes, *shape_id), ..old(self)@ }),
    {
        self.doc.delete_shape_with_id(shape_id);
    }

    fn set_geometry_for_shape_with_id(&mut self, shape_id: &ShapeId, new_geometry: Geometry)
        requires
            old(self).doc.wf(),
        ensures
            final(self).doc.wf(),
            final(self)@ == (ModelState { shapes: set_geometry(old(self)@.shapes, *shape_id, new_geometry), ..old(self)@ }),
    {
        self.doc.set_geometry_for_shape_id(shape_id, new_geometry);
    }

    fn generate_shape_id(&mut self) -> (r: Option<ShapeId>)
        requires
            old(self).doc.wf(),
        ensures
            final(self).doc.wf(),
            old(self)@.next_id < u64::MAX ==> r == Some(ShapeId(old(self)@.next_id))
                && final(self)@ == (ModelState { next_id: (old(self)@.next_id + 1) as u64, ..old(self)@ }),
            old(self)@.next_id == u64::MAX ==> r.is_none() && final(self)@ == old(self)@,
    {
        self.doc.generate_shape_id()
    }

    fn set_tracking_state(&mut self, new_tracking_state: TrackingState)
        ensures
            final(self)@ == (ModelState { tracking_state: new_tracking_state, ..old(self)@ }),
            final(self).doc == old(self).doc,
    {
        self.tracking_state = new_tracking_state;
    }

    fn stop_tracking(&mut self)
        ensures
            final(self)@ == (ModelState { tracking_state: TrackingState::Idle, ..old(self)@ }),
            final(self).doc == old(self).doc,
    {
        self.tracking_state = TrackingState::Idle;
    }
}

impl TrackingState {
    /// Hands `tracking_event` to the drag in progress.
    fn update_model_for_tracking_event(&self, model: &mut Model, tracking_event: &Event)
        requires
            old(model).wf(),
            old(model)@.tracking_state == *self,
        ensures
            final(model).wf(),
            final(model)@ == tracking_step(old(model)@, *tracking_event),
    {
        match self {
            TrackingState::Idle => {},
            TrackingState::DragNewRect(drag_new_rect) => {
                drag_new_rect.update_model_for_tracking_event(model, tracking_event)
            },
            TrackingState::DragShape(drag_shape) => {
                drag_shape.update_model_for_tracking_event(model, tracking_event)
            },
        }
    }
}

/// The drag in progress as a tracker of the model: it keeps tracking after a
/// move, and reports that it is done when no drag is in progress.
impl Interface<Model> for TrackingState {
    open spec fn accepts(&self, target: Model) -> bool {
        target.wf() && target@.tracking_state == *self
    }

    open spec fn moved(&self, before: Model, position: PointerPosition, after: Model, next: Next<TrackingState>) -> bool {
        &&& after.wf()
        &&& after@ == tracking_step(before@, Event { selector: Selector::MouseMove, mouse_event: position })
        &&& next == if self.is_idle() { Next::<TrackingState>::Done } else { Next::<TrackingState>::Continue }
    }

    open spec fn released(&self, before: Model, position: PointerPosition, after: Model) -> bool {
        &&& after.wf()
        &&& after@ == tracking_step(before@, Event { selector: Selector::MouseUp, mouse_event: position })
    }

    fn track_mouse_move(&self, target: &mut Model, mouse_event: &PointerPosition) -> (r: Next<TrackingState>) {
        self.update_model_for_tracking_event(target, &Event::mouse_move(*mouse_event));
        match self {
            TrackingState::Idle => Next::Done,
            _ => Next::Continue,
        }
    }

    fn track_mouse_up(&self, target: &mut Model, mouse_event: &PointerPosition) {
        self.update_model_for_tracking_event(target, &Event::mouse_up(*mouse_event));
    }
}

impl DragNewRect {
    /// Reserves an id for the new rectangle and starts tracking its drag.
    fn start(model: &mut Model, mouse_down: &PointerPosition)
        requires
            old(model).wf(),
        ensures
            final(model).wf(),
            final(model)@ == (ModelState { fill_color: old(model)@.fill_color, ..background_press_step(old(model)@, *mouse_down) }),
    {
        if let Some(shape_id) = model.generate_shape_id() {
            let style = model.get_new_shape_style();
            model.set_tracking_state(
                TrackingState::DragNewRect(
                    DragNewRect { shape_id, style, mouse_down_position: get_page_coordinates(mouse_down) },
                ),
            );
        }
    }

    fn update_model_for_tracking_event(&self, model: &mut Model, tracking_event: &Event)
        requires
            old(model).wf(),
            old(model)@.tracking_state == TrackingState::DragNewRect(*self),
        ensures
            final(model).wf(),
            final(model)@ == tracking_step(old(model)@, *tracking_event),
    {
        let drag_position = get_page_coordinates(&tracking_event.mouse_event);
        let (min_x, span_x) = to_min_span(self.mouse_down_position.x, drag_position.x);
        let (min_y, span_y) = to_min_span(self.mouse_down_position.y, drag_position.y);
        if 0 < span_x && 0 < span_y {
            let geometry = Geometry::Rectangle {
                top_left: XYPoint::new(min_x, min_y),
                size: XYPoint::new(span_x, span_y),
            };
            let shape = Shape { geometry, style: self.style };
            model.upsert_shape_with_id(&self.shape_id, shape);
        } else {
            model.delete_shape_with_id(&self.shape_id)
        }
        if tracking_event.selector == Selector::MouseUp {
            model.stop_tracking()
        }
    }
}

impl DragShape {
    /// Starts tracking a drag of the shape `shape_id`, if it still exists.
    fn start(model: &mut Model, shape_id: &ShapeId, mouse_down: &PointerPosition)
        requires
            old(model).wf(),
        ensures
            final(model).wf(),
            final(model)@ == shape_press_step(old(model)@, *shape_id, *mouse_down),
    {
        if let Some(shape) = model.doc.get_shape_by_id(shape_id) {
            model.set_tracking_state(
                TrackingState::DragShape(
                    DragShape {
                        shape_id: *shape_id,
                        original_geometry: shape.geometry,
                        mouse_down_position: get_page_coordinates(mouse_down),
                    },
                ),
            )
        }
    }

    fn update_model_for_tracking_event(&self, model: &mut Model, tracking_event: &Event)
        requires
            old(model).wf(),
            old(model)@.tracking_state == TrackingState::DragShape(*self),
        ensures
            final(model).wf(),
            final(model)@ == tracking_step(old(model)@, *tracking_event),
    {
        let drag_position = get_page_coordinates(&tracking_event.mouse_event);
        let delta = drag_position.subtract(&self.mouse_down_position);
        model.set_geometry_for_shape_with_id(&self.shape_id, self.original_geometry.offset_by(&delta));
        if tracking_event.selector == Selector::MouseUp {
            model.stop_tracking()
        }
    }
}

} // verus!
