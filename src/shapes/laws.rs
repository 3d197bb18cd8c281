//! Properties of the editing model that hold across several messages.

use vstd::prelude::*;

use crate::framework::tracking::{Event, PointerPosition, Selector};
use crate::shapes::app::{
    page_point, step, tracking_step, DragNewRect, DragShape, ModelState, Msg, TrackingState,
};
use crate::shapes::document::{
    has_id, index_of, lemma_delete, lemma_index_of_unique, lemma_set_geometry, lemma_upsert, lookup,
    set_geometry, ShapeId,
};
use crate::shapes::geometry::{Geometry, Shape, Style, XYPoint};

verus! {

/// The message for a pointer move to `p`.
pub open spec fn move_msg(p: PointerPosition) -> Msg {
    Msg::FromTracking(Event { selector: Selector::MouseMove, mouse_event: p })
}

/// The message for a pointer release at `p`.
pub open spec fn up_msg(p: PointerPosition) -> Msg {
    Msg::FromTracking(Event { selector: Selector::MouseUp, mouse_event: p })
}

/// The state after the pointer moved through `ps`, in order.
pub open spec fn run_moves(m: ModelState, ps: Seq<PointerPosition>) -> ModelState
    decreases ps.len(),
{
    if ps.len() == 0 {
        m
    } else {
        step(run_moves(m, ps.drop_last()), move_msg(ps.last()))
    }
}

/// Every message takes a well-formed state to a well-formed state.
pub proof fn lemma_step_inv(m: ModelState, msg: Msg)
    requires
        m.inv(),
    ensures
        step(m, msg).inv(),
{
    let n = m.next_id;
    match msg {
        Msg::ShapeMouseDown(id, p) => {},
        Msg::BackgroundMouseDown(p) => {
            let r = step(m, msg);
            if m.next_id < u64::MAX {
                assert forall|i: int| 0 <= i < r.shapes.len() implies (#[trigger] r.shapes[i]).0.0 < r.next_id by {
                    assert(m.shapes[i].0.0 < m.next_id);
                }
            }
        },
        Msg::FromTracking(e) => {
            let p = page_point(e.mouse_event);
            match m.tracking_state {
                TrackingState::Idle => {},
                TrackingState::DragNewRect(d) => {
                    match d.rectangle_for(p) {
                        Some(geometry) => lemma_upsert(m.shapes, d.shape_id, Shape { geometry, style: d.style }, n),
                        None => lemma_delete(m.shapes, d.shape_id, n),
                    }
                },
                TrackingState::DragShape(d) => {
                    lemma_set_geometry(m.shapes, d.shape_id, d.geometry_for(p), d.geometry_for(p), n);
                },
            }
        },
    }
}

/// Moving the pointer keeps the state well-formed and never changes which
/// drag is tracked.
pub proof fn lemma_run_moves(m: ModelState, ps: Seq<PointerPosition>)
    requires
        m.inv(),
    ensures
        run_moves(m, ps).inv(),
        run_moves(m, ps).tracking_state == m.tracking_state,
        run_moves(m, ps).next_id == m.next_id,
        run_moves(m, ps).fill_color == m.fill_color,
    decreases ps.len(),
{
    if ps.len() > 0 {
        lemma_run_moves(m, ps.drop_last());
        lemma_step_inv(run_moves(m, ps.drop_last()), move_msg(ps.last()));
    }
}

/// Releasing ends every drag, and repeating the release position as one more
/// move before the release leaves the outcome unchanged, whatever moves came
/// before.
pub proof fn release_is_idempotent(m: ModelState, ps: Seq<PointerPosition>, p: PointerPosition)
    requires
        m.inv(),
    ensures
        step(step(run_moves(m, ps), move_msg(p)), up_msg(p)) == step(run_moves(m, ps), up_msg(p)),
        step(run_moves(m, ps), up_msg(p)).tracking_state is Idle,
{
    lemma_run_moves(m, ps);
    let m1 = run_moves(m, ps);
    let q = page_point(p);
    let n = m1.next_id;
    match m1.tracking_state {
        TrackingState::Idle => {},
        TrackingState::DragNewRect(d) => {
            match d.rectangle_for(q) {
                Some(geometry) => lemma_upsert(m1.shapes, d.shape_id, Shape { geometry, style: d.style }, n),
                None => lemma_delete(m1.shapes, d.shape_id, n),
            }
        },
        TrackingState::DragShape(d) => {
            lemma_set_geometry(m1.shapes, d.shape_id, d.geometry_for(q), d.geometry_for(q), n);
        },
    }
}

/// During a rectangle drag, the reserved id is absent after an event whose
/// position shares a coordinate with the down position; otherwise it holds
/// the rectangle whose corner is the componentwise minimum of the two
/// positions and whose size is their componentwise distance.
pub proof fn new_rect_tracks_pointer(m: ModelState, d: DragNewRect, e: Event)
    requires
        m.inv(),
        m.tracking_state == TrackingState::DragNewRect(d),
    ensures
        ({
            let p = page_point(e.mouse_event);
            let down = d.mouse_down_position;
            let r = step(m, Msg::FromTracking(e));
            if p.x == down.x || p.y == down.y {
                lookup(r.shapes, d.shape_id) is None
            } else {
                lookup(r.shapes, d.shape_id) == Some(
                    Shape {
                        geometry: Geometry::Rectangle {
                            top_left: XYPoint {
                                x: if p.x < down.x { p.x } else { down.x },
                                y: if p.y < down.y { p.y } else { down.y },
                            },
                            size: XYPoint {
                                x: (if p.x < down.x { down.x - p.x } else { p.x - down.x }) as i64,
                                y: (if p.y < down.y { down.y - p.y } else { p.y - down.y }) as i64,
                            },
                        },
                        style: d.style,
                    },
                )
            }
        }),
{
    let p = page_point(e.mouse_event);
    match d.rectangle_for(p) {
        Some(geometry) => lemma_upsert(m.shapes, d.shape_id, Shape { geometry, style: d.style }, m.next_id),
        None => lemma_delete(m.shapes, d.shape_id, m.next_id),
    }
}

/// During a shape drag, the outcome of the release depends only on the down
/// position and the release position, not on the moves in between; the
/// shape ends at its original geometry moved by the pointer's displacement.
pub proof fn shape_drag_is_path_independent(
    m: ModelState,
    d: DragShape,
    ps: Seq<PointerPosition>,
    p: PointerPosition,
)
    requires
        m.inv(),
        m.tracking_state == TrackingState::DragShape(d),
    ensures
        step(run_moves(m, ps), up_msg(p)) == step(m, up_msg(p)),
        lookup(step(m, up_msg(p)).shapes, d.shape_id) matches Some(shape)
            ==> shape.geometry == d.geometry_for(page_point(p)),
{
    lemma_shape_drag_moves(m, d, ps, d.geometry_for(page_point(p)));
    lemma_run_moves(m, ps);
    let s = m.shapes;
    let g = d.geometry_for(page_point(p));
    lemma_set_geometry(s, d.shape_id, g, g, m.next_id);
    let r = set_geometry(s, d.shape_id, g);
    if has_id(r, d.shape_id) {
        lemma_index_of_unique(r, d.shape_id, index_of(s, d.shape_id));
    }
}

/// Replacing the dragged shape's geometry after any moves gives what
/// replacing it before them gives.
proof fn lemma_shape_drag_moves(m: ModelState, d: DragShape, ps: Seq<PointerPosition>, g: Geometry)
    requires
        m.inv(),
        m.tracking_state == TrackingState::DragShape(d),
    ensures
        set_geometry(run_moves(m, ps).shapes, d.shape_id, g) == set_geometry(m.shapes, d.shape_id, g),
    decreases ps.len(),
{
    if ps.len() > 0 {
        let m0 = run_moves(m, ps.drop_last());
        lemma_run_moves(m, ps.drop_last());
        lemma_shape_drag_moves(m, d, ps.drop_last(), g);
        let q = page_point(ps.last());
        lemma_set_geometry(m0.shapes, d.shape_id, d.geometry_for(q), g, m0.next_id);
    }
}

/// From the idle state a tracking event changes nothing; during a drag a move
/// keeps the drag and a release ends it; a press starts the matching drag
/// from any state, dropping the one in progress (a press on a missing shape
/// is ignored, and a press on the background starts a drag while ids remain).
pub proof fn transitions_are_total(m: ModelState, msg: Msg)
    requires
        m.inv(),
    ensures
        m.tracking_state is Idle && msg is FromTracking ==> step(m, msg) == m,
        !(m.tracking_state is Idle) ==> match msg {
            Msg::FromTracking(e) => step(m, msg).tracking_state == (if e.selector == Selector::MouseUp {
                TrackingState::Idle
            } else {
                m.tracking_state
            }),
            _ => true,
        },
        match msg {
            Msg::ShapeMouseDown(id, p) => match lookup(m.shapes, id) {
                Some(shape) => step(m, msg).tracking_state == TrackingState::DragShape(
                    DragShape { shape_id: id, original_geometry: shape.geometry, mouse_down_position: page_point(p) },
                ),
                None => step(m, msg) == m,
            },
            Msg::BackgroundMouseDown(p) => m.next_id < u64::MAX ==> step(m, msg).tracking_state
                == TrackingState::DragNewRect(
                DragNewRect {
                    shape_id: ShapeId(m.next_id),
                    mouse_down_position: page_point(p),
                    style: Style { fill: m.fill_color },
                },
            ),
            _ => true,
        },
{
}

} // verus!
