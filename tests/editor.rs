use shape_drag::framework::tracker::{Next, Tracker};
use shape_drag::framework::tracking::{Event, PointerPosition, Selector};
use shape_drag::shapes::app::{get_page_coordinates, svg_color, Model, Msg, TrackingState};
use shape_drag::shapes::document::{Document, ShapeId};
use shape_drag::shapes::geometry::{Color, Geometry, Shape, Style, XYPoint};
use shape_drag::shell;

fn pos(x: i32, y: i32) -> PointerPosition {
    PointerPosition::new(x, y)
}

fn press_background(m: &mut Model, x: i32, y: i32) {
    m.update(&Msg::BackgroundMouseDown(pos(x, y)));
}

fn press_shape(m: &mut Model, id: ShapeId, x: i32, y: i32) {
    m.update(&Msg::ShapeMouseDown(id, pos(x, y)));
}

fn move_to(m: &mut Model, x: i32, y: i32) {
    m.update(&Msg::FromTracking(Event::mouse_move(pos(x, y))));
}

fn release_at(m: &mut Model, x: i32, y: i32) {
    m.update(&Msg::FromTracking(Event::mouse_up(pos(x, y))));
}

fn rect(x: i64, y: i64, w: i64, h: i64) -> Geometry {
    Geometry::Rectangle { top_left: XYPoint::new(x, y), size: XYPoint::new(w, h) }
}

fn circle(x: i64, y: i64, r: i64) -> Geometry {
    Geometry::Circle { center: XYPoint::new(x, y), radius: r }
}

fn empty_model() -> Model {
    Model::with_document(Document::new())
}

/// A model holding one shape with the given geometry; returns its id.
fn model_with(geometry: Geometry) -> (Model, ShapeId) {
    let mut doc = Document::new();
    let id = doc.generate_shape_id().unwrap();
    doc.upsert_shape_with_id(&id, Shape { geometry, style: Style::new(Color::Blue) });
    (Model::with_document(doc), id)
}

fn geometry_of(m: &Model, id: ShapeId) -> Option<Geometry> {
    m.document().get_shape_by_id(&id).map(|s| s.geometry)
}

#[test]
fn background_drag_creates_deletes_and_commits_rectangle() {
    let mut m = empty_model();
    press_background(&mut m, 10, 10);
    let id = ShapeId(0);
    assert!(matches!(m.tracking_state(), TrackingState::DragNewRect(_)));
    assert_eq!(m.document().get_shape_by_id(&id), None);
    move_to(&mut m, 50, 40);
    assert_eq!(geometry_of(&m, id), Some(rect(10, 10, 40, 30)));
    move_to(&mut m, 10, 40);
    assert_eq!(geometry_of(&m, id), None);
    release_at(&mut m, 30, 50);
    assert_eq!(geometry_of(&m, id), Some(rect(10, 10, 20, 40)));
    assert_eq!(m.tracking_state(), TrackingState::Idle);
}

#[test]
fn shape_drag_moves_circle_and_release_is_idempotent() {
    let (mut m, id) = model_with(circle(5, 5, 2));
    press_shape(&mut m, id, 5, 5);
    move_to(&mut m, 8, 9);
    assert_eq!(geometry_of(&m, id), Some(circle(8, 9, 2)));
    release_at(&mut m, 8, 9);
    assert_eq!(geometry_of(&m, id), Some(circle(8, 9, 2)));
    assert_eq!(m.tracking_state(), TrackingState::Idle);
}

#[test]
fn press_on_background_mid_drag_replaces_shape_drag() {
    let (mut m, id) = model_with(circle(5, 5, 2));
    press_shape(&mut m, id, 5, 5);
    move_to(&mut m, 15, 25);
    press_background(&mut m, 100, 200);
    match m.tracking_state() {
        TrackingState::DragNewRect(d) => {
            assert_eq!(d.mouse_down_position, XYPoint::new(100, 200));
            assert_eq!(d.shape_id, ShapeId(1));
        }
        other => panic!("expected a rectangle drag, got {:?}", other),
    }
    assert_eq!(geometry_of(&m, id), Some(circle(15, 25, 2)));
    move_to(&mut m, 110, 230);
    assert_eq!(geometry_of(&m, id), Some(circle(15, 25, 2)));
    assert_eq!(geometry_of(&m, ShapeId(1)), Some(rect(100, 200, 10, 30)));
}

#[test]
fn repeating_final_position_before_release_changes_nothing() {
    let run = |extra: bool| {
        let mut m = empty_model();
        press_background(&mut m, 20, 20);
        move_to(&mut m, 60, 5);
        move_to(&mut m, 35, 70);
        if extra {
            move_to(&mut m, 35, 70);
        }
        release_at(&mut m, 35, 70);
        let doc = m.document();
        (0..doc.len()).map(|i| doc.entry(i)).collect::<Vec<_>>()
    };
    assert_eq!(run(true), run(false));
    assert_eq!(run(false), vec![(ShapeId(0), Shape { geometry: rect(20, 20, 15, 50), style: Style::new(Color::Red) })]);
}

#[test]
fn degenerate_rectangle_is_absent_on_either_axis() {
    let mut m = empty_model();
    press_background(&mut m, 30, 30);
    move_to(&mut m, 30, 80);
    assert_eq!(geometry_of(&m, ShapeId(0)), None);
    move_to(&mut m, 80, 30);
    assert_eq!(geometry_of(&m, ShapeId(0)), None);
    move_to(&mut m, 30, 30);
    assert_eq!(geometry_of(&m, ShapeId(0)), None);
    release_at(&mut m, 30, 31);
    assert_eq!(geometry_of(&m, ShapeId(0)), None);
    assert_eq!(m.document().len(), 0);
}

#[test]
fn rectangle_dragged_up_and_left_is_normalized() {
    let mut m = empty_model();
    press_background(&mut m, 100, 100);
    move_to(&mut m, 40, 70);
    assert_eq!(geometry_of(&m, ShapeId(0)), Some(rect(40, 70, 60, 30)));
    move_to(&mut m, -20, 130);
    assert_eq!(geometry_of(&m, ShapeId(0)), Some(rect(-20, 100, 120, 30)));
}

#[test]
fn shape_drag_result_depends_only_on_final_position() {
    let run = |path: &[(i32, i32)]| {
        let (mut m, id) = model_with(rect(0, 0, 10, 10));
        press_shape(&mut m, id, 3, 4);
        for &(x, y) in path {
            move_to(&mut m, x, y);
        }
        release_at(&mut m, 13, 24);
        geometry_of(&m, id)
    };
    let direct = run(&[]);
    assert_eq!(direct, Some(rect(10, 20, 10, 10)));
    assert_eq!(run(&[(100, 100), (-50, 7), (13, 24)]), direct);
    assert_eq!(run(&[(4, 4), (5, 5), (6, 6), (7, 7)]), direct);
}

#[test]
fn tracking_events_while_idle_change_nothing() {
    let (mut m, id) = model_with(circle(1, 2, 3));
    move_to(&mut m, 50, 50);
    release_at(&mut m, 60, 60);
    assert_eq!(m.tracking_state(), TrackingState::Idle);
    assert_eq!(geometry_of(&m, id), Some(circle(1, 2, 3)));
    assert_eq!(m.document().len(), 1);
    assert_eq!(m.fill_color(), Color::Red);
}

#[test]
fn press_on_missing_shape_is_ignored() {
    let (mut m, _id) = model_with(circle(1, 2, 3));
    press_shape(&mut m, ShapeId(42), 1, 2);
    assert_eq!(m.tracking_state(), TrackingState::Idle);
    press_background(&mut m, 0, 0);
    let before = m.tracking_state();
    press_shape(&mut m, ShapeId(42), 1, 2);
    assert_eq!(m.tracking_state(), before);
}

#[test]
fn move_keeps_drag_and_release_ends_it() {
    let (mut m, id) = model_with(circle(1, 2, 3));
    press_shape(&mut m, id, 0, 0);
    let drag = m.tracking_state();
    assert_eq!(
        drag,
        TrackingState::DragShape(shape_drag::shapes::app::DragShape {
            shape_id: id,
            original_geometry: circle(1, 2, 3),
            mouse_down_position: XYPoint::new(0, 0),
        })
    );
    move_to(&mut m, 5, 5);
    assert_eq!(m.tracking_state(), drag);
    release_at(&mut m, 6, 6);
    assert_eq!(m.tracking_state(), TrackingState::Idle);
    assert_eq!(geometry_of(&m, id), Some(circle(7, 8, 3)));
}

#[test]
fn new_shapes_take_fill_colors_in_order_skipping_white() {
    let mut m = empty_model();
    let mut fills = Vec::new();
    for i in 0..9 {
        let x = 10 * i;
        press_background(&mut m, x, 0);
        release_at(&mut m, x + 5, 5);
        fills.push(m.document().get_shape_by_id(&ShapeId(i as u64)).unwrap().style.fill);
    }
    assert_eq!(
        fills,
        vec![
            Color::Red,
            Color::Orange,
            Color::Yellow,
            Color::Green,
            Color::Blue,
            Color::Indigo,
            Color::Violet,
            Color::Black,
            Color::Red,
        ]
    );
}

#[test]
fn color_advance_follows_the_cycle() {
    let mut c = Color::Violet;
    c.advance();
    assert_eq!(c, Color::White);
    c.advance();
    assert_eq!(c, Color::Black);
    c.advance();
    assert_eq!(c, Color::Red);
}

#[test]
fn svg_color_names() {
    assert_eq!(svg_color(&Color::Red), "red");
    assert_eq!(svg_color(&Color::Indigo), "indigo");
    assert_eq!(svg_color(&Color::White), "white");
    assert_eq!(svg_color(&Color::Black), "black");
}

#[test]
fn document_keeps_insertion_order_and_unique_ids() {
    let mut doc = Document::new();
    let a = doc.generate_shape_id().unwrap();
    let b = doc.generate_shape_id().unwrap();
    assert_eq!((a, b), (ShapeId(0), ShapeId(1)));
    let red = Style::new(Color::Red);
    doc.upsert_shape_with_id(&b, Shape { geometry: circle(0, 0, 1), style: red });
    doc.upsert_shape_with_id(&a, Shape { geometry: circle(1, 1, 1), style: red });
    doc.upsert_shape_with_id(&b, Shape { geometry: circle(2, 2, 2), style: red });
    assert_eq!(doc.len(), 2);
    assert_eq!(doc.entry(0), (b, Shape { geometry: circle(2, 2, 2), style: red }));
    assert_eq!(doc.entry(1), (a, Shape { geometry: circle(1, 1, 1), style: red }));
    doc.set_geometry_for_shape_id(&a, rect(1, 2, 3, 4));
    assert_eq!(doc.entry(1), (a, Shape { geometry: rect(1, 2, 3, 4), style: red }));
    doc.delete_shape_with_id(&b);
    doc.delete_shape_with_id(&b);
    assert_eq!(doc.len(), 1);
    assert_eq!(doc.get_shape_by_id(&b), None);
    doc.set_geometry_for_shape_id(&b, rect(0, 0, 1, 1));
    assert_eq!(doc.len(), 1);
    assert_eq!(doc.generate_shape_id(), Some(ShapeId(2)));
}

#[test]
fn demo_model_starts_idle_with_two_shapes() {
    let m = Model::new();
    assert_eq!(m.tracking_state(), TrackingState::Idle);
    assert_eq!(m.document().len(), 2);
    assert_eq!(m.fill_color(), Color::Red);
}

#[test]
fn offset_translates_anchor_and_saturates() {
    let d = XYPoint::new(3, -4);
    assert_eq!(rect(1, 1, 5, 6).offset_by(&d), rect(4, -3, 5, 6));
    assert_eq!(circle(1, 1, 9).offset_by(&d), circle(4, -3, 9));
    let big = XYPoint::new(i64::MAX - 1, i64::MIN + 1);
    assert_eq!(big.offset_by(&d), XYPoint::new(i64::MAX, i64::MIN));
    assert_eq!(XYPoint::new(7, 2).subtract(&XYPoint::new(10, -1)), XYPoint::new(-3, 3));
}

#[test]
fn page_coordinates_widen_to_points() {
    assert_eq!(get_page_coordinates(&pos(i32::MIN, 17)), XYPoint::new(i32::MIN as i64, 17));
    let e = Event::mouse_up(pos(1, 2));
    assert_eq!(e.selector, Selector::MouseUp);
    assert_eq!(Msg::from_tracking(&e), Msg::FromTracking(e));
}

#[test]
fn tracker_reports_continue_while_dragging_and_done_when_idle() {
    let (mut m, id) = model_with(circle(0, 0, 1));
    let idle = Tracker::new(m.tracking_state());
    assert!(matches!(idle.track_mouse_move(&mut m, &pos(4, 4)), Next::Done));
    press_shape(&mut m, id, 0, 0);
    let tracker = Tracker::new(m.tracking_state());
    assert!(matches!(tracker.track_mouse_move(&mut m, &pos(4, 5)), Next::Continue));
    assert_eq!(geometry_of(&m, id), Some(circle(4, 5, 1)));
    tracker.track_mouse_up(&mut m, &pos(6, 5));
    assert_eq!(geometry_of(&m, id), Some(circle(6, 5, 1)));
    assert_eq!(m.tracking_state(), TrackingState::Idle);
}

#[test]
fn shell_routes_messages_to_the_editor() {
    let mut s = shell::Model::new();
    s.update(&shell::Msg::to_app(Msg::BackgroundMouseDown(pos(1000, 1000))));
    s.update(&shell::Msg::track_mouse_move(pos(1010, 1020)));
    let id = ShapeId(2);
    assert_eq!(geometry_of(s.app(), id), Some(rect(1000, 1000, 10, 20)));
    s.update(&shell::Msg::track_mouse_up(pos(990, 1000)));
    assert_eq!(geometry_of(s.app(), id), None);
    assert_eq!(s.app().tracking_state(), TrackingState::Idle);
}
