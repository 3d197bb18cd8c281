use vstd::prelude::*;

verus! {

/// Which kind of pointer event is being tracked. The label is set where the
/// event is received rather than inferred from the event itself.
#[derive(Clone, Copy, Debug, PartialEq, Eq, Structural)]
pub enum Selector {
    MouseMove,
    MouseUp,
}

/// What the tracking logic reads from a pointer event: its page coordinates.
#[derive(Clone, Copy, Debug, PartialEq, Eq, Structural)]
pub struct PointerPosition {
    pub page_x: i32,
    pub page_y: i32,
}

impl PointerPosition {
    pub fn new(page_x: i32, page_y: i32) -> (r: PointerPosition)
        ensures
            r.page_x == page_x,
            r.page_y == page_y,
    {
        PointerPosition { page_x, page_y }
    }
}

/// A labelled pointer event delivered while a drag is tracked.
#[derive(Clone, Copy, Debug, PartialEq, Eq, Structural)]
pub struct Event {
    pub selector: Selector,
    pub mouse_event: PointerPosition,
}

impl Event {
    pub fn mouse_move(mouse_event: PointerPosition) -> (r: Event)
        ensures
            r.selector == Selector::MouseMove,
            r.mouse_event == mouse_event,
    {
        Event { selector: Selector::MouseMove, mouse_event }
    }

    pub fn mouse_up(mouse_event: PointerPosition) -> (r: Event)
        ensures
            r.selector == Selector::MouseUp,
            r.mouse_event == mouse_event,
    {
        Event { selector: Selector::MouseUp, mouse_event }
    }
}

} // verus!
