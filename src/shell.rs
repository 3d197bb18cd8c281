//! The outer layer: routes pointer events and editing messages to the
//! editing model.

use vstd::prelude::*;

use crate::framework::tracking::{Event, PointerPosition, Selector};
use crate::shapes::app;

verus! {

/// The editing model as seen by the outer event loop.
pub struct Model {
    app: app::Model,
}

/// Messages of the outer event loop.
#[derive(Clone, Copy, Debug, PartialEq, Eq, Structural)]
pub enum Msg {
    /// A message for the editing model.
    ToApp(app::Msg),
    /// A pointer event for the drag in progress.
    FromTracking(Event),
}

/// The editing message that `msg` delivers.
pub open spec fn app_msg_of(msg: Msg) -> app::Msg {
    match msg {
        Msg::ToApp(m) => m,
        Msg::FromTracking(e) => app::Msg::FromTracking(e),
    }
}

impl Msg {
    /// A pointer move, for tracking.
    pub fn track_mouse_move(evt: PointerPosition) -> (r: Msg)
        ensures
            r == Msg::FromTracking(Event { selector: Selector::MouseMove, mouse_event: evt }),
    {
        Msg::FromTracking(Event::mouse_move(evt))
    }

    /// A pointer release, for tracking.
    pub fn track_mouse_up(evt: PointerPosition) -> (r: Msg)
        ensures
            r == Msg::FromTracking(Event { selector: Selector::MouseUp, mouse_event: evt }),
    {
        Msg::FromTracking(Event::mouse_up(evt))
    }

    pub fn to_app(app_msg: app::Msg) -> (r: Msg)
        ensures
            r == Msg::ToApp(app_msg),
    {
        Msg::ToApp(app_msg)
    }
}

impl Model {
    pub closed spec fn app_state(&self) -> app::ModelState {
        self.app@
    }

    pub closed spec fn wf(&self) -> bool {
        self.app.wf()
    }

    /// The demo model.
    pub fn new() -> (r: Model)
        ensures
            r.wf(),
            r.app_state() == app::demo_state(),
    {
        Model { app: app::Model::new() }
    }

    pub fn app(&self) -> (r: &app::Model)
        ensures
            r@ == self.app_state(),
            self.wf() ==> r.wf(),
    {
        &self.app
    }

    /// Routes `msg` to the editing model.
    pub fn update(&mut self, msg: &Msg)
        requires
            old(self).wf(),
        ensures
            final(self).wf(),
            final(self).app_state() == app::step(old(self).app_state(), app_msg_of(*msg)),
    {
        match msg {
            Msg::FromTracking(evt) => self.update_app(&app::Msg::from_tracking(evt)),
            Msg::ToApp(app_msg) => self.update_app(app_msg),
        }
    }

    fn update_app(&mut self, app_msg: &app::Msg)
        requires
            old(self).wf(),
        ensures
            final(self).wf(),
            final(self).app_state() == app::step(old(self).app_state(), *app_msg),
    {
        self.app.update(app_msg);
    }
}

} // verus!
