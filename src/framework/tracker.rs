//! A swappable drag behavior: a tracker receives the move and release events
//! of a drag and applies them to a target of type `T`.

use vstd::prelude::*;

use crate::framework::tracking::PointerPosition;

verus! {

/// A tracker with a target of type `T`. The spec functions state what an
/// implementation does with each event; the executable methods are held to
/// them.
pub trait Interface<T>: Sized {
    /// What the tracker needs of the target before an event.
    spec fn accepts(&self, target: T) -> bool;

    /// How a move to `position` relates the target before and after, and
    /// what tracking does next.
    spec fn moved(&self, before: T, position: PointerPosition, after: T, next: Next<Self>) -> bool;

    /// How a release at `position` relates the target before and after.
    spec fn released(&self, before: T, position: PointerPosition, after: T) -> bool;

    fn track_mouse_move(&self, target: &mut T, mouse_event: &PointerPosition) -> (r: Next<Self>)
        requires
            self.accepts(*old(target)),
        ensures
            self.moved(*old(target), *mouse_event, *final(target), r),
    ;

    fn track_mouse_up(&self, target: &mut T, mouse_event: &PointerPosition)
        requires
            self.accepts(*old(target)),
        ensures
            self.released(*old(target), *mouse_event, *final(target)),
    ;
}

/// A packaged tracker. It owns its behavior; switching to another behavior
/// replaces the tracker as a whole.
pub struct Tracker<I> {
    tracker: I,
}

/// What tracking does after a move.
pub enum Next<I> {
    /// Stop tracking.
    Done,
    /// Keep using the same tracker.
    Continue,
    /// Switch to a different tracker.
    Switch(Tracker<I>),
}

impl<I> Tracker<I> {
    pub closed spec fn behavior(&self) -> I {
        self.tracker
    }

    pub fn new(tracker: I) -> (r: Self)
        ensures
            r.behavior() == tracker,
    {
        Self { tracker }
    }

    pub fn track_mouse_move<T>(&self, target: &mut T, mouse_event: &PointerPosition) -> (r: Next<I>)
        where
            I: Interface<T>,
        requires
            self.behavior().accepts(*old(target)),
        ensures
            self.behavior().moved(*old(target), *mouse_event, *final(target), r),
    {
        self.tracker.track_mouse_move(target, mouse_event)
    }

    pub fn track_mouse_up<T>(&self, target: &mut T, mouse_event: &PointerPosition)
        where
            I: Interface<T>,
        requires
            self.behavior().accepts(*old(target)),
        ensures
            self.behavior().released(*old(target), *mouse_event, *final(target)),
    {
        self.tracker.track_mouse_up(target, mouse_event)
    }
}

} // verus!
