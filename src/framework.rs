//! The tracking vocabulary: labelled pointer events and the tracker
//! abstraction that consumes them.

pub mod tracker;
pub mod tracking;
