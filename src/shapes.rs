//! Shapes, the document that stores them, and the editing model that drags
//! them.

pub mod app;
pub mod document;
pub mod geometry;
pub mod laws;
