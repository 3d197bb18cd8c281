//! Interaction tracking for a small vector-shape editor: pointer drags turn
//! into "create a rectangle" and "move a shape" operations on a document.

pub mod framework;
pub mod shapes;
pub mod shell;
