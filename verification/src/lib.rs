//! Verified core of an image annotation tool: the style model with its
//! portable encoding, and the gesture state machine that turns pointer drags
//! into committed line annotations.

pub mod math;
pub mod sketch_board;
pub mod style;
pub mod tools;
pub mod variant;
