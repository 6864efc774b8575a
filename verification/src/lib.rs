//! A character-grid line-drawing library.
//!
//! A cursor moves one cell at a time across a viewport-bounded grid; each
//! successful move draws a line segment between the vacated and the occupied
//! cell. Cells accumulate four directional edge flags, and every cell is
//! rendered as the box-drawing glyph determined by its flags. The canvas can
//! be cleared and serialised together with the command history.

pub mod canvas;
pub mod cell;
pub mod command;
pub mod point;
pub mod render;
pub mod save;
pub mod session;
