//! A pixel-art editor's logic: a square grid of colored cells painted through
//! a pointer, sidebar buttons with hit testing, and row and column layout of
//! widgets. All lengths are integers in one unit that the caller picks (for
//! instance hundredths of a pixel); drawing and windowing are left to the
//! caller.

pub mod color;
pub mod editor;
pub mod grid;
pub mod layout;
pub mod ui;
