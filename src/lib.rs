//! A terminal drawing surface: mouse drags become rectangles that are painted
//! with box-drawing glyphs onto a terminal cell buffer.
pub mod event;
pub mod laws;
pub mod paint;
pub mod rectangle;
pub mod shape;
pub mod state;
pub mod traw;
pub mod ui;
