//! Style resolution and visual state for an on-screen keyboard board.

pub mod color;
pub mod config;
pub mod geometry;
pub mod press_state;
pub mod render;
pub mod resolver;
pub mod style;
