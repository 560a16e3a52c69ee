//! Input handling, undo history and frame planning for a vector-stroke
//! drawing canvas. The floating-point geometry and the GPU plumbing live in
//! the application crate; this library holds the decisions it makes.

pub mod camera;
pub mod editor;
pub mod frame;
pub mod history;
pub mod icon;
pub mod input;
pub mod layout;
pub mod segments;
