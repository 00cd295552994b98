//! A functional layer for 3D rendering: camera movement input and lazily
//! produced per-frame draw commands.

pub use element::Element;

pub mod cam;
pub mod command;
pub mod element;
