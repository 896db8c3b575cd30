//! The instanced renderer: its stars, its mesh, and the state it keeps in
//! step with the display surface.

pub mod circle;
pub mod pipeline;
pub mod screen;
pub mod sky;
pub mod star;
pub mod utils;
