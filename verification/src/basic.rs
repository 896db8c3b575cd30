//! The canvas renderer: stars in pixel space that fade out and are replaced.

pub mod sky;
pub mod star;
