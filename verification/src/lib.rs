//! A star field for a night-sky display.
//!
//! The crate holds the simulation and every decision of the two renderers,
//! the instanced one (`nightsky`) and the canvas one (`basic`), in integer
//! arithmetic. Scalars are fixed-point numbers (see `fixed`), randomness is
//! handed in through `utils::RandomSource`, and whatever has to be painted
//! or uploaded is returned to the caller as plain data.

pub mod basic;
pub mod basic_stars;
pub mod fixed;
pub mod layout;
pub mod nightsky;
pub mod run;
pub mod star;
pub mod star_render;
pub mod star_system;
pub mod system_options;
pub mod utils;
