//! The size of the display as the vertex shader sees it.

use vstd::prelude::*;

verus! {

/// The number of bytes of the uniform that holds a screen size: width and
/// height as 32-bit numbers, and as many bytes again to fill it up to 16.
pub const SCREEN_SIZE_BYTES: u64 = 16;

/// The logical size of the display, in pixels.
#[derive(Clone, Copy, Debug, PartialEq, Eq, Structural)]
pub struct ScreenSize {
    pub width: u32,
    pub height: u32,
}

/// The screen size that a uniform buffer is made to hold.
pub fn create_screen_size_buffer(width: u32, height: u32) -> (screen_size: ScreenSize)
    ensures
        screen_size == (ScreenSize { width, height }),
{
    ScreenSize { width, height }
}

} // verus!
