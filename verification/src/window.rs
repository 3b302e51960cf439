//! The size of the main window on a small monitor.

use vstd::prelude::*;

verus! {

/// A monitor narrower than this is small.
pub const MIN_WIDTH: u32 = 1200;

/// A monitor lower than this is small.
pub const MIN_HEIGHT: u32 = 800;

/// What is kept free on each axis of a small monitor.
pub const MARGIN: u32 = 50;

/// `length` less the margin, and zero where the margin is not there to take.
pub open spec fn shrunk(length: u32) -> u32 {
    if length >= MARGIN {
        (length - MARGIN) as u32
    } else {
        0
    }
}

/// The size to give the main window on a monitor of the given size: on a
/// small monitor the monitor's size less the margin, and no change
/// otherwise.
pub open spec fn fitted(width: u32, height: u32) -> Option<(u32, u32)> {
    if width < MIN_WIDTH || height < MIN_HEIGHT {
        Some((shrunk(width), shrunk(height)))
    } else {
        None
    }
}

/// The size to give the main window, if it is to be resized at all.
pub fn fitted_window_size(width: u32, height: u32) -> (size: Option<(u32, u32)>)
    ensures
        size == fitted(width, height),
{
    if width < MIN_WIDTH || height < MIN_HEIGHT {
        Some((width.saturating_sub(MARGIN), height.saturating_sub(MARGIN)))
    } else {
        None
    }
}

} // verus!
