//! A rectangular interface element in device-pixel coordinates.

use vstd::prelude::*;

verus! {

/// A rectangle on the screen with a background color. Screen coordinates
/// fit comfortably in `i16`.
#[derive(Clone, Copy, Debug)]
pub struct Element {
    pub x: i16,
    pub y: i16,
    pub width: u16,
    pub height: u16,
    pub bg_color: [u8; 4],
}

impl Element {
    /// An element at a position with a size and a background color.
    pub fn new(x: i16, y: i16, width: u16, height: u16, bg_color: [u8; 4]) -> (e: Element)
        ensures
            e.x == x,
            e.y == y,
            e.width == width,
            e.height == height,
            e.bg_color == bg_color,
    {
        Element { x, y, width, height, bg_color }
    }
}

} // verus!
