//! What is drawn: five rectangles.

use vstd::prelude::*;

verus! {

/// An axis-aligned rectangle: its top-left corner and its size.
#[derive(Clone, Copy, Debug, PartialEq, Eq, Structural)]
pub struct Rectangle {
    pub x: i32,
    pub y: i32,
    pub width: u32,
    pub height: u32,
}

/// One picture of the game: the three walls, which never move, and the two bodies.
#[derive(Clone, Copy, Debug, PartialEq, Eq, Structural)]
pub struct Frame {
    pub top_wall: Rectangle,
    pub bottom_wall: Rectangle,
    pub right_wall: Rectangle,
    pub ball: Rectangle,
    pub paddle: Rectangle,
}

} // verus!
