//! What a frame shows: filled rectangles in a fixed palette.

use vstd::prelude::*;
use crate::geometry::Rect;

verus! {

/// The colours that the game draws with.
#[derive(Clone, Copy, Debug, PartialEq, Eq, Structural)]
pub enum Color {
    White,
    DarkBlue,
    Red,
    Orange,
    Green,
}

/// One filled rectangle of a frame.
#[derive(Clone, Copy, Debug, PartialEq, Eq, Structural)]
pub struct Sprite {
    pub rect: Rect,
    pub color: Color,
}

/// What one frame shows: the colour that the screen is cleared to, and
/// the rectangles in the order in which they are drawn, so that a later
/// one covers an earlier one.
#[derive(Debug)]
pub struct Frame {
    pub background: Color,
    pub sprites: Vec<Sprite>,
}

} // verus!
