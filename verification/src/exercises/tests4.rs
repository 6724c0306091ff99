//! Rectangles.

use vstd::prelude::*;

verus! {

/// A rectangle with sides of positive length.
#[derive(Debug)]
pub struct Rectangle {
    pub width: i32,
    pub height: i32,
}

impl Rectangle {
    /// The rectangle of this width and height, both of which are positive.
    pub fn new(width: i32, height: i32) -> (rectangle: Rectangle)
        requires
            width > 0,
            height > 0,
        ensures
            rectangle.width == width,
            rectangle.height == height,
    {
        Rectangle { width, height }
    }
}

} // verus!
