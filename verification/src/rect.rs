use vstd::prelude::*;
use crate::fraction::Fraction;

verus! {

/// A position in pixels. It may lie outside the image.
#[derive(Debug, Clone, Copy, PartialEq, Eq, Structural)]
pub struct Point {
    pub x: i32,
    pub y: i32,
}

impl Point {
    /// Builds the point `(x, y)`.
    pub fn new(x: i32, y: i32) -> (point: Point)
        ensures
            point == (Point { x, y }),
    {
        Point { x, y }
    }
}

/// An axis-aligned rectangle in pixels: top-left corner, width and height.
///
/// No sign is imposed on the width and the height: a detector is known to
/// report a negative one now and then, and it is kept as reported.
#[derive(Debug, Clone, Copy, PartialEq, Eq, Structural)]
pub struct Rect {
    pub x: i32,
    pub y: i32,
    pub w: i32,
    pub h: i32,
}

impl Rect {
    /// Builds the rectangle whose top-left corner is `pos`.
    pub fn new(pos: Point, w: i32, h: i32) -> (rect: Rect)
        ensures
            rect == (Rect { x: pos.x, y: pos.y, w, h }),
    {
        let Point { x, y } = pos;
        Rect { x, y, w, h }
    }

    /// Builds the rectangle with corner `(x, y)`, width `w` and height `h`.
    pub fn with_size(x: i32, y: i32, w: i32, h: i32) -> (rect: Rect)
        ensures
            rect == (Rect { x, y, w, h }),
    {
        Rect { x, y, w, h }
    }

    /// This rectangle as fractions of an image `width` pixels wide and
    /// `height` pixels high: `x` and `w` over the width, `y` and `h` over the
    /// height.
    pub open spec fn spec_normalized(self, width: usize, height: usize) -> NormalizedRect {
        NormalizedRect {
            x: Fraction { numerator: self.x, denominator: width },
            y: Fraction { numerator: self.y, denominator: height },
            w: Fraction { numerator: self.w, denominator: width },
            h: Fraction { numerator: self.h, denominator: height },
        }
    }
}

/// A rectangle in fractions of the image that it was found in, so that
/// rectangles found at different resolutions compare.
#[derive(Debug, Clone, Copy, PartialEq, Eq, Structural)]
pub struct NormalizedRect {
    pub x: Fraction,
    pub y: Fraction,
    pub w: Fraction,
    pub h: Fraction,
}

impl NormalizedRect {
    /// Builds the rectangle with corner `(x, y)`, width `w` and height `h`.
    pub fn with_size(x: Fraction, y: Fraction, w: Fraction, h: Fraction) -> (rect: NormalizedRect)
        ensures
            rect == (NormalizedRect { x, y, w, h }),
    {
        NormalizedRect { x, y, w, h }
    }
}

} // verus!
