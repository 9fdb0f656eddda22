use vstd::prelude::*;

verus! {

/// Milliseconds, the game's time unit.
pub type MS = i32;

/// A 2D point or displacement in world units.
#[derive(Clone, Copy, PartialEq, Eq, Structural, Debug)]
pub struct Vector2i {
    pub x: i32,
    pub y: i32,
}

impl Vector2i {
    pub fn new(x: i32, y: i32) -> (r: Vector2i)
        ensures
            r == (Vector2i { x, y }),
    {
        Vector2i { x, y }
    }
}

/// Grid dimensions in tiles.
#[derive(Clone, Copy, PartialEq, Eq, Structural, Debug)]
pub struct Vector2u {
    pub x: u32,
    pub y: u32,
}

impl Vector2u {
    pub fn new(x: u32, y: u32) -> (r: Vector2u)
        ensures
            r == (Vector2u { x, y }),
    {
        Vector2u { x, y }
    }
}

/// An axis-aligned rectangle in world units, given by its top-left corner
/// and its extent.
#[derive(Clone, Copy, PartialEq, Eq, Structural, Debug)]
pub struct Rect {
    pub left: i32,
    pub top: i32,
    pub width: i32,
    pub height: i32,
}

impl Rect {
    pub fn new(left: i32, top: i32, width: i32, height: i32) -> (r: Rect)
        ensures
            r == (Rect { left, top, width, height }),
    {
        Rect { left, top, width, height }
    }

    /// The extents are non-negative and the coordinate sums of the rectangle
    /// stay inside `i32`, so its right and bottom edges can be computed in
    /// executable code.
    pub open spec fn in_bounds(self) -> bool {
        &&& 0 <= self.width
        &&& 0 <= self.height
        &&& self.left + self.width <= i32::MAX
        &&& self.top + self.height <= i32::MAX
    }

    /// Strict axis-aligned overlap; rectangles that merely touch along an
    /// edge do not overlap.
    pub open spec fn overlaps(self, other: Rect) -> bool {
        &&& self.left < other.left + other.width
        &&& other.left < self.left + self.width
        &&& self.top < other.top + other.height
        &&& other.top < self.top + self.height
    }

    /// Axis-aligned intersection test between two rectangles.
    pub fn intersects(&self, other: &Rect) -> (r: bool)
        requires
            self.in_bounds(),
            other.in_bounds(),
        ensures
            r == self.overlaps(*other),
    {
        self.left < other.left + other.width && other.left < self.left + self.width
            && self.top < other.top + other.height && other.top < self.top + self.height
    }
}

/// An RGBA pixel of a level image.
#[derive(Clone, Copy, PartialEq, Eq, Structural, Debug)]
pub struct Color {
    pub red: u8,
    pub green: u8,
    pub blue: u8,
    pub alpha: u8,
}

impl Color {
    pub fn new(red: u8, green: u8, blue: u8, alpha: u8) -> (r: Color)
        ensures
            r == (Color { red, green, blue, alpha }),
    {
        Color { red, green, blue, alpha }
    }
}

} // verus!
