//! Units for window geometry.

use vstd::prelude::*;

verus! {

/// An abstract unit used for dialog dimensions, independent of the
/// screen's pixel density.
#[derive(Copy, Clone, PartialEq, Eq, Hash, Debug, Structural)]
pub struct DialogUnits(pub u32);

impl DialogUnits {
    /// The plain value.
    pub fn get(self) -> (r: u32)
        ensures
            r == self.0,
    {
        self.0
    }

    /// The value in the signed form that window APIs take; values beyond
    /// the signed range wrap.
    pub fn as_raw(self) -> (r: i32)
        ensures
            r == self.0 as i32,
    {
        #[verifier::truncate]
        (self.0 as i32)
    }
}

/// Pixels on a screen.
#[derive(Copy, Clone, PartialEq, Eq, Hash, Debug, Structural)]
pub struct Pixels(pub u32);

impl Pixels {
    /// The plain value.
    pub fn get(self) -> (r: u32)
        ensures
            r == self.0,
    {
        self.0
    }

    /// The value in the signed form that window APIs take; values beyond
    /// the signed range wrap.
    pub fn as_raw(self) -> (r: i32)
        ensures
            r == self.0 as i32,
    {
        #[verifier::truncate]
        (self.0 as i32)
    }
}

/// Point in a coordinate system.
#[derive(Copy, Clone, PartialEq, Eq, Hash, Debug, Structural)]
pub struct Point<T> {
    pub x: T,
    pub y: T,
}

impl<T> Point<T> {
    /// Builds a point from its coordinates.
    pub fn new(x: T, y: T) -> (r: Point<T>)
        ensures
            r.x == x,
            r.y == y,
    {
        Point { x, y }
    }
}

impl<T: Copy> Point<T> {
    /// Reads the coordinates as width and height.
    pub fn to_dimensions(self) -> (r: Dimensions<T>)
        ensures
            r.width == self.x,
            r.height == self.y,
    {
        Dimensions::new(self.x, self.y)
    }
}

/// Dimensions of a rectangle.
#[derive(Copy, Clone, PartialEq, Eq, Hash, Debug, Structural)]
pub struct Dimensions<T> {
    pub width: T,
    pub height: T,
}

impl<T> Dimensions<T> {
    /// Builds dimensions from width and height.
    pub fn new(width: T, height: T) -> (r: Dimensions<T>)
        ensures
            r.width == width,
            r.height == height,
    {
        Dimensions { width, height }
    }
}

impl<T: Copy> Dimensions<T> {
    /// Reads width and height as point coordinates.
    pub fn to_point(self) -> (r: Point<T>)
        ensures
            r.x == self.width,
            r.y == self.height,
    {
        Point::new(self.width, self.height)
    }
}

impl Dimensions<Pixels> {
    /// The pair form that the plug-in editor interface takes; values
    /// beyond the signed range wrap.
    pub fn to_vst(self) -> (r: (i32, i32))
        ensures
            r.0 == self.width.0 as i32,
            r.1 == self.height.0 as i32,
    {
        (self.width.as_raw(), self.height.as_raw())
    }
}

} // verus!
