use vstd::prelude::*;

verus! {

/// An axis-aligned rectangle with whole-number sides.
#[derive(Clone, Copy, Debug, PartialEq, Eq, Structural)]
pub struct Rectangle {
    pub width: u32,
    pub height: u32,
}

/// The area of a `width` by `height` rectangle.
pub open spec fn area_of(width: u32, height: u32) -> int {
    width * height
}

impl Rectangle {
    /// The area of this rectangle.
    pub fn area(&self) -> (r: u32)
        requires
            area_of(self.width, self.height) <= u32::MAX,
        ensures
            r == area_of(self.width, self.height),
    {
        self.width * self.height
    }

    /// Whether `other` fits strictly inside this rectangle, side by side.
    pub fn can_hold(&self, other: &Rectangle) -> (r: bool)
        ensures
            r == (self.width > other.width && self.height > other.height),
    {
        self.width > other.width && self.height > other.height
    }

    /// A square with sides of the given length.
    pub fn square(size: u32) -> (r: Rectangle)
        ensures
            r.width == size,
            r.height == size,
    {
        Rectangle { width: size, height: size }
    }
}

/// The area of a rectangle given as a struct.
pub fn area_struct(rect: &Rectangle) -> (r: u32)
    requires
        area_of(rect.width, rect.height) <= u32::MAX,
    ensures
        r == area_of(rect.width, rect.height),
{
    rect.width * rect.height
}

/// The area of a rectangle given as `(width, height)`.
pub fn area_tuple(dimensions: (u32, u32)) -> (r: u32)
    requires
        area_of(dimensions.0, dimensions.1) <= u32::MAX,
    ensures
        r == area_of(dimensions.0, dimensions.1),
{
    dimensions.0 * dimensions.1
}

/// The area of a rectangle given by its two sides.
pub fn area(width: u32, height: u32) -> (r: u32)
    requires
        area_of(width, height) <= u32::MAX,
    ensures
        r == area_of(width, height),
{
    width * height
}

} // verus!
