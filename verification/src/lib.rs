//! An axis-aligned rectangle value type with verified geometric queries.
//!
//! The library models a rectangle as a pair of non-negative `u32` dimensions
//! and offers area computation, a strict containment predicate, and a square
//! factory. Area computation never wraps: when `width * height` exceeds
//! `u32::MAX` it reports [`AreaError::ArithmeticOverflow`] instead of a
//! truncated value.
//!
//! Beside the full-featured [`Rectangle`] type, the crate keeps the simpler
//! formulations of the same computation — on separate variables, on a tuple,
//! and on structs of increasing capability — each with the same exact
//! contract, so callers can pick the shape that fits their data.

use vstd::prelude::*;

verus! {

/// The one failure in the library: `width * height` does not fit in `u32`.
#[derive(Clone, Copy, Debug, PartialEq, Eq, Structural)]
pub enum AreaError {
    /// The exact area exceeds `u32::MAX`, so returning a `u32` would wrap.
    ArithmeticOverflow,
}

/// What every area computation returns: the exact product of the two
/// dimensions when it fits in `u32`, and the overflow error otherwise.
pub open spec fn area_of(width: u32, height: u32) -> Result<u32, AreaError> {
    if width * height <= u32::MAX {
        Ok((width * height) as u32)
    } else {
        Err(AreaError::ArithmeticOverflow)
    }
}

/// Area of a rectangle given as two separate dimension variables.
pub fn area_simple(width: u32, height: u32) -> (area: Result<u32, AreaError>)
    ensures
        area == area_of(width, height),
{
    match width.checked_mul(height) {
        Some(a) => Ok(a),
        None => Err(AreaError::ArithmeticOverflow),
    }
}

/// Area of a rectangle given as a `(width, height)` tuple.
pub fn area_tuples(dimensions: (u32, u32)) -> (area: Result<u32, AreaError>)
    ensures
        area == area_of(dimensions.0, dimensions.1),
{
    area_simple(dimensions.0, dimensions.1)
}

/// Area of a rectangle given as a [`Rectangle`] value.
pub fn area_structs(rectangle: &Rectangle) -> (area: Result<u32, AreaError>)
    ensures
        area == area_of(rectangle.width, rectangle.height),
{
    area_simple(rectangle.width, rectangle.height)
}

/// The full-featured rectangle: named dimensions, area, containment, and a
/// square factory.
#[derive(Clone, Copy, Debug, PartialEq, Eq, Structural)]
pub struct Rectangle {
    /// Horizontal extent, in the caller's unit (the demonstrations use pixels).
    pub width: u32,
    /// Vertical extent, in the same unit.
    pub height: u32,
}

impl Rectangle {
    /// Exact area of this rectangle, or the overflow error when the product
    /// of the dimensions does not fit in `u32`.
    pub fn area(&self) -> (area: Result<u32, AreaError>)
        ensures
            area == area_of(self.width, self.height),
    {
        area_simple(self.width, self.height)
    }

    /// Whether `other` fits completely inside `self`: true iff both of
    /// `self`'s dimensions strictly exceed `other`'s. A rectangle of equal
    /// size is never held.
    pub fn can_hold(&self, other: &Rectangle) -> (held: bool)
        ensures
            held == (self.width > other.width && self.height > other.height),
    {
        self.width > other.width && self.height > other.height
    }

    /// Named constructor for a square: both dimensions equal to `size`.
    pub fn square(size: u32) -> (square: Self)
        ensures
            square == (Rectangle { width: size, height: size }),
    {
        Rectangle { width: size, height: size }
    }
}

/// A rectangle with just the area method attached.
#[derive(Clone, Copy, Debug, PartialEq, Eq, Structural)]
pub struct RectangleMethod {
    /// Horizontal extent.
    pub width: u32,
    /// Vertical extent.
    pub height: u32,
}

impl RectangleMethod {
    /// Exact area, or the overflow error when the product does not fit.
    pub fn area(&self) -> (area: Result<u32, AreaError>)
        ensures
            area == area_of(self.width, self.height),
    {
        area_simple(self.width, self.height)
    }
}

/// A rectangle with a method named like its `width` field: the method asks
/// whether the width is set, the field holds its value.
#[derive(Clone, Copy, Debug, PartialEq, Eq, Structural)]
pub struct RectangleMethodWidth {
    /// Horizontal extent.
    pub width: u32,
    /// Vertical extent.
    pub height: u32,
}

impl RectangleMethodWidth {
    /// Whether the width is set to a nonzero value.
    pub fn width(&self) -> (set: bool)
        ensures
            set == (self.width > 0),
    {
        self.width > 0
    }
}

/// A rectangle with both the area method and the containment predicate, the
/// latter taking a [`Rectangle`] as the candidate contents.
#[derive(Clone, Copy, Debug, PartialEq, Eq, Structural)]
pub struct RectangleCanHold {
    /// Horizontal extent.
    pub width: u32,
    /// Vertical extent.
    pub height: u32,
}

impl RectangleCanHold {
    /// Exact area, or the overflow error when the product does not fit.
    pub fn area(&self) -> (area: Result<u32, AreaError>)
        ensures
            area == area_of(self.width, self.height),
    {
        area_simple(self.width, self.height)
    }

    /// Whether `other` fits completely inside `self`: true iff both of
    /// `self`'s dimensions strictly exceed `other`'s.
    pub fn can_hold(&self, other: &Rectangle) -> (held: bool)
        ensures
            held == (self.width > other.width && self.height > other.height),
    {
        self.width > other.width && self.height > other.height
    }
}

/// A rectangle whose only operation is the square-constructing associated
/// function.
#[derive(Clone, Copy, Debug, PartialEq, Eq, Structural)]
pub struct RectangleAssociatedFunction {
    /// Horizontal extent.
    pub width: u32,
    /// Vertical extent.
    pub height: u32,
}

impl RectangleAssociatedFunction {
    /// Named constructor for a square: both dimensions equal to `size`.
    pub fn square(size: u32) -> (square: Self)
        ensures
            square.width == size,
            square.height == size,
    {
        Self { width: size, height: size }
    }
}

/// Law: whenever `width * height` fits in `u32`, the area result is `Ok` and
/// holds exactly that product — never a truncated or approximate value.
pub proof fn lemma_area_exact(width: u32, height: u32)
    requires
        width * height <= u32::MAX,
    ensures
        area_of(width, height) == Ok::<u32, AreaError>((width * height) as u32),
{
}

/// Law: whenever `width * height` exceeds `u32::MAX`, the area result is the
/// overflow error rather than a wrapped value.
pub proof fn lemma_area_overflow(width: u32, height: u32)
    requires
        width * height > u32::MAX,
    ensures
        area_of(width, height) == Err::<u32, AreaError>(AreaError::ArithmeticOverflow),
{
}

/// Law: the area result is a function of the dimensions alone, so repeated
/// calls of `area` on the same immutable rectangle return identical results.
pub proof fn lemma_area_idempotent(
    rect: Rectangle,
    first: Result<u32, AreaError>,
    second: Result<u32, AreaError>,
)
    requires
        first == area_of(rect.width, rect.height),
        second == area_of(rect.width, rect.height),
    ensures
        first == second,
{
}

/// Law: containment is a function of the two rectangles' dimensions alone, so
/// repeated calls of `can_hold` on the same immutable values return identical
/// results.
pub proof fn lemma_can_hold_idempotent(
    outer: Rectangle,
    inner: Rectangle,
    first: bool,
    second: bool,
)
    requires
        first == (outer.width > inner.width && outer.height > inner.height),
        second == (outer.width > inner.width && outer.height > inner.height),
    ensures
        first == second,
{
}

} // verus!
