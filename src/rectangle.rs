//! An axis-aligned rectangle with unsigned dimensions.
use vstd::prelude::*;

verus! {

/// Area of a `width` by `height` rectangle, computed from two loose values.
///
/// The product is widened to `u64`, so it never overflows.
pub fn area_of(width: u32, height: u32) -> (r: u64)
    ensures
        r == width * height,
{
    proof {
        lemma_product_fits(width, height);
    }
    (width as u64) * (height as u64)
}

/// The product of two `u32` values fits in a `u64`.
proof fn lemma_product_fits(a: u32, b: u32)
    ensures
        0 <= a * b <= u64::MAX,
{
    assert(0 <= a * b <= (u32::MAX as int) * (u32::MAX as int)) by (nonlinear_arith);
}

#[derive(Debug, Clone, Copy, PartialEq, Eq, Structural)]
pub struct Rectangle {
    pub width: u32,
    pub height: u32,
}

impl Rectangle {
    /// The area as a mathematical integer.
    pub open spec fn spec_area(&self) -> int {
        self.width * self.height
    }

    /// Strict containment on both axes.
    pub open spec fn spec_can_hold(&self, other: &Rectangle) -> bool {
        self.width > other.width && self.height > other.height
    }

    /// The square whose sides both measure `size`.
    pub open spec fn spec_square(size: u32) -> Rectangle {
        Rectangle { width: size, height: size }
    }

    /// `width * height`, widened to `u64` so that every pair of dimensions
    /// has its exact area.
    pub fn area(&self) -> (r: u64)
        ensures
            r == self.spec_area(),
    {
        area_of(self.width, self.height)
    }

    /// Whether the width is non-zero.
    pub fn has_width(&self) -> (r: bool)
        ensures
            r == (self.width > 0),
    {
        self.width > 0
    }

    /// Whether `other` fits strictly inside `self`: both of its dimensions are
    /// strictly smaller. Equal dimensions do not fit.
    pub fn can_hold(&self, other: &Rectangle) -> (r: bool)
        ensures
            r == self.spec_can_hold(other),
    {
        self.width > other.width && self.height > other.height
    }

    /// A rectangle with `width == height == size`. Any size, zero included,
    /// is accepted.
    pub fn square(size: u32) -> (r: Rectangle)
        ensures
            r == Rectangle::spec_square(size),
    {
        Rectangle { width: size, height: size }
    }
}

/// A rectangle built from any two dimensions has their product as its area.
pub proof fn law_area_is_product(w: u32, h: u32)
    ensures
        (Rectangle { width: w, height: h }).spec_area() == w * h,
{
}

/// The square of side `n` has area `n * n`.
pub proof fn law_square_area(n: u32)
    ensures
        Rectangle::spec_square(n).spec_area() == n * n,
{
}

/// No rectangle holds an identical copy of itself.
pub proof fn law_can_hold_irreflexive(a: Rectangle)
    ensures
        !a.spec_can_hold(&a),
{
}

/// If `a` holds `b` and `b` holds `c`, then `a` holds `c`.
pub proof fn law_can_hold_transitive(a: Rectangle, b: Rectangle, c: Rectangle)
    requires
        a.spec_can_hold(&b),
        b.spec_can_hold(&c),
    ensures
        a.spec_can_hold(&c),
{
}

} // verus!
