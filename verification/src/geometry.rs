//! Points, sizes and rectangles of the window.
//!
//! Pixel positions of the mouse are whole numbers. Positions that come out of
//! layout arithmetic are fractional; here only their order matters, so each is
//! held as a [`Coord`]: a number that is less than another exactly when the
//! position is less than the other.

use vstd::prelude::*;

verus! {

/// A point in the window, in pixels.
#[derive(Clone, Copy, Debug, PartialEq, Eq, Structural)]
pub struct Point {
    pub x: isize,
    pub y: isize,
}

/// A point on the screen, in pixels.
#[derive(Clone, Copy, Debug, PartialEq, Eq, Structural)]
pub struct ScreenPoint {
    pub x: isize,
    pub y: isize,
}

/// A size, in pixels.
#[derive(Clone, Copy, Debug, PartialEq, Eq, Structural)]
pub struct Size {
    pub width: isize,
    pub height: isize,
}

/// A rectangle on the screen, in pixels.
#[derive(Clone, Copy, Debug, PartialEq, Eq, Structural)]
pub struct ScreenRect {
    pub x: isize,
    pub y: isize,
    pub width: isize,
    pub height: isize,
}

/// The rank of a fractional pixel position among all of them. A position of
/// zero or more has the rank that its single precision bit pattern spells, a
/// negative one the negative of the rank of its magnitude.
#[derive(Clone, Copy, Debug, PartialEq, Eq, Structural)]
pub struct Coord {
    pub rank: i32,
}

/// A rectangle with fractional sides: its top left corner and its size.
#[derive(Clone, Copy, Debug, PartialEq, Eq, Structural)]
pub struct RectF {
    pub x: Coord,
    pub y: Coord,
    pub width: Coord,
    pub height: Coord,
}

/// A rectangle and its bottom right corner.
#[derive(Clone, Copy, Debug, PartialEq, Eq, Structural)]
pub struct Bounds {
    pub rect: RectF,
    pub max_x: Coord,
    pub max_y: Coord,
}

/// A point in the window together with the ranks of its coordinates.
#[derive(Clone, Copy, Debug, PartialEq, Eq, Structural)]
pub struct Spot {
    pub point: Point,
    pub x: Coord,
    pub y: Coord,
}

impl Coord {
    /// The position zero.
    pub open spec fn origin() -> Coord {
        Coord { rank: 0 }
    }

    /// Whether this position is not beyond the other.
    pub open spec fn at_most(self, other: Coord) -> bool {
        self.rank <= other.rank
    }

    /// The greater of two positions.
    pub open spec fn larger(self, other: Coord) -> Coord {
        if self.rank < other.rank {
            other
        } else {
            self
        }
    }

    /// The position in the range that is nearest to this one.
    pub open spec fn clamped(self, low: Coord, high: Coord) -> Coord {
        if self.rank < low.rank {
            low
        } else if self.rank > high.rank {
            high
        } else {
            self
        }
    }

    /// The greater of two positions.
    pub fn max(self, other: Coord) -> (r: Coord)
        ensures
            r == self.larger(other),
    {
        if self.rank < other.rank {
            other
        } else {
            self
        }
    }

    /// The position in the range that is nearest to this one.
    pub fn clamp(self, low: Coord, high: Coord) -> (r: Coord)
        requires
            low.at_most(high),
        ensures
            r == self.clamped(low, high),
            low.at_most(r) && r.at_most(high),
    {
        if self.rank < low.rank {
            low
        } else if self.rank > high.rank {
            high
        } else {
            self
        }
    }
}

impl Bounds {
    /// Whether the spot lies in the rectangle or on its border.
    pub open spec fn holds(self, spot: Spot) -> bool {
        &&& self.rect.x.at_most(spot.x)
        &&& spot.x.at_most(self.max_x)
        &&& self.rect.y.at_most(spot.y)
        &&& spot.y.at_most(self.max_y)
    }

    /// Whether the rectangle has an area.
    pub open spec fn has_area(self) -> bool {
        self.rect.width.rank > 0 && self.rect.height.rank > 0
    }
}

/// Whether the spot lies in the rectangle or on its border.
pub fn point_in_rect(spot: Spot, bounds: Bounds) -> (r: bool)
    ensures
        r == bounds.holds(spot),
{
    spot.x.rank >= bounds.rect.x.rank && spot.x.rank <= bounds.max_x.rank && spot.y.rank
        >= bounds.rect.y.rank && spot.y.rank <= bounds.max_y.rank
}

/// The nearest pixel position to a number.
pub open spec fn clip(n: int) -> isize {
    if n > isize::MAX {
        isize::MAX
    } else if n < isize::MIN {
        isize::MIN
    } else {
        n as isize
    }
}

/// The difference of two pixel positions; one too large for a pixel position
/// saturates.
pub fn difference(a: isize, b: isize) -> (r: isize)
    ensures
        r == clip(a - b),
{
    let d: i128 = a as i128 - b as i128;
    if d > isize::MAX as i128 {
        isize::MAX
    } else if d < isize::MIN as i128 {
        isize::MIN
    } else {
        d as isize
    }
}

/// The sum of two pixel positions; one too large for a pixel position saturates.
pub fn sum(a: isize, b: isize) -> (r: isize)
    ensures
        r == clip(a + b),
{
    let d: i128 = a as i128 + b as i128;
    if d > isize::MAX as i128 {
        isize::MAX
    } else if d < isize::MIN as i128 {
        isize::MIN
    } else {
        d as isize
    }
}

/// The nearest pixel position to a number is the number itself where it is one, and no
/// pixel position is nearer.
pub proof fn clipping_goes_to_the_nearest(n: int, other: isize)
    ensures
        isize::MIN <= n <= isize::MAX ==> clip(n) == n,
        n > isize::MAX ==> clip(n) - n >= other - n,
        n < isize::MIN ==> n - clip(n) >= n - other,
{
}

/// The greater of two positions is one of them and not before either; it does not
/// matter which comes first.
pub proof fn the_larger_is_not_before_either(a: Coord, b: Coord)
    ensures
        a.larger(b) == a || a.larger(b) == b,
        a.rank <= a.larger(b).rank && b.rank <= a.larger(b).rank,
        a.larger(b) == b.larger(a),
        a.at_most(b) <==> !(b.rank < a.rank),
        Coord::origin().rank == 0,
{
}

/// A position that is kept in a range is in it, is unchanged if it was, and no position
/// in the range is nearer.
pub proof fn clamping_goes_to_the_nearest(a: Coord, low: Coord, high: Coord, other: Coord)
    requires
        low.rank <= other.rank <= high.rank,
    ensures
        ({
            let kept = a.clamped(low, high);
            &&& low.rank <= kept.rank <= high.rank
            &&& low.rank <= a.rank <= high.rank ==> kept == a
            &&& a.rank < low.rank ==> kept.rank - a.rank <= other.rank - a.rank
            &&& a.rank > high.rank ==> a.rank - kept.rank <= a.rank - other.rank
        }),
{
}

/// A rectangle holds what is not beyond any of its four sides; its corners, too.
pub proof fn a_rectangle_holds_up_to_its_sides(bounds: Bounds, spot: Spot)
    ensures
        bounds.holds(spot) <==> !(spot.x.rank < bounds.rect.x.rank || spot.x.rank
            > bounds.max_x.rank || spot.y.rank < bounds.rect.y.rank || spot.y.rank
            > bounds.max_y.rank),
        bounds.has_area() <==> !(bounds.rect.width.rank <= 0 || bounds.rect.height.rank <= 0),
{
}

} // verus!
