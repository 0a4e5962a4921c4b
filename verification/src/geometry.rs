//! Axis-aligned geometry in integer pixel units.
//!
//! Atlas coordinates are device pixels; scene coordinates are scaled pixels
//! quantized to whole units. Both are carried as `i32`, matching the range
//! the GPU-side structures use for atlas tiles.

use vstd::prelude::*;

verus! {

/// A point in pixel units.
#[derive(Clone, Copy, Debug, PartialEq, Eq, Structural)]
pub struct Point {
    pub x: i32,
    pub y: i32,
}

/// A size in pixel units.
#[derive(Clone, Copy, Debug, PartialEq, Eq, Structural)]
pub struct Size {
    pub width: i32,
    pub height: i32,
}

/// An axis-aligned rectangle: an origin (top-left corner) and a size.
#[derive(Clone, Copy, Debug, PartialEq, Eq, Structural)]
pub struct Bounds {
    pub origin: Point,
    pub size: Size,
}

/// Coordinates (and coordinate sums) stay well inside `i32`, so that
/// edge arithmetic cannot overflow.
pub open spec fn coord_in_range(v: int) -> bool {
    -0x2000_0000 <= v <= 0x2000_0000
}

impl Size {
    pub open spec fn wf(self) -> bool {
        &&& 0 <= self.width <= 0x4000_0000
        &&& 0 <= self.height <= 0x4000_0000
    }

    pub fn new(width: i32, height: i32) -> (r: Size)
        ensures
            r.width == width,
            r.height == height,
    {
        Size { width, height }
    }

    /// Area in pixels, as a widened product.
    pub open spec fn spec_area(self) -> int {
        self.width * self.height
    }
}

impl Point {
    pub open spec fn wf(self) -> bool {
        &&& coord_in_range(self.x as int)
        &&& coord_in_range(self.y as int)
    }

    pub fn new(x: i32, y: i32) -> (r: Point)
        ensures
            r.x == x,
            r.y == y,
    {
        Point { x, y }
    }
}

impl Bounds {
    /// Well-formed: non-negative size, and all four edges within range.
    pub open spec fn wf(self) -> bool {
        &&& self.origin.wf()
        &&& self.size.wf()
        &&& coord_in_range(self.origin.x + self.size.width)
        &&& coord_in_range(self.origin.y + self.size.height)
    }

    pub open spec fn left(self) -> int {
        self.origin.x as int
    }

    pub open spec fn top(self) -> int {
        self.origin.y as int
    }

    pub open spec fn right(self) -> int {
        self.origin.x + self.size.width
    }

    pub open spec fn bottom(self) -> int {
        self.origin.y + self.size.height
    }

    /// True when the two rectangles share no pixel.
    pub open spec fn spec_disjoint(a: Bounds, b: Bounds) -> bool {
        ||| a.right() <= b.left()
        ||| b.right() <= a.left()
        ||| a.bottom() <= b.top()
        ||| b.bottom() <= a.top()
    }

    /// True when `inner` lies entirely within `outer`.
    pub open spec fn spec_contained_in(inner: Bounds, outer: Bounds) -> bool {
        &&& outer.left() <= inner.left()
        &&& outer.top() <= inner.top()
        &&& inner.right() <= outer.right()
        &&& inner.bottom() <= outer.bottom()
    }

    pub fn new(origin: Point, size: Size) -> (r: Bounds)
        ensures
            r.origin == origin,
            r.size == size,
    {
        Bounds { origin, size }
    }

    /// The intersection of two rectangles, clamped to an empty rectangle
    /// (zero width or height at the upper-left meeting point) when they do
    /// not overlap.
    pub fn intersect(&self, other: &Bounds) -> (r: Bounds)
        requires
            self.wf(),
            other.wf(),
        ensures
            r.wf(),
            r == spec_intersect(*self, *other),
    {
        let left = if self.origin.x >= other.origin.x {
            self.origin.x
        } else {
            other.origin.x
        };
        let top = if self.origin.y >= other.origin.y {
            self.origin.y
        } else {
            other.origin.y
        };
        let self_right = self.origin.x + self.size.width;
        let other_right = other.origin.x + other.size.width;
        let right = if self_right <= other_right {
            self_right
        } else {
            other_right
        };
        let self_bottom = self.origin.y + self.size.height;
        let other_bottom = other.origin.y + other.size.height;
        let bottom = if self_bottom <= other_bottom {
            self_bottom
        } else {
            other_bottom
        };
        let width = if right >= left {
            right - left
        } else {
            0
        };
        let height = if bottom >= top {
            bottom - top
        } else {
            0
        };
        Bounds { origin: Point { x: left, y: top }, size: Size { width, height } }
    }

    /// The smallest rectangle containing both rectangles.
    pub fn union(&self, other: &Bounds) -> (r: Bounds)
        requires
            self.wf(),
            other.wf(),
        ensures
            r.wf(),
            r == spec_union(*self, *other),
    {
        let left = if self.origin.x <= other.origin.x {
            self.origin.x
        } else {
            other.origin.x
        };
        let top = if self.origin.y <= other.origin.y {
            self.origin.y
        } else {
            other.origin.y
        };
        let self_right = self.origin.x + self.size.width;
        let other_right = other.origin.x + other.size.width;
        let right = if self_right >= other_right {
            self_right
        } else {
            other_right
        };
        let self_bottom = self.origin.y + self.size.height;
        let other_bottom = other.origin.y + other.size.height;
        let bottom = if self_bottom >= other_bottom {
            self_bottom
        } else {
            other_bottom
        };
        Bounds { origin: Point { x: left, y: top }, size: Size { width: right - left, height: bottom - top } }
    }
}

/// The value `intersect` returns: the overlapping rectangle, or an empty
/// one at the would-be upper-left corner.
pub open spec fn spec_intersect(a: Bounds, b: Bounds) -> Bounds {
    let left = max_int(a.left(), b.left());
    let top = max_int(a.top(), b.top());
    let right = min_int(a.right(), b.right());
    let bottom = min_int(a.bottom(), b.bottom());
    Bounds {
        origin: Point { x: left as i32, y: top as i32 },
        size: Size {
            width: (if right >= left {
                right - left
            } else {
                0
            }) as i32,
            height: (if bottom >= top {
                bottom - top
            } else {
                0
            }) as i32,
        },
    }
}

/// The value `union` returns: the smallest rectangle containing both.
pub open spec fn spec_union(a: Bounds, b: Bounds) -> Bounds {
    let left = min_int(a.left(), b.left());
    let top = min_int(a.top(), b.top());
    let right = max_int(a.right(), b.right());
    let bottom = max_int(a.bottom(), b.bottom());
    Bounds {
        origin: Point { x: left as i32, y: top as i32 },
        size: Size { width: (right - left) as i32, height: (bottom - top) as i32 },
    }
}

pub open spec fn min_int(a: int, b: int) -> int {
    if a <= b {
        a
    } else {
        b
    }
}

pub open spec fn max_int(a: int, b: int) -> int {
    if a >= b {
        a
    } else {
        b
    }
}

} // verus!
