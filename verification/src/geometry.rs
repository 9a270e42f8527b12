//! Pixel-space geometry on a fixed-point grid.
//!
//! Every coordinate and length is a whole number of thousandths of a logical
//! pixel, the same scale that CSS lengths are stored in.

use vstd::prelude::*;

verus! {

/// Number of fixed-point units in one logical pixel.
pub const UNITS_PER_PIXEL: i64 = 1000;

/// Largest magnitude of a coordinate or length that geometry functions accept.
pub const MAX_COORDINATE: i64 = 0x1000_0000_0000_0000;

/// Size of a window or texture, in fixed-point logical pixels.
#[derive(Debug, Clone, Copy, PartialEq, Eq, Structural, Hash)]
pub struct LogicalSize {
    pub width: i64,
    pub height: i64,
}

impl LogicalSize {
    pub fn new(width: i64, height: i64) -> (size: LogicalSize)
        ensures
            size.width == width,
            size.height == height,
    {
        LogicalSize { width, height }
    }
}

/// A point, in fixed-point logical pixels.
#[derive(Debug, Clone, Copy, PartialEq, Eq, Structural, Hash)]
pub struct LayoutPoint {
    pub x: i64,
    pub y: i64,
}

/// A width and a height, in fixed-point logical pixels.
#[derive(Debug, Clone, Copy, PartialEq, Eq, Structural, Hash)]
pub struct LayoutSize {
    pub width: i64,
    pub height: i64,
}

/// An axis-parallel rectangle: its upper left corner and its size.
#[derive(Debug, Clone, Copy, PartialEq, Eq, Structural, Hash)]
pub struct LayoutRect {
    pub origin: LayoutPoint,
    pub size: LayoutSize,
}

/// Distances from the four sides of a box, such as its padding.
#[derive(Debug, Clone, Copy, PartialEq, Eq, Structural, Hash)]
pub struct ResolvedOffsets {
    pub top: i64,
    pub left: i64,
    pub right: i64,
    pub bottom: i64,
}

/// Whether `v` is a coordinate that geometry functions accept.
pub open spec fn coordinate_in_range(v: int) -> bool {
    -MAX_COORDINATE <= v <= MAX_COORDINATE
}

/// Whether `v` is a coordinate that geometry functions accept.
pub fn is_coordinate(v: i64) -> (ok: bool)
    ensures
        ok == coordinate_in_range(v as int),
{
    -MAX_COORDINATE <= v && v <= MAX_COORDINATE
}

impl LayoutPoint {
    pub fn new(x: i64, y: i64) -> (point: LayoutPoint)
        ensures
            point == (LayoutPoint { x, y }),
    {
        LayoutPoint { x, y }
    }
}

impl LayoutSize {
    pub fn new(width: i64, height: i64) -> (size: LayoutSize)
        ensures
            size == (LayoutSize { width, height }),
    {
        LayoutSize { width, height }
    }
}

impl ResolvedOffsets {
    /// All four distances are coordinates that geometry functions accept.
    pub open spec fn in_range(self) -> bool {
        &&& coordinate_in_range(self.top as int)
        &&& coordinate_in_range(self.left as int)
        &&& coordinate_in_range(self.right as int)
        &&& coordinate_in_range(self.bottom as int)
    }

    /// Whether all four distances are coordinates that geometry functions
    /// accept.
    pub fn is_in_range(&self) -> (ok: bool)
        ensures
            ok == self.in_range(),
    {
        is_coordinate(self.top) && is_coordinate(self.left) && is_coordinate(self.right)
            && is_coordinate(self.bottom)
    }

    /// No distance on any side.
    pub fn zero() -> (offsets: ResolvedOffsets)
        ensures
            offsets == (ResolvedOffsets { top: 0, left: 0, right: 0, bottom: 0 }),
    {
        ResolvedOffsets { top: 0, left: 0, right: 0, bottom: 0 }
    }
}

/// The whole pixel nearest to the fixed-point value `v`; a value halfway
/// between two pixels goes to the one farther from zero.
pub open spec fn rounded_to_pixel(v: int) -> int {
    if v >= 0 {
        (v + 500) / 1000
    } else {
        -((-v + 500) / 1000)
    }
}

/// The whole pixel nearest to the fixed-point value `v`; a value halfway
/// between two pixels goes to the one farther from zero.
pub fn round_to_pixel(v: i64) -> (pixel: i64)
    ensures
        pixel == rounded_to_pixel(v as int),
{
    let wide: i128 = v as i128;
    if wide >= 0 {
        ((wide + 500) / 1000) as i64
    } else {
        (-((-wide + 500) / 1000)) as i64
    }
}

/// Whether `inner` lies within `outer` once every coordinate and length of
/// both is rounded to the nearest pixel. The horizontal and the vertical
/// axis are compared independently of each other.
pub open spec fn contains_rounded(outer: LayoutRect, inner: LayoutRect) -> bool {
    let a_x = rounded_to_pixel(outer.origin.x as int);
    let a_y = rounded_to_pixel(outer.origin.y as int);
    let a_width = rounded_to_pixel(outer.size.width as int);
    let a_height = rounded_to_pixel(outer.size.height as int);
    let b_x = rounded_to_pixel(inner.origin.x as int);
    let b_y = rounded_to_pixel(inner.origin.y as int);
    let b_width = rounded_to_pixel(inner.size.width as int);
    let b_height = rounded_to_pixel(inner.size.height as int);
    &&& b_x >= a_x
    &&& b_y >= a_y
    &&& b_x + b_width <= a_x + a_width
    &&& b_y + b_height <= a_y + a_height
}

/// Whether `b` lies within `a`, compared on whole pixels so that a small
/// error in the layout's arithmetic does not count as an overflow.
pub fn contains_rect_rounded(a: &LayoutRect, b: LayoutRect) -> (contained: bool)
    ensures
        contained == contains_rounded(*a, b),
{
    let a_x: i128 = round_to_pixel(a.origin.x) as i128;
    let a_y: i128 = round_to_pixel(a.origin.y) as i128;
    let a_width: i128 = round_to_pixel(a.size.width) as i128;
    let a_height: i128 = round_to_pixel(a.size.height) as i128;

    let b_x: i128 = round_to_pixel(b.origin.x) as i128;
    let b_y: i128 = round_to_pixel(b.origin.y) as i128;
    let b_width: i128 = round_to_pixel(b.size.width) as i128;
    let b_height: i128 = round_to_pixel(b.size.height) as i128;

    b_x >= a_x && b_y >= a_y && b_x + b_width <= a_x + a_width && b_y + b_height <= a_y + a_height
}

/// The extent of a set of rectangles: the least left and top edge and the
/// greatest right and bottom edge among them.
pub struct Extent {
    pub left: int,
    pub top: int,
    pub right: int,
    pub bottom: int,
}

/// The smaller of two integers.
pub open spec fn min_int(a: int, b: int) -> int {
    if a <= b {
        a
    } else {
        b
    }
}

/// The larger of two integers.
pub open spec fn max_int(a: int, b: int) -> int {
    if a >= b {
        a
    } else {
        b
    }
}

impl LayoutRect {
    pub fn new(origin: LayoutPoint, size: LayoutSize) -> (rect: LayoutRect)
        ensures
            rect == (LayoutRect { origin, size }),
    {
        LayoutRect { origin, size }
    }

    /// All four numbers are coordinates that geometry functions accept.
    pub open spec fn in_range(self) -> bool {
        &&& coordinate_in_range(self.origin.x as int)
        &&& coordinate_in_range(self.origin.y as int)
        &&& coordinate_in_range(self.size.width as int)
        &&& coordinate_in_range(self.size.height as int)
    }

    /// Whether all four numbers are coordinates that geometry functions
    /// accept.
    pub fn is_in_range(&self) -> (ok: bool)
        ensures
            ok == self.in_range(),
    {
        is_coordinate(self.origin.x) && is_coordinate(self.origin.y) && is_coordinate(
            self.size.width,
        ) && is_coordinate(self.size.height)
    }

    /// The extent of this rectangle alone.
    pub open spec fn extent(self) -> Extent {
        Extent {
            left: self.origin.x as int,
            top: self.origin.y as int,
            right: self.origin.x + self.size.width,
            bottom: self.origin.y + self.size.height,
        }
    }

    /// The extent of `rects`, which must not be empty.
    pub open spec fn extent_of(rects: Seq<LayoutRect>) -> Extent
        decreases rects.len(),
    {
        if rects.len() <= 1 {
            rects[0].extent()
        } else {
            let before = Self::extent_of(rects.drop_last());
            let last = rects.last().extent();
            Extent {
                left: min_int(before.left, last.left),
                top: min_int(before.top, last.top),
                right: max_int(before.right, last.right),
                bottom: max_int(before.bottom, last.bottom),
            }
        }
    }

    /// Whether this rectangle spans exactly `extent`.
    pub open spec fn spans(self, extent: Extent) -> bool {
        &&& self.origin.x == extent.left
        &&& self.origin.y == extent.top
        &&& self.size.width == extent.right - extent.left
        &&& self.size.height == extent.bottom - extent.top
    }

    /// The smallest rectangle that encloses all of `rects`, or `None` if
    /// there is none to enclose.
    pub fn union(rects: &Vec<LayoutRect>) -> (bounding: Option<LayoutRect>)
        requires
            forall|i: int| 0 <= i < rects@.len() ==> (#[trigger] rects@[i]).in_range(),
        ensures
            rects@.len() == 0 ==> bounding is None,
            rects@.len() > 0 ==> bounding is Some && bounding->0.spans(Self::extent_of(rects@)),
    {
        if rects.len() == 0 {
            return None;
        }
        let first = rects[0];
        let mut left: i64 = first.origin.x;
        let mut top: i64 = first.origin.y;
        let mut right: i64 = first.origin.x + first.size.width;
        let mut bottom: i64 = first.origin.y + first.size.height;
        let mut i: usize = 1;
        assert(rects@.take(1).len() == 1);
        while i < rects.len()
            invariant
                1 <= i <= rects.len(),
                forall|k: int| 0 <= k < rects@.len() ==> (#[trigger] rects@[k]).in_range(),
                -MAX_COORDINATE <= left <= MAX_COORDINATE,
                -MAX_COORDINATE <= top <= MAX_COORDINATE,
                -2 * MAX_COORDINATE <= right <= 2 * MAX_COORDINATE,
                -2 * MAX_COORDINATE <= bottom <= 2 * MAX_COORDINATE,
                Self::extent_of(rects@.take(i as int)) == (Extent {
                    left: left as int,
                    top: top as int,
                    right: right as int,
                    bottom: bottom as int,
                }),
            decreases rects.len() - i,
        {
            let rect = rects[i];
            proof {
                assert(rects@.take(i + 1).drop_last() =~= rects@.take(i as int));
                assert(rects@.take(i + 1).last() == rect);
            }
            let rect_right: i64 = rect.origin.x + rect.size.width;
            let rect_bottom: i64 = rect.origin.y + rect.size.height;
            if rect.origin.x < left {
                left = rect.origin.x;
            }
            if rect.origin.y < top {
                top = rect.origin.y;
            }
            if rect_right > right {
                right = rect_right;
            }
            if rect_bottom > bottom {
                bottom = rect_bottom;
            }
            i = i + 1;
        }
        proof {
            assert(rects@.take(rects.len() as int) =~= rects@);
        }
        Some(
            LayoutRect {
                origin: LayoutPoint { x: left, y: top },
                size: LayoutSize { width: right - left, height: bottom - top },
            },
        )
    }
}

/// Subtracts the padding from the bounds, returning the new bounds.
///
/// The resulting rectangle may have a negative width or height.
pub fn subtract_padding(bounds: &LayoutRect, padding: &ResolvedOffsets) -> (new_bounds: LayoutRect)
    requires
        bounds.in_range(),
        padding.in_range(),
    ensures
        new_bounds.origin.x == bounds.origin.x + padding.left,
        new_bounds.origin.y == bounds.origin.y + padding.top,
        new_bounds.size.width == bounds.size.width - (padding.right + padding.left),
        new_bounds.size.height == bounds.size.height - (padding.top + padding.bottom),
{
    let mut new_bounds = *bounds;

    new_bounds.origin.x = new_bounds.origin.x + padding.left;
    new_bounds.size.width = new_bounds.size.width - (padding.right + padding.left);
    new_bounds.origin.y = new_bounds.origin.y + padding.top;
    new_bounds.size.height = new_bounds.size.height - (padding.top + padding.bottom);

    new_bounds
}

} // verus!
