//! Points, rectangles and the overlap test.

use vstd::prelude::*;

verus! {

/// Side of a tile, in pixels.
pub const TILE_SIZE: i64 = 32;

/// Bound on the positions and sizes, in pixels, of the rectangles that a
/// level is made of. Whatever moves among them stays within four times this
/// distance of the origin, a range in which single-precision numbers are
/// whole: every coordinate can be handed to a renderer without loss.
pub const COORD_LIMIT: i64 = 0x40_0000;

/// One of the two directions in which things move.
#[derive(Clone, Copy, Debug, PartialEq, Eq, Structural)]
pub enum Axis {
    Horizontal,
    Vertical,
}

impl Axis {
    /// The other axis.
    pub open spec fn cross(self) -> Axis {
        match self {
            Axis::Horizontal => Axis::Vertical,
            Axis::Vertical => Axis::Horizontal,
        }
    }
}

/// A pair of coordinates: a position, a size or a displacement. In contracts
/// it is the pair of its coordinates as mathematical integers.
#[derive(Clone, Copy, Debug, PartialEq, Eq, Structural)]
pub struct Vec2 {
    pub x: i64,
    pub y: i64,
}

impl View for Vec2 {
    type V = (int, int);

    open spec fn view(&self) -> (int, int) {
        (self.x as int, self.y as int)
    }
}

impl Vec2 {
    /// The pair `(x, y)`.
    pub fn new(x: i64, y: i64) -> (v: Vec2)
        ensures
            v == (Vec2 { x, y }),
    {
        Vec2 { x, y }
    }
}

/// A rectangle over the mathematical integers: what contracts say about a
/// [`Rect`], free of machine limits. `y` grows downwards.
pub struct Region {
    pub x: int,
    pub y: int,
    pub w: int,
    pub h: int,
}

impl Region {
    /// The x coordinate of the left edge.
    pub open spec fn left(self) -> int {
        self.x
    }

    /// The x coordinate of the right edge.
    pub open spec fn right(self) -> int {
        self.x + self.w
    }

    /// The y coordinate of the top edge.
    pub open spec fn top(self) -> int {
        self.y
    }

    /// The y coordinate of the bottom edge.
    pub open spec fn bottom(self) -> int {
        self.y + self.h
    }

    /// The edge with the smaller coordinate along `axis`.
    pub open spec fn near(self, axis: Axis) -> int {
        match axis {
            Axis::Horizontal => self.x,
            Axis::Vertical => self.y,
        }
    }

    /// The length along `axis`.
    pub open spec fn extent(self, axis: Axis) -> int {
        match axis {
            Axis::Horizontal => self.w,
            Axis::Vertical => self.h,
        }
    }

    /// The edge with the larger coordinate along `axis`.
    pub open spec fn far(self, axis: Axis) -> int {
        self.near(axis) + self.extent(axis)
    }

    /// This region, slid along `axis` until its near edge is at `pos`.
    pub open spec fn at(self, axis: Axis, pos: int) -> Region {
        match axis {
            Axis::Horizontal => Region { x: pos, ..self },
            Axis::Vertical => Region { y: pos, ..self },
        }
    }

    /// Whether the two intervals that the regions cover along `axis` share
    /// more than an end point.
    pub open spec fn overlaps_along(self, other: Region, axis: Axis) -> bool {
        self.near(axis) < other.far(axis) && self.far(axis) > other.near(axis)
    }

    /// Whether the regions share interior: touching edges do not count.
    pub open spec fn overlaps(self, other: Region) -> bool {
        self.overlaps_along(other, Axis::Horizontal) && self.overlaps_along(other, Axis::Vertical)
    }

    /// This region in units `factor` times finer.
    pub open spec fn scaled(self, factor: int) -> Region {
        Region {
            x: self.x * factor,
            y: self.y * factor,
            w: self.w * factor,
            h: self.h * factor,
        }
    }

    /// Whether this region lies inside `outer` along `axis`.
    pub open spec fn within_along(self, outer: Region, axis: Axis) -> bool {
        outer.near(axis) <= self.near(axis) && self.far(axis) <= outer.far(axis)
    }

    /// Whether this region lies inside `outer`.
    pub open spec fn within(self, outer: Region) -> bool {
        self.within_along(outer, Axis::Horizontal) && self.within_along(outer, Axis::Vertical)
    }
}

/// An axis-aligned rectangle, given by its top-left corner and its size in
/// pixels.
#[derive(Clone, Copy, Debug, PartialEq, Eq, Structural)]
pub struct Rect {
    pub x: i64,
    pub y: i64,
    pub w: i64,
    pub h: i64,
}

impl View for Rect {
    type V = Region;

    open spec fn view(&self) -> Region {
        Region { x: self.x as int, y: self.y as int, w: self.w as int, h: self.h as int }
    }
}

impl Rect {
    /// Whether position and size are each within [`COORD_LIMIT`] of zero.
    /// Tiles and the level's bounds are held to this.
    pub open spec fn in_range(self) -> bool {
        &&& -COORD_LIMIT <= self.x <= COORD_LIMIT
        &&& -COORD_LIMIT <= self.y <= COORD_LIMIT
        &&& -COORD_LIMIT <= self.w <= COORD_LIMIT
        &&& -COORD_LIMIT <= self.h <= COORD_LIMIT
    }

    /// What holds of a rectangle that moves among rectangles in range: its
    /// size is within [`COORD_LIMIT`] of zero, and its position within three
    /// times that.
    pub open spec fn in_reach(self) -> bool {
        &&& -3 * COORD_LIMIT <= self.x <= 3 * COORD_LIMIT
        &&& -3 * COORD_LIMIT <= self.y <= 3 * COORD_LIMIT
        &&& -COORD_LIMIT <= self.w <= COORD_LIMIT
        &&& -COORD_LIMIT <= self.h <= COORD_LIMIT
    }

    /// Tests whether the rectangle is in range.
    pub fn is_in_range(&self) -> (ok: bool)
        ensures
            ok == self.in_range(),
    {
        -COORD_LIMIT <= self.x && self.x <= COORD_LIMIT && -COORD_LIMIT <= self.y && self.y
            <= COORD_LIMIT && -COORD_LIMIT <= self.w && self.w <= COORD_LIMIT && -COORD_LIMIT
            <= self.h && self.h <= COORD_LIMIT
    }

    /// Tests whether the rectangle is in reach.
    pub fn is_in_reach(&self) -> (ok: bool)
        ensures
            ok == self.in_reach(),
    {
        let far: i64 = 3 * COORD_LIMIT;
        -far <= self.x && self.x <= far && -far <= self.y && self.y <= far && -COORD_LIMIT
            <= self.w && self.w <= COORD_LIMIT && -COORD_LIMIT <= self.h && self.h
            <= COORD_LIMIT
    }

    /// The rectangle with its top-left corner at `(x, y)`, `w` wide and `h`
    /// high.
    pub fn new(x: i64, y: i64, w: i64, h: i64) -> (r: Rect)
        ensures
            r == (Rect { x, y, w, h }),
    {
        Rect { x, y, w, h }
    }

    /// The top-left corner.
    pub fn point(&self) -> (p: Vec2)
        ensures
            p.x == self.x,
            p.y == self.y,
    {
        Vec2 { x: self.x, y: self.y }
    }

    /// Width and height.
    pub fn size(&self) -> (s: Vec2)
        ensures
            s.x == self.w,
            s.y == self.h,
    {
        Vec2 { x: self.w, y: self.h }
    }

    /// The x coordinate of the left edge.
    pub fn left(&self) -> (e: i64)
        ensures
            e == self@.left(),
    {
        self.x
    }

    /// The x coordinate of the right edge.
    pub fn right(&self) -> (e: i64)
        requires
            i64::MIN <= self@.right() <= i64::MAX,
        ensures
            e == self@.right(),
    {
        self.x + self.w
    }

    /// The y coordinate of the top edge.
    pub fn top(&self) -> (e: i64)
        ensures
            e == self@.top(),
    {
        self.y
    }

    /// The y coordinate of the bottom edge.
    pub fn bottom(&self) -> (e: i64)
        requires
            i64::MIN <= self@.bottom() <= i64::MAX,
        ensures
            e == self@.bottom(),
    {
        self.y + self.h
    }

    /// The edge with the smaller coordinate along `axis`: the left or the
    /// top edge.
    pub fn near(&self, axis: Axis) -> (e: i64)
        ensures
            e == self@.near(axis),
    {
        match axis {
            Axis::Horizontal => self.x,
            Axis::Vertical => self.y,
        }
    }

    /// The length along `axis`: the width or the height.
    pub fn extent(&self, axis: Axis) -> (e: i64)
        ensures
            e == self@.extent(axis),
    {
        match axis {
            Axis::Horizontal => self.w,
            Axis::Vertical => self.h,
        }
    }

    /// The edge with the larger coordinate along `axis`: the right or the
    /// bottom edge.
    pub fn far(&self, axis: Axis) -> (e: i64)
        requires
            i64::MIN <= self@.far(axis) <= i64::MAX,
        ensures
            e == self@.far(axis),
    {
        match axis {
            Axis::Horizontal => self.x + self.w,
            Axis::Vertical => self.y + self.h,
        }
    }

    /// This rectangle, slid along `axis` until its near edge is at `pos`.
    pub fn at(&self, axis: Axis, pos: i64) -> (r: Rect)
        ensures
            r@ == self@.at(axis, pos as int),
    {
        match axis {
            Axis::Horizontal => Rect { x: pos, y: self.y, w: self.w, h: self.h },
            Axis::Vertical => Rect { x: self.x, y: pos, w: self.w, h: self.h },
        }
    }
}

/// Whether two rectangles share interior. Rectangles that only touch along an
/// edge or at a corner do not overlap.
pub fn is_overlaped(rect1: &Rect, rect2: &Rect) -> (hit: bool)
    ensures
        hit == rect1@.overlaps(rect2@),
{
    let left1: i128 = rect1.x as i128;
    let right1: i128 = rect1.x as i128 + rect1.w as i128;
    let top1: i128 = rect1.y as i128;
    let bottom1: i128 = rect1.y as i128 + rect1.h as i128;
    let left2: i128 = rect2.x as i128;
    let right2: i128 = rect2.x as i128 + rect2.w as i128;
    let top2: i128 = rect2.y as i128;
    let bottom2: i128 = rect2.y as i128 + rect2.h as i128;
    left1 < right2 && right1 > left2 && top1 < bottom2 && bottom1 > top2
}

} // verus!
