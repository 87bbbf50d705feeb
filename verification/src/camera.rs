//! The camera: a window on the level that trails the player.

use vstd::prelude::*;
use crate::geometry::{Axis, Rect, Region, Vec2, COORD_LIMIT};

verus! {

/// The camera counts positions in sub-pixels, this many to a pixel.
pub const SUBPIXELS: i64 = 0x1_0000;

/// Half a pixel, in sub-pixels.
pub const HALF_PIXEL: i64 = 0x8000;

/// Per frame the camera covers one part in this many of its distance from
/// the player.
pub const EASING: i64 = 16;

/// Closer to the player than this, in sub-pixels, the camera stops easing and
/// jumps to the player: an eighth of a pixel.
pub const SNAP_DISTANCE: i64 = 0x2000;

/// Bound on the camera's position along each axis, in sub-pixels.
pub const CAMERA_LIMIT: i64 = 0x100_0000_0000;

/// Bound on the camera's speed along each axis, in sub-pixels per frame.
pub const CAMERA_SPEED_LIMIT: i64 = 0x40_0000_0000;

/// The centre of a view that reaches `half` to either side, after it has been
/// kept between `lo` and `hi`. A view that sticks out at the far end is moved
/// to end at `hi`; otherwise one that sticks out at the near end is moved to
/// start at `lo`.
pub open spec fn clamp_view(center: int, half: int, lo: int, hi: int) -> int {
    if center + half > hi {
        hi - half
    } else if center - half < lo {
        lo + half
    } else {
        center
    }
}

/// Whether a distance of `(dx, dy)` sub-pixels is less than
/// [`SNAP_DISTANCE`].
pub open spec fn within_snap(dx: int, dy: int) -> bool {
    dx * dx + dy * dy < SNAP_DISTANCE * SNAP_DISTANCE
}

/// The speed at which the camera closes a gap of `gap` sub-pixels along one
/// axis: the gap divided by [`EASING`], rounded towards zero.
pub open spec fn ease(gap: int) -> int {
    if gap >= 0 {
        gap / (EASING as int)
    } else {
        -((-gap) / (EASING as int))
    }
}

/// The centre of a view after it has taken aim at `goal`: the goal itself if
/// that is within [`SNAP_DISTANCE`], else where it was.
pub open spec fn chase_center(center: (int, int), goal: (int, int)) -> (int, int) {
    if within_snap(goal.0 - center.0, goal.1 - center.1) {
        goal
    } else {
        center
    }
}

/// The speed of a view after it has taken aim at `goal`: what it was if the
/// goal is within [`SNAP_DISTANCE`], else the eased gap along each axis.
pub open spec fn chase_speed(center: (int, int), speed: (int, int), goal: (int, int)) -> (
    int,
    int,
) {
    if within_snap(goal.0 - center.0, goal.1 - center.1) {
        speed
    } else {
        (ease(goal.0 - center.0), ease(goal.1 - center.1))
    }
}

/// The centre of a view of `width` by `height` pixels after a frame in a
/// level with the given `bounds`: moved by `speed`, then kept inside the
/// bounds along each axis.
pub open spec fn shift_view(
    center: (int, int),
    speed: (int, int),
    width: int,
    height: int,
    bounds: Region,
) -> (int, int) {
    (
        clamp_view(
            center.0 + speed.0,
            width * HALF_PIXEL,
            bounds.left() * SUBPIXELS,
            bounds.right() * SUBPIXELS,
        ),
        clamp_view(
            center.1 + speed.1,
            height * HALF_PIXEL,
            bounds.top() * SUBPIXELS,
            bounds.bottom() * SUBPIXELS,
        ),
    )
}

/// A camera that eases towards its goal closes in on it.
///
/// Take a view whose goal is not within [`SNAP_DISTANCE`]. Then along each
/// axis the speed it is given carries it towards the goal and not past it,
/// and along at least one axis it moves.
pub proof fn lemma_chase_closes_in(center: (int, int), speed: (int, int), goal: (int, int))
    requires
        !within_snap(goal.0 - center.0, goal.1 - center.1),
    ensures
        ({
            let s = chase_speed(center, speed, goal);
            &&& center.0 <= center.0 + s.0 <= goal.0 || goal.0 <= center.0 + s.0 <= center.0
            &&& center.1 <= center.1 + s.1 <= goal.1 || goal.1 <= center.1 + s.1 <= center.1
            &&& s.0 != 0 || s.1 != 0
        }),
{
    let dx = goal.0 - center.0;
    let dy = goal.1 - center.1;
    if ease(dx) == 0 && ease(dy) == 0 {
        assert(dx * dx + dy * dy < 0x2000 * 0x2000) by (nonlinear_arith)
            requires
                -16 < dx < 16,
                -16 < dy < 16,
        ;
    }
}

/// Whether `(dx, dy)` is less than [`SNAP_DISTANCE`] long.
fn is_within_snap(dx: i64, dy: i64) -> (near: bool)
    ensures
        near == within_snap(dx as int, dy as int),
{
    if -SNAP_DISTANCE < dx && dx < SNAP_DISTANCE && -SNAP_DISTANCE < dy && dy < SNAP_DISTANCE {
        assert(0 <= dx * dx < 0x400_0000 && 0 <= dy * dy < 0x400_0000) by (nonlinear_arith)
            requires
                -0x2000 < dx < 0x2000,
                -0x2000 < dy < 0x2000,
        ;
        dx * dx + dy * dy < SNAP_DISTANCE * SNAP_DISTANCE
    } else {
        assert(dx * dx + dy * dy >= 0x400_0000) by (nonlinear_arith)
            requires
                dx <= -0x2000 || dx >= 0x2000 || dy <= -0x2000 || dy >= 0x2000,
        ;
        false
    }
}

/// The speed at which a gap of `gap` sub-pixels is closed.
fn eased(gap: i64) -> (speed: i64)
    requires
        i64::MIN < gap,
    ensures
        speed == ease(gap as int),
{
    if gap >= 0 {
        gap / EASING
    } else {
        -((-gap) / EASING)
    }
}

/// Where the camera looks and how fast it moves.
#[derive(Clone, Copy, Debug, PartialEq, Eq, Structural)]
pub struct PlayerCamera {
    /// The centre of the view, in sub-pixels.
    pub target: Vec2,
    /// Width of the view, in pixels.
    pub width: i64,
    /// Height of the view, in pixels.
    pub height: i64,
    /// Sub-pixels that the centre moves per frame.
    pub speed: Vec2,
}

impl PlayerCamera {
    /// Well-formed: the view's size is within [`COORD_LIMIT`] of zero, its
    /// centre within [`CAMERA_LIMIT`] and its speed within
    /// [`CAMERA_SPEED_LIMIT`].
    pub open spec fn wf(self) -> bool {
        &&& -COORD_LIMIT <= self.width <= COORD_LIMIT
        &&& -COORD_LIMIT <= self.height <= COORD_LIMIT
        &&& -CAMERA_LIMIT <= self.target.x <= CAMERA_LIMIT
        &&& -CAMERA_LIMIT <= self.target.y <= CAMERA_LIMIT
        &&& -CAMERA_SPEED_LIMIT <= self.speed.x <= CAMERA_SPEED_LIMIT
        &&& -CAMERA_SPEED_LIMIT <= self.speed.y <= CAMERA_SPEED_LIMIT
    }

    /// Tests whether the camera is well-formed.
    pub fn is_valid(&self) -> (ok: bool)
        ensures
            ok == self.wf(),
    {
        -COORD_LIMIT <= self.width && self.width <= COORD_LIMIT && -COORD_LIMIT <= self.height
            && self.height <= COORD_LIMIT && -CAMERA_LIMIT <= self.target.x && self.target.x
            <= CAMERA_LIMIT && -CAMERA_LIMIT <= self.target.y && self.target.y <= CAMERA_LIMIT
            && -CAMERA_SPEED_LIMIT <= self.speed.x && self.speed.x <= CAMERA_SPEED_LIMIT
            && -CAMERA_SPEED_LIMIT <= self.speed.y && self.speed.y <= CAMERA_SPEED_LIMIT
    }

    /// Whether the view is no larger along `axis` than a level with the given
    /// `bounds`, in pixels.
    pub open spec fn fits(self, bounds: Region, axis: Axis) -> bool {
        match axis {
            Axis::Horizontal => 0 <= self.width <= bounds.w,
            Axis::Vertical => 0 <= self.height <= bounds.h,
        }
    }

    /// Whether the view lies along `axis` inside a level with the given
    /// `bounds`, in pixels.
    pub open spec fn shows_inside(self, bounds: Region, axis: Axis) -> bool {
        self.viewport().within_along(bounds.scaled(SUBPIXELS as int), axis)
    }

    /// What the camera shows, in sub-pixels.
    pub open spec fn viewport(self) -> Region {
        Region {
            x: self.target.x - self.width * HALF_PIXEL,
            y: self.target.y - self.height * HALF_PIXEL,
            w: self.width * SUBPIXELS,
            h: self.height * SUBPIXELS,
        }
    }

    /// A camera at rest whose view, `width` by `height` pixels, has its
    /// top-left corner at the origin.
    pub fn new(width: i64, height: i64) -> (camera: PlayerCamera)
        requires
            -COORD_LIMIT <= width <= COORD_LIMIT,
            -COORD_LIMIT <= height <= COORD_LIMIT,
        ensures
            camera.target@ == (width * HALF_PIXEL, height * HALF_PIXEL),
            camera.width == width,
            camera.height == height,
            camera.speed@ == (0int, 0int),
            camera.wf(),
    {
        PlayerCamera {
            target: Vec2 { x: width * HALF_PIXEL, y: height * HALF_PIXEL },
            width,
            height,
            speed: Vec2 { x: 0, y: 0 },
        }
    }

    /// Takes aim at `goal`, a position in sub-pixels. Close to the goal the
    /// view jumps there and keeps its speed; further away it stays and sets
    /// its speed to a fraction of the gap.
    pub fn follow(&mut self, goal: Vec2)
        requires
            old(self).wf(),
            -CAMERA_LIMIT <= goal.x <= CAMERA_LIMIT,
            -CAMERA_LIMIT <= goal.y <= CAMERA_LIMIT,
        ensures
            final(self).target@ == chase_center(old(self).target@, goal@),
            final(self).speed@ == chase_speed(old(self).target@, old(self).speed@, goal@),
            final(self).width == old(self).width,
            final(self).height == old(self).height,
            final(self).wf(),
    {
        let dx: i64 = goal.x - self.target.x;
        let dy: i64 = goal.y - self.target.y;
        if is_within_snap(dx, dy) {
            self.target = goal;
        } else {
            self.speed = Vec2 { x: eased(dx), y: eased(dy) };
        }
    }

    /// Moves the view by its speed and keeps it inside `boundaries`.
    ///
    /// In a level at least as large as the view, the view ends inside the
    /// level.
    pub fn update(&mut self, boundaries: Rect)
        requires
            old(self).wf(),
            boundaries.in_range(),
        ensures
            final(self).target@ == shift_view(
                old(self).target@,
                old(self).speed@,
                old(self).width as int,
                old(self).height as int,
                boundaries@,
            ),
            final(self).width == old(self).width,
            final(self).height == old(self).height,
            final(self).speed == old(self).speed,
            final(self).wf(),
            forall|axis: Axis|
                old(self).fits(boundaries@, axis) ==> #[trigger] final(self).shows_inside(
                    boundaries@,
                    axis,
                ),
    {
        self.target.x = self.target.x + self.speed.x;
        self.target.y = self.target.y + self.speed.y;
        let half_width: i64 = self.width * HALF_PIXEL;
        let half_height: i64 = self.height * HALF_PIXEL;
        let left: i64 = self.target.x - half_width;
        let top: i64 = self.target.y - half_height;
        let right: i64 = self.target.x + half_width;
        let bottom: i64 = self.target.y + half_height;
        if left < boundaries.left() * SUBPIXELS {
            self.target.x = boundaries.left() * SUBPIXELS + half_width;
        }
        if top < boundaries.top() * SUBPIXELS {
            self.target.y = boundaries.top() * SUBPIXELS + half_height;
        }
        if right > boundaries.right() * SUBPIXELS {
            self.target.x = boundaries.right() * SUBPIXELS - half_width;
        }
        if bottom > boundaries.bottom() * SUBPIXELS {
            self.target.y = boundaries.bottom() * SUBPIXELS - half_height;
        }
    }
}

} // verus!
