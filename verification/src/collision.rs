//! Movement of a rectangle along one axis: the step, the level's edge, and
//! the tiles in the way.

use vstd::math::{max, min};
use vstd::prelude::*;
use crate::geometry::{is_overlaped, Axis, Rect, Region, COORD_LIMIT};
use crate::tile::Tile;

verus! {

/// Where `r` stands after a step of `speed` along `axis` inside `bounds`:
/// `speed` further, but no further than the edges of `bounds` allow. Where
/// `r` does not fit, the far edge of `bounds` decides.
pub open spec fn advance(r: Region, speed: int, bounds: Region, axis: Axis) -> Region {
    r.at(
        axis,
        min(
            max(r.near(axis) + speed, bounds.near(axis)),
            bounds.far(axis) - r.extent(axis),
        ),
    )
}

/// Where `r`, moving at `speed` along `axis`, stands after meeting the tile
/// `t`. If they overlap, `r` is set back against the side of `t` that it came
/// from: before `t` when it moves forward, behind `t` when it moves back.
pub open spec fn push_out(r: Region, speed: int, t: Region, axis: Axis) -> Region {
    if !r.overlaps(t) {
        r
    } else if speed > 0 {
        r.at(axis, t.near(axis) - r.extent(axis))
    } else if speed < 0 {
        r.at(axis, t.far(axis))
    } else {
        r
    }
}

/// Where `r` stands after meeting each of `tiles` in turn, first to last.
pub open spec fn resolve(r: Region, speed: int, tiles: Seq<Tile>, axis: Axis) -> Region
    decreases tiles.len(),
{
    if tiles.len() == 0 {
        r
    } else {
        push_out(resolve(r, speed, tiles.drop_last(), axis), speed, tiles.last().rect@, axis)
    }
}

/// One frame's movement along one axis: nothing at rest; otherwise the step
/// inside `bounds`, then the tiles.
pub open spec fn step_axis(
    r: Region,
    speed: int,
    tiles: Seq<Tile>,
    bounds: Region,
    axis: Axis,
) -> Region {
    if speed == 0 {
        r
    } else {
        resolve(advance(r, speed, bounds, axis), speed, tiles, axis)
    }
}

/// Whether every tile of the sequence is in range.
pub open spec fn tiles_in_range(tiles: Seq<Tile>) -> bool {
    forall|i: int| 0 <= i < tiles.len() ==> (#[trigger] tiles[i]).rect.in_range()
}

/// Moves `rect` by `speed` along `axis`, keeps it inside `bounds`, and sets it
/// back out of each tile that it then overlaps.
pub fn move_along(
    rect: Rect,
    speed: i64,
    tiles: &Vec<Tile>,
    bounds: &Rect,
    axis: Axis,
) -> (out: Rect)
    requires
        rect.in_reach(),
        -COORD_LIMIT <= speed <= COORD_LIMIT,
        bounds.in_range(),
        tiles_in_range(tiles@),
    ensures
        out@ == step_axis(rect@, speed as int, tiles@, bounds@, axis),
        out.in_reach(),
{
    if speed == 0 {
        return rect;
    }
    let mut r = rect.at(axis, rect.near(axis) + speed);
    if r.near(axis) < bounds.near(axis) {
        r = r.at(axis, bounds.near(axis));
    }
    if r.far(axis) > bounds.far(axis) {
        r = r.at(axis, bounds.far(axis) - r.extent(axis));
    }
    let mut i: usize = 0;
    while i < tiles.len()
        invariant
            i <= tiles.len(),
            speed != 0,
            tiles_in_range(tiles@),
            r.in_reach(),
            r@ == resolve(
                advance(rect@, speed as int, bounds@, axis),
                speed as int,
                tiles@.take(i as int),
                axis,
            ),
        decreases tiles.len() - i,
    {
        let t = &tiles[i].rect;
        assert(tiles@.take(i + 1).drop_last() == tiles@.take(i as int));
        if is_overlaped(&r, t) {
            if speed > 0 {
                r = r.at(axis, t.near(axis) - r.extent(axis));
            }
            if speed < 0 {
                r = r.at(axis, t.far(axis));
            }
        }
        i += 1;
    }
    assert(tiles@.take(tiles.len() as int) == tiles@);
    r
}

/// Whether `r` overlaps none of `tiles`.
pub open spec fn clear_of(r: Region, tiles: Seq<Tile>) -> bool {
    forall|i: int| 0 <= i < tiles.len() ==> !r.overlaps((#[trigger] tiles[i]).rect@)
}

/// Whether a step of `speed` along `axis` is too short for `r` to pass from
/// one side of a tile to the other without overlapping it at either end.
pub open spec fn cannot_skip(r: Region, speed: int, tiles: Seq<Tile>, axis: Axis) -> bool {
    forall|i: int|
        0 <= i < tiles.len() ==> {
            let reach = r.extent(axis) + (#[trigger] tiles[i]).rect@.extent(axis);
            -reach < speed < reach
        }
}

/// Whether `pos` lies on the way from `from` to `to`, both ends included.
pub open spec fn on_the_way(from: int, pos: int, to: int) -> bool {
    from <= pos <= to || to <= pos <= from
}

/// Whether `r`, moving at `speed` along `axis`, stands flush against the side
/// of `t` that faces it.
pub open spec fn rests_against(r: Region, speed: int, t: Region, axis: Axis) -> bool {
    &&& r.overlaps_along(t, axis.cross())
    &&& speed > 0 ==> r.far(axis) == t.near(axis)
    &&& speed < 0 ==> r.near(axis) == t.far(axis)
}

/// Setting a rectangle back out of a tile that it was clear of before the
/// step moves it back along its way, and leaves it clear of that tile.
proof fn lemma_push_out_backs_up(from: Region, cur: Region, speed: int, t: Region, axis: Axis)
    requires
        speed != 0,
        cur == from.at(axis, cur.near(axis)),
        on_the_way(from.near(axis), cur.near(axis), from.near(axis) + speed),
        !from.overlaps(t),
    ensures
        !push_out(cur, speed, t, axis).overlaps(t),
        on_the_way(from.near(axis), push_out(cur, speed, t, axis).near(axis), cur.near(axis)),
        push_out(cur, speed, t, axis) == from.at(axis, push_out(cur, speed, t, axis).near(axis)),
{
}

/// Setting a rectangle back out of one tile does not push it into another
/// that it was clear of, as long as the step is too short to skip a tile.
proof fn lemma_push_out_keeps_clear(
    from: Region,
    cur: Region,
    speed: int,
    t: Region,
    u: Region,
    axis: Axis,
)
    requires
        speed != 0,
        cur == from.at(axis, cur.near(axis)),
        on_the_way(from.near(axis), cur.near(axis), from.near(axis) + speed),
        !from.overlaps(t),
        !from.overlaps(u),
        !cur.overlaps(u),
        -(from.extent(axis) + u.extent(axis)) < speed < from.extent(axis) + u.extent(axis),
    ensures
        !push_out(cur, speed, t, axis).overlaps(u),
{
}

/// Collision resolution stops a mover at the first obstacle.
///
/// Let a rectangle stand at `from`, clear of all `tiles`, and let `to` be a
/// place on its way, no further than `speed` along `axis`, with a step too
/// short to skip a tile. Then meeting the tiles in turn leaves it
/// - on the way from `from` to `to`, moved along `axis` only,
/// - clear of all tiles,
/// - at `to`, or flush against a tile, and
/// - as far as it can go: at every place between there and `to` it would
///   overlap a tile.
pub proof fn lemma_resolve_stops_at_obstacle(
    from: Region,
    to: Region,
    speed: int,
    tiles: Seq<Tile>,
    axis: Axis,
)
    requires
        speed != 0,
        to == from.at(axis, to.near(axis)),
        on_the_way(from.near(axis), to.near(axis), from.near(axis) + speed),
        clear_of(from, tiles),
        cannot_skip(from, speed, tiles, axis),
    ensures
        ({
            let out = resolve(to, speed, tiles, axis);
            &&& out == from.at(axis, out.near(axis))
            &&& on_the_way(from.near(axis), out.near(axis), to.near(axis))
            &&& clear_of(out, tiles)
            &&& (out == to || exists|i: int|
                0 <= i < tiles.len() && rests_against(
                    out,
                    speed,
                    (#[trigger] tiles[i]).rect@,
                    axis,
                ))
            &&& forall|pos: int|
                on_the_way(out.near(axis), pos, to.near(axis)) && pos != out.near(axis)
                    ==> !clear_of(#[trigger] from.at(axis, pos), tiles)
        }),
    decreases tiles.len(),
{
    if tiles.len() > 0 {
        let rest = tiles.drop_last();
        let last = tiles.len() - 1;
        let t = tiles[last].rect@;
        let cur = resolve(to, speed, rest, axis);
        let out = push_out(cur, speed, t, axis);
        assert forall|i: int| 0 <= i < rest.len() implies rest[i] == tiles[i] by {}
        lemma_resolve_stops_at_obstacle(from, to, speed, rest, axis);
        lemma_push_out_backs_up(from, cur, speed, t, axis);
        assert forall|i: int| 0 <= i < tiles.len() implies !out.overlaps(
            (#[trigger] tiles[i]).rect@,
        ) by {
            if i < rest.len() {
                lemma_push_out_keeps_clear(from, cur, speed, t, tiles[i].rect@, axis);
            }
        }
        if cur.overlaps(t) {
            // set back against the last tile, which bars every place beyond
            assert(rests_against(out, speed, tiles[last].rect@, axis));
            assert forall|pos: int|
                on_the_way(out.near(axis), pos, to.near(axis)) && pos != out.near(axis)
                implies !clear_of(#[trigger] from.at(axis, pos), tiles) by {
                assert(from.at(axis, pos).overlaps(tiles[last].rect@));
            }
        } else {
            // not moved by the last tile: what barred the way before bars it
            // still
            if cur != to {
                let i = choose|i: int|
                    0 <= i < rest.len() && rests_against(
                        cur,
                        speed,
                        (#[trigger] rest[i]).rect@,
                        axis,
                    );
                assert(rests_against(out, speed, tiles[i].rect@, axis));
            }
            assert forall|pos: int|
                on_the_way(out.near(axis), pos, to.near(axis)) && pos != out.near(axis)
                implies !clear_of(#[trigger] from.at(axis, pos), tiles) by {
                let i = choose|i: int|
                    0 <= i < rest.len() && from.at(axis, pos).overlaps(
                        (#[trigger] rest[i]).rect@,
                    );
                assert(from.at(axis, pos).overlaps(tiles[i].rect@));
            }
        }
    }
}

/// One frame's movement along one axis is safe and goes as far as it can.
///
/// Let a rectangle stand inside `bounds` along `axis` and clear of all
/// `tiles`, and let its `speed` be too small to skip a tile. Then the step
/// - moves it along `axis` only, forward and by no more than `speed`,
/// - leaves it inside `bounds` along `axis` and clear of all tiles, and
/// - stops it only at an obstacle: at every place further on its way it
///   would reach out of `bounds` or overlap a tile.
pub proof fn lemma_step_axis_is_safe(
    r: Region,
    speed: int,
    tiles: Seq<Tile>,
    bounds: Region,
    axis: Axis,
)
    requires
        r.within_along(bounds, axis),
        clear_of(r, tiles),
        cannot_skip(r, speed, tiles, axis),
    ensures
        ({
            let out = step_axis(r, speed, tiles, bounds, axis);
            &&& out == r.at(axis, out.near(axis))
            &&& on_the_way(r.near(axis), out.near(axis), r.near(axis) + speed)
            &&& out.within_along(bounds, axis)
            &&& clear_of(out, tiles)
            &&& forall|pos: int|
                on_the_way(out.near(axis), pos, r.near(axis) + speed) && pos != out.near(axis) ==> {
                    let there = #[trigger] r.at(axis, pos);
                    !there.within_along(bounds, axis) || !clear_of(there, tiles)
                }
        }),
{
    if speed != 0 {
        let to = advance(r, speed, bounds, axis);
        lemma_resolve_stops_at_obstacle(r, to, speed, tiles, axis);
    }
}

} // verus!
