//! The level: its tiles, the player in it, and the camera on it.

use vstd::prelude::*;
use crate::camera::{
    chase_center, chase_speed, shift_view, PlayerCamera, HALF_PIXEL, SUBPIXELS,
};
use crate::collision::{
    cannot_skip, clear_of, lemma_step_axis_is_safe, move_along, on_the_way, step_axis,
    tiles_in_range,
};
use crate::geometry::{Axis, Rect, Region, Vec2, TILE_SIZE};
use crate::player::{facing, next_frame, steer, Keys, Player, PlayerAnimation, WALK_SPEED};
use crate::tile::Tile;

verus! {

/// Map code of a cell that holds a tile.
pub const CELL_TILE: i32 = 1;

/// Map code of the cell where the player starts.
pub const CELL_PLAYER: i32 = 2;

/// The largest number of rows, and of cells in a row, that a map may have.
/// It keeps every tile within the coordinate limit.
pub const MAX_SIDE: usize = 0x2_0000;

/// Width of the camera's view, in pixels: twenty tiles.
pub const VIEW_WIDTH: i64 = 640;

/// Height of the camera's view, in pixels: eleven and a quarter tiles.
pub const VIEW_HEIGHT: i64 = 360;

/// A map as a sequence of rows of cell codes.
pub open spec fn grid(map_data: Seq<Vec<i32>>) -> Seq<Seq<i32>> {
    Seq::new(map_data.len(), |row: int| map_data[row]@)
}

/// The square that the cell in column `col` of row `row` covers.
pub open spec fn cell_region(col: int, row: int) -> Region {
    Region { x: col * TILE_SIZE, y: row * TILE_SIZE, w: TILE_SIZE as int, h: TILE_SIZE as int }
}

/// Whether the map has a cell at `(row, col)` and it holds `code`.
pub open spec fn holds(map: Seq<Seq<i32>>, row: int, col: int, code: i32) -> bool {
    0 <= row < map.len() && 0 <= col < map[row].len() && map[row][col] == code
}

/// Whether the first of two cells is read before the second, going through
/// the rows from the top and through each row from the left.
pub open spec fn reads_before(row: int, col: int, other_row: int, other_col: int) -> bool {
    row < other_row || (row == other_row && col < other_col)
}

/// Whether `(row, col)` is where the player starts: the cell marked for the
/// player, and the last one read if there are several.
pub open spec fn is_start(map: Seq<Seq<i32>>, row: int, col: int) -> bool {
    &&& holds(map, row, col, CELL_PLAYER)
    &&& forall|r: int, c: int| #[trigger]
        holds(map, r, c, CELL_PLAYER) ==> !reads_before(row, col, r, c)
}

/// What holds while a map is read, when the cells before `(row, col)` have
/// been read: `last` is the last of them that is marked for the player, if
/// there is any, and `body` stands on it, or at the origin.
spec fn start_so_far(
    map: Seq<Seq<i32>>,
    row: int,
    col: int,
    last: Option<(int, int)>,
    body: Region,
) -> bool {
    match last {
        None => {
            &&& body == cell_region(0, 0)
            &&& forall|r: int, c: int| #[trigger]
                holds(map, r, c, CELL_PLAYER) ==> !reads_before(r, c, row, col)
        },
        Some((last_row, last_col)) => {
            &&& body == cell_region(last_col, last_row)
            &&& holds(map, last_row, last_col, CELL_PLAYER)
            &&& reads_before(last_row, last_col, row, col)
            &&& forall|r: int, c: int| #[trigger]
                holds(map, r, c, CELL_PLAYER) && reads_before(r, c, row, col) ==> !reads_before(
                    last_row,
                    last_col,
                    r,
                    c,
                )
        },
    }
}

/// The squares of the tiles of one row, left to right: one for each cell
/// that holds [`CELL_TILE`].
pub open spec fn row_regions(cells: Seq<i32>, row: int) -> Seq<Region>
    decreases cells.len(),
{
    if cells.len() == 0 {
        Seq::empty()
    } else if cells.last() == CELL_TILE {
        row_regions(cells.drop_last(), row).push(cell_region(cells.len() - 1, row))
    } else {
        row_regions(cells.drop_last(), row)
    }
}

/// The squares of the tiles of a map, in reading order.
pub open spec fn map_regions(map: Seq<Seq<i32>>) -> Seq<Region>
    decreases map.len(),
{
    if map.len() == 0 {
        Seq::empty()
    } else {
        map_regions(map.drop_last()) + row_regions(map.last(), map.len() - 1)
    }
}

/// What the tiles of a sequence cover, in the same order.
pub open spec fn regions(tiles: Seq<Tile>) -> Seq<Region> {
    tiles.map_values(|t: Tile| t.rect@)
}

/// The centre of `body`, in sub-pixels.
pub open spec fn center_of(body: Region) -> (int, int) {
    (body.x * SUBPIXELS + body.w * HALF_PIXEL, body.y * SUBPIXELS + body.h * HALF_PIXEL)
}

/// One frame's movement of a body: first along the vertical axis, then along
/// the horizontal one, so that each tile is met from a known side.
pub open spec fn walk(
    body: Region,
    speed: (int, int),
    tiles: Seq<Tile>,
    bounds: Region,
) -> Region {
    step_axis(
        step_axis(body, speed.1, tiles, bounds, Axis::Vertical),
        speed.0,
        tiles,
        bounds,
        Axis::Horizontal,
    )
}

/// Whether `square` is the square of a cell of the row that holds
/// [`CELL_TILE`].
pub open spec fn is_tile_cell_of_row(cells: Seq<i32>, row: int, square: Region) -> bool {
    exists|c: int|
        0 <= c < cells.len() && cells[c] == CELL_TILE && square == #[trigger] cell_region(c, row)
}

/// Whether `square` is the square of a cell of the map that holds
/// [`CELL_TILE`].
pub open spec fn is_tile_cell(map: Seq<Seq<i32>>, square: Region) -> bool {
    exists|r: int, c: int| #[trigger]
        holds(map, r, c, CELL_TILE) && square == cell_region(c, r)
}

/// The tiles of a row stand exactly on the cells that hold [`CELL_TILE`].
pub proof fn lemma_row_regions_are_tile_cells(cells: Seq<i32>, row: int)
    ensures
        forall|i: int|
            0 <= i < row_regions(cells, row).len() ==> is_tile_cell_of_row(
                cells,
                row,
                #[trigger] row_regions(cells, row)[i],
            ),
        forall|c: int|
            0 <= c < cells.len() && cells[c] == CELL_TILE ==> row_regions(cells, row).contains(
                #[trigger] cell_region(c, row),
            ),
    decreases cells.len(),
{
    if cells.len() > 0 {
        let rest = cells.drop_last();
        let before = row_regions(rest, row);
        let all = row_regions(cells, row);
        lemma_row_regions_are_tile_cells(rest, row);
        assert forall|i: int| 0 <= i < all.len() implies is_tile_cell_of_row(
            cells,
            row,
            #[trigger] all[i],
        ) by {
            if i < before.len() {
                let c = choose|c: int|
                    0 <= c < rest.len() && rest[c] == CELL_TILE && before[i]
                        == #[trigger] cell_region(c, row);
                assert(cells[c] == CELL_TILE && all[i] == cell_region(c, row));
            } else {
                assert(all[i] == cell_region(cells.len() - 1, row));
            }
        }
        assert forall|c: int| 0 <= c < cells.len() && cells[c] == CELL_TILE implies all.contains(
            #[trigger] cell_region(c, row),
        ) by {
            if c < rest.len() {
                let i = choose|i: int| 0 <= i < before.len() && before[i] == cell_region(c, row);
                assert(all[i] == cell_region(c, row));
            } else {
                assert(all[all.len() - 1] == cell_region(c, row));
            }
        }
    }
}

/// The tiles of a map stand exactly on the cells that hold [`CELL_TILE`]:
/// every tile covers such a cell, and every such cell is covered by a tile.
pub proof fn lemma_map_regions_are_tile_cells(map: Seq<Seq<i32>>)
    ensures
        forall|i: int|
            0 <= i < map_regions(map).len() ==> is_tile_cell(map, #[trigger] map_regions(map)[i]),
        forall|r: int, c: int| #[trigger]
            holds(map, r, c, CELL_TILE) ==> map_regions(map).contains(cell_region(c, r)),
    decreases map.len(),
{
    if map.len() > 0 {
        let rest = map.drop_last();
        let row = map.len() - 1;
        let above = map_regions(rest);
        let here = row_regions(map.last(), row);
        let all = map_regions(map);
        lemma_map_regions_are_tile_cells(rest);
        lemma_row_regions_are_tile_cells(map.last(), row);
        assert forall|i: int| 0 <= i < all.len() implies is_tile_cell(map, #[trigger] all[i]) by {
            if i < above.len() {
                let (r, c) = choose|r: int, c: int| #[trigger]
                    holds(rest, r, c, CELL_TILE) && above[i] == cell_region(c, r);
                assert(holds(map, r, c, CELL_TILE) && all[i] == cell_region(c, r));
            } else {
                let j = i - above.len();
                let c = choose|c: int|
                    0 <= c < map.last().len() && map.last()[c] == CELL_TILE && here[j]
                        == #[trigger] cell_region(c, row);
                assert(holds(map, row, c, CELL_TILE) && all[i] == cell_region(c, row));
            }
        }
        assert forall|r: int, c: int| #[trigger] holds(map, r, c, CELL_TILE) implies all.contains(
            cell_region(c, r),
        ) by {
            if r < rest.len() {
                assert(holds(rest, r, c, CELL_TILE));
                let i = choose|i: int| 0 <= i < above.len() && above[i] == cell_region(c, r);
                assert(all[i] == cell_region(c, r));
            } else {
                let j = choose|j: int| 0 <= j < here.len() && here[j] == cell_region(c, row);
                assert(all[above.len() + j] == cell_region(c, r));
            }
        }
    }
}

/// A frame's movement is safe.
///
/// Let a body stand inside `bounds` and clear of all `tiles`, with steps too
/// short to skip a tile along either axis. Then after the frame it still
/// stands inside `bounds` and clear of all tiles, has kept its size, and has
/// moved forward by no more than its speed along each axis.
pub proof fn lemma_walk_is_safe(body: Region, speed: (int, int), tiles: Seq<Tile>, bounds: Region)
    requires
        body.within(bounds),
        clear_of(body, tiles),
        cannot_skip(body, speed.0, tiles, Axis::Horizontal),
        cannot_skip(body, speed.1, tiles, Axis::Vertical),
    ensures
        ({
            let out = walk(body, speed, tiles, bounds);
            &&& out.within(bounds)
            &&& clear_of(out, tiles)
            &&& out.w == body.w
            &&& out.h == body.h
            &&& on_the_way(body.x, out.x, body.x + speed.0)
            &&& on_the_way(body.y, out.y, body.y + speed.1)
        }),
{
    let mid = step_axis(body, speed.1, tiles, bounds, Axis::Vertical);
    lemma_step_axis_is_safe(body, speed.1, tiles, bounds, Axis::Vertical);
    // the vertical step has not changed the width
    assert(cannot_skip(mid, speed.0, tiles, Axis::Horizontal));
    lemma_step_axis_is_safe(mid, speed.0, tiles, bounds, Axis::Horizontal);
}

/// A level with its player and camera.
#[derive(Debug)]
pub struct World {
    pub tiles: Vec<Tile>,
    pub player: Player,
    pub player_camera: PlayerCamera,
    /// The rectangle that the level covers.
    pub boundaries: Rect,
}

impl World {
    /// Well-formed: tiles and bounds are in range, player and camera
    /// well-formed.
    pub open spec fn wf(self) -> bool {
        &&& tiles_in_range(self.tiles@)
        &&& self.boundaries.in_range()
        &&& self.player.wf()
        &&& self.player_camera.wf()
    }

    /// Tests whether the world is well-formed.
    pub fn is_valid(&self) -> (ok: bool)
        ensures
            ok == self.wf(),
    {
        if !(self.boundaries.is_in_range() && self.player.is_valid()
            && self.player_camera.is_valid()) {
            return false;
        }
        let mut i: usize = 0;
        while i < self.tiles.len()
            invariant
                i <= self.tiles.len(),
                forall|j: int| 0 <= j < i ==> (#[trigger] self.tiles@[j]).rect.in_range(),
            decreases self.tiles.len() - i,
        {
            if !self.tiles[i].rect.is_in_range() {
                return false;
            }
            i += 1;
        }
        true
    }

    /// Whether the player stands inside the level and overlaps no tile.
    pub open spec fn player_is_free(self) -> bool {
        &&& self.player.rect@.within(self.boundaries@)
        &&& clear_of(self.player.rect@, self.tiles@)
    }

    /// Whether, with `keys` held, the player's step along each axis is too
    /// short to take it past a tile.
    pub open spec fn steps_are_short(self, keys: Keys) -> bool {
        let speed = steer(self.player.speed@, keys);
        &&& cannot_skip(self.player.rect@, speed.0, self.tiles@, Axis::Horizontal)
        &&& cannot_skip(self.player.rect@, speed.1, self.tiles@, Axis::Vertical)
    }

    /// In play: well-formed, with a player that is at rest between frames,
    /// stands inside the level and clear of the tiles, and is too large to
    /// get past a tile at walking speed. Every frame keeps a world in play.
    pub open spec fn in_play(self) -> bool {
        &&& self.wf()
        &&& self.player.speed@ == (0int, 0int)
        &&& self.player_is_free()
        &&& cannot_skip(self.player.rect@, WALK_SPEED as int, self.tiles@, Axis::Horizontal)
        &&& cannot_skip(self.player.rect@, WALK_SPEED as int, self.tiles@, Axis::Vertical)
    }

    /// Whether `next` is this world's player after a frame with `keys` held:
    /// steered by the keys, shown accordingly, moved by the resulting speed,
    /// and at rest again.
    pub open spec fn walks_to(self, keys: Keys, next: Player) -> bool {
        let speed = steer(self.player.speed@, keys);
        &&& next.rect@ == walk(self.player.rect@, speed, self.tiles@, self.boundaries@)
        &&& next.speed@ == (0int, 0int)
        &&& next.animation == facing(speed)
        &&& next.animation_frame == next_frame(
            facing(speed) != self.player.animation,
            self.player.animation_frame as int,
            facing(speed).frames(),
        )
    }

    /// Whether `next` is this world's camera after a frame in which it
    /// trails a body at `body`: aimed at the body's centre, then moved and
    /// kept inside the level.
    pub open spec fn trails_to(self, body: Region, next: PlayerCamera) -> bool {
        let camera = self.player_camera;
        let goal = center_of(body);
        let speed = chase_speed(camera.target@, camera.speed@, goal);
        &&& next.speed@ == speed
        &&& next.target@ == shift_view(
            chase_center(camera.target@, goal),
            speed,
            camera.width as int,
            camera.height as int,
            self.boundaries@,
        )
        &&& next.width == camera.width
        &&& next.height == camera.height
    }

    /// Builds the level that `map_data` describes, row by row from the top,
    /// each row from the left. Every cell is one tile wide and high. A cell
    /// that holds [`CELL_TILE`] becomes a tile; the cell that holds
    /// [`CELL_PLAYER`] is where the player starts, the last such cell if
    /// there are several, the origin if there is none. The level is as wide
    /// as the first row and as high as the map. The camera starts at rest
    /// with its view at the origin.
    pub fn new(map_data: Vec<Vec<i32>>) -> (world: World)
        requires
            0 < map_data.len() <= MAX_SIDE,
            forall|row: int|
                0 <= row < map_data.len() ==> (#[trigger] map_data[row]).len() <= MAX_SIDE,
        ensures
            regions(world.tiles@) == map_regions(grid(map_data@)),
            world.boundaries@ == (Region {
                x: 0,
                y: 0,
                w: map_data[0].len() * TILE_SIZE,
                h: map_data.len() * TILE_SIZE,
            }),
            forall|row: int, col: int| #[trigger]
                is_start(grid(map_data@), row, col) ==> world.player.rect@ == cell_region(
                    col,
                    row,
                ),
            (forall|row: int, col: int| !#[trigger] holds(grid(map_data@), row, col, CELL_PLAYER))
                ==> world.player.rect@ == cell_region(0, 0),
            world.player.speed@ == (0int, 0int),
            world.player.animation == PlayerAnimation::Idle,
            world.player.animation_frame == 0,
            world.player_camera.target@ == (VIEW_WIDTH * HALF_PIXEL, VIEW_HEIGHT * HALF_PIXEL),
            world.player_camera.speed@ == (0int, 0int),
            world.player_camera.width == VIEW_WIDTH,
            world.player_camera.height == VIEW_HEIGHT,
            world.wf(),
            forall|row: int, col: int| #[trigger]
                is_start(grid(map_data@), row, col) && col < map_data[0].len()
                    ==> world.in_play(),
    {
        let ghost map = grid(map_data@);
        let ghost mut last: Option<(int, int)> = None;
        let mut tiles: Vec<Tile> = Vec::new();
        let mut player = Player::new(0, 0);
        let mut row: usize = 0;
        while row < map_data.len()
            invariant
                row <= map_data.len() <= MAX_SIDE,
                forall|r: int|
                    0 <= r < map_data.len() ==> (#[trigger] map_data[r]).len() <= MAX_SIDE,
                map == grid(map_data@),
                regions(tiles@) == map_regions(map.take(row as int)),
                tiles_in_range(tiles@),
                player.wf(),
                player.speed@ == (0int, 0int),
                player.animation == PlayerAnimation::Idle,
                player.animation_frame == 0,
                start_so_far(map, row as int, 0, last, player.rect@),
            decreases map_data.len() - row,
        {
            let cells = &map_data[row];
            let mut col: usize = 0;
            assert(regions(tiles@) == map_regions(map.take(row as int)) + row_regions(
                cells@.take(0),
                row as int,
            ));
            while col < cells.len()
                invariant
                    row < map_data.len() <= MAX_SIDE,
                    col <= cells.len() <= MAX_SIDE,
                    map == grid(map_data@),
                    map[row as int] == cells@,
                    regions(tiles@) == map_regions(map.take(row as int)) + row_regions(
                        cells@.take(col as int),
                        row as int,
                    ),
                    tiles_in_range(tiles@),
                    player.wf(),
                    player.speed@ == (0int, 0int),
                    player.animation == PlayerAnimation::Idle,
                    player.animation_frame == 0,
                    start_so_far(map, row as int, col as int, last, player.rect@),
                decreases cells.len() - col,
            {
                let code: i32 = cells[col];
                let x: i64 = col as i64 * TILE_SIZE;
                let y: i64 = row as i64 * TILE_SIZE;
                assert(cells@.take(col + 1).drop_last() == cells@.take(col as int));
                if code == CELL_TILE {
                    let tile = Tile::new(x, y);
                    let ghost before = tiles@;
                    tiles.push(tile);
                    assert(regions(tiles@) == regions(before).push(tile.rect@));
                }
                if code == CELL_PLAYER {
                    player.rect.x = x;
                    player.rect.y = y;
                    proof {
                        last = Some((row as int, col as int));
                    }
                }
                col += 1;
            }
            assert(cells@.take(cells.len() as int) == cells@);
            assert(map.take(row + 1).drop_last() == map.take(row as int));
            row += 1;
        }
        assert(map.take(map_data.len() as int) == map);
        let boundaries = Rect::new(
            0,
            0,
            map_data[0].len() as i64 * TILE_SIZE,
            map_data.len() as i64 * TILE_SIZE,
        );
        let world = World {
            tiles,
            player,
            player_camera: PlayerCamera::new(VIEW_WIDTH, VIEW_HEIGHT),
            boundaries,
        };
        proof {
            // every tile covers a cell marked for a tile, so none covers the
            // cell that the player starts on
            lemma_map_regions_are_tile_cells(map);
            assert forall|i: int| 0 <= i < world.tiles@.len() implies is_tile_cell(
                map,
                (#[trigger] world.tiles@[i]).rect@,
            ) by {
                assert(regions(world.tiles@)[i] == world.tiles@[i].rect@);
            }
        }
        world
    }

    /// Moves the player for one frame with `keys` held.
    ///
    /// A player that stands inside the level and clear of the tiles, and
    /// whose steps are short, stands so afterwards.
    pub fn update_player(&mut self, keys: Keys)
        requires
            old(self).wf(),
        ensures
            old(self).walks_to(keys, final(self).player),
            final(self).tiles == old(self).tiles,
            final(self).boundaries == old(self).boundaries,
            final(self).player_camera == old(self).player_camera,
            final(self).wf(),
            old(self).player_is_free() && old(self).steps_are_short(keys)
                ==> final(self).player_is_free(),
            old(self).in_play() ==> final(self).in_play(),
    {
        proof {
            let speed = steer(self.player.speed@, keys);
            if self.player_is_free() && self.steps_are_short(keys) {
                lemma_walk_is_safe(self.player.rect@, speed, self.tiles@, self.boundaries@);
            }
        }
        self.player.update(keys);
        let speed = self.player.speed;
        self.player.rect = move_along(
            self.player.rect,
            speed.y,
            &self.tiles,
            &self.boundaries,
            Axis::Vertical,
        );
        self.player.rect = move_along(
            self.player.rect,
            speed.x,
            &self.tiles,
            &self.boundaries,
            Axis::Horizontal,
        );
        self.player.speed = Vec2::new(0, 0);
    }

    /// Lets the camera trail the player for one frame.
    pub fn update_camera(&mut self)
        requires
            old(self).wf(),
        ensures
            old(self).trails_to(old(self).player.rect@, final(self).player_camera),
            final(self).tiles == old(self).tiles,
            final(self).boundaries == old(self).boundaries,
            final(self).player == old(self).player,
            final(self).wf(),
            forall|axis: Axis|
                old(self).player_camera.fits(old(self).boundaries@, axis)
                    ==> #[trigger] final(self).player_camera.shows_inside(
                    old(self).boundaries@,
                    axis,
                ),
            old(self).in_play() ==> final(self).in_play(),
    {
        let corner = self.player.rect.point();
        let size = self.player.rect.size();
        let goal = Vec2::new(
            corner.x * SUBPIXELS + size.x * HALF_PIXEL,
            corner.y * SUBPIXELS + size.y * HALF_PIXEL,
        );
        self.player_camera.follow(goal);
        self.player_camera.update(self.boundaries);
    }

    /// One frame: the player moves, then the camera trails it.
    pub fn update(&mut self, keys: Keys)
        requires
            old(self).wf(),
        ensures
            old(self).walks_to(keys, final(self).player),
            old(self).trails_to(final(self).player.rect@, final(self).player_camera),
            final(self).tiles == old(self).tiles,
            final(self).boundaries == old(self).boundaries,
            final(self).wf(),
            forall|axis: Axis|
                old(self).player_camera.fits(old(self).boundaries@, axis)
                    ==> #[trigger] final(self).player_camera.shows_inside(
                    old(self).boundaries@,
                    axis,
                ),
            old(self).in_play() ==> final(self).in_play(),
    {
        self.update_player(keys);
        self.update_camera();
    }
}

} // verus!
