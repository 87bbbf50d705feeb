//! The blocks that the level is built from.

use vstd::prelude::*;
use crate::geometry::{Rect, Vec2, TILE_SIZE};

verus! {

/// A square block of the level. It is drawn where it stands and nothing
/// moves through it.
#[derive(Clone, Copy, Debug, PartialEq, Eq, Structural)]
pub struct Tile {
    pub rect: Rect,
}

impl Tile {
    /// A tile with its top-left corner at `(x, y)`.
    pub fn new(x: i64, y: i64) -> (tile: Tile)
        ensures
            tile.rect == (Rect { x, y, w: TILE_SIZE, h: TILE_SIZE }),
    {
        Tile { rect: Rect { x, y, w: TILE_SIZE, h: TILE_SIZE } }
    }

    /// Where the tile's image goes: the world position of its top-left
    /// corner.
    pub fn draw(&self) -> (at: Vec2)
        ensures
            at.x == self.rect.x,
            at.y == self.rect.y,
    {
        Vec2 { x: self.rect.x, y: self.rect.y }
    }
}

} // verus!
