//! The rules of a small tile-based game: a grid of blocking tiles, a player
//! that walks between them, and a camera that trails the player.
//!
//! Everything is computed on integers. World positions are whole pixels; the
//! camera, which moves by fractions of a pixel, counts in sub-pixels, and the
//! walk cycle in hundredths of an image. Drawing and input are left to the
//! caller: the library takes the keys that are held and says where things
//! are.
//!
//! A frame is one call of [`World::update`]. The keys steer the player and
//! pick its animation; the player moves, first up or down and then sideways,
//! and is stopped by the level's edge and by the tiles; the camera takes aim
//! at the player and moves, kept inside the level. A world built by
//! [`World::new`] from a map whose start cell lies within the width of its
//! first row is in play, and every frame keeps it so: the player never
//! leaves the level and never enters a tile.

pub mod camera;
pub mod collision;
pub mod geometry;
pub mod player;
pub mod tile;
pub mod world;

pub use camera::PlayerCamera;
pub use collision::move_along;
pub use geometry::{is_overlaped, Axis, Rect, Region, Vec2, COORD_LIMIT, TILE_SIZE};
pub use player::{Keys, Player, PlayerAnimation};
pub use tile::Tile;
pub use world::World;
