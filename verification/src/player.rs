//! The player: steering, the walk cycle, and where its image goes.

use vstd::prelude::*;
use crate::geometry::{Rect, Vec2, COORD_LIMIT, TILE_SIZE};

verus! {

/// Pixels that the player walks per frame along an axis while a key is held.
pub const WALK_SPEED: i64 = 1;

/// The walk cycle is counted in hundredths of an image.
pub const FRAME_UNIT: u32 = 100;

/// How far the walk cycle advances per frame, in hundredths of an image.
pub const FRAME_STEP: u32 = 8;

/// The player's image is wider than its body: it starts this far to the left
/// of the body's rectangle.
pub const SPRITE_SHIFT_X: i64 = 8;

/// The player's image is taller than its body: it starts this far above the
/// body's rectangle.
pub const SPRITE_SHIFT_Y: i64 = 16;

/// The image sequences that the player is shown with.
#[derive(Clone, Copy, Debug, PartialEq, Eq, Hash, Structural)]
pub enum PlayerAnimation {
    Idle,
    MoveUp,
    MoveDown,
    MoveLeft,
    MoveRight,
}

impl PlayerAnimation {
    /// Number of images in the sequence. At rest the player shows one image;
    /// each walk has nine.
    pub open spec fn frames(self) -> int {
        match self {
            PlayerAnimation::Idle => 1,
            _ => 9,
        }
    }

    /// Name of the directory that holds the sequence's images. At rest the
    /// player shows the first image of the walk down.
    pub open spec fn directory_name(self) -> Seq<char> {
        match self {
            PlayerAnimation::Idle => "move_down"@,
            PlayerAnimation::MoveUp => "move_up"@,
            PlayerAnimation::MoveDown => "move_down"@,
            PlayerAnimation::MoveLeft => "move_left"@,
            PlayerAnimation::MoveRight => "move_right"@,
        }
    }

    /// Number of images in the sequence.
    pub fn frame_count(&self) -> (n: usize)
        ensures
            n == self.frames(),
    {
        match self {
            PlayerAnimation::Idle => 1,
            _ => 9,
        }
    }

    /// Length of the sequence's walk cycle, in hundredths of an image.
    pub fn cycle_length(&self) -> (length: u32)
        ensures
            length == self.frames() * FRAME_UNIT,
    {
        match self {
            PlayerAnimation::Idle => FRAME_UNIT,
            _ => 9 * FRAME_UNIT,
        }
    }

    /// Name of the directory that holds the sequence's images, numbered from
    /// zero.
    pub fn directory(&self) -> (name: &'static str)
        ensures
            name@ == self.directory_name(),
    {
        match self {
            PlayerAnimation::Idle => "move_down",
            PlayerAnimation::MoveUp => "move_up",
            PlayerAnimation::MoveDown => "move_down",
            PlayerAnimation::MoveLeft => "move_left",
            PlayerAnimation::MoveRight => "move_right",
        }
    }
}

/// Which of the four arrow keys are held down.
#[derive(Clone, Copy, Debug, PartialEq, Eq, Structural)]
pub struct Keys {
    pub right: bool,
    pub left: bool,
    pub down: bool,
    pub up: bool,
}

/// The speed after the keys have had their say. A held key sets the speed
/// along its axis to [`WALK_SPEED`] in its direction; left wins over right and
/// up over down. An axis with no key held keeps its speed.
pub open spec fn steer(speed: (int, int), keys: Keys) -> (int, int) {
    (
        if keys.left {
            -WALK_SPEED
        } else if keys.right {
            WALK_SPEED as int
        } else {
            speed.0
        },
        if keys.up {
            -WALK_SPEED
        } else if keys.down {
            WALK_SPEED as int
        } else {
            speed.1
        },
    )
}

/// The sequence that shows a player moving at `speed`. Sideways movement
/// decides before vertical movement.
pub open spec fn facing(speed: (int, int)) -> PlayerAnimation {
    if speed.0 > 0 {
        PlayerAnimation::MoveRight
    } else if speed.0 < 0 {
        PlayerAnimation::MoveLeft
    } else if speed.1 > 0 {
        PlayerAnimation::MoveDown
    } else if speed.1 < 0 {
        PlayerAnimation::MoveUp
    } else {
        PlayerAnimation::Idle
    }
}

/// The walk cycle's next position, in hundredths of an image: [`FRAME_STEP`]
/// further, or back at the start once the end of a sequence of `frames`
/// images is reached. A sequence that has just been switched to starts from
/// zero before it advances.
pub open spec fn next_frame(switched: bool, frame: int, frames: int) -> int {
    let from = if switched {
        0
    } else {
        frame
    };
    if from + FRAME_STEP >= frames * FRAME_UNIT {
        0
    } else {
        from + FRAME_STEP
    }
}

/// The entity that the keys move.
#[derive(Clone, Copy, Debug, PartialEq, Eq, Structural)]
pub struct Player {
    /// The body: what collides with tiles.
    pub rect: Rect,
    /// Pixels to move in the coming frame.
    pub speed: Vec2,
    /// The sequence being shown.
    pub animation: PlayerAnimation,
    /// Position in the sequence, in hundredths of an image.
    pub animation_frame: u32,
}

impl Player {
    /// Whether the walk cycle's position is inside the sequence being shown.
    pub open spec fn frame_in_cycle(self) -> bool {
        self.animation_frame < self.animation.frames() * FRAME_UNIT
    }

    /// Well-formed: the body is in reach, the speed within [`COORD_LIMIT`] of
    /// zero along each axis, and the walk cycle's position inside the sequence
    /// being shown.
    pub open spec fn wf(self) -> bool {
        &&& self.rect.in_reach()
        &&& -COORD_LIMIT <= self.speed.x <= COORD_LIMIT
        &&& -COORD_LIMIT <= self.speed.y <= COORD_LIMIT
        &&& self.frame_in_cycle()
    }

    /// Tests whether the player is well-formed.
    pub fn is_valid(&self) -> (ok: bool)
        ensures
            ok == self.wf(),
    {
        self.rect.is_in_reach() && -COORD_LIMIT <= self.speed.x && self.speed.x <= COORD_LIMIT
            && -COORD_LIMIT <= self.speed.y && self.speed.y <= COORD_LIMIT && self.animation_frame
            < self.animation.cycle_length()
    }

    /// A player at rest with its body's top-left corner at `(x, y)`. The body
    /// is one tile wide and high.
    pub fn new(x: i64, y: i64) -> (player: Player)
        ensures
            player == (Player {
                rect: Rect { x, y, w: TILE_SIZE, h: TILE_SIZE },
                speed: Vec2 { x: 0, y: 0 },
                animation: PlayerAnimation::Idle,
                animation_frame: 0,
            }),
    {
        Player {
            rect: Rect { x, y, w: TILE_SIZE, h: TILE_SIZE },
            speed: Vec2 { x: 0, y: 0 },
            animation: PlayerAnimation::Idle,
            animation_frame: 0,
        }
    }

    /// Picks the sequence that fits the speed and advances the walk cycle.
    pub fn animate(&mut self)
        ensures
            final(self).rect == old(self).rect,
            final(self).speed == old(self).speed,
            final(self).animation == facing(old(self).speed@),
            final(self).animation_frame == next_frame(
                facing(old(self).speed@) != old(self).animation,
                old(self).animation_frame as int,
                facing(old(self).speed@).frames(),
            ),
            final(self).frame_in_cycle(),
    {
        let mut animation = PlayerAnimation::Idle;
        if self.speed.x > 0 {
            animation = PlayerAnimation::MoveRight;
        } else if self.speed.x < 0 {
            animation = PlayerAnimation::MoveLeft;
        } else if self.speed.y > 0 {
            animation = PlayerAnimation::MoveDown;
        } else if self.speed.y < 0 {
            animation = PlayerAnimation::MoveUp;
        }
        if animation != self.animation {
            self.animation = animation;
            self.animation_frame = 0;
        }
        let end: u32 = self.animation.cycle_length();
        if self.animation_frame >= end - FRAME_STEP {
            self.animation_frame = 0;
        } else {
            self.animation_frame = self.animation_frame + FRAME_STEP;
        }
    }

    /// Index of the image to show, within the sequence being shown.
    pub fn frame_index(&self) -> (index: usize)
        ensures
            index == self.animation_frame / FRAME_UNIT,
            self.frame_in_cycle() ==> index < self.animation.frames(),
    {
        (self.animation_frame / FRAME_UNIT) as usize
    }

    /// Where the player's image goes: the world position of its top-left
    /// corner, up and to the left of the body.
    pub fn draw(&self) -> (at: Vec2)
        requires
            self.rect.x - SPRITE_SHIFT_X >= i64::MIN,
            self.rect.y - SPRITE_SHIFT_Y >= i64::MIN,
        ensures
            at.x == self.rect.x - SPRITE_SHIFT_X,
            at.y == self.rect.y - SPRITE_SHIFT_Y,
    {
        Vec2 { x: self.rect.x - SPRITE_SHIFT_X, y: self.rect.y - SPRITE_SHIFT_Y }
    }

    /// Turns the held keys into the speed for the coming frame.
    pub fn process_input(&mut self, keys: Keys)
        ensures
            final(self).speed@ == steer(old(self).speed@, keys),
            final(self).rect == old(self).rect,
            final(self).animation == old(self).animation,
            final(self).animation_frame == old(self).animation_frame,
    {
        if keys.right {
            self.speed.x = WALK_SPEED;
        }
        if keys.left {
            self.speed.x = -WALK_SPEED;
        }
        if keys.down {
            self.speed.y = WALK_SPEED;
        }
        if keys.up {
            self.speed.y = -WALK_SPEED;
        }
    }

    /// The player's part of a frame before it moves: the keys, then the walk
    /// cycle.
    pub fn update(&mut self, keys: Keys)
        ensures
            final(self).rect == old(self).rect,
            final(self).speed@ == steer(old(self).speed@, keys),
            final(self).animation == facing(steer(old(self).speed@, keys)),
            final(self).animation_frame == next_frame(
                facing(steer(old(self).speed@, keys)) != old(self).animation,
                old(self).animation_frame as int,
                facing(steer(old(self).speed@, keys)).frames(),
            ),
            final(self).frame_in_cycle(),
    {
        self.process_input(keys);
        self.animate();
    }
}

impl Default for Player {
    /// A player at rest at the origin, with a body of no size.
    fn default() -> (player: Player)
        ensures
            player == (Player {
                rect: Rect { x: 0, y: 0, w: 0, h: 0 },
                speed: Vec2 { x: 0, y: 0 },
                animation: PlayerAnimation::Idle,
                animation_frame: 0,
            }),
    {
        Player {
            rect: Rect { x: 0, y: 0, w: 0, h: 0 },
            speed: Vec2 { x: 0, y: 0 },
            animation: PlayerAnimation::Idle,
            animation_frame: 0,
        }
    }
}

} // verus!
