//! Positions, the playing field and sprite sizes.
use vstd::prelude::*;

verus! {

/// Thousandths of a pixel in one pixel.
pub const MILLI: i64 = 1000;

/// Side of the dinosaur's sprite.
pub const PLAYER_SIZE: i64 = 75000;

/// Side of an obstacle's sprite.
pub const ENEMY_SIZE: i64 = 75000;

/// Largest distance from the origin that a stored coordinate may have; it keeps
/// every step of the game inside `i64`.
pub const POSITION_LIMIT: i64 = 0x1000_0000_0000_0000;

/// A point of the world, in thousandths of a pixel, y growing upwards.
#[derive(PartialEq, Eq, Structural, Clone, Copy, Debug)]
pub struct Position {
    pub x: i64,
    pub y: i64,
}

/// The visible field, in pixels; x runs from 0 to `width`.
#[derive(PartialEq, Eq, Structural, Clone, Copy, Debug)]
pub struct Field {
    pub width: u32,
    pub height: u32,
}

pub open spec fn within_limit(v: int) -> bool {
    -POSITION_LIMIT <= v <= POSITION_LIMIT
}

impl Field {
    /// The spawn edge, just past the right edge of the field: where obstacles
    /// are created, where they start moving, and where recycled ones go back.
    pub open spec fn spawn_x_spec(self) -> int {
        self.width * MILLI
    }

    /// An obstacle left of this line has left the visible band.
    pub open spec fn exit_x_spec(self) -> int {
        PLAYER_SIZE / 2
    }

    /// The height of the ground line.
    pub open spec fn ground_y_spec(self) -> int {
        self.height * MILLI / 2
    }

    pub fn spawn_x(&self) -> (r: i64)
        ensures
            r == self.spawn_x_spec(),
            0 <= r < POSITION_LIMIT,
    {
        self.width as i64 * MILLI
    }

    pub fn exit_x(&self) -> (r: i64)
        ensures
            r == self.exit_x_spec(),
    {
        PLAYER_SIZE / 2
    }

    pub fn ground_y(&self) -> (r: i64)
        ensures
            r == self.ground_y_spec(),
            0 <= r < POSITION_LIMIT,
    {
        self.height as i64 * MILLI / 2
    }
}

} // verus!
