//! The player's sprite: steering, movement and the edge of the road.

use vstd::prelude::*;
use crate::config::{BANK_STEP, PLAYER_REACH, PLAYER_SPEED, ROAD_HALF_HEIGHT};

verus! {

/// The direction that the keys ask for: 1 for up, -1 for down, 0 for neither
/// or for both at once.
pub open spec fn steering(up: bool, down: bool) -> int {
    (if up { 1int } else { 0int }) - (if down { 1int } else { 0int })
}

/// The direction that the keys ask for.
pub fn steer(up: bool, down: bool) -> (direction: i8)
    ensures
        direction == steering(up, down),
{
    let mut direction: i8 = 0;
    if up {
        direction += 1;
    }
    if down {
        direction -= 1;
    }
    direction
}

/// Whether a sprite at height `y` is off the road.
pub open spec fn off_road(y: int) -> bool {
    y > ROAD_HALF_HEIGHT || y < -ROAD_HALF_HEIGHT
}

/// The player. It only moves up and down; `bank` is how far it is turned
/// away from its heading, in hundredths of a radian.
#[derive(Clone, Copy, Debug, PartialEq, Eq)]
pub struct Player {
    pub y: i64,
    pub bank: i16,
}

impl Player {
    /// The player can be moved for one frame, however long, without leaving
    /// the range of its coordinate.
    pub open spec fn in_reach(&self) -> bool {
        -PLAYER_REACH <= self.y <= PLAYER_REACH
    }

    /// Where the player is after steering in `direction` for `delta`.
    pub open spec fn height_after(&self, direction: int, delta: u32) -> int {
        self.y + direction * PLAYER_SPEED * delta
    }

    /// How far the player banks while steering in `direction`.
    pub open spec fn bank_for(direction: int) -> int {
        BANK_STEP * direction
    }

    pub open spec fn is_off_road(&self) -> bool {
        off_road(self.y as int)
    }

    /// The player at rest in the middle of the road.
    pub fn new() -> (p: Player)
        ensures
            p == (Player { y: 0, bank: 0 }),
    {
        Player { y: 0, bank: 0 }
    }

    /// Moves the player for one frame: up or down by its speed times `delta`,
    /// banked towards where it goes.
    pub fn advance(&mut self, direction: i8, delta: u32)
        requires
            -1 <= direction <= 1,
            old(self).in_reach(),
        ensures
            final(self).y == old(self).height_after(direction as int, delta),
            final(self).bank == Player::bank_for(direction as int),
    {
        let step: i64 = PLAYER_SPEED * (delta as i64);
        proof {
            let d: int = direction as int;
            let t: int = delta as int;
            assert(d * PLAYER_SPEED * t == if d == 1 {
                400 * t
            } else if d == 0 {
                0
            } else {
                -400 * t
            }) by (nonlinear_arith)
                requires PLAYER_SPEED == 400, -1 <= d <= 1;
        }
        if direction > 0 {
            self.y = self.y + step;
        } else if direction < 0 {
            self.y = self.y - step;
        }
        self.bank = BANK_STEP * (direction as i16);
    }

    /// Whether the player has left the road.
    pub fn left_road(&self) -> (b: bool)
        ensures
            b == self.is_off_road(),
    {
        self.y > ROAD_HALF_HEIGHT || self.y < -ROAD_HALF_HEIGHT
    }
}

} // verus!
