//! What scrolls past the player: lane markers and obstacles.

use vstd::prelude::*;
use crate::config::{OBSTACLE_EXIT, ROADLINE_EXIT, ROAD_SPEED};
use crate::span::Span;

verus! {

/// One of the eight looks that an obstacle can have.
#[derive(Clone, Copy, Debug, PartialEq, Eq)]
pub enum ObstaclePreset {
    RacingBarrelBlue,
    RacingBarrelRed,
    RollingBallBlue,
    RollingBallRed,
    RacingConeStraight,
    RollingBallRedAlt,
    RollingBallBlueAlt,
    RollingBlockSquare,
}

/// Number of looks that an obstacle can have.
pub const PRESET_COUNT: usize = 8;

/// The looks in the order in which a random index picks them.
pub open spec fn preset_table() -> Seq<ObstaclePreset> {
    seq![
        ObstaclePreset::RacingBarrelBlue,
        ObstaclePreset::RacingBarrelRed,
        ObstaclePreset::RollingBallBlue,
        ObstaclePreset::RollingBallRed,
        ObstaclePreset::RacingConeStraight,
        ObstaclePreset::RollingBallRedAlt,
        ObstaclePreset::RollingBallBlueAlt,
        ObstaclePreset::RollingBlockSquare,
    ]
}

/// The look with the given index in the table of looks.
pub fn preset_at(index: usize) -> (p: ObstaclePreset)
    requires
        index < PRESET_COUNT,
    ensures
        p == preset_table()[index as int],
{
    if index == 0 {
        ObstaclePreset::RacingBarrelBlue
    } else if index == 1 {
        ObstaclePreset::RacingBarrelRed
    } else if index == 2 {
        ObstaclePreset::RollingBallBlue
    } else if index == 3 {
        ObstaclePreset::RollingBallRed
    } else if index == 4 {
        ObstaclePreset::RacingConeStraight
    } else if index == 5 {
        ObstaclePreset::RollingBallRedAlt
    } else if index == 6 {
        ObstaclePreset::RollingBallBlueAlt
    } else {
        ObstaclePreset::RollingBlockSquare
    }
}

/// A lane marker.
#[derive(Clone, Copy, Debug, PartialEq, Eq)]
pub struct Roadline {
    pub x: i64,
    pub y: i64,
}

impl Roadline {
    /// Where the marker would be after scrolling for `delta`.
    pub open spec fn slid(&self, delta: u32) -> int {
        self.x - ROAD_SPEED * delta
    }

    /// Whether scrolling for `delta` takes the marker past the left edge.
    pub open spec fn leaves(&self, delta: u32) -> bool {
        self.slid(delta) < ROADLINE_EXIT
    }

    /// What one frame may make of this marker. One that stays in view has
    /// scrolled and nothing else; one that left comes back somewhere within
    /// the two spans.
    pub open spec fn follows(&self, delta: u32, xs: Span, ys: Span, next: Roadline) -> bool {
        if self.leaves(delta) {
            xs.contains(next.x as int) && ys.contains(next.y as int)
        } else {
            next.x == self.slid(delta) && next.y == self.y
        }
    }

    /// Whether scrolling for `delta` takes the marker past the left edge.
    pub fn crosses(&self, delta: u32) -> (b: bool)
        ensures
            b == self.leaves(delta),
    {
        assert(ROAD_SPEED * delta == 400 * delta);
        (self.x as i128) - (ROAD_SPEED as i128) * (delta as i128) < (ROADLINE_EXIT as i128)
    }

    /// The marker after scrolling for `delta`, for one that stays in view.
    pub fn scrolled(&self, delta: u32) -> (next: Roadline)
        requires
            !self.leaves(delta),
        ensures
            next.x == self.slid(delta),
            next.y == self.y,
    {
        assert(ROAD_SPEED * delta == 400 * delta);
        let x: i128 = (self.x as i128) - (ROAD_SPEED as i128) * (delta as i128);
        Roadline { x: x as i64, y: self.y }
    }

    /// The marker put back at the given place.
    pub fn recycled(&self, x: i64, y: i64) -> (next: Roadline)
        ensures
            next == (Roadline { x, y }),
    {
        Roadline { x, y }
    }
}

/// An obstacle: its look, its place and how fast it scrolls to the left, in
/// units per second.
#[derive(Clone, Copy, Debug, PartialEq, Eq)]
pub struct Obstacle {
    pub preset: ObstaclePreset,
    pub x: i64,
    pub y: i64,
    pub speed: i64,
}

impl Obstacle {
    /// An obstacle never scrolls to the right.
    pub open spec fn wf(&self) -> bool {
        self.speed >= 0
    }

    /// Where the obstacle would be after scrolling for `delta`.
    pub open spec fn slid(&self, delta: u32) -> int {
        self.x - self.speed * delta
    }

    /// Whether scrolling for `delta` takes the obstacle past the left edge.
    pub open spec fn leaves(&self, delta: u32) -> bool {
        self.slid(delta) < OBSTACLE_EXIT
    }

    /// Whether place and speed lie within the three spans.
    pub open spec fn within(&self, xs: Span, ys: Span, speeds: Span) -> bool {
        &&& xs.contains(self.x as int)
        &&& ys.contains(self.y as int)
        &&& speeds.contains(self.speed as int)
    }

    /// What one frame may make of this obstacle. One that stays in view has
    /// scrolled and nothing else; one that left comes back with its look,
    /// at a place and with a speed somewhere within the three spans.
    pub open spec fn follows(
        &self,
        delta: u32,
        xs: Span,
        ys: Span,
        speeds: Span,
        next: Obstacle,
    ) -> bool {
        if self.leaves(delta) {
            next.preset == self.preset && next.within(xs, ys, speeds)
        } else {
            &&& next.preset == self.preset
            &&& next.x == self.slid(delta)
            &&& next.y == self.y
            &&& next.speed == self.speed
        }
    }

    /// Whether scrolling for `delta` takes the obstacle past the left edge.
    pub fn crosses(&self, delta: u32) -> (b: bool)
        ensures
            b == self.leaves(delta),
    {
        proof {
            Self::product_fits(self.speed as int, delta as int);
        }
        (self.x as i128) - (self.speed as i128) * (delta as i128) < (OBSTACLE_EXIT as i128)
    }

    /// The obstacle after scrolling for `delta`, for one that stays in view.
    pub fn scrolled(&self, delta: u32) -> (next: Obstacle)
        requires
            self.wf(),
            !self.leaves(delta),
        ensures
            next.preset == self.preset,
            next.x == self.slid(delta),
            next.y == self.y,
            next.speed == self.speed,
    {
        proof {
            Self::product_fits(self.speed as int, delta as int);
            assert(self.speed * delta >= 0) by (nonlinear_arith)
                requires self.speed >= 0, delta >= 0;
        }
        let x: i128 = (self.x as i128) - (self.speed as i128) * (delta as i128);
        Obstacle { preset: self.preset, x: x as i64, y: self.y, speed: self.speed }
    }

    /// The obstacle put back at the given place, with the given speed.
    pub fn recycled(&self, x: i64, y: i64, speed: i64) -> (next: Obstacle)
        ensures
            next == (Obstacle { preset: self.preset, x, y, speed }),
    {
        Obstacle { preset: self.preset, x, y, speed }
    }

    proof fn product_fits(speed: int, delta: int)
        requires
            i64::MIN <= speed <= i64::MAX,
            0 <= delta <= u32::MAX,
        ensures
            -0x8000_0000_0000_0000_0000_0000 <= speed * delta <= 0x8000_0000_0000_0000_0000_0000,
    {
        assert(speed * delta <= 0x8000_0000_0000_0000 * 0x1_0000_0000) by (nonlinear_arith)
            requires speed <= 0x8000_0000_0000_0000, 0 <= delta <= 0x1_0000_0000;
        assert(speed * delta >= -0x8000_0000_0000_0000 * 0x1_0000_0000) by (nonlinear_arith)
            requires speed >= -0x8000_0000_0000_0000, 0 <= delta <= 0x1_0000_0000;
    }
}

} // verus!
