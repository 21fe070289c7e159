//! The whole game: the scene that is set up once, and the update that runs
//! once per frame.

use vstd::prelude::*;
use crate::collision::{absorb, damage, Collision};
use crate::config::{
    OBSTACLES_AT_START, PLAYER_REACH, ROADLINES_MAX, ROADLINES_MIN, ROADLINE_START_REACH, SPAWN_PERIOD,
    SPAWN_X_HIGH, SPAWN_X_LOW, SPAWN_Y_HIGH, SPAWN_Y_LOW, SPEED_HIGH, SPEED_LOW, STARTING_HEALTH,
};
use crate::player::{off_road, steer, steering, Player};
use crate::scenery::{preset_at, Obstacle, Roadline, PRESET_COUNT};
use crate::span::Span;
use crate::text::{health_caption, health_text};
use crate::timer::RepeatingTimer;

verus! {

/// What the host hands to one frame: the time since the last frame in
/// microseconds, which of the two steering keys are held, and the collision
/// events that came up since.
#[derive(Clone, Debug, PartialEq, Eq)]
pub struct FrameInput {
    pub delta: u32,
    pub up: bool,
    pub down: bool,
    pub collisions: Vec<Collision>,
}

/// What one frame asks the host to do besides drawing the scene: play the
/// impact sound `impacts` times; where `game_over` is set, show the words for
/// a lost run, stop the music and play the jingle; where `spawned` is set,
/// give the last obstacle of the scene a sprite.
#[derive(Clone, Copy, Debug, PartialEq, Eq)]
pub struct FrameReport {
    pub impacts: u8,
    pub game_over: bool,
    pub spawned: bool,
}

impl FrameReport {
    /// The report of a frame in which nothing is to be done.
    pub open spec fn quiet() -> FrameReport {
        FrameReport { impacts: 0, game_over: false, spawned: false }
    }
}

/// The state of a run.
#[derive(Clone, Debug, PartialEq, Eq)]
pub struct World {
    /// Collisions that the player can still take.
    pub health: u8,
    /// Whether the run is over.
    pub lost: bool,
    /// Where a sprite that left the screen comes back, from left to right.
    pub x_values: Span,
    /// Where a sprite that left the screen comes back, from bottom to top.
    pub y_values: Span,
    /// How fast an obstacle scrolls, in units per second.
    pub speed_values: Span,
    /// Adds an obstacle each time it runs out.
    pub spawn_timer: RepeatingTimer,
    pub player: Player,
    pub roadlines: Vec<Roadline>,
    pub obstacles: Vec<Obstacle>,
    /// What the health display reads.
    pub health_text: String,
    /// Whether the words for a lost run are on screen.
    pub game_over_shown: bool,
}

/// Every obstacle of the list scrolls to the left or stands still.
pub open spec fn all_wf(obstacles: Seq<Obstacle>) -> bool {
    forall|i: int| 0 <= i < obstacles.len() ==> (#[trigger] obstacles[i]).wf()
}

/// The span from which a returning sprite's horizontal position is drawn.
pub open spec fn standard_xs() -> Span {
    Span { low: SPAWN_X_LOW, high: SPAWN_X_HIGH }
}

/// The span from which a sprite's vertical position is drawn.
pub open spec fn standard_ys() -> Span {
    Span { low: SPAWN_Y_LOW, high: SPAWN_Y_HIGH }
}

/// The span from which an obstacle's speed is drawn.
pub open spec fn standard_speeds() -> Span {
    Span { low: SPEED_LOW, high: SPEED_HIGH }
}

/// Scrolls every lane marker for one frame. A marker that passes the left
/// edge is put back at a place drawn from the two spans.
pub fn scroll_roadlines(lines: &mut Vec<Roadline>, delta: u32, xs: Span, ys: Span)
    requires
        xs.wf(),
        ys.wf(),
    ensures
        final(lines)@.len() == old(lines)@.len(),
        forall|i: int|
            0 <= i < old(lines)@.len() ==> old(lines)@[i].follows(
                delta,
                xs,
                ys,
                #[trigger] final(lines)@[i],
            ),
{
    let n: usize = lines.len();
    let mut i: usize = 0;
    while i < n
        invariant
            i <= n,
            lines@.len() == n,
            old(lines)@.len() == n,
            xs.wf(),
            ys.wf(),
            forall|j: int|
                0 <= j < i ==> old(lines)@[j].follows(delta, xs, ys, #[trigger] lines@[j]),
            forall|j: int| i <= j < n ==> #[trigger] lines@[j] == old(lines)@[j],
        decreases n - i,
    {
        let line: Roadline = lines[i];
        let next: Roadline = if line.crosses(delta) {
            let x: i64 = xs.draw();
            let y: i64 = ys.draw();
            line.recycled(x, y)
        } else {
            line.scrolled(delta)
        };
        lines.set(i, next);
        i += 1;
    }
}

/// Scrolls every obstacle for one frame. One that passes the left edge is put
/// back at a place, and with a speed, drawn from the three spans.
pub fn scroll_obstacles(
    obstacles: &mut Vec<Obstacle>,
    delta: u32,
    xs: Span,
    ys: Span,
    speeds: Span,
)
    requires
        xs.wf(),
        ys.wf(),
        speeds.wf(),
        speeds.low >= 0,
        all_wf(old(obstacles)@),
    ensures
        final(obstacles)@.len() == old(obstacles)@.len(),
        forall|i: int|
            0 <= i < old(obstacles)@.len() ==> old(obstacles)@[i].follows(
                delta,
                xs,
                ys,
                speeds,
                #[trigger] final(obstacles)@[i],
            ),
        all_wf(final(obstacles)@),
{
    let n: usize = obstacles.len();
    let mut i: usize = 0;
    while i < n
        invariant
            i <= n,
            obstacles@.len() == n,
            old(obstacles)@.len() == n,
            xs.wf(),
            ys.wf(),
            speeds.wf(),
            speeds.low >= 0,
            all_wf(obstacles@),
            forall|j: int|
                0 <= j < i ==> old(obstacles)@[j].follows(
                    delta,
                    xs,
                    ys,
                    speeds,
                    #[trigger] obstacles@[j],
                ),
            forall|j: int| i <= j < n ==> #[trigger] obstacles@[j] == old(obstacles)@[j],
        decreases n - i,
    {
        let obstacle: Obstacle = obstacles[i];
        assert(obstacle.wf());
        let next: Obstacle = if obstacle.crosses(delta) {
            let x: i64 = xs.draw();
            let y: i64 = ys.draw();
            let speed: i64 = speeds.draw();
            obstacle.recycled(x, y, speed)
        } else {
            obstacle.scrolled(delta)
        };
        obstacles.set(i, next);
        i += 1;
    }
}

/// Adds one obstacle to the scene: a look from the table, and a place and a
/// speed drawn from the three spans.
pub fn spawn_obstacle(obstacles: &mut Vec<Obstacle>, xs: Span, ys: Span, speeds: Span)
    requires
        xs.wf(),
        ys.wf(),
        speeds.wf(),
    ensures
        final(obstacles)@.len() == old(obstacles)@.len() + 1,
        final(obstacles)@.drop_last() == old(obstacles)@,
        final(obstacles)@.last().within(xs, ys, speeds),
{
    let looks: Span = Span { low: 0, high: PRESET_COUNT as i64 };
    let index: i64 = looks.draw();
    let preset = preset_at(index as usize);
    let x: i64 = xs.draw();
    let y: i64 = ys.draw();
    let speed: i64 = speeds.draw();
    obstacles.push(Obstacle { preset, x, y, speed });
    assert(obstacles@.drop_last() =~= old(obstacles)@);
}

impl World {
    /// What every function of the game relies on: the spans hold something
    /// and no speed is negative, the timer is sound, the run is lost exactly
    /// when no health is left and the screen says so, and until then the
    /// player is where a frame can move it.
    pub open spec fn wf(&self) -> bool {
        &&& self.x_values.wf()
        &&& self.y_values.wf()
        &&& self.speed_values.wf()
        &&& self.speed_values.low >= 0
        &&& self.spawn_timer.wf()
        &&& self.lost == (self.health == 0)
        &&& self.game_over_shown == self.lost
        &&& !self.lost ==> self.player.in_reach()
        &&& all_wf(self.obstacles@)
    }

    /// The state in which every run begins, around the given scene.
    pub open spec fn opens_with(&self, roadlines: Seq<Roadline>, obstacles: Seq<Obstacle>) -> bool {
        &&& self.health == STARTING_HEALTH
        &&& !self.lost
        &&& self.x_values == standard_xs()
        &&& self.y_values == standard_ys()
        &&& self.speed_values == standard_speeds()
        &&& self.spawn_timer == (RepeatingTimer { period: SPAWN_PERIOD, elapsed: 0 })
        &&& self.player == (Player { y: 0, bank: 0 })
        &&& self.roadlines@ == roadlines
        &&& self.obstacles@ == obstacles
        &&& self.health_text@ == health_caption(STARTING_HEALTH)
        &&& !self.game_over_shown
    }

    /// Where the scene of a new run may have its lane markers and obstacles.
    pub open spec fn opening_scene(roadlines: Seq<Roadline>, obstacles: Seq<Obstacle>) -> bool {
        &&& ROADLINES_MIN <= roadlines.len() <= ROADLINES_MAX
        &&& forall|i: int|
            0 <= i < roadlines.len() ==> {
                &&& -ROADLINE_START_REACH <= (#[trigger] roadlines[i]).x <= ROADLINE_START_REACH
                &&& standard_ys().contains(roadlines[i].y as int)
            }
        &&& obstacles.len() == OBSTACLES_AT_START
        &&& forall|i: int|
            0 <= i < obstacles.len() ==> (#[trigger] obstacles[i]).within(
                standard_xs(),
                standard_ys(),
                standard_speeds(),
            )
    }

    /// The state at the start of a run, around a scene that is given.
    pub fn assemble(roadlines: Vec<Roadline>, obstacles: Vec<Obstacle>) -> (w: World)
        requires
            all_wf(obstacles@),
        ensures
            w.wf(),
            w.opens_with(roadlines@, obstacles@),
    {
        World {
            health: STARTING_HEALTH,
            lost: false,
            x_values: Span { low: SPAWN_X_LOW, high: SPAWN_X_HIGH },
            y_values: Span { low: SPAWN_Y_LOW, high: SPAWN_Y_HIGH },
            speed_values: Span { low: SPEED_LOW, high: SPEED_HIGH },
            spawn_timer: RepeatingTimer { period: SPAWN_PERIOD, elapsed: 0 },
            player: Player::new(),
            roadlines,
            obstacles,
            health_text: health_text(STARTING_HEALTH),
            game_over_shown: false,
        }
    }

    /// The state at the start of a run, around a scene laid out at random:
    /// 8 to 17 lane markers spread over the screen, and 8 obstacles that wait
    /// to the right of it.
    pub fn setup() -> (w: World)
        ensures
            w.wf(),
            w.opens_with(w.roadlines@, w.obstacles@),
            World::opening_scene(w.roadlines@, w.obstacles@),
    {
        let xs: Span = Span { low: SPAWN_X_LOW, high: SPAWN_X_HIGH };
        let ys: Span = Span { low: SPAWN_Y_LOW, high: SPAWN_Y_HIGH };
        let speeds: Span = Span { low: SPEED_LOW, high: SPEED_HIGH };
        let counts: Span = Span { low: ROADLINES_MIN, high: ROADLINES_MAX + 1 };
        let starts: Span = Span { low: -ROADLINE_START_REACH, high: ROADLINE_START_REACH + 1 };
        let count: i64 = counts.draw();
        let mut roadlines: Vec<Roadline> = Vec::new();
        let mut i: i64 = 0;
        while i < count
            invariant
                0 <= i <= count <= ROADLINES_MAX,
                roadlines@.len() == i,
                ys == standard_ys(),
                starts.low == -ROADLINE_START_REACH,
                starts.high == ROADLINE_START_REACH + 1,
                forall|j: int|
                    0 <= j < roadlines@.len() ==> {
                        &&& -ROADLINE_START_REACH <= (#[trigger] roadlines@[j]).x
                            <= ROADLINE_START_REACH
                        &&& standard_ys().contains(roadlines@[j].y as int)
                    },
            decreases count - i,
        {
            let x: i64 = starts.draw();
            let y: i64 = ys.draw();
            roadlines.push(Roadline { x, y });
            i += 1;
        }
        let mut obstacles: Vec<Obstacle> = Vec::new();
        let mut k: usize = 0;
        while k < OBSTACLES_AT_START
            invariant
                k <= OBSTACLES_AT_START,
                obstacles@.len() == k,
                xs == standard_xs(),
                ys == standard_ys(),
                speeds == standard_speeds(),
                all_wf(obstacles@),
                forall|j: int|
                    0 <= j < obstacles@.len() ==> (#[trigger] obstacles@[j]).within(
                        standard_xs(),
                        standard_ys(),
                        standard_speeds(),
                    ),
            decreases OBSTACLES_AT_START - k,
        {
            let ghost before: Seq<Obstacle> = obstacles@;
            spawn_obstacle(&mut obstacles, xs, ys, speeds);
            assert forall|j: int| 0 <= j < obstacles@.len() implies {
                &&& (#[trigger] obstacles@[j]).within(
                    standard_xs(),
                    standard_ys(),
                    standard_speeds(),
                )
                &&& obstacles@[j].wf()
            } by {
                if j < before.len() {
                    assert(obstacles@[j] == obstacles@.drop_last()[j]);
                } else {
                    assert(obstacles@[j] == obstacles@.last());
                }
            }
            k += 1;
        }
        World::assemble(roadlines, obstacles)
    }

    /// Whether the state is well formed.
    pub fn is_valid(&self) -> (b: bool)
        ensures
            b == self.wf(),
    {
        let mut sound: bool = true;
        let mut i: usize = 0;
        while i < self.obstacles.len()
            invariant
                i <= self.obstacles@.len(),
                sound == all_wf(self.obstacles@.take(i as int)),
            decreases self.obstacles@.len() - i,
        {
            let ghost before: Seq<Obstacle> = self.obstacles@.take(i as int);
            let ghost after: Seq<Obstacle> = self.obstacles@.take(i as int + 1);
            if self.obstacles[i].speed < 0 {
                sound = false;
            }
            proof {
                assert(after[i as int] == self.obstacles@[i as int]);
                assert forall|j: int| 0 <= j < before.len() implies before[j] == after[j] by {}
                if all_wf(after) {
                    assert forall|j: int| 0 <= j < before.len() implies (#[trigger] before[j]).wf() by {
                        assert(after[j].wf());
                    }
                }
            }
            i += 1;
        }
        assert(self.obstacles@.take(i as int) =~= self.obstacles@);
        sound && self.x_values.low < self.x_values.high && self.y_values.low < self.y_values.high
            && self.speed_values.low < self.speed_values.high && self.speed_values.low >= 0
            && self.spawn_timer.period > 0 && self.spawn_timer.elapsed < self.spawn_timer.period
            && self.lost == (self.health == 0) && self.game_over_shown == self.lost && (self.lost
            || (-PLAYER_REACH <= self.player.y && self.player.y <= PLAYER_REACH))
    }

    /// Where the player is after the frame, for a run that is not lost.
    pub open spec fn height_next(&self, input: FrameInput) -> int {
        self.player.height_after(steering(input.up, input.down), input.delta)
    }

    /// Health once the player has moved: none where it left the road.
    pub open spec fn health_on_road(&self, input: FrameInput) -> u8 {
        if off_road(self.height_next(input)) {
            0
        } else {
            self.health
        }
    }

    /// Health that the frame's collisions take.
    pub open spec fn impacts(&self, input: FrameInput) -> nat {
        damage(self.health_on_road(input), input.collisions@)
    }

    /// Health after the frame, for a run that is not lost.
    pub open spec fn health_next(&self, input: FrameInput) -> int {
        self.health_on_road(input) - self.impacts(input)
    }

    /// What one frame makes of the state `self`. A lost run stays as it is.
    /// Otherwise the player moves as the keys say and loses all health where
    /// that takes it off the road; every lane marker and obstacle scrolls, or
    /// comes back within the spans where it left; each hit takes one health
    /// until none is left, and the display follows; without health the run is
    /// lost; and the timer adds an obstacle where it runs out.
    pub open spec fn advances(&self, input: FrameInput, next: World, report: FrameReport) -> bool {
        if self.lost {
            next == *self && report == FrameReport::quiet()
        } else {
            &&& next.x_values == self.x_values
            &&& next.y_values == self.y_values
            &&& next.speed_values == self.speed_values
            &&& next.player.y == self.height_next(input)
            &&& next.player.bank == Player::bank_for(steering(input.up, input.down))
            &&& next.health == self.health_next(input)
            &&& report.impacts == self.impacts(input)
            &&& next.health_text@ == (if self.impacts(input) > 0 {
                health_caption(next.health)
            } else {
                self.health_text@
            })
            &&& next.lost == (next.health == 0)
            &&& next.game_over_shown == next.lost
            &&& report.game_over == next.lost
            &&& next.spawn_timer == self.spawn_timer.after(input.delta)
            &&& report.spawned == self.spawn_timer.completes(input.delta)
            &&& next.roadlines@.len() == self.roadlines@.len()
            &&& forall|i: int|
                0 <= i < self.roadlines@.len() ==> self.roadlines@[i].follows(
                    input.delta,
                    self.x_values,
                    self.y_values,
                    #[trigger] next.roadlines@[i],
                )
            &&& next.obstacles@.len() == self.obstacles@.len() + (if report.spawned {
                1int
            } else {
                0int
            })
            &&& forall|i: int|
                0 <= i < self.obstacles@.len() ==> self.obstacles@[i].follows(
                    input.delta,
                    self.x_values,
                    self.y_values,
                    self.speed_values,
                    #[trigger] next.obstacles@[i],
                )
            &&& report.spawned ==> next.obstacles@.last().within(
                self.x_values,
                self.y_values,
                self.speed_values,
            )
        }
    }

    /// Runs the game for one frame and says what the host is to do.
    pub fn frame(&mut self, input: &FrameInput) -> (report: FrameReport)
        requires
            old(self).wf(),
        ensures
            final(self).wf(),
            old(self).advances(*input, *final(self), report),
    {
        if self.lost {
            return FrameReport { impacts: 0, game_over: false, spawned: false };
        }
        let direction: i8 = steer(input.up, input.down);
        self.player.advance(direction, input.delta);
        if self.player.left_road() {
            self.health = 0;
        }
        scroll_roadlines(&mut self.roadlines, input.delta, self.x_values, self.y_values);
        scroll_obstacles(
            &mut self.obstacles,
            input.delta,
            self.x_values,
            self.y_values,
            self.speed_values,
        );
        let ghost scrolled: Seq<Obstacle> = self.obstacles@;
        let impacts: u8 = absorb(self.health, &input.collisions);
        if impacts > 0 {
            self.health = self.health - impacts;
            self.health_text = health_text(self.health);
        }
        let game_over: bool = self.health == 0;
        if game_over {
            self.lost = true;
            self.game_over_shown = true;
        }
        let spawned: bool = self.spawn_timer.tick(input.delta) > 0;
        if spawned {
            spawn_obstacle(&mut self.obstacles, self.x_values, self.y_values, self.speed_values);
            proof {
                assert forall|i: int| 0 <= i < self.obstacles@.len() implies (
                #[trigger] self.obstacles@[i]).wf() by {
                    if i < scrolled.len() {
                        assert(self.obstacles@[i] == self.obstacles@.drop_last()[i]);
                    } else {
                        assert(self.obstacles@[i] == self.obstacles@.last());
                    }
                }
                assert forall|i: int| 0 <= i < scrolled.len() implies old(self).obstacles@[i].follows(
                    input.delta,
                    self.x_values,
                    self.y_values,
                    self.speed_values,
                    #[trigger] self.obstacles@[i],
                ) by {
                    assert(self.obstacles@[i] == self.obstacles@.drop_last()[i]);
                    assert(old(self).obstacles@[i].follows(
                        input.delta,
                        self.x_values,
                        self.y_values,
                        self.speed_values,
                        scrolled[i],
                    ));
                }
            }
        }
        FrameReport { impacts, game_over, spawned }
    }
}

} // verus!
