use road_race::collision::{absorb, Collision, CollisionState};
use road_race::player::{steer, Player};
use road_race::scenery::{preset_at, Obstacle, ObstaclePreset, Roadline};
use road_race::span::Span;
use road_race::text::{
    decimal_text, game_over_text, health_text, obstacle_label, roadline_label, window_title,
};
use road_race::timer::RepeatingTimer;

#[test]
fn span_new_refuses_an_empty_range() {
    assert_eq!(Span::new(3, 4), Some(Span { low: 3, high: 4 }));
    assert_eq!(Span::new(4, 4), None);
    assert_eq!(Span::new(5, 4), None);
}

#[test]
fn span_holds_its_low_end_only() {
    let span = Span { low: -2, high: 3 };
    assert!(!span.holds(-3));
    assert!(span.holds(-2));
    assert!(span.holds(2));
    assert!(!span.holds(3));
}

#[test]
fn draw_stays_within_the_span_and_varies() {
    let span = Span { low: 1_000, high: 1_000_000_000 };
    let first = span.draw();
    let mut varied = false;
    for _ in 0..200 {
        let value = span.draw();
        assert!(span.holds(value));
        if value != first {
            varied = true;
        }
    }
    assert!(varied);
}

#[test]
fn draw_from_a_span_of_one_value_gives_it() {
    let span = Span { low: -7, high: -6 };
    for _ in 0..20 {
        assert_eq!(span.draw(), -7);
    }
}

#[test]
fn draw_reaches_every_value_of_a_small_span() {
    let span = Span { low: 0, high: 8 };
    let mut seen = [false; 8];
    for _ in 0..2_000 {
        seen[span.draw() as usize] = true;
    }
    assert_eq!(seen, [true; 8]);
}

#[test]
fn timer_runs_out_and_starts_over() {
    assert_eq!(RepeatingTimer::new(0), None);
    let mut timer = RepeatingTimer::new(3_000_000).unwrap();
    assert_eq!(timer.tick(1_000_000), 0);
    assert_eq!(timer.tick(1_000_000), 0);
    assert_eq!(timer.elapsed, 2_000_000);
    assert_eq!(timer.tick(1_500_000), 1);
    assert_eq!(timer.elapsed, 500_000);
    assert_eq!(timer.tick(6_000_000), 2);
    assert_eq!(timer.elapsed, 500_000);
    assert_eq!(timer.tick(0), 0);
    assert_eq!(timer.elapsed, 500_000);
    assert_eq!(timer.period, 3_000_000);
}

#[test]
fn timer_takes_the_longest_frame() {
    let mut timer = RepeatingTimer { period: u32::MAX, elapsed: u32::MAX - 1 };
    assert_eq!(timer.tick(u32::MAX), 1);
    assert_eq!(timer.elapsed, u32::MAX - 1);
    let mut quick = RepeatingTimer { period: 1, elapsed: 0 };
    assert_eq!(quick.tick(u32::MAX), u32::MAX);
    assert_eq!(quick.elapsed, 0);
}

#[test]
fn texts_read_as_documented() {
    assert_eq!(health_text(5), "Health: 5");
    assert_eq!(health_text(0), "Health: 0");
    assert_eq!(health_text(10), "Health: 10");
    assert_eq!(health_text(109), "Health: 109");
    assert_eq!(health_text(255), "Health: 255");
    assert_eq!(game_over_text(), "GAME OVER");
    assert_eq!(window_title(), "Rusty Road Race");
}

#[test]
fn decimal_text_writes_every_digit() {
    assert_eq!(decimal_text(0), "0");
    assert_eq!(decimal_text(7), "7");
    assert_eq!(decimal_text(1234567890), "1234567890");
    assert_eq!(decimal_text(usize::MAX), format!("{}", usize::MAX));
}

#[test]
fn labels_number_the_sprites() {
    assert_eq!(roadline_label(0), "roadline0");
    assert_eq!(roadline_label(16), "roadline16");
    assert_eq!(obstacle_label(7), "obstacle7");
    assert_eq!(obstacle_label(108), "obstacle108");
}

#[test]
fn steer_weighs_the_two_keys() {
    assert_eq!(steer(false, false), 0);
    assert_eq!(steer(true, false), 1);
    assert_eq!(steer(false, true), -1);
    assert_eq!(steer(true, true), 0);
}

#[test]
fn player_advances_and_banks() {
    let mut player = Player::new();
    assert_eq!(player, Player { y: 0, bank: 0 });
    player.advance(1, 1_000_000);
    assert_eq!(player, Player { y: 400_000_000, bank: 15 });
    assert!(player.left_road());
    player.advance(-1, 100_000);
    assert_eq!(player, Player { y: 360_000_000, bank: -15 });
    assert!(!player.left_road());
    player.advance(0, 100_000);
    assert_eq!(player, Player { y: 360_000_000, bank: 0 });
    player.advance(-1, u32::MAX);
    assert_eq!(player.y, 360_000_000 - 400 * (u32::MAX as i64));
    assert!(player.left_road());
}

#[test]
fn player_leaves_the_road_past_360() {
    assert!(!Player { y: 360_000_000, bank: 0 }.left_road());
    assert!(Player { y: 360_000_001, bank: 0 }.left_road());
    assert!(!Player { y: -360_000_000, bank: 0 }.left_road());
    assert!(Player { y: -360_000_001, bank: 0 }.left_road());
}

#[test]
fn roadline_scrolls_at_road_speed() {
    let line = Roadline { x: 10_000_000, y: 5 };
    assert!(!line.crosses(1_000_000));
    assert_eq!(line.scrolled(1_000_000), Roadline { x: -390_000_000, y: 5 });
    assert!(!line.crosses(1_712_500));
    assert_eq!(line.scrolled(1_712_500), Roadline { x: -675_000_000, y: 5 });
    assert!(line.crosses(1_712_501));
    assert!(line.crosses(u32::MAX));
    assert_eq!(line.recycled(9, -9), Roadline { x: 9, y: -9 });
    assert!(Roadline { x: i64::MIN, y: 0 }.crosses(u32::MAX));
}

#[test]
fn obstacle_scrolls_at_its_own_speed() {
    let obstacle =
        Obstacle { preset: ObstaclePreset::RollingBallBlue, x: 700_000_000, y: -3, speed: 1_500 };
    assert!(!obstacle.crosses(1_000_000));
    assert_eq!(
        obstacle.scrolled(1_000_000),
        Obstacle { preset: ObstaclePreset::RollingBallBlue, x: -800_000_000, y: -3, speed: 1_500 }
    );
    assert!(obstacle.crosses(1_000_001));
    assert!(obstacle.crosses(u32::MAX));
    assert_eq!(
        obstacle.recycled(1, 2, 3),
        Obstacle { preset: ObstaclePreset::RollingBallBlue, x: 1, y: 2, speed: 3 }
    );
    let fast =
        Obstacle { preset: ObstaclePreset::RollingBallBlue, x: i64::MIN, y: 0, speed: i64::MAX };
    assert!(fast.crosses(u32::MAX));
}

#[test]
fn presets_come_in_table_order() {
    assert_eq!(preset_at(0), ObstaclePreset::RacingBarrelBlue);
    assert_eq!(preset_at(1), ObstaclePreset::RacingBarrelRed);
    assert_eq!(preset_at(2), ObstaclePreset::RollingBallBlue);
    assert_eq!(preset_at(3), ObstaclePreset::RollingBallRed);
    assert_eq!(preset_at(4), ObstaclePreset::RacingConeStraight);
    assert_eq!(preset_at(5), ObstaclePreset::RollingBallRedAlt);
    assert_eq!(preset_at(6), ObstaclePreset::RollingBallBlueAlt);
    assert_eq!(preset_at(7), ObstaclePreset::RollingBlockSquare);
}

#[test]
fn absorb_counts_hits_up_to_health() {
    let hit = Collision { state: CollisionState::Begin, involves_player: true };
    let end = Collision { state: CollisionState::End, involves_player: true };
    let other = Collision { state: CollisionState::Begin, involves_player: false };
    assert!(hit.is_hit());
    assert!(!end.is_hit());
    assert!(!other.is_hit());
    assert_eq!(absorb(5, &Vec::new()), 0);
    assert_eq!(absorb(5, &vec![hit, end, other, hit]), 2);
    assert_eq!(absorb(1, &vec![hit, end, other, hit]), 1);
    assert_eq!(absorb(0, &vec![hit, hit]), 0);
    assert_eq!(absorb(255, &vec![hit; 300]), 255);
}
