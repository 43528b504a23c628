//! Component-level behavior: directions, grid stepping under both boundary
//! policies, the direction buffer, the clock, and collision checks.

use snake_core::clock::GameClock;
use snake_core::collision::check_food;
use snake_core::collision::check_self_collision;
use snake_core::food::select_spawn;
use snake_core::grid::Direction;
use snake_core::grid::Grid;
use snake_core::grid::Position;
use snake_core::segment::Segment;
use snake_core::segment::SegmentChain;
use snake_core::snake::Snake;

fn pos(x: i64, y: i64) -> Position {
    Position { x, y }
}

#[test]
fn opposite_maps_all_four_directions() {
    assert_eq!(Direction::Up.opposite(), Direction::Down);
    assert_eq!(Direction::Down.opposite(), Direction::Up);
    assert_eq!(Direction::Left.opposite(), Direction::Right);
    assert_eq!(Direction::Right.opposite(), Direction::Left);
}

#[test]
fn step_moves_one_cell_inside_the_board() {
    let grid = Grid { width: 12, height: 12, wrap: true };
    assert_eq!(grid.step(pos(5, 5), Direction::Right), pos(6, 5));
    assert_eq!(grid.step(pos(5, 5), Direction::Left), pos(4, 5));
    assert_eq!(grid.step(pos(5, 5), Direction::Up), pos(5, 4));
    assert_eq!(grid.step(pos(5, 5), Direction::Down), pos(5, 6));
}

#[test]
fn step_wraps_around_every_edge() {
    let grid = Grid { width: 12, height: 12, wrap: true };
    assert_eq!(grid.step(pos(11, 5), Direction::Right), pos(0, 5));
    assert_eq!(grid.step(pos(0, 5), Direction::Left), pos(11, 5));
    assert_eq!(grid.step(pos(3, 0), Direction::Up), pos(3, 11));
    assert_eq!(grid.step(pos(3, 11), Direction::Down), pos(3, 0));
}

#[test]
fn step_clamps_at_every_edge_when_wrap_is_off() {
    let grid = Grid { width: 12, height: 12, wrap: false };
    assert_eq!(grid.step(pos(11, 5), Direction::Right), pos(11, 5));
    assert_eq!(grid.step(pos(0, 5), Direction::Left), pos(0, 5));
    assert_eq!(grid.step(pos(3, 0), Direction::Up), pos(3, 0));
    assert_eq!(grid.step(pos(3, 11), Direction::Down), pos(3, 11));
}

#[test]
fn reversal_intent_is_dropped() {
    let mut s = Snake::new(pos(4, 4), Direction::Right);
    s.set_intent(Direction::Left);
    s.commit();
    assert_eq!(s.current_direction, Direction::Right);
}

#[test]
fn legal_intent_is_committed() {
    let mut s = Snake::new(pos(4, 4), Direction::Right);
    s.set_intent(Direction::Up);
    assert_eq!(s.current_direction, Direction::Right);
    s.commit();
    assert_eq!(s.current_direction, Direction::Up);
}

#[test]
fn only_latest_intent_counts_and_persists_across_commits() {
    let mut s = Snake::new(pos(0, 0), Direction::Right);
    s.set_intent(Direction::Up);
    s.set_intent(Direction::Down);
    s.commit();
    assert_eq!(s.current_direction, Direction::Down);
    s.commit();
    assert_eq!(s.current_direction, Direction::Down);
}

#[test]
fn clock_fires_once_per_interval_and_carries_excess() {
    let mut c = GameClock::new(100);
    assert!(!c.tick(30));
    assert!(c.tick(80));
    assert_eq!(c.accumulated, 10);
    assert!(c.tick(90));
    assert_eq!(c.accumulated, 0);
    assert!(!c.tick(99));
}

#[test]
fn clock_fires_at_most_once_per_call_under_lag() {
    let mut c = GameClock::new(10);
    assert!(c.tick(35));
    assert_eq!(c.accumulated, 25);
    assert!(c.tick(0));
    assert_eq!(c.accumulated, 15);
}

#[test]
fn self_collision_sees_exactly_the_segment_cells() {
    let chain = SegmentChain {
        segments: vec![
            Segment { position: pos(1, 0), countdown: 1 },
            Segment { position: pos(2, 0), countdown: 0 },
        ],
    };
    assert!(check_self_collision(pos(1, 0), &chain));
    assert!(check_self_collision(pos(2, 0), &chain));
    assert!(!check_self_collision(pos(0, 0), &chain));
}

#[test]
fn check_food_returns_the_first_matching_index() {
    let foods = vec![pos(3, 3), pos(5, 5), pos(5, 5)];
    assert_eq!(check_food(pos(5, 5), &foods), Some(1));
    assert_eq!(check_food(pos(3, 3), &foods), Some(0));
    assert_eq!(check_food(pos(9, 9), &foods), None);
}

#[test]
fn select_spawn_takes_the_first_unoccupied_draw() {
    let draws = vec![pos(0, 0), pos(1, 1), pos(2, 2)];
    let occupied = vec![pos(0, 0)];
    let foods = vec![pos(1, 1)];
    assert_eq!(select_spawn(&draws, &occupied, &foods), Some(pos(2, 2)));
    let all_blocked = vec![pos(0, 0), pos(1, 1), pos(2, 2)];
    let none: Vec<Position> = Vec::new();
    assert_eq!(select_spawn(&draws, &all_blocked, &none), None);
    assert_eq!(select_spawn(&draws, &none, &none), Some(pos(0, 0)));
}
