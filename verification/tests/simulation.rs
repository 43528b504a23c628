//! Whole-game scenarios: growth bookkeeping, eating, dying, spawning and
//! the tick gating, driven through the top-level state.

use snake_core::food::FoodSpawner;
use snake_core::game::GameState;
use snake_core::game::TickEvent;
use snake_core::grid::Direction;
use snake_core::grid::Grid;
use snake_core::grid::Position;
use snake_core::segment::Segment;

fn pos(x: i64, y: i64) -> Position {
    Position { x, y }
}

fn wrap_grid() -> Grid {
    Grid { width: 12, height: 12, wrap: true }
}

fn fresh_game() -> GameState {
    GameState::new(wrap_grid(), pos(0, 0), Direction::Right, 1, 1, 4)
}

#[test]
fn length_matches_live_segments_before_and_after_growth() {
    let mut g = fresh_game();
    assert_eq!(g.length(), 0);
    assert_eq!(g.segment_positions().len(), 0);
    for step in 0..5u64 {
        let head = g.head();
        g.chain.grow(head, g.snake.length);
        g.snake.length += 1;
        assert_eq!(g.length(), step + 1);
        assert_eq!(g.segment_positions().len() as u64, g.length());
        let ev = g.tick_step();
        assert_eq!(g.segment_positions().len() as u64, g.length());
        assert!(ev != TickEvent::Died || g.length() == 0);
    }
}

#[test]
fn eating_n_foods_in_a_row_adds_n_to_the_length() {
    let mut g = fresh_game();
    // A trail of food straight ahead of the snake.
    let n: u64 = 4;
    for i in 0..n {
        g.spawner.foods.push(pos(1 + i as i64, 0));
    }
    let before = g.length();
    for i in 0..n {
        let ev = g.tick_step();
        assert_eq!(ev, TickEvent::Ate(pos(1 + i as i64, 0)));
        assert_eq!(g.length(), before + i + 1);
    }
    assert_eq!(g.length(), before + n);
    assert_eq!(g.spawner.foods.len(), 0);
}

#[test]
fn eating_spawns_a_segment_at_the_new_head() {
    let mut g = fresh_game();
    g.spawner.foods.push(pos(1, 0));
    let ev = g.tick_step();
    assert_eq!(ev, TickEvent::Ate(pos(1, 0)));
    assert_eq!(g.head(), pos(1, 0));
    assert_eq!(g.length(), 1);
    assert_eq!(g.segment_positions(), vec![pos(1, 0)]);
    assert_eq!(g.chain.segments[0].countdown, 1);
    assert_eq!(g.food_positions().len(), 0);
}

#[test]
fn growth_scenario_follows_the_countdown_timeline() {
    // Grid 12x12, wrap on; snake at (0,0), length 0, moving right. One
    // growth event leaves one segment at (0,0) with countdown 1; the next
    // tick moves the head to (1,0) while the segment stays (countdown hits
    // 0); the tick after that teleports the segment to (1,0) — the head's
    // cell just before this tick's move — and the head advances to (2,0).
    let mut g = fresh_game();
    g.chain.grow(pos(0, 0), 0);
    g.snake.length = 1;
    assert_eq!(g.length(), 1);
    assert_eq!(g.segment_positions(), vec![pos(0, 0)]);
    assert_eq!(g.chain.segments[0].countdown, 1);

    let ev = g.tick_step();
    assert_eq!(ev, TickEvent::Moved);
    assert_eq!(g.head(), pos(1, 0));
    assert_eq!(g.segment_positions(), vec![pos(0, 0)]);
    assert_eq!(g.chain.segments[0].countdown, 0);

    let ev2 = g.tick_step();
    assert_eq!(ev2, TickEvent::Moved);
    assert_eq!(g.head(), pos(2, 0));
    assert_eq!(g.segment_positions(), vec![pos(1, 0)]);
}

#[test]
fn self_collision_kills_exactly_once_and_clears_everything() {
    let mut g = fresh_game();
    // A snake of length 4 whose next move lands on one of its own cells.
    g.snake.head = pos(0, 0);
    g.chain.segments = vec![
        Segment { position: pos(1, 0), countdown: 1 },
        Segment { position: pos(1, 1), countdown: 2 },
        Segment { position: pos(0, 1), countdown: 3 },
        Segment { position: pos(5, 5), countdown: 0 },
    ];
    g.snake.length = 4;
    let ev = g.tick_step();
    assert_eq!(ev, TickEvent::Died);
    assert_eq!(g.length(), 0);
    assert_eq!(g.segment_positions().len(), 0);
    // The reset leaves the head and direction as they are; with no body
    // left, the next tick is a plain move, not another death.
    let ev2 = g.tick_step();
    assert_eq!(ev2, TickEvent::Moved);
    assert_eq!(g.head(), pos(2, 0));
}

#[test]
fn spawned_food_overlaps_nothing_live() {
    let grid = Grid { width: 4, height: 4, wrap: true };
    let mut spawner = FoodSpawner::new(4);
    let occupied = vec![pos(0, 0), pos(1, 0), pos(2, 0), pos(3, 0)];
    for _round in 0..50 {
        let before = spawner.foods.clone();
        if let Some(p) = spawner.maybe_spawn(&grid, &occupied) {
            assert!(0 <= p.x && p.x < 4 && 0 <= p.y && p.y < 4);
            assert!(!occupied.contains(&p));
            assert!(!before.contains(&p));
            assert_eq!(*spawner.foods.last().unwrap(), p);
        }
        assert!(spawner.foods.len() <= 4);
    }
}

#[test]
fn spawn_on_an_empty_board_always_succeeds() {
    // On a one-cell board with nothing occupied, the draw cannot collide,
    // so the spawner is obliged to place food on that cell.
    let grid = Grid { width: 1, height: 1, wrap: true };
    let mut spawner = FoodSpawner::new(1);
    let nothing: Vec<Position> = Vec::new();
    assert_eq!(spawner.maybe_spawn(&grid, &nothing), Some(pos(0, 0)));
    assert_eq!(spawner.foods, vec![pos(0, 0)]);
}

#[test]
fn full_food_cap_blocks_spawning_even_with_empty_cells() {
    let grid = Grid { width: 12, height: 12, wrap: true };
    let mut spawner = FoodSpawner::new(4);
    spawner.foods = vec![pos(1, 1), pos(2, 2), pos(3, 3), pos(4, 4)];
    let nothing: Vec<Position> = Vec::new();
    assert_eq!(spawner.maybe_spawn(&grid, &nothing), None);
    assert_eq!(spawner.foods.len(), 4);
}

#[test]
fn update_runs_a_tick_exactly_when_the_interval_is_crossed() {
    let mut g = GameState::new(wrap_grid(), pos(0, 0), Direction::Right, 10, 1000, 4);
    assert_eq!(g.update(5), None);
    assert_eq!(g.head(), pos(0, 0));
    assert_eq!(g.update(5), Some(TickEvent::Moved));
    assert_eq!(g.head(), pos(1, 0));
    assert_eq!(g.update(9), None);
    assert_eq!(g.update(100), Some(TickEvent::Moved));
    assert_eq!(g.head(), pos(2, 0));
}

#[test]
fn update_food_obeys_its_own_clock_and_the_snake_cells() {
    let mut g = GameState::new(wrap_grid(), pos(0, 0), Direction::Right, 1000, 10, 4);
    assert_eq!(g.update_food(9), None);
    assert_eq!(g.food_positions().len(), 0);
    if let Some(p) = g.update_food(1) {
        assert_ne!(p, g.head());
        assert_eq!(g.food_positions(), vec![p]);
    }
    let mut capped = GameState::new(wrap_grid(), pos(0, 0), Direction::Right, 1000, 10, 0);
    assert_eq!(capped.update_food(10), None);
    assert_eq!(capped.food_positions().len(), 0);
}

#[test]
fn intents_latched_between_ticks_drive_the_next_move() {
    let mut g = fresh_game();
    g.set_intent(Direction::Down);
    let ev = g.tick_step();
    assert_eq!(ev, TickEvent::Moved);
    assert_eq!(g.head(), pos(0, 1));
    assert_eq!(g.current_direction(), Direction::Down);
    // A reversal request is ignored; the snake keeps going down.
    g.set_intent(Direction::Up);
    g.tick_step();
    assert_eq!(g.head(), pos(0, 2));
    assert_eq!(g.current_direction(), Direction::Down);
}
