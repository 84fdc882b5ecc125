use snake::direction::Direction;
use snake::grid_cell::Food;
use snake::grid_cell::GridCell;
use snake::snake::Snake;

fn far_food() -> Food {
    Food::new(GridCell::new(0, 0))
}

#[test]
fn default_snake_is_canonical() {
    let s = Snake::default();
    assert!(s.alive());
    assert!(!s.ate_food());
    assert_eq!(s.head().position(), GridCell::new(8, 10));
    assert_eq!(s.body().len(), 1);
    assert_eq!(s.body()[0].position(), GridCell::new(7, 10));
    assert_eq!(s.direction, Direction::Right);
    assert_eq!(s.direction_next, Direction::Right);
    assert_eq!(s.direction_queued, None);
    assert_eq!(s.len(), 2);
}

#[test]
fn movement_is_deterministic() {
    let mut s = Snake::default();
    s.update(&far_food());
    assert!(s.alive());
    assert_eq!(s.head().position(), GridCell::new(9, 10));
    assert_eq!(s.direction, Direction::Right);
    assert_eq!(s.len(), 2);
}

#[test]
fn moving_drops_the_tail_tip() {
    let mut s = Snake::default();
    s.update(&far_food());
    assert_eq!(s.body().len(), 1);
    assert_eq!(s.body()[0].position(), GridCell::new(8, 10));
}

#[test]
fn eating_grows_by_one() {
    let mut s = Snake::default();
    s.update(&Food::new(GridCell::new(9, 10)));
    assert!(s.ate_food());
    assert!(s.alive());
    assert_eq!(s.len(), 3);
    assert_eq!(s.head().position(), GridCell::new(9, 10));
    assert_eq!(s.body()[0].position(), GridCell::new(8, 10));
    assert_eq!(s.body()[1].position(), GridCell::new(7, 10));
}

#[test]
fn ate_food_resets_on_the_next_plain_move() {
    let mut s = Snake::default();
    s.update(&Food::new(GridCell::new(9, 10)));
    assert!(s.ate_food());
    s.update(&far_food());
    assert!(!s.ate_food());
    assert_eq!(s.len(), 3);
}

#[test]
fn leaving_the_grid_kills() {
    let mut s = Snake::default();
    // The head starts at x = 8 heading rightward; 21 moves reach x = 29.
    for _ in 0..21 {
        s.update(&far_food());
        assert!(s.alive());
    }
    assert_eq!(s.head().position(), GridCell::new(29, 10));
    let body_before: Vec<GridCell> = s.body().iter().map(|seg| seg.position()).collect();
    s.update(&far_food());
    assert!(!s.alive());
    // Death froze the snake: head and body are as they were.
    assert_eq!(s.head().position(), GridCell::new(29, 10));
    let body_after: Vec<GridCell> = s.body().iter().map(|seg| seg.position()).collect();
    assert_eq!(body_before, body_after);
}

#[test]
fn self_collision_kills() {
    let mut s = Snake::default();
    s.update(&Food::new(GridCell::new(9, 10)));
    s.update(&Food::new(GridCell::new(10, 10)));
    s.update(&Food::new(GridCell::new(11, 10)));
    assert_eq!(s.len(), 5);
    s.request_direction(Direction::Up);
    s.update(&far_food());
    assert_eq!(s.head().position(), GridCell::new(11, 9));
    s.request_direction(Direction::Left);
    s.update(&far_food());
    assert_eq!(s.head().position(), GridCell::new(10, 9));
    // Turning down now runs the head into the body at (10, 10).
    s.request_direction(Direction::Down);
    s.update(&far_food());
    assert!(!s.alive());
    assert_eq!(s.head().position(), GridCell::new(10, 10));
    // The body kept its grown state: the former head was demoted, no tail
    // was dropped.
    assert_eq!(s.body().len(), 5);
    assert_eq!(s.len(), 6);
}

#[test]
fn immediate_reversal_is_dropped() {
    let mut s = Snake::default();
    s.request_direction(Direction::Left);
    assert_eq!(s.direction_next, Direction::Right);
    assert_eq!(s.direction_queued, None);
}

#[test]
fn perpendicular_request_is_accepted() {
    let mut s = Snake::default();
    s.request_direction(Direction::Up);
    assert_eq!(s.direction_next, Direction::Up);
    assert_eq!(s.direction, Direction::Right);
}

#[test]
fn second_request_in_same_step_is_queued() {
    let mut s = Snake::default();
    s.request_direction(Direction::Up);
    s.request_direction(Direction::Left);
    assert_eq!(s.direction_next, Direction::Up);
    assert_eq!(s.direction_queued, Some(Direction::Left));
}

#[test]
fn queued_double_tap_applies_over_two_ticks() {
    let mut s = Snake::default();
    s.request_direction(Direction::Up);
    s.request_direction(Direction::Left);
    s.update(&far_food());
    assert_eq!(s.direction, Direction::Up);
    assert_eq!(s.head().position(), GridCell::new(8, 9));
    s.update(&far_food());
    assert_eq!(s.direction, Direction::Left);
    assert_eq!(s.head().position(), GridCell::new(7, 9));
    assert_eq!(s.direction_queued, None);
}

#[test]
fn queued_reversal_of_pending_request_is_not_queued() {
    let mut s = Snake::default();
    s.request_direction(Direction::Up);
    // Down is the exact inverse of the pending request, so it is not queued;
    // it falls through and, being the inverse of nothing current, replaces
    // the pending request only if legal — here Down == inverse(Up) is the
    // queue test, and Down != inverse(Right) lets it overwrite the request.
    s.request_direction(Direction::Down);
    assert_eq!(s.direction_queued, None);
    assert_eq!(s.direction_next, Direction::Down);
}
