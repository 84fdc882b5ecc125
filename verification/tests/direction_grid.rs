use snake::direction::Direction;
use snake::direction::Key;
use snake::grid_cell::Food;
use snake::grid_cell::GridCell;
use snake::grid_cell::Segment;

#[test]
fn inverse_involution_all_directions() {
    let dirs = [Direction::Up, Direction::Down, Direction::Left, Direction::Right];
    for d in dirs {
        assert_eq!(d.inverse().inverse(), d);
    }
}

#[test]
fn inverse_swaps_pairs() {
    assert_eq!(Direction::Up.inverse(), Direction::Down);
    assert_eq!(Direction::Down.inverse(), Direction::Up);
    assert_eq!(Direction::Left.inverse(), Direction::Right);
    assert_eq!(Direction::Right.inverse(), Direction::Left);
}

#[test]
fn delta_matches_screen_axes() {
    assert_eq!(Direction::Down.to_delta(), (0, 1));
    assert_eq!(Direction::Up.to_delta(), (0, -1));
    assert_eq!(Direction::Right.to_delta(), (1, 0));
    assert_eq!(Direction::Left.to_delta(), (-1, 0));
}

#[test]
fn key_mapping_arrows_and_wasd() {
    assert_eq!(Direction::from_key(Key::Up), Some(Direction::Up));
    assert_eq!(Direction::from_key(Key::W), Some(Direction::Up));
    assert_eq!(Direction::from_key(Key::Down), Some(Direction::Down));
    assert_eq!(Direction::from_key(Key::S), Some(Direction::Down));
    assert_eq!(Direction::from_key(Key::Left), Some(Direction::Left));
    assert_eq!(Direction::from_key(Key::A), Some(Direction::Left));
    assert_eq!(Direction::from_key(Key::Right), Some(Direction::Right));
    assert_eq!(Direction::from_key(Key::D), Some(Direction::Right));
}

#[test]
fn key_mapping_rejects_other_keys() {
    assert_eq!(Direction::from_key(Key::Return), None);
    assert_eq!(Direction::from_key(Key::Other), None);
}

#[test]
fn out_of_bounds_edges() {
    assert!(!GridCell::new(0, 0).out_of_bounds());
    assert!(!GridCell::new(29, 19).out_of_bounds());
    assert!(GridCell::new(-1, 0).out_of_bounds());
    assert!(GridCell::new(0, -1).out_of_bounds());
    assert!(GridCell::new(30, 0).out_of_bounds());
    assert!(GridCell::new(0, 20).out_of_bounds());
}

#[test]
fn add_direction_yields_adjacent_cell() {
    let c = GridCell::new(5, 7);
    assert_eq!(c.add_direction(Direction::Right), GridCell::new(6, 7));
    assert_eq!(c.add_direction(Direction::Left), GridCell::new(4, 7));
    assert_eq!(c.add_direction(Direction::Down), GridCell::new(5, 8));
    assert_eq!(c.add_direction(Direction::Up), GridCell::new(5, 6));
}

#[test]
fn add_direction_may_leave_grid() {
    let c = GridCell::new(0, 0);
    let left = c.add_direction(Direction::Left);
    assert_eq!(left, GridCell::new(-1, 0));
    assert!(left.out_of_bounds());
}

#[test]
fn segment_and_food_wrap_a_cell() {
    let c = GridCell::new(3, 4);
    assert_eq!(Segment::new(c).position(), c);
    assert_eq!(Food::new(c).position(), c);
}
