use snake::entities::Food;
use snake::entities::Snake;
use snake::primitives::Ate;
use snake::primitives::Direction;
use snake::primitives::GridPosition;
use snake::primitives::SnakeError;
use snake::primitives::Sprite;

fn far_food() -> Food {
    Food::new(GridPosition::new(25, 15))
}

/// Grows the snake by `n` cells by feeding it food straight ahead of the
/// head; the snake must be moving right with room to spare.
fn grow_right(snake: &mut Snake, n: i16) {
    for _ in 0..n {
        let ahead = GridPosition::new_from_move(snake.head.position, Direction::Right);
        let food = Food::new(ahead);
        let ate = snake.update(&food);
        assert_eq!(ate, Some(Ate::Food));
    }
}

#[test]
fn a_new_snake_has_a_head_and_a_tail_cell() {
    let s = Snake::new(GridPosition::new(5, 5));
    assert_eq!(s.head.position, GridPosition::new(5, 5));
    assert_eq!(s.head.sprite, Sprite::Head(Direction::Right));
    assert_eq!(s.tail.position, GridPosition::new(4, 5));
    assert_eq!(s.tail.sprite, Sprite::Tail(Direction::Right));
    assert_eq!(s.direction, Direction::Right);
    assert_eq!(s.previous_direction, Direction::Right);
    assert_eq!(s.next_direction, None);
    assert_eq!(s.draw_list().len(), 2);
    assert_eq!(s.segments(), vec![GridPosition::new(5, 5)]);
}

#[test]
fn a_reversal_request_fails_and_changes_nothing() {
    let mut s = Snake::new(GridPosition::new(5, 5));
    let r = s.set_direction(Direction::Left);
    assert!(matches!(r, Err(SnakeError::LogicError(_))));
    assert_eq!(s.direction, Direction::Right);
    assert_eq!(s.next_direction, None);
}

#[test]
fn a_valid_request_with_nothing_pending_applies_immediately() {
    let mut s = Snake::new(GridPosition::new(5, 5));
    let r = s.set_direction(Direction::Up);
    assert!(r.is_ok());
    assert_eq!(s.direction, Direction::Up);
    assert_eq!(s.next_direction, None);
}

#[test]
fn two_requests_before_a_tick_validate_against_the_committed_direction() {
    // Starting committed Right, the first request (Up) is applied
    // immediately, so Up is now the committed direction; the second request
    // (Down) is its reverse and is rejected at the time of the call.
    let mut s = Snake::new(GridPosition::new(5, 5));
    assert!(s.set_direction(Direction::Up).is_ok());
    let second = s.set_direction(Direction::Down);
    assert!(matches!(second, Err(SnakeError::LogicError(_))));
    let food = far_food();
    s.update(&food);
    assert_eq!(s.previous_direction, Direction::Up);
    assert_eq!(s.head.position, GridPosition::new(5, 4));
}

#[test]
fn a_request_while_a_change_is_committed_is_buffered_for_the_next_tick() {
    let mut s = Snake::new(GridPosition::new(5, 5));
    assert!(s.set_direction(Direction::Up).is_ok());
    // A change (Up) is already committed since the last tick, so the next
    // valid request is buffered rather than applied.
    assert!(s.set_direction(Direction::Left).is_ok());
    assert_eq!(s.direction, Direction::Up);
    assert_eq!(s.next_direction, Some(Direction::Left));
    let food = far_food();
    s.update(&food);
    // The buffered direction commits for the following tick.
    assert_eq!(s.direction, Direction::Left);
    assert_eq!(s.next_direction, None);
    assert_eq!(s.head.position, GridPosition::new(5, 4));
    s.update(&food);
    assert_eq!(s.head.position, GridPosition::new(4, 4));
}

#[test]
fn a_later_buffered_request_replaces_an_earlier_one() {
    let mut s = Snake::new(GridPosition::new(5, 5));
    assert!(s.set_direction(Direction::Up).is_ok());
    assert!(s.set_direction(Direction::Left).is_ok());
    assert!(s.set_direction(Direction::Right).is_ok());
    assert_eq!(s.next_direction, Some(Direction::Right));
    let food = far_food();
    s.update(&food);
    assert_eq!(s.direction, Direction::Right);
}

#[test]
fn a_tick_without_food_keeps_the_length() {
    let mut s = Snake::new(GridPosition::new(5, 5));
    let food = far_food();
    let ate = s.update(&food);
    assert_eq!(ate, None);
    assert_eq!(s.draw_list().len(), 2);
    assert_eq!(s.head.position, GridPosition::new(6, 5));
    assert_eq!(s.tail.position, GridPosition::new(5, 5));
}

#[test]
fn a_tick_onto_food_grows_the_chain_by_one() {
    let mut s = Snake::new(GridPosition::new(5, 5));
    let food = Food::new(GridPosition::new(6, 5));
    let before = s.draw_list().len();
    let ate = s.update(&food);
    assert_eq!(ate, Some(Ate::Food));
    assert_eq!(s.draw_list().len(), before + 1);
    assert_eq!(s.head.position, GridPosition::new(6, 5));
    // the tail did not move: no cell was taken away
    assert_eq!(s.tail.position, GridPosition::new(4, 5));
}

#[test]
fn a_tick_with_self_collision_keeps_the_length() {
    let mut s = Snake::new(GridPosition::new(5, 5));
    grow_right(&mut s, 4);
    let food = far_food();
    assert!(s.set_direction(Direction::Down).is_ok());
    s.update(&food);
    assert!(s.set_direction(Direction::Left).is_ok());
    s.update(&food);
    assert!(s.set_direction(Direction::Up).is_ok());
    let before = s.draw_list().len();
    let ate = s.update(&food);
    assert_eq!(ate, Some(Ate::Itself));
    assert_eq!(s.draw_list().len(), before);
}

#[test]
fn a_long_snake_turning_into_its_own_body_eats_itself() {
    // Chain of six cells moving right; a square turn leads the head into a
    // cell that is still occupied by the body.
    let mut s = Snake::new(GridPosition::new(5, 5));
    grow_right(&mut s, 4);
    assert_eq!(s.draw_list().len(), 6);
    assert_eq!(s.head.position, GridPosition::new(9, 5));
    let food = far_food();
    assert!(s.set_direction(Direction::Down).is_ok());
    assert_eq!(s.update(&food), None);
    assert!(s.set_direction(Direction::Left).is_ok());
    assert_eq!(s.update(&food), None);
    assert!(s.set_direction(Direction::Up).is_ok());
    assert_eq!(s.update(&food), Some(Ate::Itself));
    assert_eq!(s.head.position, GridPosition::new(8, 5));
}

#[test]
fn the_head_may_enter_the_cell_the_tail_just_left() {
    // A chain of four cells at (5,5),(4,5),(3,5),(2,5) moving right turns
    // down, left and up in successive ticks. The head comes back to (4,5),
    // a former body cell, but that cell was vacated in the meantime: the
    // collision check runs after the tail removal and reports nothing.
    let mut s = Snake::new(GridPosition::new(3, 5));
    grow_right(&mut s, 2);
    assert_eq!(s.head.position, GridPosition::new(5, 5));
    assert_eq!(s.segments().len(), 3);
    assert_eq!(s.tail.position, GridPosition::new(2, 5));
    let food = far_food();
    assert!(s.set_direction(Direction::Down).is_ok());
    assert_eq!(s.update(&food), None);
    assert!(s.set_direction(Direction::Left).is_ok());
    assert_eq!(s.update(&food), None);
    assert!(s.set_direction(Direction::Up).is_ok());
    assert_eq!(s.update(&food), None);
    assert_eq!(s.head.position, GridPosition::new(4, 5));
}

#[test]
fn the_draw_list_goes_tail_body_head() {
    let mut s = Snake::new(GridPosition::new(5, 5));
    grow_right(&mut s, 2);
    let list = s.draw_list();
    assert_eq!(list.len(), 4);
    assert_eq!(list[0].position, s.tail.position);
    assert!(matches!(list[0].sprite, Sprite::Tail(_)));
    assert!(matches!(list[1].sprite, Sprite::Segment(_, _)));
    assert!(matches!(list[2].sprite, Sprite::Segment(_, _)));
    assert_eq!(list[3].position, s.head.position);
    assert!(matches!(list[3].sprite, Sprite::Head(_)));
}

#[test]
fn segments_list_the_body_cells_and_the_head() {
    let mut s = Snake::new(GridPosition::new(5, 5));
    grow_right(&mut s, 2);
    let segs = s.segments();
    assert_eq!(segs.len(), 3);
    assert!(segs.contains(&GridPosition::new(7, 5)));
    assert!(segs.contains(&GridPosition::new(6, 5)));
    assert!(segs.contains(&GridPosition::new(5, 5)));
    // the tail cell is not among the segments
    assert!(!segs.contains(&s.tail.position));
}

#[test]
fn a_body_cell_wears_the_corner_of_its_turn() {
    let mut s = Snake::new(GridPosition::new(5, 5));
    assert!(s.set_direction(Direction::Down).is_ok());
    let food = Food::new(GridPosition::new(5, 6));
    assert_eq!(s.update(&food), Some(Ate::Food));
    // the vacated head cell points back left and exits downwards
    let list = s.draw_list();
    assert_eq!(list[1].position, GridPosition::new(5, 5));
    assert_eq!(list[1].sprite, Sprite::Segment(Direction::Left, Direction::Down));
}
