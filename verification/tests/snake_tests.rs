use snake_game::snake::Snake;

fn snake_of(body: Vec<(i32, i32)>, direction: (i32, i32)) -> Snake {
    Snake { body, direction }
}

#[test]
fn new_snake_has_three_cells_heading_down() {
    let snake = Snake::new();
    assert_eq!(snake.body, vec![(0, 0), (0, 1), (0, 2)]);
    assert_eq!(snake.direction, (0, 1));
    assert_eq!(snake.head(), (0, 2));
}

#[test]
fn move_forward_adds_head_and_drops_tail() {
    let mut snake = Snake::new();
    assert!(snake.move_forward(30, 30));
    assert_eq!(snake.body, vec![(0, 1), (0, 2), (0, 3)]);
    assert_eq!(snake.direction, (0, 1));
}

#[test]
fn move_forward_wraps_past_the_bottom_edge() {
    let mut snake = snake_of(vec![(4, 27), (4, 28), (4, 29)], (0, 1));
    assert!(snake.move_forward(30, 30));
    assert_eq!(snake.body, vec![(4, 28), (4, 29), (4, 0)]);
}

#[test]
fn move_forward_wraps_past_the_right_edge() {
    let mut snake = snake_of(vec![(7, 3), (8, 3), (9, 3)], (1, 0));
    assert!(snake.move_forward(10, 20));
    assert_eq!(snake.body, vec![(8, 3), (9, 3), (0, 3)]);
}

#[test]
fn move_forward_wraps_past_the_left_edge() {
    let mut snake = snake_of(vec![(2, 5), (1, 5), (0, 5)], (-1, 0));
    assert!(snake.move_forward(10, 20));
    assert_eq!(snake.body, vec![(1, 5), (0, 5), (9, 5)]);
}

#[test]
fn move_forward_wraps_past_the_top_edge() {
    let mut snake = snake_of(vec![(3, 2), (3, 1), (3, 0)], (0, -1));
    assert!(snake.move_forward(10, 20));
    assert_eq!(snake.body, vec![(3, 1), (3, 0), (3, 19)]);
}

#[test]
fn move_forward_uses_a_different_size_for_each_axis() {
    let mut snake = snake_of(vec![(6, 3)], (1, 1));
    assert!(snake.move_forward(7, 4));
    assert_eq!(snake.body, vec![(0, 0)]);
}

#[test]
fn move_forward_brings_a_cell_from_off_the_board_back_on() {
    let mut snake = snake_of(vec![(-7, 45)], (0, 0));
    // -7 mod 5 = 3, and 45 mod 6 = 3: remainders are never negative.
    assert!(snake.move_forward(5, 6));
    assert_eq!(snake.body, vec![(3, 3)]);
}

#[test]
fn move_forward_takes_the_largest_steps_without_overflow() {
    let mut snake = snake_of(vec![(5, 5)], (i32::MAX, i32::MIN));
    assert!(snake.move_forward(30, 30));
    // 5 + 2147483647 = 2147483652 = 30 * 71582788 + 12
    // 5 - 2147483648 = -2147483643 = 30 * -71582789 + 27
    assert_eq!(snake.body, vec![(12, 27)]);

    let mut far = snake_of(vec![(i32::MAX, i32::MIN)], (i32::MAX, i32::MIN));
    assert!(far.move_forward(i32::MAX, i32::MAX));
    // 2 * (2^31 - 1) mod (2^31 - 1) = 0; -2^32 mod (2^31 - 1) = 2^31 - 3
    assert_eq!(far.body, vec![(0, 2147483645)]);
}

#[test]
fn move_forward_into_the_body_is_refused() {
    let mut snake = snake_of(vec![(0, 0), (1, 0), (1, 1), (0, 1), (0, 2), (1, 2)], (0, -1));
    assert!(!snake.move_forward(30, 30));
    assert_eq!(snake.body, vec![(0, 0), (1, 0), (1, 1), (0, 1), (0, 2), (1, 2)]);
    assert_eq!(snake.direction, (0, -1));
}

#[test]
fn move_forward_into_the_tail_cell_is_refused() {
    // The head is about to enter the cell the tail is about to leave.
    let mut snake = snake_of(vec![(0, 0), (1, 0), (1, 1), (0, 1)], (0, -1));
    assert!(!snake.move_forward(30, 30));
    assert_eq!(snake.body, vec![(0, 0), (1, 0), (1, 1), (0, 1)]);
}

#[test]
fn move_forward_on_a_single_cell_board_always_collides() {
    let mut snake = snake_of(vec![(0, 0)], (1, 0));
    assert!(!snake.move_forward(1, 1));
    assert_eq!(snake.body, vec![(0, 0)]);
}

#[test]
fn move_forward_without_direction_collides_with_the_head() {
    let mut snake = snake_of(vec![(1, 1), (1, 2)], (0, 0));
    assert!(!snake.move_forward(30, 30));
    assert_eq!(snake.body, vec![(1, 1), (1, 2)]);
}

#[test]
fn head_stays_on_the_board_over_many_steps() {
    let mut snake = Snake::new();
    let turns = [(1, 0), (0, 1), (1, 0), (0, -1), (-1, 0), (0, -1)];
    for round in 0..600usize {
        if round % 7 == 0 {
            snake.change_direction(turns[(round / 7) % turns.len()]);
        }
        let before = snake.head();
        let dir = snake.direction;
        if snake.move_forward(9, 5) {
            let head = snake.head();
            assert_eq!(head, ((before.0 + dir.0).rem_euclid(9), (before.1 + dir.1).rem_euclid(5)));
            assert!(0 <= head.0 && head.0 < 9 && 0 <= head.1 && head.1 < 5);
        }
        assert_eq!(snake.body.len(), 3);
    }
}

#[test]
fn change_direction_ignores_a_reversal() {
    for dir in [(0, 1), (0, -1), (1, 0), (-1, 0)] {
        let mut snake = snake_of(vec![(3, 3)], dir);
        snake.change_direction((-dir.0, -dir.1));
        assert_eq!(snake.direction, dir);
        assert_eq!(snake.body, vec![(3, 3)]);
    }
}

#[test]
fn change_direction_takes_the_present_direction() {
    let mut snake = Snake::new();
    snake.change_direction((0, 1));
    assert_eq!(snake.direction, (0, 1));
}

#[test]
fn change_direction_takes_a_turn() {
    let mut snake = Snake::new();
    snake.change_direction((1, 0));
    assert_eq!(snake.direction, (1, 0));
    snake.change_direction((0, -1));
    assert_eq!(snake.direction, (0, -1));
    assert_eq!(snake.body, vec![(0, 0), (0, 1), (0, 2)]);
}

#[test]
fn change_direction_takes_anything_but_the_exact_opposite() {
    let mut snake = Snake::new();
    snake.change_direction((2, 3));
    assert_eq!(snake.direction, (2, 3));
    snake.change_direction((-2, 3));
    assert_eq!(snake.direction, (-2, 3));
    snake.change_direction((2, -3));
    assert_eq!(snake.direction, (-2, 3));
    snake.change_direction((0, 0));
    assert_eq!(snake.direction, (0, 0));
    snake.change_direction((0, 0));
    assert_eq!(snake.direction, (0, 0));
}

#[test]
fn change_direction_compares_beyond_the_range_of_a_coordinate() {
    // Adding these two wraps to zero in 32 bits; they are no opposites.
    let mut snake = snake_of(vec![(0, 0)], (i32::MIN, 0));
    snake.change_direction((i32::MIN, 0));
    assert_eq!(snake.direction, (i32::MIN, 0));
    let mut other = snake_of(vec![(0, 0)], (i32::MIN, 1));
    other.change_direction((i32::MIN, -1));
    assert_eq!(other.direction, (i32::MIN, -1));
    let mut third = snake_of(vec![(0, 0)], (i32::MAX, 0));
    third.change_direction((-i32::MAX, 0));
    assert_eq!(third.direction, (i32::MAX, 0));
}

#[test]
fn grow_repeats_the_tail_in_front() {
    let mut snake = snake_of(vec![(4, 4), (4, 5), (4, 6)], (0, 1));
    snake.grow();
    assert_eq!(snake.body, vec![(4, 4), (4, 4), (4, 5), (4, 6)]);
    assert_eq!(snake.direction, (0, 1));
}

#[test]
fn grow_then_move_keeps_the_new_length() {
    let mut snake = Snake::new();
    snake.grow();
    assert_eq!(snake.body.len(), 4);
    assert!(snake.move_forward(30, 30));
    assert_eq!(snake.body, vec![(0, 0), (0, 1), (0, 2), (0, 3)]);
}

#[test]
fn occupies_finds_exactly_the_body_cells() {
    let snake = Snake::new();
    assert!(snake.occupies((0, 0)));
    assert!(snake.occupies((0, 1)));
    assert!(snake.occupies((0, 2)));
    assert!(!snake.occupies((0, 3)));
    assert!(!snake.occupies((1, 0)));
    assert!(!snake.occupies((2, 0)));
    let empty = snake_of(vec![], (0, 1));
    assert!(!empty.occupies((0, 0)));
}
