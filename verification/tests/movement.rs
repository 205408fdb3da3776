use snake::config::CELL_SIZE;
use snake::direction::Direction;
use snake::position::Position;
use snake::snake::{Snake, SnakeDirection, SnakeDirectionChanged};
use snake::systems::{process_snake_movement, spawn_snake, update_snake_direction};

fn snake_at(x: i64, y: i64, direction: Direction) -> Snake {
    Snake { position: Position { x, y }, direction: SnakeDirection(direction) }
}

fn message(direction: Direction) -> SnakeDirectionChanged {
    SnakeDirectionChanged { direction }
}

const DIRECTIONS: [Direction; 4] =
    [Direction::Up, Direction::Down, Direction::Left, Direction::Right];

#[test]
fn cell_size_is_twenty() {
    assert_eq!(CELL_SIZE, 20);
}

#[test]
fn new_snake_is_at_origin_heading_left() {
    let snake = Snake::new();
    assert_eq!(snake.position, Position { x: 0, y: 0 });
    assert_eq!(snake.position, Position::origin());
    assert_eq!(snake.direction, SnakeDirection(Direction::Left));
}

#[test]
fn first_step_of_new_snake_goes_left() {
    let mut snake = Snake::new();
    assert!(snake.can_move());
    snake.step();
    assert_eq!(snake.position, Position { x: -20, y: 0 });
    assert_eq!(snake.direction, SnakeDirection(Direction::Left));
}

#[test]
fn step_moves_one_cell_along_the_heading() {
    let cases = [
        (Direction::Up, 40, 80),
        (Direction::Down, 40, 40),
        (Direction::Left, 20, 60),
        (Direction::Right, 60, 60),
    ];
    for (direction, x, y) in cases {
        let mut snake = snake_at(40, 60, direction);
        assert!(snake.can_move());
        snake.step();
        assert_eq!(snake, snake_at(x, y, direction));
    }
}

#[test]
fn step_changes_exactly_one_axis_by_the_cell_size() {
    for direction in DIRECTIONS {
        let mut snake = snake_at(-100, 60, direction);
        snake.step();
        let dx = (snake.position.x - -100).abs();
        let dy = (snake.position.y - 60).abs();
        assert!((dx == CELL_SIZE && dy == 0) || (dx == 0 && dy == CELL_SIZE));
    }
}

#[test]
fn steps_stay_on_the_grid() {
    let mut snake = Snake::new();
    assert!(snake.position.is_on_grid());
    for round in 0..40 {
        snake.direction = SnakeDirection(DIRECTIONS[(round * 7 + round / 3) % 4]);
        snake.step();
        assert!(snake.position.is_on_grid());
        assert_eq!(snake.position.x % CELL_SIZE, 0);
        assert_eq!(snake.position.y % CELL_SIZE, 0);
    }
}

#[test]
fn off_grid_position_is_told_apart() {
    assert!(Position { x: -40, y: 20 }.is_on_grid());
    assert!(!Position { x: 10, y: 0 }.is_on_grid());
    assert!(!Position { x: 0, y: -1 }.is_on_grid());
}

#[test]
fn steady_heading_right_covers_n_cells() {
    let mut snake = snake_at(0, 0, Direction::Right);
    for n in 1..=25i64 {
        snake.step();
        assert_eq!(snake.position, Position { x: n * CELL_SIZE, y: 0 });
    }
    assert_eq!(snake.position, Position { x: 500, y: 0 });
}

#[test]
fn can_move_stops_at_the_integers_end() {
    assert!(snake_at(i64::MAX - 20, 0, Direction::Right).can_move());
    assert!(!snake_at(i64::MAX - 19, 0, Direction::Right).can_move());
    assert!(snake_at(i64::MAX - 19, 0, Direction::Left).can_move());
    assert!(snake_at(0, i64::MIN + 20, Direction::Down).can_move());
    assert!(!snake_at(0, i64::MIN + 19, Direction::Down).can_move());
    assert!(!snake_at(0, i64::MAX, Direction::Up).can_move());
    assert!(!snake_at(i64::MIN, 0, Direction::Left).can_move());
}

#[test]
fn can_move_by_counts_cells() {
    assert!(snake_at(0, 0, Direction::Up).can_move_by(0));
    assert!(snake_at(0, i64::MAX, Direction::Up).can_move_by(0));
    assert!(snake_at(0, i64::MAX - 60, Direction::Up).can_move_by(3));
    assert!(!snake_at(0, i64::MAX - 59, Direction::Up).can_move_by(3));
    assert!(snake_at(i64::MIN + 60, 0, Direction::Left).can_move_by(3));
    assert!(!snake_at(i64::MIN + 59, 0, Direction::Left).can_move_by(3));
    assert!(snake_at(0, 0, Direction::Right).can_move_by(u32::MAX));
}

#[test]
fn last_message_wins_whatever_the_heading_was() {
    for before in DIRECTIONS {
        let mut snakes = vec![snake_at(0, 0, before)];
        let mut queue = vec![message(Direction::Up), message(Direction::Right)];
        update_snake_direction(&mut queue, &mut snakes);
        assert_eq!(snakes, vec![snake_at(0, 0, Direction::Right)]);
        assert!(queue.is_empty());
    }
}

#[test]
fn no_message_keeps_the_heading() {
    for before in DIRECTIONS {
        let mut snakes = vec![snake_at(20, -40, before)];
        let mut queue = Vec::new();
        update_snake_direction(&mut queue, &mut snakes);
        assert_eq!(snakes, vec![snake_at(20, -40, before)]);
    }
}

#[test]
fn a_message_may_reverse_the_heading() {
    let mut snakes = vec![snake_at(0, 0, Direction::Down)];
    let mut queue = vec![message(Direction::Up)];
    update_snake_direction(&mut queue, &mut snakes);
    assert_eq!(snakes[0].direction, SnakeDirection(Direction::Up));
}

#[test]
fn messages_reach_every_snake_and_move_none() {
    let mut snakes = vec![
        snake_at(0, 0, Direction::Left),
        snake_at(20, 40, Direction::Up),
        snake_at(-60, 0, Direction::Down),
    ];
    let mut queue =
        vec![message(Direction::Left), message(Direction::Down), message(Direction::Up)];
    update_snake_direction(&mut queue, &mut snakes);
    assert_eq!(
        snakes,
        vec![
            snake_at(0, 0, Direction::Up),
            snake_at(20, 40, Direction::Up),
            snake_at(-60, 0, Direction::Up),
        ]
    );
}

#[test]
fn messages_without_snakes_are_dropped() {
    let mut snakes: Vec<Snake> = Vec::new();
    let mut queue = vec![message(Direction::Left)];
    update_snake_direction(&mut queue, &mut snakes);
    assert!(queue.is_empty());
    assert!(snakes.is_empty());
}

#[test]
fn movement_steps_every_snake() {
    let mut snakes = vec![
        snake_at(0, 0, Direction::Left),
        snake_at(20, 40, Direction::Up),
        snake_at(-60, 0, Direction::Down),
        snake_at(0, 0, Direction::Right),
    ];
    process_snake_movement(&mut snakes);
    assert_eq!(
        snakes,
        vec![
            snake_at(-20, 0, Direction::Left),
            snake_at(20, 60, Direction::Up),
            snake_at(-60, -20, Direction::Down),
            snake_at(20, 0, Direction::Right),
        ]
    );
}

#[test]
fn movement_without_snakes_does_nothing() {
    let mut snakes: Vec<Snake> = Vec::new();
    process_snake_movement(&mut snakes);
    assert!(snakes.is_empty());
}

#[test]
fn spawn_adds_a_new_snake_at_the_end() {
    let mut snakes = vec![snake_at(40, 40, Direction::Up)];
    spawn_snake(&mut snakes);
    assert_eq!(snakes, vec![snake_at(40, 40, Direction::Up), snake_at(0, 0, Direction::Left)]);
}

#[test]
fn turn_then_step_goes_up() {
    let mut snakes = vec![snake_at(0, 0, Direction::Left)];
    let mut queue = vec![message(Direction::Up)];
    update_snake_direction(&mut queue, &mut snakes);
    process_snake_movement(&mut snakes);
    assert_eq!(snakes, vec![snake_at(0, 20, Direction::Up)]);
}
