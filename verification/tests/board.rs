use rusnake::board::Board;
use rusnake::direction::Direction;
use rusnake::food::Food;
use rusnake::snake::Snake;

#[test]
fn board_accessors_reflect_the_fields() {
    let food = Food { x: 90, y: 80 };
    let snake = Snake::new(50, 50, Direction::Right);
    let board = Board::new(200, 100, food, snake);

    assert_eq!(board.width, 200);
    assert_eq!(board.height, 100);
    assert_eq!(board.get_food().x, 90);
    assert_eq!(board.get_food().y, 80);
    assert_eq!(board.get_snake().segments, vec![(50, 50), (40, 50), (30, 50)]);
    assert!(board.is_game_running());
}

#[test]
fn board_setters_replace_exactly_one_field() {
    let board = Board::new(200, 100, Food { x: 90, y: 80 }, Snake::new(50, 50, Direction::Right));

    let board = board.set_food(Food { x: 10, y: 20 });
    assert_eq!(board.get_food().x, 10);
    assert_eq!(board.get_food().y, 20);
    assert_eq!(board.get_snake().segments, vec![(50, 50), (40, 50), (30, 50)]);
    assert!(board.is_game_running());

    let board = board.set_snake(Snake::new(70, 50, Direction::Left));
    assert_eq!(board.get_snake().segments, vec![(70, 50), (80, 50), (90, 50)]);
    assert_eq!(board.get_food().x, 10);

    let board = board.set_game_is_running(false);
    assert!(!board.is_game_running());
    assert_eq!(board.get_food().x, 10);
    assert_eq!(board.get_snake().segments, vec![(70, 50), (80, 50), (90, 50)]);
}

#[test]
fn tick_moves_the_snake_and_applies_the_requested_heading() {
    let board = Board::new(200, 200, Food { x: 90, y: 90 }, Snake::new(50, 50, Direction::Right));

    let board = board.tick(Direction::Down);

    assert!(board.is_game_running());
    assert_eq!(board.get_snake().segments, vec![(60, 50), (50, 50), (40, 50)]);
    assert_eq!(board.get_snake().direction, Direction::Down);
    assert_eq!(board.get_food().x, 90);
    assert_eq!(board.get_food().y, 90);
}

#[test]
fn tick_refuses_a_reversal_of_the_heading() {
    let board = Board::new(200, 200, Food { x: 90, y: 90 }, Snake::new(50, 50, Direction::Right));

    let board = board.tick(Direction::Left);

    assert_eq!(board.get_snake().direction, Direction::Right);
    assert_eq!(board.get_snake().segments, vec![(60, 50), (50, 50), (40, 50)]);
}

#[test]
fn tick_on_food_grows_the_snake_and_draws_new_food() {
    let board = Board::new(200, 200, Food { x: 50, y: 50 }, Snake::new(50, 50, Direction::Right));

    let board = board.tick(Direction::Right);

    assert!(board.is_game_running());
    assert_eq!(
        board.get_snake().segments,
        vec![(60, 50), (50, 50), (40, 50), (30, 50)]
    );
    assert_eq!(board.get_snake().direction, Direction::Right);
    assert!(board.get_food().x <= 200);
    assert!(board.get_food().y <= 200);
    assert_eq!(board.get_food().x % 10, 0);
    assert_eq!(board.get_food().y % 10, 0);
}

#[test]
fn tick_into_a_collision_stops_the_game_and_keeps_the_last_valid_state() {
    let snake = Snake {
        segments: vec![(0, 0), (10, 0), (10, 10), (0, 10), (0, 20)],
        direction: Direction::Down,
    };
    let board = Board::new(100, 100, Food { x: 50, y: 50 }, snake);

    let board = board.tick(Direction::Down);

    assert!(!board.is_game_running());
    assert_eq!(
        board.get_snake().segments,
        vec![(0, 0), (10, 0), (10, 10), (0, 10), (0, 20)]
    );
    assert_eq!(board.get_snake().direction, Direction::Down);
    assert_eq!(board.get_food().x, 50);
    assert_eq!(board.get_food().y, 50);
    assert_eq!(board.width, 100);
    assert_eq!(board.height, 100);
}

#[test]
fn start_spawns_the_fixed_snake_with_food_on_the_board() {
    let board = Board::start(300, 300);

    assert!(board.is_game_running());
    assert_eq!(board.width, 300);
    assert_eq!(board.height, 300);
    assert_eq!(board.get_snake().segments, vec![(50, 50), (40, 50), (30, 50)]);
    assert_eq!(board.get_snake().direction, Direction::Right);
    assert!(board.get_food().x <= 300);
    assert!(board.get_food().y <= 300);
    assert_eq!(board.get_food().x % 10, 0);
    assert_eq!(board.get_food().y % 10, 0);
}
