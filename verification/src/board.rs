use vstd::prelude::*;

use crate::direction::Direction;
use crate::food::Food;
use crate::snake::Snake;
use crate::snake::SNAKE_STEP;
use crate::snake::lemma_add_segment_in_range;
use crate::snake::spec_advance;
use crate::snake::spec_eat;
use crate::snake::spec_has_collision;
use crate::snake::spec_spawn;

verus! {

/// The whole game state: the board's dimensions, the snake, the food, and
/// whether the game is still running.
#[derive(Debug)]
pub struct Board {
    pub width: u32,
    pub height: u32,
    pub food: Food,
    pub snake: Snake,
    pub game_is_running: bool,
}

impl Board {
    /// The current food cell.
    pub open spec fn spec_food(&self) -> Food {
        self.food
    }

    /// The current snake.
    pub open spec fn spec_snake(&self) -> Snake {
        self.snake
    }

    /// Whether the game is still running.
    pub open spec fn spec_running(&self) -> bool {
        self.game_is_running
    }

    /// A board the game can keep ticking on: the dimensions leave room for
    /// one more step in a machine integer, the snake has a body of at
    /// least two segments that lies inside the board, and the food lies
    /// inside the board.
    pub open spec fn wf(&self) -> bool {
        &&& self.width + SNAKE_STEP <= i32::MAX
        &&& self.height + SNAKE_STEP <= i32::MAX
        &&& self.spec_snake().segments@.len() >= 2
        &&& forall|i: int|
            0 <= i < self.spec_snake().segs().len() ==> {
                &&& 0 <= (#[trigger] self.spec_snake().segs()[i]).0 <= self.width
                &&& 0 <= self.spec_snake().segs()[i].1 <= self.height
            }
        &&& self.spec_food().x <= self.width
        &&& self.spec_food().y <= self.height
    }

    /// The segment list the snake would have after the next tick of plain
    /// movement.
    pub open spec fn candidate_segs(&self) -> Seq<(int, int)> {
        spec_advance(
            self.spec_snake().segs(),
            self.spec_snake().direction,
            self.width as int,
            self.height as int,
        )
    }

    /// Whether the snake's head currently sits on the food cell.
    pub open spec fn head_on_food(&self) -> bool {
        self.spec_snake().segs()[0] == (self.spec_food().x as int, self.spec_food().y as int)
    }

    pub fn new(width: u32, height: u32, food: Food, snake: Snake) -> (b: Board)
        ensures
            b.width == width,
            b.height == height,
            b.spec_food() == food,
            b.spec_snake() == snake,
            b.spec_running(),
    {
        Board { width, height, food, snake, game_is_running: true }
    }

    pub fn set_snake(self, snake: Snake) -> (b: Board)
        ensures
            b.spec_snake() == snake,
            b.width == self.width,
            b.height == self.height,
            b.spec_food() == self.spec_food(),
            b.spec_running() == self.spec_running(),
    {
        Board { snake, ..self }
    }

    pub fn get_snake(&self) -> (s: &Snake)
        ensures
            *s == self.spec_snake(),
    {
        &self.snake
    }

    pub fn set_food(self, food: Food) -> (b: Board)
        ensures
            b.spec_food() == food,
            b.width == self.width,
            b.height == self.height,
            b.spec_snake() == self.spec_snake(),
            b.spec_running() == self.spec_running(),
    {
        Board { food, ..self }
    }

    pub fn get_food(&self) -> (f: &Food)
        ensures
            *f == self.spec_food(),
    {
        &self.food
    }

    pub fn set_game_is_running(self, game_is_running: bool) -> (b: Board)
        ensures
            b.spec_running() == game_is_running,
            b.width == self.width,
            b.height == self.height,
            b.spec_food() == self.spec_food(),
            b.spec_snake() == self.spec_snake(),
    {
        Board { game_is_running, ..self }
    }

    pub fn is_game_running(&self) -> (r: bool)
        ensures
            r == self.spec_running(),
    {
        self.game_is_running
    }

    /// One tick of the game, taken only while the game is running.
    ///
    /// The snake is advanced one step; if that body collides with itself
    /// the candidate is discarded, the last valid snake and the food stay
    /// as they are, and the game stops. Otherwise the requested heading is
    /// applied to the advanced snake, unless the head had been sitting on
    /// the food: then the snake instead grows from its pre-advance body
    /// one step beyond the food cell, keeping its old heading, and a new
    /// food cell is drawn at random within the board.
    pub fn tick(self, next_direction: Direction) -> (b: Board)
        requires
            self.wf(),
            self.spec_running(),
        ensures
            b.wf(),
            b.width == self.width,
            b.height == self.height,
            spec_has_collision(self.candidate_segs()) ==> {
                &&& !b.spec_running()
                &&& b.spec_snake() == self.spec_snake()
                &&& b.spec_food() == self.spec_food()
            },
            !spec_has_collision(self.candidate_segs()) ==> b.spec_running(),
            !spec_has_collision(self.candidate_segs()) && !self.head_on_food() ==> {
                &&& b.spec_food() == self.spec_food()
                &&& b.spec_snake().segs() == self.candidate_segs()
                &&& b.spec_snake().segments@.len() == self.spec_snake().segments@.len()
                &&& b.spec_snake().direction == (if next_direction
                    == self.spec_snake().direction.spec_opposite() {
                    self.spec_snake().direction
                } else {
                    next_direction
                })
            },
            !spec_has_collision(self.candidate_segs()) && self.head_on_food() ==> {
                &&& b.spec_snake().segs() == spec_eat(
                    self.spec_snake().segs(),
                    (self.spec_food().x as int, self.spec_food().y as int),
                    self.spec_snake().direction,
                    self.width as int,
                    self.height as int,
                )
                &&& b.spec_snake().segments@.len() == self.spec_snake().segments@.len() + 1
                &&& b.spec_snake().direction == self.spec_snake().direction
                &&& b.spec_food().x <= self.width
                &&& b.spec_food().y <= self.height
                &&& b.spec_food().x % 10 == 0
                &&& b.spec_food().y % 10 == 0
            },
    {
        let board_width = self.width as i32;
        let board_height = self.height as i32;
        let candidate = self.get_snake().advance(board_width, board_height);
        if candidate.has_collision() {
            self.set_game_is_running(false)
        } else {
            proof {
                lemma_add_segment_in_range(
                    self.snake.segs().drop_last(),
                    crate::snake::step_from(
                        self.snake.segs()[0].0,
                        self.snake.segs()[0].1,
                        self.snake.direction,
                    ),
                    self.width as int,
                    self.height as int,
                );
            }
            let candidate = candidate.change_direction(next_direction);
            let head = self.get_snake().segments[0];
            let food_x = self.get_food().x as i32;
            let food_y = self.get_food().y as i32;
            if head.0 == food_x && head.1 == food_y {
                let eaten = self.get_snake().eat_food(
                    self.get_food(),
                    board_width,
                    board_height,
                );
                proof {
                    lemma_add_segment_in_range(
                        self.snake.segs(),
                        crate::snake::step_from(
                            self.food.x as int,
                            self.food.y as int,
                            self.snake.direction,
                        ),
                        self.width as int,
                        self.height as int,
                    );
                }
                let width = self.width;
                let height = self.height;
                let new_food = Food::next_rand_food(width, height);
                self.set_food(new_food).set_snake(eaten)
            } else {
                self.set_snake(candidate)
            }
        }
    }

    /// A fresh board at the start of a game, or after a reset from game
    /// over: the snake at its fixed starting position heading right, a
    /// food cell drawn at random within the board, and the game running.
    pub fn start(width: u32, height: u32) -> (b: Board)
        requires
            50 <= width,
            50 <= height,
            width + SNAKE_STEP <= i32::MAX,
            height + SNAKE_STEP <= i32::MAX,
        ensures
            b.wf(),
            b.spec_running(),
            b.width == width,
            b.height == height,
            b.spec_snake().segs() == spec_spawn(50, 50, Direction::Right),
            b.spec_snake().direction == Direction::Right,
            b.spec_food().x <= width,
            b.spec_food().y <= height,
            b.spec_food().x % 10 == 0,
            b.spec_food().y % 10 == 0,
    {
        Board::new(
            width,
            height,
            Food::next_rand_food(width, height),
            Snake::new(50, 50, Direction::Right),
        )
    }
}

} // verus!
