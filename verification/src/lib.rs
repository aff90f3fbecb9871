pub mod board;
pub mod direction;
pub mod food;
pub mod snake;
