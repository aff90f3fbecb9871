use vstd::prelude::*;

verus! {

/// The board cell the current piece of food sits on.
#[derive(Clone, Copy, Debug, PartialEq, Eq, Structural)]
pub struct Food {
    pub x: u32,
    pub y: u32,
}

/// Round a coordinate down to the nearest multiple of ten, the movement
/// grid the snake travels on.
pub fn round_to_tens(num: u32) -> (r: u32)
    ensures
        r == (num / 10) * 10,
        r <= num,
        r % 10 == 0,
{
    (num / 10) * 10
}

/// Relies on rand::random_range: a draw from the inclusive range
/// `0..=bound` lies within that range, and the range is never empty for a
/// `u32` bound, so the call does not panic.
#[verifier::external_body]
fn rand_upto(bound: u32) -> (r: u32)
    ensures
        r <= bound,
{
    rand::random_range(0..=bound)
}

impl Food {
    /// A food cell drawn at random within the board, with each coordinate
    /// rounded down to the movement grid so the snake's head can land on
    /// it exactly.
    pub fn next_rand_food(upper_bound_x: u32, upper_bound_y: u32) -> (f: Food)
        ensures
            f.x <= upper_bound_x,
            f.y <= upper_bound_y,
            f.x % 10 == 0,
            f.y % 10 == 0,
    {
        let x = round_to_tens(rand_upto(upper_bound_x));
        let y = round_to_tens(rand_upto(upper_bound_y));
        Food { x, y }
    }
}

} // verus!
