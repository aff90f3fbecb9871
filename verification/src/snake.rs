use vstd::prelude::*;

use crate::direction::Direction;
use crate::food::Food;

verus! {

/// Distance the head moves in one tick.
pub const SNAKE_STEP: u32 = 10;

/// Side length of one segment, and the spacing of the starting segments.
pub const SNAKE_SEGMENT_WIDTH: u32 = 10;

/// Number of segments a snake starts with.
pub const START_SEGMENTS: u32 = 3;

/// The snake: its body as a head-first list of grid cells, and the heading
/// it travels in.
#[derive(Debug, PartialEq)]
pub struct Snake {
    pub segments: Vec<(i32, i32)>,
    pub direction: Direction,
}

/// A coordinate pushed back onto the board: one that went below zero
/// reappears at the far edge, one that went past the far edge reappears at
/// zero, and one already inside the board is untouched.
pub open spec fn wrap_coord(c: int, bound: int) -> int {
    if c < 0 {
        bound
    } else if c > bound {
        0
    } else {
        c
    }
}

/// A whole segment wrapped into the board, coordinate by coordinate.
pub open spec fn wrap_segment(p: (int, int), w: int, h: int) -> (int, int) {
    (wrap_coord(p.0, w), wrap_coord(p.1, h))
}

/// The cell one step ahead of `(x, y)` along heading `d`.
pub open spec fn step_from(x: int, y: int, d: Direction) -> (int, int) {
    match d {
        Direction::Up => (x, y - SNAKE_STEP),
        Direction::Down => (x, y + SNAKE_STEP),
        Direction::Left => (x - SNAKE_STEP, y),
        Direction::Right => (x + SNAKE_STEP, y),
    }
}

/// A segment list as a sequence of mathematical coordinate pairs.
pub open spec fn segs_of(v: Seq<(i32, i32)>) -> Seq<(int, int)> {
    v.map_values(|p: (i32, i32)| (p.0 as int, p.1 as int))
}

/// The segment list that results from putting `head` in front of `segs`
/// and then wrapping every segment into the board.
pub open spec fn spec_add_segment(
    segs: Seq<(int, int)>,
    head: (int, int),
    w: int,
    h: int,
) -> Seq<(int, int)> {
    (seq![head] + segs).map_values(|p: (int, int)| wrap_segment(p, w, h))
}

/// One tick of movement: the tail is dropped, a new head appears one step
/// ahead of the old one, and every segment is wrapped into the board.
pub open spec fn spec_advance(
    segs: Seq<(int, int)>,
    d: Direction,
    w: int,
    h: int,
) -> Seq<(int, int)> {
    spec_add_segment(segs.drop_last(), step_from(segs[0].0, segs[0].1, d), w, h)
}

/// Eating: the tail is kept, and the new head appears one step beyond the
/// food cell along the current heading, wrapped into the board.
pub open spec fn spec_eat(
    segs: Seq<(int, int)>,
    food: (int, int),
    d: Direction,
    w: int,
    h: int,
) -> Seq<(int, int)> {
    spec_add_segment(segs, step_from(food.0, food.1, d), w, h)
}

/// The head-first starting body: three segments, the two behind the head
/// trailing one and two step sizes opposite the heading, where the head
/// would have come from.
pub open spec fn spec_spawn(x: int, y: int, d: Direction) -> Seq<(int, int)> {
    let back = d.spec_opposite();
    let first = step_from(x, y, back);
    let second = step_from(first.0, first.1, back);
    seq![(x, y), first, second]
}

/// Whether the head cell equals any other segment's cell.
pub open spec fn spec_has_collision(segs: Seq<(int, int)>) -> bool {
    exists|i: int| 1 <= i < segs.len() && #[trigger] segs[i] == segs[0]
}

/// The cell one step ahead of `(x, y)` along heading `d`.
fn step_toward(x: i32, y: i32, d: Direction) -> (p: (i32, i32))
    requires
        i32::MIN <= step_from(x as int, y as int, d).0 <= i32::MAX,
        i32::MIN <= step_from(x as int, y as int, d).1 <= i32::MAX,
    ensures
        (p.0 as int, p.1 as int) == step_from(x as int, y as int, d),
{
    let step = SNAKE_STEP as i32;
    match d {
        Direction::Up => (x, y - step),
        Direction::Down => (x, y + step),
        Direction::Left => (x - step, y),
        Direction::Right => (x + step, y),
    }
}

/// Wrap one coordinate into `0..=bound`.
fn wrap(c: i32, bound: i32) -> (r: i32)
    ensures
        r as int == wrap_coord(c as int, bound as int),
{
    if c < 0 {
        bound
    } else if c > bound {
        0
    } else {
        c
    }
}

impl Snake {
    /// The body as a sequence of mathematical coordinate pairs, head first.
    pub open spec fn segs(&self) -> Seq<(int, int)> {
        segs_of(self.segments@)
    }

    /// The head cell.
    pub open spec fn head(&self) -> (int, int) {
        self.segs()[0]
    }

    /// A new snake with the starting body, heading wherever `direction`
    /// points: the two trailing segments sit behind the head, opposite the
    /// heading.
    pub fn new(x: i32, y: i32, direction: Direction) -> (s: Snake)
        requires
            i32::MIN <= spec_spawn(x as int, y as int, direction)[2].0 <= i32::MAX,
            i32::MIN <= spec_spawn(x as int, y as int, direction)[2].1 <= i32::MAX,
        ensures
            s.direction == direction,
            s.segs() == spec_spawn(x as int, y as int, direction),
            s.segments@.len() == START_SEGMENTS,
    {
        let back = direction.get_opposite_direction();
        let first = step_toward(x, y, back);
        let second = step_toward(first.0, first.1, back);
        let mut segments: Vec<(i32, i32)> = Vec::new();
        segments.push((x, y));
        segments.push(first);
        segments.push(second);
        let s = Snake { direction, segments };
        proof {
            assert(s.segs() =~= spec_spawn(x as int, y as int, direction));
        }
        s
    }

    /// Put a new head one step ahead of `(head_x, head_y)` in front of
    /// `segments`, then wrap every segment into the board.
    fn add_segment(
        &self,
        segments: Vec<(i32, i32)>,
        board_width: i32,
        board_height: i32,
        head_x: i32,
        head_y: i32,
    ) -> (s: Snake)
        requires
            i32::MIN <= step_from(head_x as int, head_y as int, self.direction).0 <= i32::MAX,
            i32::MIN <= step_from(head_x as int, head_y as int, self.direction).1 <= i32::MAX,
        ensures
            s.direction == self.direction,
            s.segments@.len() == segments@.len() + 1,
            s.segs() == spec_add_segment(
                segs_of(segments@),
                step_from(head_x as int, head_y as int, self.direction),
                board_width as int,
                board_height as int,
            ),
    {
        let (new_x, new_y) = step_toward(head_x, head_y, self.direction);
        let ghost target = spec_add_segment(
            segs_of(segments@),
            (new_x as int, new_y as int),
            board_width as int,
            board_height as int,
        );
        let mut out: Vec<(i32, i32)> = Vec::new();
        out.push((wrap(new_x, board_width), wrap(new_y, board_height)));
        let mut i: usize = 0;
        while i < segments.len()
            invariant
                i <= segments@.len(),
                out@.len() == i + 1,
                target == spec_add_segment(
                    segs_of(segments@),
                    (new_x as int, new_y as int),
                    board_width as int,
                    board_height as int,
                ),
                forall|j: int|
                    0 <= j < out@.len() ==> ((#[trigger] out@[j]).0 as int, out@[j].1 as int)
                        == target[j],
            decreases segments@.len() - i,
        {
            let (x, y) = segments[i];
            out.push((wrap(x, board_width), wrap(y, board_height)));
            i += 1;
        }
        let s = Snake { segments: out, direction: self.direction };
        proof {
            assert(s.segs() =~= target);
        }
        s
    }

    /// The next-tick snake: the tail is dropped, the new head is one step
    /// ahead of the old one along the current heading, and every segment
    /// is wrapped into the board.
    pub fn advance(&self, board_width: i32, board_height: i32) -> (s: Snake)
        requires
            self.segments@.len() >= 2,
            i32::MIN <= step_from(self.head().0, self.head().1, self.direction).0 <= i32::MAX,
            i32::MIN <= step_from(self.head().0, self.head().1, self.direction).1 <= i32::MAX,
        ensures
            s.direction == self.direction,
            s.segments@.len() == self.segments@.len(),
            s.segs() == spec_advance(
                self.segs(),
                self.direction,
                board_width as int,
                board_height as int,
            ),
    {
        let n = self.segments.len();
        let mut segments: Vec<(i32, i32)> = Vec::new();
        let mut i: usize = 0;
        while i < n - 1
            invariant
                n == self.segments@.len(),
                n >= 2,
                i <= n - 1,
                segments@ == self.segments@.subrange(0, i as int),
            decreases n - 1 - i,
        {
            let p = self.segments[i];
            segments.push(p);
            proof {
                assert(segments@ =~= self.segments@.subrange(0, i + 1));
            }
            i += 1;
        }
        let (x, y) = self.segments[0];
        let s = self.add_segment(segments, board_width, board_height, x, y);
        proof {
            assert(segs_of(self.segments@.subrange(0, n - 1)) =~= self.segs().drop_last());
        }
        s
    }

    /// The snake after eating `food`: the tail is kept, and the new head
    /// is one step beyond the food cell along the current heading, wrapped
    /// into the board. The body grows by exactly one segment.
    pub fn eat_food(&self, food: &Food, board_width: i32, board_height: i32) -> (s: Snake)
        requires
            food.x + SNAKE_STEP <= i32::MAX,
            food.y + SNAKE_STEP <= i32::MAX,
        ensures
            s.direction == self.direction,
            s.segments@.len() == self.segments@.len() + 1,
            s.segs() == spec_eat(
                self.segs(),
                (food.x as int, food.y as int),
                self.direction,
                board_width as int,
                board_height as int,
            ),
    {
        let n = self.segments.len();
        let mut segments: Vec<(i32, i32)> = Vec::new();
        let mut i: usize = 0;
        while i < n
            invariant
                n == self.segments@.len(),
                i <= n,
                segments@ == self.segments@.subrange(0, i as int),
            decreases n - i,
        {
            let p = self.segments[i];
            segments.push(p);
            proof {
                assert(segments@ =~= self.segments@.subrange(0, i + 1));
            }
            i += 1;
        }
        proof {
            assert(self.segments@.subrange(0, n as int) =~= self.segments@);
        }
        self.add_segment(segments, board_width, board_height, food.x as i32, food.y as i32)
    }

    /// The same body with the heading set to `direction`, unless that is
    /// the exact opposite of the current heading, in which case the
    /// current heading is kept: a snake cannot reverse into itself.
    pub fn change_direction(&self, direction: Direction) -> (s: Snake)
        ensures
            s.segments@ == self.segments@,
            s.direction == (if direction == self.direction.spec_opposite() {
                self.direction
            } else {
                direction
            }),
    {
        let direction = if self.direction.get_opposite_direction() == direction {
            self.direction
        } else {
            direction
        };
        let n = self.segments.len();
        let mut segments: Vec<(i32, i32)> = Vec::new();
        let mut i: usize = 0;
        while i < n
            invariant
                n == self.segments@.len(),
                i <= n,
                segments@ == self.segments@.subrange(0, i as int),
            decreases n - i,
        {
            let p = self.segments[i];
            segments.push(p);
            proof {
                assert(segments@ =~= self.segments@.subrange(0, i + 1));
            }
            i += 1;
        }
        proof {
            assert(self.segments@.subrange(0, n as int) =~= self.segments@);
        }
        Snake { segments, direction }
    }

    /// Whether the head cell equals the cell of any other segment.
    pub fn has_collision(&self) -> (r: bool)
        requires
            self.segments@.len() >= 1,
        ensures
            r == spec_has_collision(self.segs()),
    {
        let (head_x, head_y) = self.segments[0];
        let mut i: usize = 1;
        while i < self.segments.len()
            invariant
                1 <= i <= self.segments@.len(),
                self.segments@.len() >= 1,
                (head_x, head_y) == self.segments@[0],
                forall|j: int| 1 <= j < i ==> #[trigger] self.segs()[j] != self.segs()[0],
            decreases self.segments@.len() - i,
        {
            let (x, y) = self.segments[i];
            if x == head_x && y == head_y {
                proof {
                    assert(1 <= i < self.segs().len() && self.segs()[i as int] == self.segs()[0]);
                }
                return true;
            }
            i += 1;
        }
        false
    }
}

/// Advancing across an edge wraps the head to the opposite edge: a head on
/// the board sitting at the edge it faces reappears at the opposite edge,
/// with its other coordinate unchanged.
pub proof fn lemma_advance_wraps_at_edge(segs: Seq<(int, int)>, w: int, h: int)
    requires
        segs.len() >= 1,
        0 <= w,
        0 <= h,
        0 <= segs[0].0 <= w,
        0 <= segs[0].1 <= h,
    ensures
        segs[0].0 == w ==> spec_advance(segs, Direction::Right, w, h)[0] == (0int, segs[0].1),
        segs[0].0 == 0 ==> spec_advance(segs, Direction::Left, w, h)[0] == (w, segs[0].1),
        segs[0].1 == h ==> spec_advance(segs, Direction::Down, w, h)[0] == (segs[0].0, 0int),
        segs[0].1 == 0 ==> spec_advance(segs, Direction::Up, w, h)[0] == (segs[0].0, h),
{
}

/// Advancing from the interior never wraps: when the stepped head still
/// lies inside the board it is taken as it is, and every trailing segment
/// that lies inside the board is carried over unchanged.
pub proof fn lemma_advance_interior_no_wrap(segs: Seq<(int, int)>, d: Direction, w: int, h: int)
    requires
        segs.len() >= 2,
        0 <= step_from(segs[0].0, segs[0].1, d).0 <= w,
        0 <= step_from(segs[0].0, segs[0].1, d).1 <= h,
    ensures
        spec_advance(segs, d, w, h)[0] == step_from(segs[0].0, segs[0].1, d),
        forall|i: int|
            1 <= i < segs.len() && 0 <= segs[i - 1].0 <= w && 0 <= segs[i - 1].1 <= h
                ==> #[trigger] spec_advance(segs, d, w, h)[i] == segs[i - 1],
{
}

/// Every segment produced by adding a head and wrapping lies inside the
/// board.
pub proof fn lemma_add_segment_in_range(segs: Seq<(int, int)>, head: (int, int), w: int, h: int)
    requires
        0 <= w,
        0 <= h,
    ensures
        forall|i: int|
            0 <= i < spec_add_segment(segs, head, w, h).len()
                ==> 0 <= (#[trigger] spec_add_segment(segs, head, w, h)[i]).0 <= w
                    && 0 <= spec_add_segment(segs, head, w, h)[i].1 <= h,
{
}

/// A freshly spawned body has three pairwise-distinct collinear segments,
/// so it never collides with itself, whichever way it heads.
pub proof fn lemma_spawn_no_collision(x: int, y: int, d: Direction)
    ensures
        !spec_has_collision(spec_spawn(x, y, d)),
{
    let s = spec_spawn(x, y, d);
    assert forall|i: int| 1 <= i < s.len() implies #[trigger] s[i] != s[0] by {
        if i == 1 {
            assert(s[1] == step_from(x, y, d.spec_opposite()));
        } else {
            assert(s[2] == step_from(s[1].0, s[1].1, d.spec_opposite()));
        }
    }
}

} // verus!
