//! Cells of the grid, the board that bounds them, and the wall test.

use vstd::prelude::*;
use crate::direction::Direction;

verus! {

/// Width of the arena the game is played on.
pub const ARENA_WIDTH: u32 = 10;

/// Height of the arena the game is played on.
pub const ARENA_HEIGHT: u32 = 10;

/// A cell of the grid. Two positions are equal when both coordinates are.
#[derive(Clone, Copy, Debug, PartialEq, Eq, Structural)]
pub struct Position {
    pub x: i32,
    pub y: i32,
}

impl Position {
    /// Whether the neighbouring cell in `heading` still has coordinates that
    /// fit a `Position`.
    pub open spec fn can_step(self, heading: Direction) -> bool {
        match heading {
            Direction::Right => self.x < i32::MAX,
            Direction::Left => self.x > i32::MIN,
            Direction::Up => self.y < i32::MAX,
            Direction::Down => self.y > i32::MIN,
        }
    }

    /// The neighbouring cell one unit away in `heading`: `Right` adds one to
    /// x, `Left` takes one from x, `Up` adds one to y, `Down` takes one from y.
    pub open spec fn spec_step(self, heading: Direction) -> Position
        recommends
            self.can_step(heading),
    {
        match heading {
            Direction::Right => Position { x: (self.x + 1) as i32, y: self.y },
            Direction::Left => Position { x: (self.x - 1) as i32, y: self.y },
            Direction::Up => Position { x: self.x, y: (self.y + 1) as i32 },
            Direction::Down => Position { x: self.x, y: (self.y - 1) as i32 },
        }
    }

    /// Returns the neighbouring cell one unit away in `heading`.
    #[verifier::when_used_as_spec(spec_step)]
    pub fn step(self, heading: Direction) -> (next: Position)
        requires
            self.can_step(heading),
        ensures
            next == self.spec_step(heading),
            next != self,
    {
        match heading {
            Direction::Right => Position { x: self.x + 1, y: self.y },
            Direction::Left => Position { x: self.x - 1, y: self.y },
            Direction::Up => Position { x: self.x, y: self.y + 1 },
            Direction::Down => Position { x: self.x, y: self.y - 1 },
        }
    }
}

/// The playing field: the cells `(x, y)` with `0 <= x < width` and
/// `0 <= y < height`. Its size never changes during a game.
#[derive(Clone, Copy, Debug, PartialEq, Eq, Structural)]
pub struct Board {
    pub width: u32,
    pub height: u32,
}

impl Board {
    /// A board is well formed when both sides are positive and every cell on
    /// it, together with the cells just beyond its edges, is a `Position`.
    pub open spec fn wf(self) -> bool {
        &&& 0 < self.width <= i32::MAX
        &&& 0 < self.height <= i32::MAX
    }

    /// Whether `cell` lies on the board.
    pub open spec fn contains(self, cell: Position) -> bool {
        &&& 0 <= cell.x < self.width
        &&& 0 <= cell.y < self.height
    }

    /// Makes a board of the given size, or `None` when a side is zero or
    /// exceeds `i32::MAX`.
    pub fn new(width: u32, height: u32) -> (board: Option<Board>)
        ensures
            board == if 0 < width <= i32::MAX && 0 < height <= i32::MAX {
                Some(Board { width, height })
            } else {
                None
            },
            board matches Some(b) ==> b.wf(),
    {
        if 0 < width && width <= 0x7fff_ffff && 0 < height && height <= 0x7fff_ffff {
            Some(Board { width, height })
        } else {
            None
        }
    }

    /// The arena of `ARENA_WIDTH` by `ARENA_HEIGHT` cells.
    pub fn arena() -> (board: Board)
        ensures
            board == (Board { width: ARENA_WIDTH, height: ARENA_HEIGHT }),
            board.wf(),
    {
        Board { width: ARENA_WIDTH, height: ARENA_HEIGHT }
    }

    /// Tells whether the board is well formed.
    pub fn is_valid(&self) -> (valid: bool)
        ensures
            valid == self.wf(),
    {
        0 < self.width && self.width <= 0x7fff_ffff && 0 < self.height && self.height
            <= 0x7fff_ffff
    }
}

/// A head cell collides with the wall when it has left the board on any side.
pub open spec fn spec_wall_collision(head_cell: Position, board: Board) -> bool {
    ||| head_cell.x < 0
    ||| head_cell.y < 0
    ||| head_cell.x >= board.width
    ||| head_cell.y >= board.height
}

/// Tells whether `head_cell` lies outside `board`.
#[verifier::when_used_as_spec(spec_wall_collision)]
pub fn check_wall_collision(head_cell: Position, board: Board) -> (hit: bool)
    ensures
        hit == spec_wall_collision(head_cell, board),
        hit == !board.contains(head_cell),
{
    head_cell.x < 0 || head_cell.y < 0 || head_cell.x as i64 >= board.width as i64
        || head_cell.y as i64 >= board.height as i64
}

/// The cells just beyond each of the four edges collide with the wall,
/// whatever their other coordinate is, and no cell on the board does.
pub proof fn lemma_wall_collision_at_edges(board: Board, x: i32, y: i32)
    requires
        board.wf(),
    ensures
        spec_wall_collision(Position { x: -1i32, y }, board),
        spec_wall_collision(Position { x: board.width as i32, y }, board),
        spec_wall_collision(Position { x, y: -1i32 }, board),
        spec_wall_collision(Position { x, y: board.height as i32 }, board),
        board.contains(Position { x, y }) ==> !spec_wall_collision(Position { x, y }, board),
{
}

} // verus!
