//! The snake: an ordered run of cells from head to tail, and its heading.

use vstd::prelude::*;
use crate::direction::Direction;
use crate::positioning::Position;

verus! {

/// Column in which a fresh snake stands.
pub const SPAWN_X: i32 = 3;

/// Row of a fresh snake's head.
pub const SPAWN_HEAD_Y: i32 = 3;

/// Row of a fresh snake's single body segment.
pub const SPAWN_BODY_Y: i32 = 2;

/// The cell of a fresh snake's head.
pub open spec fn spawn_head() -> Position {
    Position { x: SPAWN_X, y: SPAWN_HEAD_Y }
}

/// The cell of a fresh snake's single body segment.
pub open spec fn spawn_body() -> Position {
    Position { x: SPAWN_X, y: SPAWN_BODY_Y }
}

/// The snake as the rules see it: its cells from head (index 0) to tail
/// (last index), and the heading of its head.
#[verifier::ext_equal]
pub struct SnakeView {
    pub cells: Seq<Position>,
    pub direction: Direction,
}

impl SnakeView {
    /// A fresh snake: a head and one body segment below it, heading up.
    pub open spec fn spawned() -> SnakeView {
        SnakeView { cells: seq![spawn_head(), spawn_body()], direction: Direction::Up }
    }

    /// A snake in play has a head and at least one more segment.
    pub open spec fn wf(self) -> bool {
        self.cells.len() >= 2
    }

    /// The cell of the head.
    pub open spec fn head(self) -> Position
        recommends
            self.cells.len() > 0,
    {
        self.cells[0]
    }

    /// The cell of the last segment.
    pub open spec fn tail(self) -> Position
        recommends
            self.cells.len() > 0,
    {
        self.cells.last()
    }

    /// The cells of all segments but the head.
    pub open spec fn body(self) -> Seq<Position> {
        self.cells.skip(1)
    }

    /// The cell the head moves to on the next step.
    pub open spec fn next_head(self) -> Position
        recommends
            self.cells.len() > 0,
    {
        self.head().spec_step(self.direction)
    }

    /// The same snake after its heading was reconciled with a request.
    pub open spec fn turned(self, requested: Option<Direction>) -> SnakeView {
        SnakeView { cells: self.cells, direction: self.direction.spec_turn(requested) }
    }

    /// The snake one step later: the head stands on `next_head()`, and every
    /// other segment stands where the one before it stood. The cell the tail
    /// stood on is vacated; the heading is kept.
    pub open spec fn advanced(self) -> SnakeView
        recommends
            self.cells.len() > 0,
    {
        SnakeView {
            cells: seq![self.next_head()] + self.cells.drop_last(),
            direction: self.direction,
        }
    }

    /// The snake with `signals` new segments behind its tail, each of them on
    /// `last_tail_cell`.
    pub open spec fn grown(self, last_tail_cell: Position, signals: nat) -> SnakeView {
        SnakeView {
            cells: self.cells + Seq::new(signals, |i: int| last_tail_cell),
            direction: self.direction,
        }
    }
}

/// A head cell collides with the snake itself when a body segment stands on it.
pub open spec fn spec_self_collision(head_cell: Position, body: Seq<Position>) -> bool {
    body.contains(head_cell)
}

/// The snake's segments from head to tail, and the heading of its head.
#[derive(Debug)]
pub struct Snake {
    pub segments: Vec<Position>,
    pub direction: Direction,
}

impl View for Snake {
    type V = SnakeView;

    open spec fn view(&self) -> SnakeView {
        SnakeView { cells: self.segments@, direction: self.direction }
    }
}

impl Snake {
    /// Number of segments, the head included.
    pub fn len(&self) -> (len: usize)
        ensures
            len == self@.cells.len(),
    {
        self.segments.len()
    }

    /// Tells whether the snake has a head and at least one more segment.
    pub fn is_valid(&self) -> (valid: bool)
        ensures
            valid == self@.wf(),
    {
        self.segments.len() >= 2
    }

    /// The cell of the head.
    pub fn head(&self) -> (cell: Position)
        requires
            self@.cells.len() > 0,
        ensures
            cell == self@.head(),
    {
        self.segments[0]
    }

    /// The cell of the last segment.
    pub fn tail(&self) -> (cell: Position)
        requires
            self@.cells.len() > 0,
        ensures
            cell == self@.tail(),
    {
        self.segments[self.segments.len() - 1]
    }

    /// The cell the head moves to on the next step.
    pub fn next_head(&self) -> (cell: Position)
        requires
            self@.cells.len() > 0,
            self@.head().can_step(self@.direction),
        ensures
            cell == self@.next_head(),
    {
        self.segments[0].step(self.direction)
    }

    /// Reconciles the heading with a request: a request to reverse, or none
    /// at all, changes nothing. The cells are left alone.
    pub fn turn(&mut self, requested: Option<Direction>)
        ensures
            final(self)@ == old(self)@.turned(requested),
    {
        self.direction = self.direction.turn(requested);
    }

    /// Moves the snake one step along its heading and returns the cell its
    /// tail stood on before the step.
    ///
    /// Every segment is placed from the positions held before the step, so
    /// that segment `i` ends where segment `i - 1` began.
    pub fn advance(&mut self) -> (old_tail_cell: Position)
        requires
            old(self)@.cells.len() > 0,
            old(self)@.head().can_step(old(self)@.direction),
        ensures
            final(self)@ == old(self)@.advanced(),
            old_tail_cell == old(self)@.tail(),
    {
        let len = self.segments.len();
        let old_tail_cell = self.segments[len - 1];
        let new_head = self.segments[0].step(self.direction);
        let mut moved: Vec<Position> = Vec::with_capacity(len);
        moved.push(new_head);
        let mut i: usize = 0;
        while i < len - 1
            invariant
                len == self.segments@.len(),
                len > 0,
                i <= len - 1,
                moved@ == seq![new_head] + self.segments@.take(i as int),
            decreases len - i,
        {
            moved.push(self.segments[i]);
            i += 1;
        }
        assert(self.segments@.take(len - 1) == self.segments@.drop_last());
        self.segments = moved;
        old_tail_cell
    }

    /// Appends `signals` segments behind the tail, each on `last_tail_cell`,
    /// the cell the tail stood on before the latest step.
    pub fn apply_growth(&mut self, last_tail_cell: Position, signals: usize)
        ensures
            final(self)@ == old(self)@.grown(last_tail_cell, signals as nat),
    {
        let mut appended: usize = 0;
        while appended < signals
            invariant
                appended <= signals,
                self@ == old(self)@.grown(last_tail_cell, appended as nat),
            decreases signals - appended,
        {
            spawn_segment(self, last_tail_cell);
            appended += 1;
        }
    }
}

/// Makes a fresh snake: the head on `(SPAWN_X, SPAWN_HEAD_Y)`, one body
/// segment on `(SPAWN_X, SPAWN_BODY_Y)`, heading up.
pub fn spawn_snake() -> (snake: Snake)
    ensures
        snake@ == SnakeView::spawned(),
        snake@.wf(),
{
    let mut snake = Snake { segments: Vec::new(), direction: Direction::Up };
    spawn_segment(&mut snake, Position { x: SPAWN_X, y: SPAWN_HEAD_Y });
    spawn_segment(&mut snake, Position { x: SPAWN_X, y: SPAWN_BODY_Y });
    snake
}

/// Adds one segment on `position` behind the snake's last segment.
pub fn spawn_segment(snake: &mut Snake, position: Position)
    ensures
        final(snake)@.cells == old(snake)@.cells.push(position),
        final(snake)@.direction == old(snake)@.direction,
{
    snake.segments.push(position);
}

/// Tells whether `head_cell` is one of the cells in `body`, the segments
/// behind the head as they stood before the head moved.
pub fn check_self_collision(head_cell: Position, body: &[Position]) -> (hit: bool)
    ensures
        hit == spec_self_collision(head_cell, body@),
{
    let mut i: usize = 0;
    while i < body.len()
        invariant
            i <= body@.len(),
            forall|j: int| 0 <= j < i ==> body@[j] != head_cell,
        decreases body@.len() - i,
    {
        if body[i] == head_cell {
            return true;
        }
        i += 1;
    }
    false
}

/// A step keeps the number of segments and their order: the head lands on
/// the cell that the heading gives, and segment `i > 0` lands on the cell
/// that segment `i - 1` had before the step.
pub proof fn lemma_advance_preserves_order(snake: SnakeView)
    requires
        snake.cells.len() > 0,
    ensures
        snake.advanced().cells.len() == snake.cells.len(),
        snake.advanced().cells[0] == snake.head().spec_step(snake.direction),
        forall|i: int|
            0 < i < snake.cells.len() ==> #[trigger] snake.advanced().cells[i] == snake.cells[i
                - 1],
        snake.advanced().direction == snake.direction,
{
}

/// Growth lengthens the snake by exactly the number of signals, leaves the
/// segments it had where they were, and puts every new one on the cell given.
pub proof fn lemma_growth_appends(snake: SnakeView, last_tail_cell: Position, signals: nat)
    ensures
        snake.grown(last_tail_cell, signals).cells.len() == snake.cells.len() + signals,
        forall|i: int|
            0 <= i < snake.cells.len() ==> #[trigger] snake.grown(last_tail_cell, signals).cells[i]
                == snake.cells[i],
        forall|i: int|
            snake.cells.len() <= i < snake.cells.len() + signals ==> #[trigger] snake.grown(
                last_tail_cell,
                signals,
            ).cells[i] == last_tail_cell,
        snake.grown(last_tail_cell, 0) == snake,
{
}

/// A head that lands on the cell of any segment behind it collides, the
/// tail's cell included.
pub proof fn lemma_self_collision_on_any_segment(snake: SnakeView, head_cell: Position, i: int)
    requires
        0 < i < snake.cells.len(),
        snake.cells[i] == head_cell,
    ensures
        spec_self_collision(head_cell, snake.body()),
{
    assert(snake.body()[i - 1] == head_cell);
}

} // verus!
