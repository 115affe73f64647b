//! The fixed-step simulation: one tick turns, moves, tests for collisions,
//! consumes objectives, grows the snake, and starts over after a collision.

use vstd::prelude::*;
use crate::direction::Direction;
use crate::objective::{
    coincident,
    consume_objectives,
    lemma_consumption_partitions,
    remaining,
    spawn_objective,
    Objective,
};
use crate::positioning::{check_wall_collision, spec_wall_collision, Board, Position};
use crate::snake::{
    check_self_collision,
    lemma_self_collision_on_any_segment,
    spawn_body,
    spawn_head,
    spawn_snake,
    spec_self_collision,
    Snake,
    SnakeView,
    SPAWN_BODY_Y,
    SPAWN_HEAD_Y,
    SPAWN_X,
};

verus! {

/// The whole state of a game as the rules see it.
#[verifier::ext_equal]
pub struct SimulationView {
    pub board: Board,
    pub snake: SnakeView,
    pub objectives: Seq<Objective>,
    pub last_tail_position: Option<Position>,
}

impl SimulationView {
    /// The state a game starts in, and starts over in: a fresh snake, no
    /// objectives, and no tail cell remembered yet.
    pub open spec fn initial(board: Board) -> SimulationView {
        SimulationView {
            board,
            snake: SnakeView::spawned(),
            objectives: Seq::empty(),
            last_tail_position: None,
        }
    }

    /// A cell a segment may rest on between ticks: one on the board, or one
    /// of the two cells a fresh snake stands on.
    pub open spec fn settled(self, cell: Position) -> bool {
        self.board.contains(cell) || cell == spawn_head() || cell == spawn_body()
    }

    /// What holds between ticks: the board is well formed, the snake has a
    /// head and a body, and every segment rests on a settled cell.
    pub open spec fn wf(self) -> bool {
        &&& self.board.wf()
        &&& self.snake.wf()
        &&& forall|i: int| 0 <= i < self.snake.cells.len() ==> self.settled(#[trigger] self.snake.cells[i])
    }

    /// The state with the heading reconciled with a request.
    pub open spec fn turned(self, requested: Option<Direction>) -> SimulationView {
        SimulationView {
            board: self.board,
            snake: self.snake.turned(requested),
            objectives: self.objectives,
            last_tail_position: self.last_tail_position,
        }
    }

    /// Whether the step the snake is about to take ends in a collision: the
    /// head would leave the board, or land on a segment of the body as it
    /// stands before the step.
    pub open spec fn collides(self) -> bool {
        ||| spec_wall_collision(self.snake.next_head(), self.board)
        ||| spec_self_collision(self.snake.next_head(), self.snake.body())
    }

    /// The state with the snake moved one step, and the cell its tail left
    /// remembered.
    pub open spec fn moved(self) -> SimulationView {
        SimulationView {
            board: self.board,
            snake: self.snake.advanced(),
            objectives: self.objectives,
            last_tail_position: Some(self.snake.tail()),
        }
    }

    /// The state with every objective under the head taken out.
    pub open spec fn consumed(self) -> SimulationView {
        SimulationView {
            board: self.board,
            snake: self.snake,
            objectives: remaining(self.objectives, self.snake.head()),
            last_tail_position: self.last_tail_position,
        }
    }

    /// The state with `signals` segments added on the remembered tail cell.
    /// Without a signal nothing is added, and no cell need be remembered.
    pub open spec fn grown(self, signals: nat) -> SimulationView
        recommends
            signals > 0 ==> self.last_tail_position is Some,
    {
        SimulationView {
            board: self.board,
            snake: self.snake.grown(self.last_tail_position->0, signals),
            objectives: self.objectives,
            last_tail_position: self.last_tail_position,
        }
    }

    /// The state with one more objective, on `cell`, behind those active.
    pub open spec fn with_objective(self, cell: Position) -> SimulationView {
        SimulationView {
            board: self.board,
            snake: self.snake,
            objectives: self.objectives.push(Objective { position: cell }),
            last_tail_position: self.last_tail_position,
        }
    }

    /// The state after the game-over stage: started over if a collision was
    /// signalled, untouched otherwise. Starting over replaces the snake by a
    /// fresh one and clears the objectives; the board and the remembered
    /// tail cell stay.
    pub open spec fn restarted_if(self, raised: bool) -> SimulationView {
        if raised {
            SimulationView {
                board: self.board,
                snake: SnakeView::spawned(),
                objectives: Seq::empty(),
                last_tail_position: self.last_tail_position,
            }
        } else {
            self
        }
    }

    /// The cell the head is on after the move of a tick that starts with
    /// `requested`.
    pub open spec fn next_head(self, requested: Option<Direction>) -> Position {
        self.snake.turned(requested).next_head()
    }

    /// Whether a tick that starts with `requested` ends the run.
    pub open spec fn game_over_raised(self, requested: Option<Direction>) -> bool {
        self.turned(requested).collides()
    }

    /// The number of growth signals in a tick that starts with `requested`:
    /// one for each objective on the cell the head moves to.
    pub open spec fn growth_raised(self, requested: Option<Direction>) -> nat {
        coincident(self.objectives, self.next_head(requested)).len()
    }

    /// The state one tick later.
    ///
    /// The tail cell remembered is always the one the tail stood on before
    /// the tick. If the move collides, the game starts over. Otherwise the
    /// snake has turned and moved, has one more segment on that tail cell for
    /// each growth signal, and the objectives under its head are gone.
    pub open spec fn after_tick(self, requested: Option<Direction>) -> SimulationView {
        if self.game_over_raised(requested) {
            SimulationView {
                board: self.board,
                snake: SnakeView::spawned(),
                objectives: Seq::empty(),
                last_tail_position: Some(self.snake.tail()),
            }
        } else {
            SimulationView {
                board: self.board,
                snake: self.snake.turned(requested).advanced().grown(
                    self.snake.tail(),
                    self.growth_raised(requested),
                ),
                objectives: remaining(self.objectives, self.next_head(requested)),
                last_tail_position: Some(self.snake.tail()),
            }
        }
    }
}

/// What one tick signalled.
#[derive(Clone, Copy, Debug, PartialEq, Eq, Structural)]
pub struct TickReport {
    /// Whether the move collided and the game started over.
    pub game_over: bool,
    /// How many objectives the head consumed.
    pub growth: usize,
}

/// A game in progress.
#[derive(Debug)]
pub struct Simulation {
    pub board: Board,
    pub snake: Snake,
    pub objectives: Vec<Objective>,
    pub last_tail_position: Option<Position>,
}

impl View for Simulation {
    type V = SimulationView;

    open spec fn view(&self) -> SimulationView {
        SimulationView {
            board: self.board,
            snake: self.snake@,
            objectives: self.objectives@,
            last_tail_position: self.last_tail_position,
        }
    }
}

impl Simulation {
    /// Starts a game on `board`.
    pub fn new(board: Board) -> (simulation: Simulation)
        requires
            board.wf(),
        ensures
            simulation@ == SimulationView::initial(board),
            simulation@.wf(),
    {
        Simulation {
            board,
            snake: spawn_snake(),
            objectives: Vec::new(),
            last_tail_position: None,
        }
    }

    /// Tells whether the state is one that may stand between ticks.
    pub fn is_valid(&self) -> (valid: bool)
        ensures
            valid == self@.wf(),
    {
        if !self.board.is_valid() || !self.snake.is_valid() {
            return false;
        }
        let mut i: usize = 0;
        while i < self.snake.segments.len()
            invariant
                i <= self.snake.segments@.len(),
                forall|j: int| 0 <= j < i ==> self@.settled(#[trigger] self.snake.segments@[j]),
            decreases self.snake.segments@.len() - i,
        {
            let cell = self.snake.segments[i];
            let on_spawn = cell.x == SPAWN_X && (cell.y == SPAWN_HEAD_Y || cell.y == SPAWN_BODY_Y);
            if check_wall_collision(cell, self.board) && !on_spawn {
                assert(!self@.settled(self@.snake.cells[i as int]));
                return false;
            }
            i += 1;
        }
        true
    }

    /// Takes an objective from the spawner: it becomes active on `cell`.
    pub fn spawn_objective(&mut self, cell: Position)
        ensures
            final(self)@ == old(self)@.with_objective(cell),
            old(self)@.wf() ==> final(self)@.wf(),
    {
        spawn_objective(&mut self.objectives, cell);
    }

    /// First stage of a tick: reconciles the heading with what the player
    /// asked for since the last tick, if anything.
    pub fn capture_movement_direction(&mut self, requested: Option<Direction>)
        ensures
            final(self)@ == old(self)@.turned(requested),
    {
        self.snake.turn(requested);
    }

    /// Second stage: moves the snake one step, remembers the cell its tail
    /// left, and tells whether the move collided with the wall or with the
    /// snake itself. Both at once still make one signal.
    pub fn snake_movement(&mut self) -> (game_over: bool)
        requires
            old(self)@.snake.cells.len() > 0,
            old(self)@.snake.head().can_step(old(self)@.snake.direction),
        ensures
            final(self)@ == old(self)@.moved(),
            game_over == old(self)@.collides(),
    {
        let head_cell = self.snake.next_head();
        let hit_wall = check_wall_collision(head_cell, self.board);
        let body = vstd::slice::slice_subrange(
            self.snake.segments.as_slice(),
            1,
            self.snake.segments.len(),
        );
        let hit_self = check_self_collision(head_cell, body);
        assert(body@ == self@.snake.body());
        let old_tail_cell = self.snake.advance();
        self.last_tail_position = Some(old_tail_cell);
        hit_wall || hit_self
    }

    /// Third stage: consumes every objective under the head and returns the
    /// number of growth signals, one for each.
    pub fn snake_objective_collision(&mut self) -> (signals: usize)
        requires
            old(self)@.snake.cells.len() > 0,
        ensures
            final(self)@ == old(self)@.consumed(),
            signals == coincident(old(self)@.objectives, old(self)@.snake.head()).len(),
    {
        let head_cell = self.snake.head();
        consume_objectives(head_cell, &mut self.objectives)
    }

    /// Fourth stage: appends one segment for each growth signal, on the cell
    /// the tail left in this tick's move.
    pub fn snake_growth(&mut self, signals: usize)
        requires
            signals > 0 ==> old(self)@.last_tail_position is Some,
        ensures
            final(self)@ == old(self)@.grown(signals as nat),
    {
        if let Some(last_tail_cell) = self.last_tail_position {
            self.snake.apply_growth(last_tail_cell, signals);
        }
    }

    /// Last stage: if a collision was signalled, clears the snake and the
    /// objectives and puts a fresh snake in place, all at once.
    pub fn game_over(&mut self, raised: bool)
        ensures
            final(self)@ == old(self)@.restarted_if(raised),
    {
        if raised {
            self.objectives.clear();
            self.snake = spawn_snake();
        }
    }

    /// Advances the game by one tick. `requested` is the heading the player
    /// last asked for, or `None` to keep the current one.
    pub fn tick(&mut self, requested: Option<Direction>) -> (report: TickReport)
        requires
            old(self)@.wf(),
        ensures
            final(self)@ == old(self)@.after_tick(requested),
            final(self)@.wf(),
            report.game_over == old(self)@.game_over_raised(requested),
            report.growth == old(self)@.growth_raised(requested),
            !report.game_over ==> final(self)@.snake.cells.len() == old(self)@.snake.cells.len()
                + report.growth,
    {
        proof {
            lemma_head_can_step(self@, self@.snake.direction.spec_turn(requested));
            lemma_tick_preserves_wf(self@, requested);
        }
        self.capture_movement_direction(requested);
        let game_over = self.snake_movement();
        let growth = self.snake_objective_collision();
        self.snake_growth(growth);
        self.game_over(game_over);
        TickReport { game_over, growth }
    }
}

/// Between ticks the head can step in any heading without leaving the
/// coordinates a cell can hold.
pub proof fn lemma_head_can_step(state: SimulationView, heading: Direction)
    requires
        state.wf(),
    ensures
        state.snake.head().can_step(heading),
{
    assert(state.settled(state.snake.cells[0]));
}

/// A tick takes a state that may stand between ticks to another such state.
pub proof fn lemma_tick_preserves_wf(state: SimulationView, requested: Option<Direction>)
    requires
        state.wf(),
    ensures
        state.after_tick(requested).wf(),
{
    let after = state.after_tick(requested);
    if !state.game_over_raised(requested) {
        assert forall|i: int| 0 <= i < after.snake.cells.len() implies after.settled(
            #[trigger] after.snake.cells[i],
        ) by {
            if i == 0 {
            } else if i < state.snake.cells.len() {
                assert(state.settled(state.snake.cells[i - 1]));
            } else {
                assert(state.settled(state.snake.cells[state.snake.cells.len() - 1]));
            }
        }
    }
}

/// A tick that does not end the run lengthens the snake by one segment for
/// each growth signal, and so leaves its length alone when there was none
/// and adds exactly one when there was one. A tick that ends the run leaves
/// a fresh snake of two segments.
pub proof fn lemma_tick_length(state: SimulationView, requested: Option<Direction>)
    requires
        state.wf(),
    ensures
        !state.game_over_raised(requested) ==> state.after_tick(requested).snake.cells.len()
            == state.snake.cells.len() + state.growth_raised(requested),
        !state.game_over_raised(requested) && state.growth_raised(requested) == 0
            ==> state.after_tick(requested).snake.cells.len() == state.snake.cells.len(),
        !state.game_over_raised(requested) && state.growth_raised(requested) == 1
            ==> state.after_tick(requested).snake.cells.len() == state.snake.cells.len() + 1,
        state.game_over_raised(requested) ==> state.after_tick(requested).snake.cells.len() == 2,
{
}

/// In a tick that does not end the run the segments keep their order: the
/// head lands on the cell its reconciled heading gives, and segment `i > 0`
/// lands on the cell segment `i - 1` had before the tick.
pub proof fn lemma_tick_preserves_order(state: SimulationView, requested: Option<Direction>)
    requires
        state.wf(),
        !state.game_over_raised(requested),
    ensures
        state.after_tick(requested).snake.cells[0] == state.snake.head().spec_step(
            state.snake.direction.spec_turn(requested),
        ),
        forall|i: int|
            0 < i < state.snake.cells.len() ==> #[trigger] state.after_tick(
                requested,
            ).snake.cells[i] == state.snake.cells[i - 1],
        state.after_tick(requested).snake.direction == state.snake.direction.spec_turn(requested),
{
}

/// A tick ends the run exactly when the head would leave the board or land
/// on the body. So a head bound for a cell just beyond any edge ends it, and
/// a head bound for a cell on the board that no body segment holds does not.
pub proof fn lemma_game_over_iff_collision(state: SimulationView, requested: Option<Direction>)
    requires
        state.wf(),
    ensures
        state.game_over_raised(requested) <==> !state.board.contains(state.next_head(requested))
            || state.snake.body().contains(state.next_head(requested)),
        state.next_head(requested).x == -1 ==> state.game_over_raised(requested),
        state.next_head(requested).y == -1 ==> state.game_over_raised(requested),
        state.next_head(requested).x == state.board.width ==> state.game_over_raised(requested),
        state.next_head(requested).y == state.board.height ==> state.game_over_raised(requested),
        state.board.contains(state.next_head(requested)) && !state.snake.body().contains(
            state.next_head(requested),
        ) ==> !state.game_over_raised(requested),
{
}

/// A head bound for a cell that a segment behind it holds before the move
/// ends the run: the third segment of a snake of three or more, the tail, or
/// any other.
pub proof fn lemma_self_collision_raises_game_over(
    state: SimulationView,
    requested: Option<Direction>,
)
    requires
        state.snake.wf(),
    ensures
        state.snake.cells.len() >= 3 && state.next_head(requested) == state.snake.cells[2]
            ==> state.game_over_raised(requested),
        state.next_head(requested) == state.snake.tail() ==> state.game_over_raised(requested),
        forall|i: int|
            0 < i < state.snake.cells.len() && state.next_head(requested)
                == #[trigger] state.snake.cells[i] ==> state.game_over_raised(requested),
{
    let head_cell = state.next_head(requested);
    assert forall|i: int|
        0 < i < state.snake.cells.len() && head_cell
            == #[trigger] state.snake.cells[i] implies state.game_over_raised(requested) by {
        lemma_self_collision_on_any_segment(state.snake, head_cell, i);
    }
    if head_cell == state.snake.tail() {
        assert(state.snake.cells[state.snake.cells.len() - 1] == head_cell);
    }
}

/// In a tick that grows the snake, every new segment stands on the cell the
/// tail had before the tick, not on the cell the tail moved to.
pub proof fn lemma_growth_lands_on_old_tail(state: SimulationView, requested: Option<Direction>)
    requires
        state.wf(),
        !state.game_over_raised(requested),
        state.growth_raised(requested) >= 1,
    ensures
        state.after_tick(requested).snake.tail() == state.snake.tail(),
        forall|i: int|
            state.snake.cells.len() <= i < state.snake.cells.len() + state.growth_raised(requested)
                ==> #[trigger] state.after_tick(requested).snake.cells[i] == state.snake.tail(),
        state.after_tick(requested).last_tail_position == Some(state.snake.tail()),
{
}

/// A tick that ends the run starts the game over: it leaves a fresh snake on
/// its two cells, heading up, and no objectives, on the same board.
pub proof fn lemma_game_over_restarts(state: SimulationView, requested: Option<Direction>)
    requires
        state.game_over_raised(requested),
    ensures
        state.after_tick(requested).snake == SnakeView::spawned(),
        state.after_tick(requested).snake.cells == seq![spawn_head(), spawn_body()],
        state.after_tick(requested).snake.direction == Direction::Up,
        state.after_tick(requested).objectives == Seq::<Objective>::empty(),
        state.after_tick(requested).board == state.board,
{
}

/// After a tick no active objective lies under the head, and the active
/// objectives are among those active before.
pub proof fn lemma_no_objective_under_head(state: SimulationView, requested: Option<Direction>)
    requires
        state.wf(),
    ensures
        forall|i: int|
            0 <= i < state.after_tick(requested).objectives.len() ==> (
            #[trigger] state.after_tick(requested).objectives[i]).position != state.after_tick(
                requested,
            ).snake.head(),
        state.after_tick(requested).objectives.len() <= state.objectives.len(),
{
    lemma_consumption_partitions(state.objectives, state.next_head(requested));
}

/// A tick is its five stages in order: the heading is reconciled, the snake
/// moves, the objectives under the head are consumed, the snake grows by the
/// signals raised, and the game starts over if the move collided.
pub proof fn lemma_tick_runs_stages_in_order(state: SimulationView, requested: Option<Direction>)
    requires
        state.wf(),
    ensures
        state.after_tick(requested) == state.turned(requested).moved().consumed().grown(
            state.growth_raised(requested),
        ).restarted_if(state.game_over_raised(requested)),
{
}

/// Starting over twice is starting over once.
pub proof fn lemma_restart_is_idempotent(state: SimulationView)
    ensures
        state.restarted_if(true).restarted_if(true) == state.restarted_if(true),
{
}

} // verus!
