//! Objectives: the cells a snake grows by reaching, and their consumption.

use vstd::prelude::*;
use crate::positioning::Position;

verus! {

/// A consumable target on one cell of the grid. It is active for as long as
/// it is held in the registry.
#[derive(Clone, Copy, Debug, PartialEq, Eq, Structural)]
pub struct Objective {
    pub position: Position,
}

/// The test "this objective lies on `cell`".
pub open spec fn lies_on(cell: Position) -> spec_fn(Objective) -> bool {
    |objective: Objective| objective.position == cell
}

/// The test "this objective lies elsewhere than on `cell`".
pub open spec fn lies_off(cell: Position) -> spec_fn(Objective) -> bool {
    |objective: Objective| objective.position != cell
}

/// The objectives that lie on `head_cell`, in registry order.
pub open spec fn coincident(objectives: Seq<Objective>, head_cell: Position) -> Seq<Objective> {
    objectives.filter(lies_on(head_cell))
}

/// The objectives that do not lie on `head_cell`, in registry order.
pub open spec fn remaining(objectives: Seq<Objective>, head_cell: Position) -> Seq<Objective> {
    objectives.filter(lies_off(head_cell))
}

/// Whether no objective at an index below `end` lies on `head_cell`.
pub open spec fn none_before(objectives: Seq<Objective>, head_cell: Position, end: int) -> bool {
    forall|j: int| 0 <= j < end && j < objectives.len() ==> objectives[j].position != head_cell
}

/// Registers a new objective on `cell`, behind those already active. The
/// cell is taken as given: it may hold the snake or another objective.
pub fn spawn_objective(objectives: &mut Vec<Objective>, cell: Position)
    ensures
        final(objectives)@ == old(objectives)@.push(Objective { position: cell }),
{
    objectives.push(Objective { position: cell });
}

/// Looks for an objective on `head_cell`. If there is one, the first such
/// objective is removed from the registry and its index before the removal
/// is returned; the others keep their order. If there is none, the registry
/// is left as it was and `None` is returned.
pub fn check_objective_collision(head_cell: Position, objectives: &mut Vec<Objective>) -> (consumed:
    Option<usize>)
    ensures
        match consumed {
            Some(id) => {
                &&& id < old(objectives)@.len()
                &&& old(objectives)@[id as int].position == head_cell
                &&& none_before(old(objectives)@, head_cell, id as int)
                &&& final(objectives)@ == old(objectives)@.remove(id as int)
            },
            None => {
                &&& none_before(old(objectives)@, head_cell, old(objectives)@.len() as int)
                &&& final(objectives)@ == old(objectives)@
            },
        },
{
    let mut i: usize = 0;
    while i < objectives.len()
        invariant
            i <= objectives@.len(),
            objectives@ == old(objectives)@,
            none_before(objectives@, head_cell, i as int),
        decreases objectives@.len() - i,
    {
        if objectives[i].position == head_cell {
            objectives.remove(i);
            return Some(i);
        }
        i += 1;
    }
    None
}

/// Consumes every objective that lies on `head_cell` and returns how many
/// there were: one growth signal for each. The objectives elsewhere stay
/// active, in their order.
pub fn consume_objectives(head_cell: Position, objectives: &mut Vec<Objective>) -> (signals: usize)
    ensures
        final(objectives)@ == remaining(old(objectives)@, head_cell),
        signals == coincident(old(objectives)@, head_cell).len(),
        signals + final(objectives)@.len() == old(objectives)@.len(),
{
    let registered = objectives.len();
    let mut signals: usize = 0;
    loop
        invariant_except_break
            registered == old(objectives)@.len(),
            remaining(objectives@, head_cell) == remaining(old(objectives)@, head_cell),
            coincident(objectives@, head_cell).len() + signals == coincident(
                old(objectives)@,
                head_cell,
            ).len(),
            signals + objectives@.len() == old(objectives)@.len(),
        ensures
            objectives@ == remaining(old(objectives)@, head_cell),
            signals == coincident(old(objectives)@, head_cell).len(),
            signals + objectives@.len() == old(objectives)@.len(),
        decreases objectives@.len(),
    {
        let ghost before = objectives@;
        match check_objective_collision(head_cell, objectives) {
            Some(id) => {
                proof {
                    lemma_consuming_one(before, head_cell, id as int);
                }
                signals += 1;
            },
            None => {
                proof {
                    lemma_nothing_to_consume(before, head_cell);
                }
                break ;
            },
        }
    }
    signals
}

/// Taking one objective that lies on `head_cell` out of the registry leaves
/// the objectives elsewhere untouched and one fewer on the cell.
pub proof fn lemma_consuming_one(objectives: Seq<Objective>, head_cell: Position, id: int)
    requires
        0 <= id < objectives.len(),
        objectives[id].position == head_cell,
    ensures
        remaining(objectives.remove(id), head_cell) == remaining(objectives, head_cell),
        coincident(objectives.remove(id), head_cell).len() + 1 == coincident(
            objectives,
            head_cell,
        ).len(),
{
    let front = objectives.take(id);
    let one = seq![objectives[id]];
    let back = objectives.skip(id + 1);
    assert(objectives == front + one + back);
    assert(objectives.remove(id) == front + back);
    assert(one.drop_last() == Seq::<Objective>::empty());
    assert(one.filter(lies_off(head_cell)) == Seq::<Objective>::empty()) by {
        reveal_with_fuel(Seq::filter, 2);
    }
    assert(one.filter(lies_on(head_cell)) == one) by {
        reveal_with_fuel(Seq::filter, 2);
    }
    Seq::filter_distributes_over_add(front, one, lies_off(head_cell));
    Seq::filter_distributes_over_add(front + one, back, lies_off(head_cell));
    Seq::filter_distributes_over_add(front, back, lies_off(head_cell));
    Seq::filter_distributes_over_add(front, one, lies_on(head_cell));
    Seq::filter_distributes_over_add(front + one, back, lies_on(head_cell));
    Seq::filter_distributes_over_add(front, back, lies_on(head_cell));
}

/// Where no objective lies on `head_cell`, all of them remain and none is
/// coincident.
pub proof fn lemma_nothing_to_consume(objectives: Seq<Objective>, head_cell: Position)
    requires
        none_before(objectives, head_cell, objectives.len() as int),
    ensures
        remaining(objectives, head_cell) == objectives,
        coincident(objectives, head_cell).len() == 0,
    decreases objectives.len(),
{
    reveal(Seq::filter);
    if objectives.len() > 0 {
        lemma_nothing_to_consume(objectives.drop_last(), head_cell);
        assert(objectives.drop_last().push(objectives.last()) == objectives);
    }
}

/// Consumption splits the registry in two: each objective is either
/// coincident with the head cell or remains, never both.
pub proof fn lemma_consumption_partitions(objectives: Seq<Objective>, head_cell: Position)
    ensures
        coincident(objectives, head_cell).len() + remaining(objectives, head_cell).len()
            == objectives.len(),
        forall|i: int|
            0 <= i < coincident(objectives, head_cell).len() ==> (#[trigger] coincident(
                objectives,
                head_cell,
            )[i]).position == head_cell,
        forall|i: int|
            0 <= i < remaining(objectives, head_cell).len() ==> (#[trigger] remaining(
                objectives,
                head_cell,
            )[i]).position != head_cell,
    decreases objectives.len(),
{
    reveal(Seq::filter);
    if objectives.len() > 0 {
        lemma_consumption_partitions(objectives.drop_last(), head_cell);
    }
}

} // verus!
