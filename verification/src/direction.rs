//! The four headings a snake can take, and the rule that forbids reversing.

use vstd::prelude::*;

verus! {

/// A heading on the grid. `Right` and `Left` move along x, `Up` and `Down`
/// along y, with `Up` towards larger y.
#[derive(Clone, Copy, Debug, PartialEq, Eq, Structural)]
pub enum Direction {
    Left,
    Right,
    Up,
    Down,
}

impl Direction {
    /// The heading that points the other way.
    pub open spec fn spec_opposite(self) -> Direction {
        match self {
            Direction::Left => Direction::Right,
            Direction::Right => Direction::Left,
            Direction::Up => Direction::Down,
            Direction::Down => Direction::Up,
        }
    }

    /// The heading after a request: the requested one, unless nothing was
    /// requested or the request would reverse the current heading.
    pub open spec fn spec_turn(self, requested: Option<Direction>) -> Direction {
        match requested {
            Some(wanted) => if wanted == self.spec_opposite() {
                self
            } else {
                wanted
            },
            None => self,
        }
    }

    /// The heading that four pressed-or-not keys ask for. When several are
    /// held, right wins over left, left over up, and up over down.
    pub open spec fn spec_from_keys(right: bool, left: bool, up: bool, down: bool) -> Option<
        Direction,
    > {
        if right {
            Some(Direction::Right)
        } else if left {
            Some(Direction::Left)
        } else if up {
            Some(Direction::Up)
        } else if down {
            Some(Direction::Down)
        } else {
            None
        }
    }

    /// Returns the heading that points the other way.
    #[verifier::when_used_as_spec(spec_opposite)]
    pub fn opposite(self) -> (reversed: Direction)
        ensures
            reversed == self.spec_opposite(),
    {
        match self {
            Direction::Left => Direction::Right,
            Direction::Right => Direction::Left,
            Direction::Up => Direction::Down,
            Direction::Down => Direction::Up,
        }
    }

    /// Reconciles a requested heading with the current one. A request to
    /// reverse is ignored, as is the absence of a request; any other request
    /// is taken.
    #[verifier::when_used_as_spec(spec_turn)]
    pub fn turn(self, requested: Option<Direction>) -> (heading: Direction)
        ensures
            heading == self.spec_turn(requested),
            heading != self.spec_opposite(),
    {
        match requested {
            Some(wanted) => {
                if wanted == self.opposite() {
                    self
                } else {
                    wanted
                }
            },
            None => self,
        }
    }

    /// Reduces the state of the four steering keys to at most one request.
    #[verifier::when_used_as_spec(spec_from_keys)]
    pub fn from_keys(right: bool, left: bool, up: bool, down: bool) -> (requested: Option<
        Direction,
    >)
        ensures
            requested == Self::spec_from_keys(right, left, up, down),
            requested is None <==> !(right || left || up || down),
    {
        if right {
            Some(Direction::Right)
        } else if left {
            Some(Direction::Left)
        } else if up {
            Some(Direction::Up)
        } else if down {
            Some(Direction::Down)
        } else {
            None
        }
    }
}

/// Reversing twice gives the heading back, and no heading is its own reverse.
pub proof fn lemma_opposite_involutive(heading: Direction)
    ensures
        heading.spec_opposite().spec_opposite() == heading,
        heading.spec_opposite() != heading,
{
}

/// The reversal rule: asking for the opposite of the current heading, or for
/// nothing, leaves the heading as it is; asking for any other heading takes
/// it. Whatever is asked, the result is never the opposite of the heading
/// held before.
pub proof fn lemma_turn_rejects_reversal(heading: Direction, wanted: Direction)
    ensures
        heading.spec_turn(Some(heading.spec_opposite())) == heading,
        heading.spec_turn(None) == heading,
        wanted != heading.spec_opposite() ==> heading.spec_turn(Some(wanted)) == wanted,
        heading.spec_turn(Some(wanted)) != heading.spec_opposite(),
{
}

} // verus!
