//! The three-valued cell state and the cell that carries it.

use vstd::prelude::*;

verus! {

/// What a cell holds. `Unborn` marks a cell that was never touched, `Dead`
/// one that lived and died; the generation rule treats both as not alive.
#[derive(Debug, PartialEq, Eq, Copy, Clone, Structural)]
pub enum State {
    Unborn,
    Alive,
    Dead,
}

impl State {
    /// Whether the state counts as a live neighbour.
    pub open spec fn alive(self) -> bool {
        self == State::Alive
    }

    /// The state a user toggle leads to: anything not alive becomes alive,
    /// a live cell dies.
    pub open spec fn flipped(self) -> State {
        if self == State::Alive {
            State::Dead
        } else {
            State::Alive
        }
    }

    /// The state of a cell in the next generation, from its present state
    /// and the number of its live neighbours.
    ///
    /// A live cell survives on two or three live neighbours and dies
    /// otherwise. A cell that is not alive is born on exactly three; failing
    /// that it keeps its state, so an unborn cell stays unborn.
    pub open spec fn successor(self, live_neighbors: int) -> State {
        if self == State::Alive {
            if live_neighbors == 2 || live_neighbors == 3 {
                State::Alive
            } else {
                State::Dead
            }
        } else if live_neighbors == 3 {
            State::Alive
        } else {
            self
        }
    }

    /// The state that a paste leaves in a cell holding `self` when the
    /// pattern offers `incoming`: a dead pattern cell does not overwrite an
    /// unborn destination, every other combination takes the pattern's value.
    pub open spec fn merged(self, incoming: State) -> State {
        if self == State::Unborn && incoming == State::Dead {
            State::Unborn
        } else {
            incoming
        }
    }

    /// The colour in which the state is drawn, as red, green and blue
    /// between 0 and 255.
    pub open spec fn rgb(self) -> (u8, u8, u8) {
        match self {
            State::Alive => (17, 54, 12),
            State::Dead => (47, 29, 24),
            State::Unborn => (139, 110, 101),
        }
    }

    /// The colour in which the state is drawn.
    pub fn to_color_u8(&self) -> (color: [u8; 3])
        ensures
            (color[0], color[1], color[2]) == self.rgb(),
    {
        match self {
            State::Alive => [17, 54, 12],
            State::Dead => [47, 29, 24],
            State::Unborn => [139, 110, 101],
        }
    }

    /// Tells whether the state is `Alive`.
    pub fn is_alive(self) -> (r: bool)
        ensures
            r == self.alive(),
    {
        self == State::Alive
    }

    /// The state a user toggle leads to.
    pub fn flip(self) -> (r: State)
        ensures
            r == self.flipped(),
    {
        match self {
            State::Unborn | State::Dead => State::Alive,
            State::Alive => State::Dead,
        }
    }

    /// Computes the next-generation state for `live_neighbors` live
    /// neighbours.
    pub fn next(self, live_neighbors: u8) -> (r: State)
        ensures
            r == self.successor(live_neighbors as int),
    {
        if self == State::Alive {
            if live_neighbors == 2 || live_neighbors == 3 {
                State::Alive
            } else {
                State::Dead
            }
        } else if live_neighbors == 3 {
            State::Alive
        } else {
            self
        }
    }

    /// Applies the paste merge rule to a destination holding `self`.
    pub fn merge(self, incoming: State) -> (r: State)
        ensures
            r == self.merged(incoming),
    {
        if self == State::Unborn && incoming == State::Dead {
            State::Unborn
        } else {
            incoming
        }
    }
}

} // verus!
