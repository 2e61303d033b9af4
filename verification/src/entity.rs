//! A single cell: where it lies and what state it holds.

use vstd::prelude::*;
use crate::state::State;
use crate::vec2_int::Vec2Int;

verus! {

/// A cell of the world.
#[derive(Debug, Clone, Copy)]
pub struct Entity {
    pub position: Vec2Int,
    pub state: State,
}

impl Entity {
    /// A cell at `position` that has never been touched.
    pub fn new(position: Vec2Int) -> (entity: Self)
        ensures
            entity.position == position,
            entity.state == State::Unborn,
    {
        Entity { position, state: State::Unborn }
    }

    /// Toggles the cell as a user does: a cell that is not alive comes
    /// alive, a live cell dies. Returns the new state.
    pub fn flip_state(&mut self) -> (new_state: State)
        ensures
            new_state == old(self).state.flipped(),
            final(self).state == new_state,
            final(self).position == old(self).position,
    {
        let new_state = self.state.flip();
        self.state = new_state;
        new_state
    }
}

} // verus!
