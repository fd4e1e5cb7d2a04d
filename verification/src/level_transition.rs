//! The screen between two levels, shown once a level has been won or lost.

use crate::program::Team;
use vstd::prelude::*;

verus! {

/// What the screen between levels reacts to.
#[derive(Clone, Copy, Debug, PartialEq, Eq, Structural)]
pub enum UiEvent {
    KeyPressed,
    Tick,
}

/// The screen between levels: the level that has ended and the side that won it.
#[derive(Clone, Copy, Debug, PartialEq, Eq, Structural)]
pub struct State {
    pub level_index: usize,
    pub team: Team,
}

impl State {
    pub fn new(level_index: usize, team: Team) -> (state: State)
        ensures
            state == (State { level_index, team }),
    {
        State { level_index, team }
    }
}

} // verus!
