//! The state machine of a turn-based tactical game played on a grid.
//!
//! A player commands programs against an opponent, turn by turn, until one
//! side has won or the player leaves.

pub mod ai;
pub mod clock;
pub mod game_state;
pub mod info_view;
pub mod input;
pub mod laws;
pub mod level;
pub mod level_transition;
pub mod map_view;
pub mod mission_select;
pub mod player;
pub mod program;
pub mod window;
