//! The player and the programs they own.

use crate::level::program_models;
use crate::program::{Program, ProgramModel};
use vstd::prelude::*;

verus! {

/// The person at the keyboard, with the programs they can bring into a level.
#[derive(Debug, PartialEq, Eq)]
pub struct Player {
    pub name: String,
    pub programs: Vec<Program>,
}

/// The mathematical value of a [`Player`].
pub struct PlayerModel {
    pub name: Seq<char>,
    pub programs: Seq<ProgramModel>,
}

impl View for Player {
    type V = PlayerModel;

    open spec fn view(&self) -> PlayerModel {
        PlayerModel { name: self.name@, programs: program_models(self.programs@) }
    }
}

impl PlayerModel {
    /// The owned programs as choices, each under its own name.
    pub open spec fn roster(self) -> Seq<(Seq<char>, ProgramModel)> {
        self.programs.map_values(|p: ProgramModel| (p.name, p))
    }
}

impl Player {
    /// A player who owns no program yet.
    pub fn new(name: &str) -> (player: Player)
        ensures
            player@ == (PlayerModel { name: name@, programs: Seq::empty() }),
    {
        let player = Player { name: name.to_owned(), programs: Vec::new() };
        assert(player@.programs =~= Seq::empty());
        player
    }
}

} // verus!
