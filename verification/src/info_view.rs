//! The info panel: the side to move, the action label and the lines of detail.

use crate::program::Team;
use crate::window::{Point, Window};
use vstd::prelude::*;

verus! {

/// The row of the info panel that holds the action label; a press on it ends the turn.
pub const END_TURN_ROW: u16 = 23;

/// The panel beside the map.
#[derive(Debug, PartialEq, Eq)]
pub struct InfoView {
    pub window: Window,
    /// The side whose turn it is.
    pub team: Team,
    /// The label that the action row is to carry.
    pub primary_action: String,
    /// The label that the action row shows.
    pub end_turn: String,
    /// The lines of detail on what is selected.
    pub lines: Vec<String>,
}

/// The mathematical value of an [`InfoView`].
pub struct InfoModel {
    pub window: Window,
    pub team: Team,
    pub primary_action: Seq<char>,
    pub end_turn: Seq<char>,
    pub lines: Seq<Seq<char>>,
}

impl View for InfoView {
    type V = InfoModel;

    open spec fn view(&self) -> InfoModel {
        InfoModel {
            window: self.window,
            team: self.team,
            primary_action: self.primary_action@,
            end_turn: self.end_turn@,
            lines: self.lines@.map_values(|line: String| line@),
        }
    }
}

impl InfoModel {
    pub open spec fn with_team(self, team: Team) -> InfoModel {
        InfoModel { team, ..self }
    }

    /// The panel without its lines of detail.
    pub open spec fn cleared(self) -> InfoModel {
        InfoModel { lines: Seq::empty(), ..self }
    }

    /// The panel with `label` set and shown on the action row.
    pub open spec fn armed(self, label: Seq<char>) -> InfoModel {
        InfoModel { primary_action: label, end_turn: label, ..self }
    }
}

impl InfoView {
    /// An empty info panel on `window`, with the player to move.
    pub fn new(window: Window) -> (info: InfoView)
        ensures
            info@ == (InfoModel {
                window,
                team: Team::Player,
                primary_action: Seq::empty(),
                end_turn: Seq::empty(),
                lines: Seq::empty(),
            }),
    {
        let info = InfoView {
            window,
            team: Team::Player,
            primary_action: String::new(),
            end_turn: String::new(),
            lines: Vec::new(),
        };
        assert(info@.lines =~= Seq::empty());
        info
    }

    /// Resolves a point of the screen to a cell of the panel, `None` when it lies outside.
    pub fn from_global_frame(&self, p: Point) -> (cell: Option<Point>)
        ensures
            cell == self.window.to_local(p),
    {
        self.window.from_global_frame(p)
    }

    pub fn set_team(&mut self, team: Team)
        ensures
            final(self)@ == old(self)@.with_team(team),
    {
        self.team = team;
    }

    /// Takes the lines of detail off the panel; the action row stays.
    pub fn clear(&mut self)
        ensures
            final(self)@ == old(self)@.cleared(),
    {
        self.lines.clear();
        assert(self@.lines =~= Seq::empty());
    }

    /// Shows the current action label on the action row.
    pub fn display_end_turn(&mut self)
        ensures
            final(self)@ == old(self)@.armed(old(self)@.primary_action),
    {
        self.end_turn = self.primary_action.clone();
    }
}

/// A list of named choices that the player picks from.
#[derive(Debug, PartialEq, Eq)]
pub struct ChoiceList<T> {
    pub choices: Vec<(String, T)>,
}

impl<T: View> View for ChoiceList<T> {
    type V = Seq<(Seq<char>, T::V)>;

    open spec fn view(&self) -> Seq<(Seq<char>, T::V)> {
        self.choices@.map_values(|choice: (String, T)| (choice.0@, choice.1@))
    }
}

impl<T: View> ChoiceList<T> {
    /// A list without choices.
    pub fn new() -> (list: ChoiceList<T>)
        ensures
            list@ == Seq::<(Seq<char>, T::V)>::empty(),
    {
        let list = ChoiceList { choices: Vec::new() };
        assert(list@ =~= Seq::empty());
        list
    }
}

} // verus!
