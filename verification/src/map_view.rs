//! The map panel: where it stands on the screen and what is marked on it.

use crate::level::{Level, LevelModel};
use crate::program::{ProgramModel, Team};
use crate::window::{Point, Window};
use vstd::prelude::*;

verus! {

/// The panel that shows the grid, with its overlays and its help line.
#[derive(Debug, PartialEq, Eq)]
pub struct MapView {
    pub window: Window,
    /// The cells marked for the side whose turn it is.
    pub highlight: Vec<Point>,
    /// The cells that the selected program can move to or attack.
    pub range: Vec<Point>,
    pub help: String,
}

/// The mathematical value of a [`MapView`].
pub struct MapModel {
    pub window: Window,
    pub highlight: Seq<Point>,
    pub range: Seq<Point>,
    pub help: Seq<char>,
}

impl View for MapView {
    type V = MapModel;

    open spec fn view(&self) -> MapModel {
        MapModel {
            window: self.window,
            highlight: self.highlight@,
            range: self.range@,
            help: self.help@,
        }
    }
}

/// The test that a program passes when it fights for `team`.
pub open spec fn fights_for(team: Team) -> spec_fn(ProgramModel) -> bool {
    |p: ProgramModel| p.team == team
}

/// The cells on which the programs of `team` stand, in the order of the level's programs.
pub open spec fn team_cells(level: LevelModel, team: Team) -> Seq<Point> {
    level.programs.filter(fights_for(team)).map_values(|p: ProgramModel| p.position)
}

impl MapModel {
    pub open spec fn range_cleared(self) -> MapModel {
        MapModel { range: Seq::empty(), ..self }
    }

    pub open spec fn highlight_cleared(self) -> MapModel {
        MapModel { highlight: Seq::empty(), ..self }
    }

    /// The panel with the cells of `team`'s programs added to the highlight.
    pub open spec fn highlight_updated(self, level: LevelModel, team: Team) -> MapModel {
        MapModel { highlight: self.highlight + team_cells(level, team), ..self }
    }

    pub open spec fn with_help(self, help: Seq<char>) -> MapModel {
        MapModel { help, ..self }
    }

    /// The panel with nothing marked and no help shown.
    pub open spec fn reset(self) -> MapModel {
        MapModel { window: self.window, highlight: Seq::empty(), range: Seq::empty(), help: Seq::empty() }
    }
}

impl MapView {
    /// An empty map panel on `window`.
    pub fn new(window: Window) -> (map: MapView)
        ensures
            map@ == (MapModel {
                window,
                highlight: Seq::empty(),
                range: Seq::empty(),
                help: Seq::empty(),
            }),
    {
        MapView { window, highlight: Vec::new(), range: Vec::new(), help: String::new() }
    }

    /// Resolves a point of the screen to a cell of the panel, `None` when it lies outside.
    pub fn from_global_frame(&self, p: Point) -> (cell: Option<Point>)
        ensures
            cell == self.window.to_local(p),
    {
        self.window.from_global_frame(p)
    }

    /// Takes every mark and the help line off the panel.
    pub fn reset(&mut self)
        ensures
            final(self)@ == old(self)@.reset(),
    {
        self.highlight.clear();
        self.range.clear();
        self.help = String::new();
    }

    pub fn clear_range(&mut self)
        ensures
            final(self)@ == old(self)@.range_cleared(),
    {
        self.range.clear();
    }

    pub fn clear_highlight(&mut self)
        ensures
            final(self)@ == old(self)@.highlight_cleared(),
    {
        self.highlight.clear();
    }

    /// Marks the cells on which the programs of `team` stand.
    pub fn update_highlight(&mut self, level: &Level, team: Team)
        ensures
            final(self)@ == old(self)@.highlight_updated(level@, team),
    {
        let ghost own = fights_for(team);
        let ghost cell = |p: ProgramModel| p.position;
        let mut i: usize = 0;
        while i < level.programs.len()
            invariant
                i <= level.programs.len(),
                own == fights_for(team),
                cell == (|p: ProgramModel| p.position),
                self.window == old(self).window,
                self.range == old(self).range,
                self.help == old(self).help,
                self.highlight@ == old(self).highlight@ + level@.programs.take(i as int).filter(
                    own,
                ).map_values(cell),
            decreases level.programs.len() - i,
        {
            proof {
                let done = level@.programs.take(i as int);
                let p = level@.programs[i as int];
                assert(level@.programs.take(i + 1) =~= done.push(p));
                done.lemma_filter_push(p, own);
                assert(done.filter(own).push(p).map_values(cell) =~= done.filter(own).map_values(
                    cell,
                ).push(p.position));
                assert((old(self).highlight@ + done.filter(own).map_values(cell)).push(p.position)
                    =~= old(self).highlight@ + done.filter(own).map_values(cell).push(p.position));
            }
            if level.programs[i].team == team {
                self.highlight.push(level.programs[i].position);
            }
            i = i + 1;
        }
        assert(level@.programs.take(i as int) =~= level@.programs);
    }

    pub fn set_help(&mut self, help: String)
        ensures
            final(self)@ == old(self)@.with_help(help@),
    {
        self.help = help;
    }
}

} // verus!
