//! A level: the grid and the programs that stand on it.

use crate::program::{Program, ProgramModel, Team, TurnState};
use crate::window::Point;
use vstd::prelude::*;

verus! {

/// The grid of one mission and the programs of both sides on it.
#[derive(Debug, PartialEq, Eq)]
pub struct Level {
    /// The rows of the grid, one character for each cell.
    pub grid: Vec<String>,
    pub programs: Vec<Program>,
}

/// The mathematical value of a [`Level`].
pub struct LevelModel {
    pub grid: Seq<Seq<char>>,
    pub programs: Seq<ProgramModel>,
}

/// The values of a sequence of programs, in the same order.
pub open spec fn program_models(programs: Seq<Program>) -> Seq<ProgramModel> {
    programs.map_values(|p: Program| p@)
}

/// The rows of a grid as sequences of characters.
pub open spec fn row_models(rows: Seq<String>) -> Seq<Seq<char>> {
    rows.map_values(|row: String| row@)
}

/// The test that a program passes when it stands anywhere but on `position`.
pub open spec fn stands_off(position: Point) -> spec_fn(ProgramModel) -> bool {
    |p: ProgramModel| p.position != position
}

/// The test that a program passes when it stands on none of `positions`.
pub open spec fn clear_of(positions: Seq<Point>) -> spec_fn(ProgramModel) -> bool {
    |p: ProgramModel| !positions.contains(p.position)
}

/// The test that a program passes when it does not live through the coming tick.
pub open spec fn doomed() -> spec_fn(ProgramModel) -> bool {
    |p: ProgramModel| p.succumbs()
}

impl View for Level {
    type V = LevelModel;

    open spec fn view(&self) -> LevelModel {
        LevelModel { grid: row_models(self.grid@), programs: program_models(self.programs@) }
    }
}

impl LevelModel {
    /// Every program of the level is well formed.
    pub open spec fn well_formed(self) -> bool {
        forall|i: int| 0 <= i < self.programs.len() ==> (#[trigger] self.programs[i]).well_formed()
    }

    /// Whether `team` still has a program on the grid.
    pub open spec fn has_team(self, team: Team) -> bool {
        exists|i: int| 0 <= i < self.programs.len() && (#[trigger] self.programs[i]).team == team
    }

    /// The side that has won: the player once no enemy program is left,
    /// the enemy once enemies are left and no program of the player is.
    pub open spec fn victory(self) -> Option<Team> {
        if !self.has_team(Team::Enemy) {
            Some(Team::Player)
        } else if !self.has_team(Team::Player) {
            Some(Team::Enemy)
        } else {
            None
        }
    }

    /// The level without the programs that stand on `position`.
    pub open spec fn without_programs_at(self, position: Point) -> LevelModel {
        LevelModel {
            programs: self.programs.filter(stands_off(position)),
            ..self
        }
    }

    /// Whether some program carries an effect that has yet to run out.
    pub open spec fn afflicted(self) -> bool {
        exists|i: int| 0 <= i < self.programs.len() && (#[trigger] self.programs[i]).afflicted()
    }

    /// The cells of the programs that do not live through the coming tick,
    /// in the order of the level's programs.
    pub open spec fn casualties(self) -> Seq<Point> {
        self.programs.filter(doomed()).map_values(|p: ProgramModel| p.position)
    }

    /// The level one tick later: every program has ticked, and the cells on
    /// which a program died are empty.
    pub open spec fn ticked(self) -> LevelModel {
        LevelModel {
            programs: self.programs.map_values(|p: ProgramModel| p.ticked()).filter(
                clear_of(self.casualties()),
            ),
            ..self
        }
    }

    /// The level `ticks` ticks later.
    pub open spec fn ticked_times(self, ticks: nat) -> LevelModel
        decreases ticks,
    {
        if ticks == 0 {
            self
        } else {
            self.ticked().ticked_times((ticks - 1) as nat)
        }
    }

    /// Whether no effect on any program has more than `ticks` ticks to run.
    pub open spec fn effects_within(self, ticks: nat) -> bool {
        forall|i: int|
            0 <= i < self.programs.len() ==> (#[trigger] self.programs[i]).effects_within(ticks)
    }

    /// The level with every program ready to act again.
    pub open spec fn turn_begun(self) -> LevelModel {
        LevelModel {
            programs: self.programs.map_values(
                |p: ProgramModel| ProgramModel { turn_state: TurnState::fresh(), ..p },
            ),
            ..self
        }
    }
}

/// Filtering by `f` and then by `g` keeps what a filter by both keeps.
pub proof fn lemma_filter_twice<A>(
    s: Seq<A>,
    f: spec_fn(A) -> bool,
    g: spec_fn(A) -> bool,
    both: spec_fn(A) -> bool,
)
    requires
        forall|x: A| #[trigger] both(x) == (f(x) && g(x)),
    ensures
        s.filter(f).filter(g) == s.filter(both),
    decreases s.len(),
{
    reveal(Seq::filter);
    if s.len() > 0 {
        let front = s.drop_last();
        lemma_filter_twice(front, f, g, both);
        assert(s =~= front.push(s.last()));
        front.lemma_filter_push(s.last(), f);
        front.lemma_filter_push(s.last(), both);
        if f(s.last()) {
            front.filter(f).lemma_filter_push(s.last(), g);
        }
    }
}

/// A filter that every element passes keeps the sequence as it is.
pub proof fn lemma_filter_keeps_all<A>(s: Seq<A>, f: spec_fn(A) -> bool)
    requires
        forall|i: int| 0 <= i < s.len() ==> f(#[trigger] s[i]),
    ensures
        s.filter(f) == s,
    decreases s.len(),
{
    reveal(Seq::filter);
    if s.len() > 0 {
        let front = s.drop_last();
        lemma_filter_keeps_all(front, f);
        assert(s =~= front.push(s.last()));
        front.lemma_filter_push(s.last(), f);
    }
}

/// A well-formed level stays well formed over a tick.
pub proof fn lemma_ticked_well_formed(level: LevelModel)
    requires
        level.well_formed(),
    ensures
        level.ticked().well_formed(),
{
    let ticked = level.programs.map_values(|p: ProgramModel| p.ticked());
    let keep = clear_of(level.casualties());
    assert forall|i: int| 0 <= i < level.ticked().programs.len() implies (
    #[trigger] level.ticked().programs[i]).well_formed() by {
        let q = level.ticked().programs[i];
        assert(ticked.filter(keep).contains(q));
        ticked.lemma_filter_contains_rev(keep, q);
        let j = choose|j: int| 0 <= j < ticked.len() && ticked[j] == q;
        assert(level.programs[j].well_formed());
        crate::program::lemma_ticked_well_formed(level.programs[j]);
    }
}

/// A tick brings every effect on a level one tick nearer to its end.
pub proof fn lemma_ticked_effects_within(level: LevelModel, ticks: nat)
    requires
        level.well_formed(),
        level.effects_within(ticks),
        ticks >= 1,
    ensures
        level.ticked().effects_within((ticks - 1) as nat),
{
    let ticked = level.programs.map_values(|p: ProgramModel| p.ticked());
    let keep = clear_of(level.casualties());
    assert forall|i: int| 0 <= i < level.ticked().programs.len() implies (
    #[trigger] level.ticked().programs[i]).effects_within((ticks - 1) as nat) by {
        let q = level.ticked().programs[i];
        assert(ticked.filter(keep).contains(q));
        ticked.lemma_filter_contains_rev(keep, q);
        let j = choose|j: int| 0 <= j < ticked.len() && ticked[j] == q;
        assert(level.programs[j].well_formed());
        assert(level.programs[j].effects_within(ticks));
        if level.programs[j].afflicted() {
            crate::program::lemma_ticked_effects_within(level.programs[j], ticks);
        }
    }
}

/// Effects that have at most `ticks` ticks to run are gone `ticks` ticks later.
pub proof fn lemma_effects_run_out(level: LevelModel, ticks: nat)
    requires
        level.well_formed(),
        level.effects_within(ticks),
    ensures
        !level.ticked_times(ticks).afflicted(),
        level.ticked_times(ticks).well_formed(),
    decreases ticks,
{
    if ticks == 0 {
        assert forall|i: int| 0 <= i < level.programs.len() implies !(
        #[trigger] level.programs[i]).afflicted() by {
            let p = level.programs[i];
            assert(p.well_formed());
            assert(p.effects_within(0));
            if p.afflicted() {
                assert(p.status_effects[0].remaining() >= 1);
            }
        }
    } else {
        lemma_ticked_well_formed(level);
        lemma_ticked_effects_within(level, ticks);
        lemma_effects_run_out(level.ticked(), (ticks - 1) as nat);
    }
}

impl Level {
    /// A level with the grid that `description` draws, row by row, and no program on it.
    pub fn new(description: &[&str]) -> (level: Level)
        ensures
            level@ == (LevelModel {
                grid: description@.map_values(|row: &str| row@),
                programs: Seq::empty(),
            }),
    {
        let mut grid: Vec<String> = Vec::new();
        let mut i: usize = 0;
        while i < description.len()
            invariant
                i <= description.len(),
                row_models(grid@) == description@.take(i as int).map_values(|row: &str| row@),
            decreases description.len() - i,
        {
            let row = description[i].to_owned();
            proof {
                assert(description@.take(i + 1) =~= description@.take(i as int).push(
                    description[i as int],
                ));
                assert(row_models(grid@.push(row)) =~= row_models(grid@).push(row@));
                assert(description@.take(i as int).push(description[i as int]).map_values(
                    |row: &str| row@,
                ) =~= description@.take(i as int).map_values(|row: &str| row@).push(row@));
            }
            grid.push(row);
            i = i + 1;
        }
        assert(description@.take(i as int) =~= description@);
        let level = Level { grid, programs: Vec::new() };
        assert(level@.programs =~= Seq::empty());
        level
    }

    /// Puts `program` on the grid, after the programs that are on it.
    pub fn add_program(&mut self, program: Program)
        ensures
            final(self)@ == (LevelModel {
                programs: old(self)@.programs.push(program@),
                ..old(self)@
            }),
    {
        assert(program_models(self.programs@.push(program)) =~= program_models(
            self.programs@,
        ).push(program@));
        self.programs.push(program);
    }

    /// Whether every effect on every program has at least one tick to run.
    pub fn is_well_formed(&self) -> (ok: bool)
        ensures
            ok == self@.well_formed(),
    {
        let mut i: usize = 0;
        while i < self.programs.len()
            invariant
                i <= self.programs.len(),
                forall|j: int| 0 <= j < i ==> (#[trigger] self@.programs[j]).well_formed(),
            decreases self.programs.len() - i,
        {
            if !self.programs[i].is_well_formed() {
                assert(!self@.programs[i as int].well_formed());
                return false;
            }
            i = i + 1;
        }
        true
    }

    /// Whether some program of the level fights for `team`.
    fn has_team(&self, team: Team) -> (found: bool)
        ensures
            found == self@.has_team(team),
    {
        let mut i: usize = 0;
        while i < self.programs.len()
            invariant
                i <= self.programs.len(),
                forall|j: int| 0 <= j < i ==> (#[trigger] self@.programs[j]).team != team,
            decreases self.programs.len() - i,
        {
            if self.programs[i].team == team {
                assert(self@.programs[i as int].team == team);
                return true;
            }
            i = i + 1;
        }
        false
    }

    /// The side that has won the level, if the fight is decided.
    pub fn check_victory(&self) -> (winner: Option<Team>)
        ensures
            winner == self@.victory(),
    {
        if !self.has_team(Team::Enemy) {
            Some(Team::Player)
        } else if !self.has_team(Team::Player) {
            Some(Team::Enemy)
        } else {
            None
        }
    }

    /// Takes the programs that stand on `position` off the grid.
    pub fn remove_program_at(&mut self, position: Point)
        ensures
            final(self)@ == old(self)@.without_programs_at(position),
    {
        let mut programs: Vec<Program> = Vec::new();
        std::mem::swap(&mut programs, &mut self.programs);
        let ghost keep = stands_off(position);
        for p in it: programs
            invariant
                self.grid == old(self).grid,
                keep == stands_off(position),
                it.seq() == old(self).programs@,
                program_models(self.programs@) == program_models(it.seq().take(it.index())).filter(
                    keep,
                ),
        {
            proof {
                let done = it.seq().take(it.index());
                assert(it.seq().take(it.index() + 1) =~= done.push(p));
                assert(program_models(done.push(p)) =~= program_models(done).push(p@));
                program_models(done).lemma_filter_push(p@, keep);
            }
            if p.position != position {
                proof {
                    assert(program_models(self.programs@.push(p)) =~= program_models(
                        self.programs@,
                    ).push(p@));
                }
                self.programs.push(p);
            }
        }
        proof {
            let all = old(self).programs@;
            assert(all.take(all.len() as int) =~= all);
        }
    }

    /// Tells the level that a side's turn begins: every program may act again.
    pub fn begin_turn(&mut self)
        ensures
            final(self)@ == old(self)@.turn_begun(),
    {
        let mut i: usize = 0;
        while i < self.programs.len()
            invariant
                i <= self.programs.len(),
                self.grid == old(self).grid,
                self.programs.len() == old(self).programs.len(),
                forall|j: int|
                    0 <= j < i ==> (#[trigger] self.programs[j])@ == old(self)@.turn_begun().programs[j],
                forall|j: int|
                    i <= j < self.programs.len() ==> (#[trigger] self.programs[j]) == old(
                        self,
                    ).programs[j],
            decreases self.programs.len() - i,
        {
            self.programs[i].turn_state = TurnState::new();
            i = i + 1;
        }
        assert(self@.programs =~= old(self)@.turn_begun().programs);
    }
}

} // verus!
