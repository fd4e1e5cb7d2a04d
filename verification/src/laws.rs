//! What holds of the machine whatever the phase, the event and the world.

use crate::game_state::{GameState, Step, UiEvent, UiState, World};
use crate::game_state::{map_after_effects, map_cell};
use crate::info_view::END_TURN_ROW;
use crate::input::{Event, MouseEvent};
use crate::level::{
    clear_of, doomed, lemma_effects_run_out, lemma_ticked_well_formed, LevelModel,
};
use crate::level_transition;
use crate::map_view::{fights_for, team_cells, MapModel};
use crate::program::{ProgramModel, Team, TurnState};
use crate::window::{Point, Window};
use vstd::prelude::*;

verus! {

/// The same phase, event and world lead to the same step and the same world.
pub proof fn law_next_is_determined(
    state: GameState,
    event: Event,
    mv: World,
    first: (Step, World),
    second: (Step, World),
)
    requires
        first == state.after_event(event, mv),
        second == state.after_event(event, mv),
    ensures
        first == second,
{
}

/// The same phase and world lead, by a tick, to the same step and the same world.
pub proof fn law_tick_is_determined(
    state: GameState,
    mv: World,
    first: (Step, World),
    second: (Step, World),
)
    requires
        first == state.after_tick(mv),
        second == state.after_tick(mv),
    ensures
        first == second,
{
}

/// Once the game is over it stays over: no event and no tick changes the
/// phase or the world.
pub proof fn law_quit_absorbs(event: Event, mv: World)
    ensures
        GameState::Quit.after_event(event, mv) == (Step::Settled(GameState::Quit), mv),
        GameState::Quit.after_tick(mv) == (Step::Settled(GameState::Quit), mv),
{
}

/// Where the level is decided when the player ends the turn, the screen
/// between levels follows, for the side that won and the level that was
/// played; the opponent gets no turn.
pub proof fn law_victory_comes_first(ui_state: UiState, event: Event, mv: World, team: Team)
    requires
        GameState::PlayerTurn(ui_state).meaning(event, mv.map.window, mv.info.window) == Some(
            UiEvent::EndTurn,
        ),
        mv.level.victory() == Some(team),
    ensures
        GameState::PlayerTurn(ui_state).after_event(event, mv) == (
            Step::Settled(
                GameState::LevelTransition(
                    level_transition::State { level_index: mv.level_index, team },
                ),
            ),
            mv,
        ),
{
}

/// A press on the info panel, off the map, ends the turn on the action row
/// and is a click on the panel on every other row.
pub proof fn law_action_row_ends_turn(
    state: GameState,
    x: u16,
    y: u16,
    map: Window,
    info: Window,
    cell: Point,
)
    requires
        state is PlayerTurn || state is Setup,
        map_cell(x, y, map) is None,
        info.to_local(Point { x, y }) == Some(cell),
    ensures
        cell.y == END_TURN_ROW ==> state.meaning(Event::Mouse(MouseEvent::Press(x, y)), map, info)
            == Some(UiEvent::EndTurn),
        cell.y != END_TURN_ROW ==> state.meaning(Event::Mouse(MouseEvent::Press(x, y)), map, info)
            == Some(UiEvent::ClickInfo(cell)),
{
}

/// A press on the map is never taken for a click on the info panel nor for
/// the end of the turn.
pub proof fn law_map_press_stays_on_map(
    state: GameState,
    x: u16,
    y: u16,
    map: Window,
    info: Window,
)
    requires
        map_cell(x, y, map) is Some,
    ensures
        state.meaning(Event::Mouse(MouseEvent::Press(x, y)), map, info) !is Some || state.meaning(
            Event::Mouse(MouseEvent::Press(x, y)),
            map,
            info,
        ) == Some(UiEvent::ClickMap(map_cell(x, y, map)->0)),
{
}

/// A program that does not live through a tick is gone after it: nothing
/// stands on its cell any more, and the map has lost its highlight.
pub proof fn law_the_dead_are_removed(level: LevelModel, map: MapModel, i: int)
    requires
        0 <= i < level.programs.len(),
        level.programs[i].succumbs(),
    ensures
        forall|j: int|
            0 <= j < level.ticked().programs.len() ==> (#[trigger] level.ticked().programs[j]).position
                != level.programs[i].position,
        map_after_effects(level, map).highlight == Seq::<Point>::empty(),
{
    let dead = level.programs[i];
    level.programs.lemma_filter_contains(doomed(), i);
    let at = choose|at: int|
        0 <= at < level.programs.filter(doomed()).len() && level.programs.filter(doomed())[at]
            == dead;
    assert(level.casualties()[at] == dead.position);
    assert(level.casualties().contains(dead.position));
    let ticked = level.programs.map_values(|p: ProgramModel| p.ticked());
    assert forall|j: int| 0 <= j < level.ticked().programs.len() implies (
    #[trigger] level.ticked().programs[j]).position != dead.position by {
        ticked.lemma_filter_pred(clear_of(level.casualties()), j);
    }
}

/// Every program that is left after a tick has health, or carried no effect
/// before the tick and is as it was.
pub proof fn law_survivors_have_health(level: LevelModel, map: MapModel, j: int)
    requires
        0 <= j < level.ticked().programs.len(),
    ensures
        level.ticked().programs[j].health >= 1 || exists|i: int|
            0 <= i < level.programs.len() && !(#[trigger] level.programs[i]).afflicted()
                && level.programs[i] == level.ticked().programs[j],
{
    let ticked = level.programs.map_values(|p: ProgramModel| p.ticked());
    let keep = clear_of(level.casualties());
    let q = level.ticked().programs[j];
    assert(ticked.filter(keep).contains(q));
    ticked.lemma_filter_contains_rev(keep, q);
    let i = choose|i: int| 0 <= i < ticked.len() && ticked[i] == q;
    if level.programs[i].afflicted() && q.health < 1 {
        assert(level.programs[i].succumbs());
        law_the_dead_are_removed(level, map, i);
    }
}

/// What a tick does to a sequence of programs that a filter then goes over
/// makes no difference to the filter where it makes none to the test.
proof fn lemma_filter_sees_through<A>(s: Seq<A>, change: spec_fn(A) -> A, test: spec_fn(A) -> bool)
    requires
        forall|x: A| #[trigger] test(change(x)) == test(x),
    ensures
        s.map_values(change).filter(test) == s.filter(test).map_values(change),
    decreases s.len(),
{
    reveal(Seq::filter);
    if s.len() == 0 {
        assert(s.map_values(change).filter(test) =~= s.filter(test).map_values(change));
    } else {
        let front = s.drop_last();
        lemma_filter_sees_through(front, change, test);
        assert(s =~= front.push(s.last()));
        assert(s.map_values(change) =~= front.map_values(change).push(change(s.last())));
        front.map_values(change).lemma_filter_push(change(s.last()), test);
        front.lemma_filter_push(s.last(), test);
        assert(front.filter(test).push(s.last()).map_values(change) =~= front.filter(
            test,
        ).map_values(change).push(change(s.last())));
    }
}

/// The cells of a side's programs are the same before and after a turn begins.
pub proof fn lemma_turn_keeps_cells(level: LevelModel, team: Team)
    ensures
        team_cells(level.turn_begun(), team) == team_cells(level, team),
{
    let rested = |p: ProgramModel| ProgramModel { turn_state: TurnState::fresh(), ..p };
    lemma_filter_sees_through(level.programs, rested, fights_for(team));
    assert(level.programs.filter(fights_for(team)).map_values(rested).map_values(
        |p: ProgramModel| p.position,
    ) =~= level.programs.filter(fights_for(team)).map_values(|p: ProgramModel| p.position));
}

/// To enter a setup twice is to enter it once: the second entry leaves the
/// phase and the whole world as the first left them.
pub proof fn law_setup_entry_is_idempotent(mv: World)
    ensures
        GameState::SetupTransition.after_tick(GameState::SetupTransition.after_tick(mv).1)
            == GameState::SetupTransition.after_tick(mv),
{
    let once = mv.set_up();
    lemma_turn_keeps_cells(mv.level, Team::Player);
    assert(once.level.turn_begun().programs =~= once.level.programs);
}

/// What a setup starts from owes nothing to what came before: the list of
/// programs and the labels of the info panel are those of the player's
/// roster and of the launch, whatever the list and the labels were.
pub proof fn law_setup_entry_forgets(first: World, second: World)
    requires
        first.player == second.player,
    ensures
        GameState::SetupTransition.after_tick(first).1.program_list
            == GameState::SetupTransition.after_tick(second).1.program_list,
        GameState::SetupTransition.after_tick(first).1.program_list == first.player.roster(),
        GameState::SetupTransition.after_tick(first).1.info.primary_action
            == GameState::SetupTransition.after_tick(second).1.info.primary_action,
        GameState::SetupTransition.after_tick(first).1.info.end_turn
            == GameState::SetupTransition.after_tick(second).1.info.end_turn,
        GameState::SetupTransition.after_tick(first).1.info.lines
            == GameState::SetupTransition.after_tick(second).1.info.lines,
{
}

/// While a program carries an effect, a tick of the playing out of effects
/// leads to another.
pub proof fn law_animation_lasts(mv: World)
    ensures
        GameState::AITurn(UiState::Animating).after_tick(mv) == (
            Step::Settled(
                GameState::AITurn(
                    if mv.level.afflicted() {
                        UiState::Animating
                    } else {
                        UiState::Unselected
                    },
                ),
            ),
            mv.animated(),
        ),
{
}

/// The level of a world that has played out effects for some ticks is the
/// level that many ticks later.
pub proof fn lemma_animated_level(mv: World, ticks: nat)
    ensures
        mv.animated_times(ticks).level == mv.level.ticked_times(ticks),
    decreases ticks,
{
    if ticks > 0 {
        lemma_animated_level(mv.animated(), (ticks - 1) as nat);
    }
}

/// The playing out of effects comes to an end: where no effect has more
/// than `ticks` ticks to run, the tick after that many ticks finds nothing
/// left to play out and gives the turn back to the planner.
pub proof fn law_animation_settles(mv: World, ticks: nat)
    requires
        mv.level.well_formed(),
        mv.level.effects_within(ticks),
    ensures
        GameState::AITurn(UiState::Animating).after_tick(mv.animated_times(ticks)).0
            == Step::Settled(GameState::AITurn(UiState::Unselected)),
{
    lemma_animated_level(mv, ticks);
    lemma_effects_run_out(mv.level, ticks);
}

/// A tick keeps a well-formed level well formed, in every phase.
pub proof fn law_tick_keeps_well_formed(state: GameState, mv: World)
    requires
        mv.level.well_formed(),
    ensures
        state.after_tick(mv).1.level.well_formed(),
{
    lemma_ticked_well_formed(mv.level);
    let begun = mv.level.turn_begun();
    assert forall|i: int| 0 <= i < begun.programs.len() implies (
    #[trigger] begun.programs[i]).well_formed() by {
        assert(mv.level.programs[i].well_formed());
    }
}

/// An event leaves the level as it is.
pub proof fn law_event_keeps_level(state: GameState, event: Event, mv: World)
    ensures
        state.after_event(event, mv).1.level == mv.level,
{
}

} // verus!
