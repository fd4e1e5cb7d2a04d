//! The state machine that carries a game from mission select to the end.

use crate::info_view::{ChoiceList, InfoModel, InfoView, END_TURN_ROW};
use crate::input::{Event, Key, MouseEvent};
use crate::level::{
    clear_of, doomed, lemma_filter_keeps_all, lemma_filter_twice, lemma_ticked_well_formed,
    program_models, stands_off, Level, LevelModel,
};
use crate::level_transition;
use crate::map_view::{team_cells, MapModel, MapView};
use crate::mission_select;
use crate::player::{Player, PlayerModel};
use crate::program::{decay, decayed, Ability, Program, ProgramModel, Team};
use crate::window::{Point, Window};
use vstd::prelude::*;

verus! {

/// What the player is doing within a phase.
#[derive(Clone, Copy, Debug, PartialEq, Eq, Structural)]
pub enum UiState {
    Unselected,
    Selected,
    SelectTarget(Ability),
    /// Effects are playing out; nothing can be chosen until they have.
    Animating,
}

#[derive(Clone, Copy, Debug, PartialEq, Eq, Structural)]
pub enum Direction {
    Up,
    Down,
    Left,
    Right,
}

/// What an input means to the game.
#[derive(Clone, Copy, Debug, PartialEq, Eq, Structural)]
pub enum UiEvent {
    Quit,
    Tick,
    /// A press on this cell of the map panel.
    ClickMap(Point),
    /// A press on this cell of the info panel.
    ClickInfo(Point),
    Move(Direction),
    EndTurn,
}

/// The phase that the game is in.
#[derive(Debug, PartialEq, Eq, Structural)]
pub enum GameState {
    /// The player places programs before the fight.
    Setup(UiState),
    PlayerTurn(UiState),
    AITurn(UiState),
    /// A level has been loaded; the next tick prepares its setup.
    SetupTransition,
    /// The player's turn has ended; the next tick begins the opponent's.
    AITurnTransition,
    /// The other side's turn, or the setup, has ended; the next tick begins the player's.
    PlayerTurnTransition,
    /// The game is over. No event and no tick leads out of this state.
    Quit,
    MissionSelect(mission_select::State),
    LevelTransition(level_transition::State),
}

/// The world that every phase works on: the panels, the player and the level.
#[derive(Debug, PartialEq, Eq)]
pub struct ModelView {
    pub level_index: usize,
    pub info: InfoView,
    pub map: MapView,
    pub player: Player,
    pub program_list: ChoiceList<Program>,
    pub level: Level,
}

/// The mathematical value of a [`ModelView`].
pub struct World {
    pub level_index: usize,
    pub info: InfoModel,
    pub map: MapModel,
    pub player: PlayerModel,
    pub program_list: Seq<(Seq<char>, ProgramModel)>,
    pub level: LevelModel,
}

impl View for ModelView {
    type V = World;

    open spec fn view(&self) -> World {
        World {
            level_index: self.level_index,
            info: self.info@,
            map: self.map@,
            player: self.player@,
            program_list: self.program_list@,
            level: self.level@,
        }
    }
}

impl World {
    /// The world at the start of `team`'s turn: the info panel names the
    /// team and shows no detail, the map marks the cells of the team's
    /// programs and nothing else, and every program may act again.
    pub open spec fn turn_begun(self, team: Team) -> World {
        World {
            info: InfoModel { team, lines: Seq::empty(), ..self.info },
            map: MapModel {
                highlight: team_cells(self.level, team),
                range: Seq::empty(),
                ..self.map
            },
            level: self.level.turn_begun(),
            ..self
        }
    }
}

/// Begins the turn of `team`.
///
/// The info panel names the team and loses its lines of detail; the map
/// loses its range and highlight and then marks the cells of the team's
/// programs; the level is told that a turn begins.
pub fn begin_turn(team: Team, mv: &mut ModelView)
    ensures
        final(mv)@ == old(mv)@.turn_begun(team),
{
    mv.info.set_team(team);
    mv.info.clear();
    mv.map.clear_range();
    mv.map.clear_highlight();
    mv.map.update_highlight(&mv.level, team);
    mv.level.begin_turn();
    assert(Seq::<Point>::empty() + team_cells(old(mv)@.level, team) =~= team_cells(
        old(mv)@.level,
        team,
    ));
}

/// A step that waits for an answer from outside the machine. The machine
/// decides; the moves of the two sides, the screen between levels and the
/// loading of levels are the work of others, who change the world as they
/// see fit and then answer.
#[derive(Debug, PartialEq, Eq, Structural)]
pub enum Pending {
    /// The player's turn is to react to this event in this state of the interface.
    PlayerTurn(UiState, UiEvent),
    /// The setup is to react to this event in this state of the interface.
    Setup(UiState, UiEvent),
    /// The opponent's planner is to take one step.
    Planner,
    /// The screen between levels is to react to this event.
    LevelTransition(level_transition::State, level_transition::UiEvent),
    /// The level with this index is to be loaded.
    LoadLevel(usize),
}

/// How a call of the machine ends: in a phase, or waiting for an answer.
#[derive(Debug, PartialEq, Eq, Structural)]
pub enum Step {
    Settled(GameState),
    Pending(Pending),
}

/// An answer to a pending step.
#[derive(Debug, PartialEq, Eq)]
pub enum Reply {
    /// The state of the interface in which the player's turn or the setup has come to rest.
    Ui(UiState),
    /// What the planner reports after its step.
    Planner(crate::ai::AIState),
    /// The screen between levels after the event, and the level that it asks for, if any.
    LevelTransition(level_transition::State, Option<usize>),
    /// The level that was asked for, or `None` where it cannot be had.
    Level(Option<Level>),
}

/// The mathematical value of a [`Reply`].
pub enum ReplyModel {
    Ui(UiState),
    Planner(crate::ai::AIState),
    LevelTransition(level_transition::State, Option<usize>),
    Level(Option<LevelModel>),
}

impl View for Reply {
    type V = ReplyModel;

    open spec fn view(&self) -> ReplyModel {
        match *self {
            Reply::Ui(ui) => ReplyModel::Ui(ui),
            Reply::Planner(status) => ReplyModel::Planner(status),
            Reply::LevelTransition(state, level) => ReplyModel::LevelTransition(state, level),
            Reply::Level(Some(level)) => ReplyModel::Level(Some(level@)),
            Reply::Level(None) => ReplyModel::Level(None),
        }
    }
}

/// What is to be drawn in a phase.
#[derive(Clone, Copy, Debug, PartialEq, Eq, Structural)]
pub enum Scene {
    MissionSelect(mission_select::State),
    LevelTransition(level_transition::State),
    /// The info panel and the map.
    Panels,
}

/// The label of the action row while the player sets up.
pub open spec fn launch_label() -> Seq<char> {
    ">Launch Intrusion<"@
}

/// The label of the action row while the fight is on.
pub open spec fn end_turn_label() -> Seq<char> {
    ">    End Turn    <"@
}

/// What a typed character means: `q` leaves the game, `w`, `s`, `a` and `d`
/// move up, down, left and right, and no other character means anything.
pub open spec fn key_meaning(c: char) -> Option<UiEvent> {
    if c == 'q' {
        Some(UiEvent::Quit)
    } else if c == 'w' {
        Some(UiEvent::Move(Direction::Up))
    } else if c == 's' {
        Some(UiEvent::Move(Direction::Down))
    } else if c == 'a' {
        Some(UiEvent::Move(Direction::Left))
    } else if c == 'd' {
        Some(UiEvent::Move(Direction::Right))
    } else {
        None
    }
}

/// The cell of the map panel under a press at column `x` and row `y` of the
/// screen. The screen counts from one and the map from zero, so a press with
/// a column or row of zero is on no cell.
pub open spec fn map_cell(x: u16, y: u16, map: Window) -> Option<Point> {
    if x >= 1 && y >= 1 {
        map.to_local(Point { x: (x - 1) as u16, y: (y - 1) as u16 })
    } else {
        None
    }
}

/// What a press at column `x` and row `y` of the screen means: a click on
/// the map where the press is on the map, else the end of the turn where it
/// is on the action row of the info panel, else a click on the info panel
/// where it is anywhere else on that panel, else nothing.
pub open spec fn press_meaning(x: u16, y: u16, map: Window, info: Window) -> Option<UiEvent> {
    match map_cell(x, y, map) {
        Some(cell) => Some(UiEvent::ClickMap(cell)),
        None => match info.to_local(Point { x, y }) {
            Some(cell) => if cell.y == END_TURN_ROW {
                Some(UiEvent::EndTurn)
            } else {
                Some(UiEvent::ClickInfo(cell))
            },
            None => None,
        },
    }
}

/// The map after one tick of the effects on `level`: it has lost its
/// highlight where a program did not live through the tick.
pub open spec fn map_after_effects(level: LevelModel, map: MapModel) -> MapModel {
    if level.casualties().len() > 0 {
        map.highlight_cleared()
    } else {
        map
    }
}

impl World {
    /// The world at the start of a setup: the map shows the cells of the
    /// player's programs and nothing else, the info panel shows the launch
    /// label and no detail, the list offers the player's programs and no
    /// other, and every program may act.
    pub open spec fn set_up(self) -> World {
        World {
            info: InfoModel {
                window: self.info.window,
                team: Team::Player,
                primary_action: launch_label(),
                end_turn: launch_label(),
                lines: Seq::empty(),
            },
            map: MapModel {
                window: self.map.window,
                highlight: team_cells(self.level, Team::Player),
                range: Seq::empty(),
                help: Seq::empty(),
            },
            program_list: self.player.roster(),
            level: self.level.turn_begun(),
            ..self
        }
    }

    /// The world `ticks` ticks into the playing out of effects.
    pub open spec fn animated_times(self, ticks: nat) -> World
        decreases ticks,
    {
        if ticks == 0 {
            self
        } else {
            self.animated().animated_times((ticks - 1) as nat)
        }
    }

    /// The world one tick into the playing out of effects.
    pub open spec fn animated(self) -> World {
        World { level: self.level.ticked(), map: map_after_effects(self.level, self.map), ..self }
    }
}

impl ModelView {
    /// Offers the player's programs, and nothing else, in the program list.
    fn list_roster(&mut self)
        ensures
            final(self)@ == (World { program_list: old(self)@.player.roster(), ..old(self)@ }),
    {
        self.program_list.choices.clear();
        let ghost roster = self@.player.roster();
        assert(self.program_list@ =~= roster.take(0));
        let mut i: usize = 0;
        while i < self.player.programs.len()
            invariant
                i <= self.player.programs.len(),
                self.level_index == old(self).level_index,
                self.info == old(self).info,
                self.map == old(self).map,
                self.player == old(self).player,
                self.level == old(self).level,
                roster == old(self)@.player.roster(),
                self.program_list@ == roster.take(i as int),
            decreases self.player.programs.len() - i,
        {
            let name = self.player.programs[i].name.clone();
            let program = self.player.programs[i].clone();
            proof {
                assert(roster.take(i + 1) =~= roster.take(i as int).push((name@, program@)));
                assert(self.program_list.choices@.push((name, program)).map_values(
                    |choice: (String, Program)| (choice.0@, choice.1@),
                ) =~= self.program_list@.push((name@, program@)));
            }
            self.program_list.choices.push((name, program));
            i = i + 1;
        }
        assert(roster.take(i as int) =~= roster);
    }
}

impl GameState {
    /// What `event` means in this phase, if anything.
    pub open spec fn meaning(self, event: Event, map: Window, info: Window) -> Option<UiEvent> {
        match event {
            Event::Key(Key::Char(c)) => key_meaning(c),
            Event::Mouse(MouseEvent::Press(x, y)) => if self is PlayerTurn || self is Setup {
                press_meaning(x, y, map, info)
            } else {
                None
            },
            _ => None,
        }
    }

    /// The phase that follows the end of the player's turn or of the other
    /// side's: the screen between levels where the level is decided, for the
    /// side that won and the level that was played, else `otherwise`.
    pub open spec fn unless_decided(mv: World, otherwise: GameState) -> GameState {
        match mv.level.victory() {
            Some(team) => GameState::LevelTransition(
                level_transition::State { level_index: mv.level_index, team },
            ),
            None => otherwise,
        }
    }

    /// How the setup reacts to `event`, and the world after that.
    pub open spec fn after_setup_event(ui_state: UiState, event: UiEvent, mv: World) -> (
        Step,
        World,
    ) {
        match event {
            UiEvent::EndTurn => (
                Step::Settled(GameState::PlayerTurnTransition),
                World { info: mv.info.armed(end_turn_label()), ..mv },
            ),
            UiEvent::Quit => (Step::Settled(GameState::Quit), mv),
            _ => (Step::Pending(Pending::Setup(ui_state, event)), mv),
        }
    }

    /// How the player's turn reacts to `event`.
    pub open spec fn after_player_event(ui_state: UiState, event: UiEvent, mv: World) -> Step {
        match event {
            UiEvent::EndTurn => Step::Settled(
                GameState::unless_decided(mv, GameState::AITurnTransition),
            ),
            UiEvent::Quit => Step::Settled(GameState::Quit),
            _ => Step::Pending(Pending::PlayerTurn(ui_state, event)),
        }
    }

    /// How the title screen reacts to `event`.
    pub open spec fn after_mission_event(
        mission_state: mission_select::State,
        event: mission_select::UiEvent,
    ) -> Step {
        match mission_select::transition(event) {
            mission_select::Transition::Ui(_) => Step::Settled(
                GameState::MissionSelect(mission_state),
            ),
            mission_select::Transition::Level(index) => Step::Pending(Pending::LoadLevel(index)),
        }
    }

    /// The step that `event` leads to from this phase, and the world after it.
    pub open spec fn after_event(self, event: Event, mv: World) -> (Step, World) {
        match (self, event) {
            (GameState::MissionSelect(mission_state), Event::Key(_)) => (
                GameState::after_mission_event(mission_state, mission_select::UiEvent::KeyPressed),
                mv,
            ),
            (GameState::LevelTransition(state), Event::Key(_)) => (
                Step::Pending(
                    Pending::LevelTransition(state, level_transition::UiEvent::KeyPressed),
                ),
                mv,
            ),
            _ => match self.meaning(event, mv.map.window, mv.info.window) {
                Some(ui_event) => match self {
                    GameState::Setup(ui_state) => GameState::after_setup_event(
                        ui_state,
                        ui_event,
                        mv,
                    ),
                    GameState::PlayerTurn(ui_state) => (
                        GameState::after_player_event(ui_state, ui_event, mv),
                        mv,
                    ),
                    _ => (Step::Settled(self), mv),
                },
                None => (Step::Settled(self), mv),
            },
        }
    }

    /// The step that a tick leads to from this phase, and the world after it.
    pub open spec fn after_tick(self, mv: World) -> (Step, World) {
        match self {
            GameState::Setup(ui_state) => (
                Step::Pending(Pending::Setup(ui_state, UiEvent::Tick)),
                mv,
            ),
            GameState::PlayerTurn(ui_state) => (
                Step::Pending(Pending::PlayerTurn(ui_state, UiEvent::Tick)),
                mv,
            ),
            GameState::MissionSelect(mission_state) => (
                GameState::after_mission_event(mission_state, mission_select::UiEvent::Tick),
                mv,
            ),
            GameState::LevelTransition(state) => (
                Step::Pending(Pending::LevelTransition(state, level_transition::UiEvent::Tick)),
                mv,
            ),
            GameState::AITurnTransition => (
                Step::Settled(GameState::AITurn(UiState::Unselected)),
                mv.turn_begun(Team::Enemy),
            ),
            GameState::PlayerTurnTransition => match mv.level.victory() {
                Some(_) => (
                    Step::Settled(
                        GameState::unless_decided(mv, GameState::PlayerTurn(UiState::Unselected)),
                    ),
                    mv,
                ),
                None => (
                    Step::Settled(GameState::PlayerTurn(UiState::Unselected)),
                    mv.turn_begun(Team::Player),
                ),
            },
            GameState::AITurn(UiState::Animating) => (
                Step::Settled(
                    GameState::AITurn(
                        if mv.level.afflicted() {
                            UiState::Animating
                        } else {
                            UiState::Unselected
                        },
                    ),
                ),
                mv.animated(),
            ),
            GameState::AITurn(_) => (Step::Pending(Pending::Planner), mv),
            GameState::SetupTransition => (
                Step::Settled(GameState::Setup(UiState::Unselected)),
                mv.set_up(),
            ),
            GameState::Quit => (Step::Settled(GameState::Quit), mv),
        }
    }

    /// What is to be drawn in this phase.
    pub open spec fn scene(self) -> Scene {
        match self {
            GameState::MissionSelect(state) => Scene::MissionSelect(state),
            GameState::LevelTransition(state) => Scene::LevelTransition(state),
            _ => Scene::Panels,
        }
    }

    /// Tells what `event` means in this phase, if anything.
    ///
    /// A typed `q` means to leave, `w`, `s`, `a` and `d` mean to move, in
    /// every phase. A press of the mouse means something during the setup
    /// and the player's turn only: a click on the map, the end of the turn,
    /// or a click on the info panel. Nothing else means anything.
    pub fn translate_event(&self, event: Event, mv: &ModelView) -> (ui_event: Option<UiEvent>)
        ensures
            ui_event == self.meaning(event, mv.map.window, mv.info.window),
    {
        match event {
            Event::Key(Key::Char(c)) => {
                if c == 'q' {
                    Some(UiEvent::Quit)
                } else if c == 'w' {
                    Some(UiEvent::Move(Direction::Up))
                } else if c == 's' {
                    Some(UiEvent::Move(Direction::Down))
                } else if c == 'a' {
                    Some(UiEvent::Move(Direction::Left))
                } else if c == 'd' {
                    Some(UiEvent::Move(Direction::Right))
                } else {
                    None
                }
            },
            Event::Mouse(MouseEvent::Press(x, y)) => {
                match self {
                    GameState::PlayerTurn(_) | GameState::Setup(_) => {
                        let on_map = if x >= 1 && y >= 1 {
                            mv.map.from_global_frame(Point::new(x - 1, y - 1))
                        } else {
                            None
                        };
                        if let Some(cell) = on_map {
                            Some(UiEvent::ClickMap(cell))
                        } else if let Some(cell) = mv.info.from_global_frame(Point::new(x, y)) {
                            if cell.y == END_TURN_ROW {
                                Some(UiEvent::EndTurn)
                            } else {
                                Some(UiEvent::ClickInfo(cell))
                            }
                        } else {
                            None
                        }
                    },
                    _ => None,
                }
            },
            _ => None,
        }
    }

    /// Takes the game one event further.
    ///
    /// The title screen and the screen between levels take any key as their
    /// own. Every other event is read for what it means; what means nothing
    /// changes nothing. The setup and the player's turn react to what the
    /// event means; the other phases stay as they are.
    pub fn next(self, event: Event, mv: &mut ModelView) -> (step: Step)
        ensures
            (step, final(mv)@) == self.after_event(event, old(mv)@),
    {
        match (self, event) {
            (GameState::MissionSelect(mission_state), Event::Key(_)) => Self::next_mission_turn(
                mission_state,
                mission_select::UiEvent::KeyPressed,
                mv,
            ),
            (GameState::LevelTransition(state), Event::Key(_)) => Self::next_transition_turn(
                state,
                level_transition::UiEvent::KeyPressed,
            ),
            (state, _) => {
                if let Some(ui_event) = state.translate_event(event, mv) {
                    match state {
                        GameState::Setup(ui_state) => match ui_event {
                            UiEvent::Quit => Step::Settled(GameState::Quit),
                            _ => Self::next_setup_turn(ui_state, ui_event, mv),
                        },
                        GameState::PlayerTurn(ui_state) => match ui_event {
                            UiEvent::EndTurn => match mv.level.check_victory() {
                                Some(team) => Step::Settled(
                                    GameState::LevelTransition(
                                        level_transition::State::new(mv.level_index, team),
                                    ),
                                ),
                                None => Step::Settled(GameState::AITurnTransition),
                            },
                            UiEvent::Quit => Step::Settled(GameState::Quit),
                            _ => Self::next_player_turn(ui_state, ui_event),
                        },
                        _ => Step::Settled(state),
                    }
                } else {
                    Step::Settled(state)
                }
            },
        }
    }

    /// Takes the game one tick further.
    ///
    /// The setup, the player's turn and the screen between levels hand the
    /// tick on. A phase between two turns begins the turn that follows it,
    /// unless the level is decided when the player's turn is due. The
    /// opponent's turn lets effects play out while there are any, and else
    /// asks its planner for a step.
    pub fn tick(self, mv: &mut ModelView) -> (step: Step)
        requires
            self == GameState::AITurn(UiState::Animating) ==> old(mv)@.level.well_formed(),
        ensures
            (step, final(mv)@) == self.after_tick(old(mv)@),
    {
        match self {
            GameState::Setup(ui_state) => Self::next_setup_turn(ui_state, UiEvent::Tick, mv),
            GameState::PlayerTurn(ui_state) => Self::next_player_turn(ui_state, UiEvent::Tick),
            GameState::MissionSelect(mission_state) => Self::next_mission_turn(
                mission_state,
                mission_select::UiEvent::Tick,
                mv,
            ),
            GameState::LevelTransition(state) => Self::next_transition_turn(
                state,
                level_transition::UiEvent::Tick,
            ),
            GameState::AITurnTransition => {
                begin_turn(Team::Enemy, mv);
                Step::Settled(GameState::AITurn(UiState::Unselected))
            },
            GameState::PlayerTurnTransition => {
                match mv.level.check_victory() {
                    Some(team) => Step::Settled(
                        GameState::LevelTransition(
                            level_transition::State::new(mv.level_index, team),
                        ),
                    ),
                    None => {
                        begin_turn(Team::Player, mv);
                        Step::Settled(GameState::PlayerTurn(UiState::Unselected))
                    },
                }
            },
            GameState::AITurn(UiState::Animating) => {
                let modified = update_programs(&mut mv.level, &mut mv.map);
                if !modified {
                    Step::Settled(GameState::AITurn(UiState::Unselected))
                } else {
                    Step::Settled(GameState::AITurn(UiState::Animating))
                }
            },
            GameState::AITurn(_) => Step::Pending(Pending::Planner),
            GameState::SetupTransition => {
                mv.map.reset();
                mv.info.clear();
                mv.info.primary_action = ">Launch Intrusion<".to_owned();
                mv.info.display_end_turn();
                mv.list_roster();
                begin_turn(Team::Player, mv);
                Step::Settled(GameState::Setup(UiState::Unselected))
            },
            GameState::Quit => Step::Settled(self),
        }
    }

    /// Tells what is to be drawn in this phase: the screen of the title or
    /// of the time between levels while one of them is up, else the panels.
    pub fn display(&self) -> (scene: Scene)
        ensures
            scene == self.scene(),
    {
        match self {
            GameState::MissionSelect(state) => Scene::MissionSelect(*state),
            GameState::LevelTransition(state) => Scene::LevelTransition(*state),
            _ => Scene::Panels,
        }
    }

    /// Hands an event of the player's turn on to those who resolve it.
    /// The end of the turn and the wish to leave are not theirs to resolve.
    pub fn next_player_turn(ui_state: UiState, event: UiEvent) -> (step: Step)
        requires
            event !is EndTurn,
            event !is Quit,
        ensures
            step == Step::Pending(Pending::PlayerTurn(ui_state, event)),
    {
        Step::Pending(Pending::PlayerTurn(ui_state, event))
    }

    /// Lets the title screen react to `event`: it stays up, or asks for a level.
    pub fn next_mission_turn(
        mission_state: mission_select::State,
        event: mission_select::UiEvent,
        mv: &mut ModelView,
    ) -> (step: Step)
        ensures
            step == GameState::after_mission_event(mission_state, event),
            *final(mv) == *old(mv),
    {
        let mut mission_state = mission_state;
        match mission_select::next(&mut mission_state, event, mv) {
            mission_select::Transition::Ui(_) => Step::Settled(
                GameState::MissionSelect(mission_state),
            ),
            mission_select::Transition::Level(index) => Step::Pending(Pending::LoadLevel(index)),
        }
    }

    /// Hands an event on to the screen between levels.
    pub fn next_transition_turn(
        state: level_transition::State,
        event: level_transition::UiEvent,
    ) -> (step: Step)
        ensures
            step == Step::Pending(Pending::LevelTransition(state, event)),
    {
        Step::Pending(Pending::LevelTransition(state, event))
    }

    /// Lets the setup react to `event`. The end of the turn launches the
    /// fight: the action row takes the label of the fight, and the player's
    /// turn is due. Every other event is handed on to those who resolve it.
    /// The wish to leave is not theirs to resolve.
    pub fn next_setup_turn(ui_state: UiState, event: UiEvent, mv: &mut ModelView) -> (step: Step)
        requires
            event !is Quit,
        ensures
            (step, final(mv)@) == GameState::after_setup_event(ui_state, event, old(mv)@),
    {
        match event {
            UiEvent::EndTurn => {
                mv.info.primary_action = ">    End Turn    <".to_owned();
                mv.info.display_end_turn();
                Step::Settled(GameState::PlayerTurnTransition)
            },
            _ => Step::Pending(Pending::Setup(ui_state, event)),
        }
    }
}

impl Pending {
    /// The step that `reply` leads to from this pending one, and the world
    /// after it. A reply that does not answer what is pending changes
    /// nothing: the step stays pending.
    pub open spec fn after_reply(self, reply: ReplyModel, mv: World) -> (Step, World) {
        match (self, reply) {
            (Pending::PlayerTurn(_, _), ReplyModel::Ui(ui_state)) => (
                Step::Settled(GameState::PlayerTurn(ui_state)),
                mv,
            ),
            (Pending::Setup(_, _), ReplyModel::Ui(ui_state)) => (
                Step::Settled(GameState::Setup(ui_state)),
                mv,
            ),
            (Pending::Planner, ReplyModel::Planner(status)) => (
                Step::Settled(
                    match status {
                        crate::ai::AIState::Done => GameState::PlayerTurnTransition,
                        crate::ai::AIState::Plotting => GameState::AITurn(UiState::Unselected),
                        crate::ai::AIState::WaitingAnimation => GameState::AITurn(
                            UiState::Animating,
                        ),
                    },
                ),
                World { map: mv.map.with_help(status.help_text()), ..mv },
            ),
            (Pending::LevelTransition(_, _), ReplyModel::LevelTransition(state, None)) => (
                Step::Settled(GameState::LevelTransition(state)),
                mv,
            ),
            (Pending::LevelTransition(_, _), ReplyModel::LevelTransition(_, Some(index))) => (
                Step::Pending(Pending::LoadLevel(index)),
                mv,
            ),
            (Pending::LoadLevel(index), ReplyModel::Level(Some(level))) => (
                Step::Settled(GameState::SetupTransition),
                World { level_index: index, level, ..mv },
            ),
            (Pending::LoadLevel(_), ReplyModel::Level(None)) => (
                Step::Settled(GameState::Quit),
                mv,
            ),
            _ => (Step::Pending(self), mv),
        }
    }

    /// Completes a pending step with the answer to it.
    ///
    /// The player's turn and the setup come to rest in the state of the
    /// interface that the answer names. The planner's report becomes the
    /// map's help line and decides how the opponent's turn goes on: it ends,
    /// it plans on, or it waits for effects to play out. The screen between
    /// levels stays up or asks for a level. A level that was loaded becomes
    /// the level of the world, and its setup is due; one that cannot be had
    /// ends the game.
    pub fn resume(self, reply: Reply, mv: &mut ModelView) -> (step: Step)
        ensures
            (step, final(mv)@) == self.after_reply(reply@, old(mv)@),
    {
        match (self, reply) {
            (Pending::PlayerTurn(_, _), Reply::Ui(ui_state)) => Step::Settled(
                GameState::PlayerTurn(ui_state),
            ),
            (Pending::Setup(_, _), Reply::Ui(ui_state)) => Step::Settled(
                GameState::Setup(ui_state),
            ),
            (Pending::Planner, Reply::Planner(status)) => {
                mv.map.set_help(status.help());
                match status {
                    crate::ai::AIState::Done => Step::Settled(GameState::PlayerTurnTransition),
                    crate::ai::AIState::Plotting => Step::Settled(
                        GameState::AITurn(UiState::Unselected),
                    ),
                    crate::ai::AIState::WaitingAnimation => Step::Settled(
                        GameState::AITurn(UiState::Animating),
                    ),
                }
            },
            (Pending::LevelTransition(_, _), Reply::LevelTransition(state, None)) => Step::Settled(
                GameState::LevelTransition(state),
            ),
            (Pending::LevelTransition(_, _), Reply::LevelTransition(_, Some(index))) => {
                Step::Pending(Pending::LoadLevel(index))
            },
            (Pending::LoadLevel(index), Reply::Level(Some(level))) => {
                mv.level_index = index;
                mv.level = level;
                Step::Settled(GameState::SetupTransition)
            },
            (Pending::LoadLevel(_), Reply::Level(None)) => Step::Settled(GameState::Quit),
            (pending, _) => Step::Pending(pending),
        }
    }
}

/// Resolves one tick of the effects that the programs carry.
///
/// Program by program: its effects decay; where it carried any, it takes one
/// point of damage; where it does not live through that, its cell is noted
/// and the map's highlight is cleared. Once every program has been seen, the
/// noted cells are emptied. The result tells whether any program carried an
/// effect, that is, whether there was anything to animate.
pub fn update_programs(level: &mut Level, map: &mut MapView) -> (modified: bool)
    requires
        old(level)@.well_formed(),
    ensures
        final(level)@ == old(level)@.ticked(),
        final(level)@.well_formed(),
        final(map)@ == map_after_effects(old(level)@, old(map)@),
        modified == old(level)@.afflicted(),
{
    let mut modified = false;
    let mut killed: Vec<Point> = Vec::new();
    let ghost before = old(level)@;
    let ghost cell = |p: ProgramModel| p.position;
    let ghost tick = |p: ProgramModel| p.ticked();
    let mut i: usize = 0;
    while i < level.programs.len()
        invariant
            i <= level.programs.len(),
            before == old(level)@,
            before.well_formed(),
            cell == (|p: ProgramModel| p.position),
            tick == (|p: ProgramModel| p.ticked()),
            level.grid == old(level).grid,
            level.programs.len() == old(level).programs.len(),
            forall|j: int| 0 <= j < i ==> (#[trigger] level.programs[j])@ == before.programs[j].ticked(),
            forall|j: int|
                i <= j < level.programs.len() ==> (#[trigger] level.programs[j])@
                    == before.programs[j],
            killed@ == before.programs.take(i as int).filter(doomed()).map_values(cell),
            modified == exists|j: int| 0 <= j < i && (#[trigger] before.programs[j]).afflicted(),
            map@ == if killed.len() > 0 {
                old(map)@.highlight_cleared()
            } else {
                old(map)@
            },
        decreases level.programs.len() - i,
    {
        let ghost unit = before.programs[i as int];
        proof {
            let done = before.programs.take(i as int);
            assert(before.programs.take(i + 1) =~= done.push(unit));
            done.lemma_filter_push(unit, doomed());
            assert(done.filter(doomed()).push(unit).map_values(cell) =~= done.filter(
                doomed(),
            ).map_values(cell).push(unit.position));
            assert(unit.well_formed());
        }
        let position = level.programs[i].position;
        let damaged = decay(&mut level.programs[i].status_effects);
        if damaged {
            modified = true;
            let lived = level.programs[i].damage();
            if !lived {
                killed.push(position);
                map.clear_highlight();
            }
        }
        proof {
            if !damaged {
                assert(decayed(unit.status_effects) =~= unit.status_effects);
            }
        }
        i = i + 1;
    }
    let ghost ticked = before.programs.map_values(tick);
    proof {
        assert(before.programs.take(i as int) =~= before.programs);
        assert(program_models(level.programs@) =~= ticked);
        lemma_filter_keeps_all(ticked, clear_of(Seq::empty()));
        assert(killed@.take(0) =~= Seq::empty());
    }
    let mut k: usize = 0;
    while k < killed.len()
        invariant
            k <= killed.len(),
            level@.grid == before.grid,
            program_models(level.programs@) == ticked.filter(clear_of(killed@.take(k as int))),
        decreases killed.len() - k,
    {
        proof {
            let seen = killed@.take(k as int);
            assert(killed@.take(k + 1) =~= seen.push(killed[k as int]));
            assert forall|p: ProgramModel| #[trigger]
                clear_of(seen.push(killed[k as int]))(p) == (clear_of(seen)(p) && stands_off(
                    killed[k as int],
                )(p)) by {
                if seen.contains(p.position) {
                    let at = choose|at: int| 0 <= at < seen.len() && seen[at] == p.position;
                    assert(seen.push(killed[k as int])[at] == p.position);
                }
                if p.position == killed[k as int] {
                    assert(seen.push(killed[k as int])[seen.len() as int] == p.position);
                }
            }
            lemma_filter_twice(
                ticked,
                clear_of(seen),
                stands_off(killed[k as int]),
                clear_of(seen.push(killed[k as int])),
            );
        }
        level.remove_program_at(killed[k]);
        k = k + 1;
    }
    proof {
        assert(killed@.take(k as int) =~= killed@);
        lemma_ticked_well_formed(before);
    }
    modified
}

} // verus!
