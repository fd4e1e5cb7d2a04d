use rehack::ai::AIState;
use rehack::game_state::{
    begin_turn, Direction, GameState, ModelView, Pending, Reply, Scene, Step, UiEvent, UiState,
};
use rehack::info_view::{ChoiceList, InfoView};
use rehack::input::{Event, Key, MouseEvent};
use rehack::level::Level;
use rehack::level_transition;
use rehack::map_view::MapView;
use rehack::mission_select;
use rehack::player::Player;
use rehack::program::{Ability, Program, StatusEffect, Team, TurnState};
use rehack::window::{Point, Window};

fn unit(team: Team, x: u16, y: u16) -> Program {
    Program::new(team, Point::new(x, y), "Hack", 4)
}

fn fight() -> Level {
    let mut level = Level::new(&["....", "...."]);
    level.add_program(unit(Team::Player, 1, 0));
    level.add_program(unit(Team::Enemy, 2, 1));
    level.add_program(unit(Team::Player, 3, 1));
    level
}

fn world(level: Level) -> ModelView {
    let mut player = Player::new("David");
    player.programs.push(Program::new(Team::Player, Point::new(0, 0), "Hack", 4));
    player.programs.push(Program::new(Team::Player, Point::new(0, 0), "Bug", 1));
    ModelView {
        level_index: 3,
        info: InfoView::new(Window::new(Point::new(0, 0), 20, 24)),
        map: MapView::new(Window::new(Point::new(20, 0), 60, 24)),
        player,
        program_list: ChoiceList::new(),
        level,
    }
}

fn stale(level: Level) -> ModelView {
    let mut mv = world(level);
    mv.info.team = Team::Enemy;
    mv.info.primary_action = "old".to_string();
    mv.info.end_turn = "older".to_string();
    mv.info.lines.push("Hack: 4".to_string());
    mv.map.highlight.push(Point::new(9, 9));
    mv.map.range.push(Point::new(8, 8));
    mv.map.help = "AI STATUS: Done".to_string();
    mv.program_list.choices.push(("Gone".to_string(), unit(Team::Enemy, 5, 5)));
    for p in mv.level.programs.iter_mut() {
        p.turn_state = TurnState { moves_made: 2, ability_used: true };
    }
    mv
}

fn title() -> mission_select::State {
    mission_select::State::new(Window::new(Point::new(0, 0), 80, 24))
}

fn every_state() -> Vec<GameState> {
    vec![
        GameState::Setup(UiState::Unselected),
        GameState::PlayerTurn(UiState::Selected),
        GameState::AITurn(UiState::Animating),
        GameState::AITurn(UiState::Unselected),
        GameState::SetupTransition,
        GameState::AITurnTransition,
        GameState::PlayerTurnTransition,
        GameState::Quit,
        GameState::MissionSelect(title()),
        GameState::LevelTransition(level_transition::State::new(2, Team::Enemy)),
    ]
}

fn every_event() -> Vec<Event> {
    vec![
        Event::Key(Key::Char('q')),
        Event::Key(Key::Char('w')),
        Event::Key(Key::Char(' ')),
        Event::Key(Key::Other),
        Event::Mouse(MouseEvent::Press(3, 23)),
        Event::Mouse(MouseEvent::Press(30, 3)),
        Event::Mouse(MouseEvent::Other),
        Event::Unsupported,
    ]
}

fn key(c: char) -> Event {
    Event::Key(Key::Char(c))
}

fn end_turn_press() -> Event {
    Event::Mouse(MouseEvent::Press(3, 23))
}

#[test]
fn quit_is_absorbing() {
    for event in every_event() {
        let mut mv = stale(fight());
        assert_eq!(GameState::Quit.next(event, &mut mv), Step::Settled(GameState::Quit));
        assert_eq!(mv, stale(fight()));
    }
    let mut mv = stale(fight());
    assert_eq!(GameState::Quit.tick(&mut mv), Step::Settled(GameState::Quit));
    assert_eq!(mv, stale(fight()));
}

#[test]
fn next_and_tick_are_determined() {
    for event in every_event() {
        for (first, second) in every_state().into_iter().zip(every_state()) {
            let mut mv1 = stale(fight());
            let mut mv2 = stale(fight());
            assert_eq!(first.next(event, &mut mv1), second.next(event, &mut mv2));
            assert_eq!(mv1, mv2);
        }
    }
    for (first, second) in every_state().into_iter().zip(every_state()) {
        let mut mv1 = stale(fight());
        let mut mv2 = stale(fight());
        assert_eq!(first.tick(&mut mv1), second.tick(&mut mv2));
        assert_eq!(mv1, mv2);
    }
}

#[test]
fn events_that_mean_nothing_change_nothing() {
    for state in every_state() {
        let mut mv = stale(fight());
        let expected = match state {
            GameState::Setup(ui) => GameState::Setup(ui),
            GameState::PlayerTurn(ui) => GameState::PlayerTurn(ui),
            GameState::AITurn(ui) => GameState::AITurn(ui),
            GameState::MissionSelect(s) => GameState::MissionSelect(s),
            GameState::LevelTransition(s) => GameState::LevelTransition(s),
            GameState::SetupTransition => GameState::SetupTransition,
            GameState::AITurnTransition => GameState::AITurnTransition,
            GameState::PlayerTurnTransition => GameState::PlayerTurnTransition,
            GameState::Quit => GameState::Quit,
        };
        assert_eq!(state.next(Event::Unsupported, &mut mv), Step::Settled(expected));
        assert_eq!(mv, stale(fight()));
    }
}

#[test]
fn phases_without_input_ignore_what_events_mean() {
    for event in [key('q'), key('w'), end_turn_press()] {
        let mut mv = stale(fight());
        assert_eq!(
            GameState::AITurn(UiState::Unselected).next(event, &mut mv),
            Step::Settled(GameState::AITurn(UiState::Unselected))
        );
        assert_eq!(
            GameState::SetupTransition.next(event, &mut mv),
            Step::Settled(GameState::SetupTransition)
        );
        assert_eq!(
            GameState::AITurnTransition.next(event, &mut mv),
            Step::Settled(GameState::AITurnTransition)
        );
        assert_eq!(
            GameState::PlayerTurnTransition.next(event, &mut mv),
            Step::Settled(GameState::PlayerTurnTransition)
        );
        assert_eq!(mv, stale(fight()));
    }
}

#[test]
fn q_leaves_from_setup_and_player_turn() {
    let mut mv = stale(fight());
    assert_eq!(
        GameState::Setup(UiState::Selected).next(key('q'), &mut mv),
        Step::Settled(GameState::Quit)
    );
    assert_eq!(
        GameState::PlayerTurn(UiState::Unselected).next(key('q'), &mut mv),
        Step::Settled(GameState::Quit)
    );
    assert_eq!(mv, stale(fight()));
}

#[test]
fn victory_comes_before_the_opponents_turn() {
    let mut won = Level::new(&[]);
    won.add_program(unit(Team::Player, 1, 1));
    let mut mv = world(won);
    assert_eq!(
        GameState::PlayerTurn(UiState::Selected).next(end_turn_press(), &mut mv),
        Step::Settled(GameState::LevelTransition(level_transition::State {
            level_index: 3,
            team: Team::Player
        }))
    );

    let mut lost = Level::new(&[]);
    lost.add_program(unit(Team::Enemy, 1, 1));
    let mut mv = world(lost);
    mv.level_index = 7;
    assert_eq!(
        GameState::PlayerTurn(UiState::Selected).next(end_turn_press(), &mut mv),
        Step::Settled(GameState::LevelTransition(level_transition::State {
            level_index: 7,
            team: Team::Enemy
        }))
    );
}

#[test]
fn end_of_turn_without_victory_is_the_opponents_turn() {
    let mut mv = stale(fight());
    assert_eq!(
        GameState::PlayerTurn(UiState::Selected).next(end_turn_press(), &mut mv),
        Step::Settled(GameState::AITurnTransition)
    );
    assert_eq!(mv, stale(fight()));
}

#[test]
fn player_turn_hands_other_events_on() {
    let mut mv = stale(fight());
    let ui = UiState::SelectTarget(Ability { damage: 2, range: 3 });
    assert_eq!(
        GameState::PlayerTurn(ui).next(key('a'), &mut mv),
        Step::Pending(Pending::PlayerTurn(ui, UiEvent::Move(Direction::Left)))
    );
    assert_eq!(
        GameState::PlayerTurn(ui).next(Event::Mouse(MouseEvent::Press(30, 3)), &mut mv),
        Step::Pending(Pending::PlayerTurn(ui, UiEvent::ClickMap(Point::new(9, 2))))
    );
    assert_eq!(
        GameState::PlayerTurn(ui).next(Event::Mouse(MouseEvent::Press(3, 4)), &mut mv),
        Step::Pending(Pending::PlayerTurn(ui, UiEvent::ClickInfo(Point::new(3, 4))))
    );
    assert_eq!(
        GameState::PlayerTurn(ui).tick(&mut mv),
        Step::Pending(Pending::PlayerTurn(ui, UiEvent::Tick))
    );
    assert_eq!(mv, stale(fight()));
}

#[test]
fn setup_hands_other_events_on() {
    let mut mv = stale(fight());
    assert_eq!(
        GameState::Setup(UiState::Selected).next(key('s'), &mut mv),
        Step::Pending(Pending::Setup(UiState::Selected, UiEvent::Move(Direction::Down)))
    );
    assert_eq!(
        GameState::Setup(UiState::Selected).tick(&mut mv),
        Step::Pending(Pending::Setup(UiState::Selected, UiEvent::Tick))
    );
    assert_eq!(mv, stale(fight()));
}

#[test]
fn end_of_setup_arms_the_end_turn_label() {
    let mut mv = stale(fight());
    assert_eq!(
        GameState::Setup(UiState::Selected).next(end_turn_press(), &mut mv),
        Step::Settled(GameState::PlayerTurnTransition)
    );
    let mut expected = stale(fight());
    expected.info.primary_action = ">    End Turn    <".to_string();
    expected.info.end_turn = ">    End Turn    <".to_string();
    assert_eq!(mv, expected);
}

#[test]
fn title_screen_takes_any_key_and_asks_for_the_first_level() {
    for event in [key('q'), key('x'), Event::Key(Key::Other)] {
        let mut mv = stale(fight());
        assert_eq!(
            GameState::MissionSelect(title()).next(event, &mut mv),
            Step::Pending(Pending::LoadLevel(0))
        );
        assert_eq!(mv, stale(fight()));
    }
}

#[test]
fn title_screen_stays_up_over_ticks_and_mouse() {
    let mut mv = stale(fight());
    assert_eq!(
        GameState::MissionSelect(title()).tick(&mut mv),
        Step::Settled(GameState::MissionSelect(title()))
    );
    assert_eq!(
        GameState::MissionSelect(title()).next(end_turn_press(), &mut mv),
        Step::Settled(GameState::MissionSelect(title()))
    );
    assert_eq!(mv, stale(fight()));
}

#[test]
fn screen_between_levels_hands_keys_and_ticks_on() {
    let state = level_transition::State::new(2, Team::Enemy);
    let mut mv = stale(fight());
    assert_eq!(
        GameState::LevelTransition(state).next(key('q'), &mut mv),
        Step::Pending(Pending::LevelTransition(state, level_transition::UiEvent::KeyPressed))
    );
    assert_eq!(
        GameState::LevelTransition(state).tick(&mut mv),
        Step::Pending(Pending::LevelTransition(state, level_transition::UiEvent::Tick))
    );
    assert_eq!(
        GameState::LevelTransition(state).next(end_turn_press(), &mut mv),
        Step::Settled(GameState::LevelTransition(state))
    );
    assert_eq!(mv, stale(fight()));
}

#[test]
fn begin_turn_prepares_the_panels_for_the_team() {
    let mut mv = stale(fight());
    begin_turn(Team::Enemy, &mut mv);
    let mut expected = world(fight());
    expected.info.team = Team::Enemy;
    expected.info.primary_action = "old".to_string();
    expected.info.end_turn = "older".to_string();
    expected.map.highlight = vec![Point::new(2, 1)];
    expected.map.help = "AI STATUS: Done".to_string();
    expected.program_list.choices.push(("Gone".to_string(), unit(Team::Enemy, 5, 5)));
    assert_eq!(mv, expected);

    begin_turn(Team::Player, &mut mv);
    expected.info.team = Team::Player;
    expected.map.highlight = vec![Point::new(1, 0), Point::new(3, 1)];
    assert_eq!(mv, expected);
}

#[test]
fn opponents_turn_begins_on_the_tick_after_the_players() {
    let mut mv = stale(fight());
    assert_eq!(
        GameState::AITurnTransition.tick(&mut mv),
        Step::Settled(GameState::AITurn(UiState::Unselected))
    );
    let mut expected = stale(fight());
    begin_turn(Team::Enemy, &mut expected);
    assert_eq!(mv, expected);
    assert_eq!(mv.info.team, Team::Enemy);
}

#[test]
fn players_turn_begins_unless_the_level_is_decided() {
    let mut mv = stale(fight());
    assert_eq!(
        GameState::PlayerTurnTransition.tick(&mut mv),
        Step::Settled(GameState::PlayerTurn(UiState::Unselected))
    );
    let mut expected = stale(fight());
    begin_turn(Team::Player, &mut expected);
    assert_eq!(mv, expected);

    let mut lost = Level::new(&[]);
    lost.add_program(unit(Team::Enemy, 1, 1));
    let mut mv = stale(lost);
    assert_eq!(
        GameState::PlayerTurnTransition.tick(&mut mv),
        Step::Settled(GameState::LevelTransition(level_transition::State {
            level_index: 3,
            team: Team::Enemy
        }))
    );
    let mut lost = Level::new(&[]);
    lost.add_program(unit(Team::Enemy, 1, 1));
    assert_eq!(mv, stale(lost));
}

#[test]
fn opponents_turn_asks_the_planner_unless_animating() {
    for ui in [
        UiState::Unselected,
        UiState::Selected,
        UiState::SelectTarget(Ability { damage: 1, range: 1 }),
    ] {
        let mut mv = stale(fight());
        assert_eq!(GameState::AITurn(ui).tick(&mut mv), Step::Pending(Pending::Planner));
        assert_eq!(mv, stale(fight()));
    }
}

#[test]
fn planners_report_decides_how_the_turn_goes_on() {
    let mut mv = stale(fight());
    assert_eq!(
        Pending::Planner.resume(Reply::Planner(AIState::Done), &mut mv),
        Step::Settled(GameState::PlayerTurnTransition)
    );
    assert_eq!(mv.map.help, "AI STATUS: Done");
    assert_eq!(
        Pending::Planner.resume(Reply::Planner(AIState::Plotting), &mut mv),
        Step::Settled(GameState::AITurn(UiState::Unselected))
    );
    assert_eq!(mv.map.help, "AI STATUS: Plotting");
    assert_eq!(
        Pending::Planner.resume(Reply::Planner(AIState::WaitingAnimation), &mut mv),
        Step::Settled(GameState::AITurn(UiState::Animating))
    );
    assert_eq!(mv.map.help, "AI STATUS: WaitingAnimation");
    let mut expected = stale(fight());
    expected.map.help = "AI STATUS: WaitingAnimation".to_string();
    assert_eq!(mv, expected);
}

#[test]
fn sub_handlers_answer_with_the_state_to_rest_in() {
    let mut mv = stale(fight());
    assert_eq!(
        Pending::PlayerTurn(UiState::Unselected, UiEvent::Tick)
            .resume(Reply::Ui(UiState::Selected), &mut mv),
        Step::Settled(GameState::PlayerTurn(UiState::Selected))
    );
    assert_eq!(
        Pending::Setup(UiState::Selected, UiEvent::Move(Direction::Up))
            .resume(Reply::Ui(UiState::Unselected), &mut mv),
        Step::Settled(GameState::Setup(UiState::Unselected))
    );
    assert_eq!(mv, stale(fight()));
}

#[test]
fn screen_between_levels_stays_or_asks_for_a_level() {
    let before = level_transition::State::new(2, Team::Player);
    let after = level_transition::State::new(2, Team::Enemy);
    let mut mv = stale(fight());
    assert_eq!(
        Pending::LevelTransition(before, level_transition::UiEvent::Tick)
            .resume(Reply::LevelTransition(after, None), &mut mv),
        Step::Settled(GameState::LevelTransition(after))
    );
    assert_eq!(
        Pending::LevelTransition(before, level_transition::UiEvent::KeyPressed)
            .resume(Reply::LevelTransition(after, Some(4)), &mut mv),
        Step::Pending(Pending::LoadLevel(4))
    );
    assert_eq!(mv, stale(fight()));
}

#[test]
fn loaded_level_replaces_the_old_one() {
    let mut mv = stale(fight());
    let mut next = Level::new(&["o.."]);
    next.add_program(unit(Team::Enemy, 2, 0));
    assert_eq!(
        Pending::LoadLevel(4).resume(Reply::Level(Some(next)), &mut mv),
        Step::Settled(GameState::SetupTransition)
    );
    let mut expected = stale(fight());
    expected.level_index = 4;
    expected.level = Level::new(&["o.."]);
    expected.level.add_program(unit(Team::Enemy, 2, 0));
    assert_eq!(mv, expected);
}

#[test]
fn failed_load_ends_the_game() {
    let mut mv = stale(fight());
    assert_eq!(
        Pending::LoadLevel(4).resume(Reply::Level(None), &mut mv),
        Step::Settled(GameState::Quit)
    );
    assert_eq!(mv, stale(fight()));
}

#[test]
fn reply_to_something_else_leaves_the_step_pending() {
    let mut mv = stale(fight());
    assert_eq!(
        Pending::Planner.resume(Reply::Ui(UiState::Selected), &mut mv),
        Step::Pending(Pending::Planner)
    );
    assert_eq!(
        Pending::LoadLevel(1).resume(Reply::Planner(AIState::Done), &mut mv),
        Step::Pending(Pending::LoadLevel(1))
    );
    assert_eq!(
        Pending::PlayerTurn(UiState::Selected, UiEvent::Tick)
            .resume(Reply::Level(Some(Level::new(&[]))), &mut mv),
        Step::Pending(Pending::PlayerTurn(UiState::Selected, UiEvent::Tick))
    );
    assert_eq!(
        Pending::Setup(UiState::Selected, UiEvent::Tick).resume(Reply::Level(None), &mut mv),
        Step::Pending(Pending::Setup(UiState::Selected, UiEvent::Tick))
    );
    assert_eq!(mv, stale(fight()));
}

#[test]
fn setup_entry_resets_panels_and_list() {
    let mut mv = stale(fight());
    assert_eq!(
        GameState::SetupTransition.tick(&mut mv),
        Step::Settled(GameState::Setup(UiState::Unselected))
    );
    let mut expected = world(fight());
    expected.info.primary_action = ">Launch Intrusion<".to_string();
    expected.info.end_turn = ">Launch Intrusion<".to_string();
    expected.map.highlight = vec![Point::new(1, 0), Point::new(3, 1)];
    expected.program_list.choices = vec![
        ("Hack".to_string(), Program::new(Team::Player, Point::new(0, 0), "Hack", 4)),
        ("Bug".to_string(), Program::new(Team::Player, Point::new(0, 0), "Bug", 1)),
    ];
    assert_eq!(mv, expected);
}

#[test]
fn setup_entry_twice_is_setup_entry_once() {
    let mut once = stale(fight());
    GameState::SetupTransition.tick(&mut once);
    let mut twice = stale(fight());
    GameState::SetupTransition.tick(&mut twice);
    assert_eq!(
        GameState::SetupTransition.tick(&mut twice),
        Step::Settled(GameState::Setup(UiState::Unselected))
    );
    assert_eq!(once, twice);
    assert_eq!(twice.program_list.choices.len(), 2);
}

#[test]
fn setup_entry_forgets_the_previous_mission() {
    let mut first = stale(fight());
    let mut second = world(Level::new(&[]));
    second.program_list.choices.push(("Left".to_string(), unit(Team::Player, 1, 1)));
    second.program_list.choices.push(("Over".to_string(), unit(Team::Player, 2, 1)));
    second.program_list.choices.push(("Here".to_string(), unit(Team::Player, 3, 1)));
    second.info.lines.push("stale".to_string());
    GameState::SetupTransition.tick(&mut first);
    GameState::SetupTransition.tick(&mut second);
    assert_eq!(first.program_list, second.program_list);
    assert_eq!(first.info, second.info);
}

#[test]
fn effects_survive_the_start_of_a_turn() {
    let mut level = fight();
    level.programs[0].status_effects.push(StatusEffect::Damage(2));
    let mut mv = world(level);
    begin_turn(Team::Player, &mut mv);
    assert_eq!(mv.level.programs[0].status_effects, vec![StatusEffect::Damage(2)]);
    assert!(mv.level.is_well_formed());
}

#[test]
fn scene_follows_the_phase() {
    let between = level_transition::State::new(2, Team::Enemy);
    assert_eq!(GameState::MissionSelect(title()).display(), Scene::MissionSelect(title()));
    assert_eq!(GameState::LevelTransition(between).display(), Scene::LevelTransition(between));
    assert_eq!(GameState::Quit.display(), Scene::Panels);
    assert_eq!(GameState::Setup(UiState::Unselected).display(), Scene::Panels);
    assert_eq!(GameState::AITurn(UiState::Animating).display(), Scene::Panels);
    assert_eq!(GameState::PlayerTurnTransition.display(), Scene::Panels);
}

#[test]
fn turn_helpers_hand_on_what_they_are_given() {
    let between = level_transition::State::new(2, Team::Enemy);
    assert_eq!(
        GameState::next_player_turn(UiState::Selected, UiEvent::ClickMap(Point::new(1, 2))),
        Step::Pending(Pending::PlayerTurn(UiState::Selected, UiEvent::ClickMap(Point::new(1, 2))))
    );
    assert_eq!(
        GameState::next_transition_turn(between, level_transition::UiEvent::Tick),
        Step::Pending(Pending::LevelTransition(between, level_transition::UiEvent::Tick))
    );
    let mut mv = stale(fight());
    assert_eq!(
        GameState::next_mission_turn(title(), mission_select::UiEvent::KeyPressed, &mut mv),
        Step::Pending(Pending::LoadLevel(0))
    );
    assert_eq!(
        GameState::next_mission_turn(title(), mission_select::UiEvent::Tick, &mut mv),
        Step::Settled(GameState::MissionSelect(title()))
    );
    assert_eq!(
        GameState::next_setup_turn(UiState::Selected, UiEvent::ClickInfo(Point::new(1, 2)), &mut mv),
        Step::Pending(Pending::Setup(UiState::Selected, UiEvent::ClickInfo(Point::new(1, 2))))
    );
    assert_eq!(mv, stale(fight()));
}
