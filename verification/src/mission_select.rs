//! The title screen, from which the first mission is entered.

use crate::game_state::{ModelView, UiState};
use crate::window::{Point, Window};
use vstd::prelude::*;

verus! {

/// What the title screen reacts to.
#[derive(Clone, Copy, Debug, PartialEq, Eq, Structural)]
pub enum UiEvent {
    KeyPressed,
    Tick,
}

/// What the title screen asks for after an event.
#[derive(Clone, Copy, Debug, PartialEq, Eq, Structural)]
pub enum Transition {
    /// Stay on the screen, in this state of the interface.
    Ui(UiState),
    /// Load the level with this index and enter it.
    Level(usize),
}

/// The title screen, with the window that it is drawn in.
#[derive(Clone, Copy, Debug, PartialEq, Eq, Structural)]
pub struct State {
    pub window: Window,
}

impl State {
    pub fn new(window: Window) -> (state: State)
        ensures
            state == (State { window }),
    {
        State { window }
    }
}

/// A line of text and the cell of a window at which it begins.
#[derive(Clone, Copy, Debug, PartialEq, Eq)]
pub struct Label {
    pub position: Point,
    pub text: &'static str,
}

/// What a window is to show: the lines of text, each at its cell of the window.
#[derive(Debug, PartialEq, Eq)]
pub struct Picture {
    pub window: Window,
    pub labels: Vec<Label>,
}

/// The column at which the rows of the title begin.
pub const TITLE_COLUMN: u16 = 13;

/// The row of the first row of the title.
pub const TITLE_ROW: u16 = 6;

/// The rows of the title, from the top.
pub open spec fn title() -> Seq<Seq<char>> {
    seq![
        "██████╗ ███████╗    ██╗██╗  ██╗ █████╗  ██████╗██╗  ██╗"@,
        "██╔══██╗██╔════╝   ██╔╝██║  ██║██╔══██╗██╔════╝██║ ██╔╝"@,
        "█████╔╝█████╗    ██╔╝ ███████║███████║██║     █████╔╝"@,
        "██╔══██╗██╔══╝   ██╔╝  ██╔══██║██╔══██║██║     ██╔═██╗"@,
        "█║  ██║███████╗██╔╝   ██║  ██║██║  ██║╚██████╗██║  ██╗"@,
        "╚═╝  ╚═╝╚══════╝╚═╝    ╚═╝  ╚═╝╚═╝  ╚═╝ ╚═════╝╚═╝  ╚═╝"@,
    ]
}

/// The call to begin, below the title.
pub open spec fn prompt() -> (Point, Seq<char>) {
    (Point { x: 30, y: 14 }, "PRESS ANY KEY TO BEGIN"@)
}

/// What the title screen shows: the rows of the title, one below the other,
/// and after them the call to begin.
pub open spec fn title_screen() -> Seq<(Point, Seq<char>)> {
    Seq::new(
        title().len(),
        |row: int| (Point { x: TITLE_COLUMN, y: (TITLE_ROW + row) as u16 }, title()[row]),
    ).push(prompt())
}

/// The labels of a picture as cells and texts.
pub open spec fn labels_shown(labels: Seq<Label>) -> Seq<(Point, Seq<char>)> {
    labels.map_values(|label: Label| (label.position, label.text@))
}

/// The rows of the title, from the top.
fn title_rows() -> (rows: [&'static str; 6])
    ensures
        rows@.map_values(|row: &'static str| row@) == title(),
{
    let rows = [
        "██████╗ ███████╗    ██╗██╗  ██╗ █████╗  ██████╗██╗  ██╗",
        "██╔══██╗██╔════╝   ██╔╝██║  ██║██╔══██╗██╔════╝██║ ██╔╝",
        "█████╔╝█████╗    ██╔╝ ███████║███████║██║     █████╔╝",
        "██╔══██╗██╔══╝   ██╔╝  ██╔══██║██╔══██║██║     ██╔═██╗",
        "█║  ██║███████╗██╔╝   ██║  ██║██║  ██║╚██████╗██║  ██╗",
        "╚═╝  ╚═╝╚══════╝╚═╝    ╚═╝  ╚═╝╚═╝  ╚═╝ ╚═════╝╚═╝  ╚═╝",
    ];
    assert(rows@.map_values(|row: &'static str| row@) =~= title());
    rows
}

/// Tells what the title screen shows in its window.
pub fn display(mission_state: &State) -> (picture: Picture)
    ensures
        picture.window == mission_state.window,
        labels_shown(picture.labels@) == title_screen(),
{
    let rows = title_rows();
    let mut labels: Vec<Label> = Vec::new();
    let mut offset: u16 = 0;
    while offset < 6
        invariant
            offset <= 6,
            rows@.map_values(|row: &'static str| row@) == title(),
            labels_shown(labels@) == title_screen().take(offset as int),
        decreases 6 - offset,
    {
        let label = Label {
            position: Point::new(TITLE_COLUMN, TITLE_ROW + offset),
            text: rows[offset as usize],
        };
        proof {
            assert(rows@.map_values(|row: &'static str| row@)[offset as int] == label.text@);
            assert(labels_shown(labels@.push(label)) =~= labels_shown(labels@).push(
                (label.position, label.text@),
            ));
            assert(title_screen().take(offset + 1) =~= title_screen().take(offset as int).push(
                title_screen()[offset as int],
            ));
        }
        labels.push(label);
        offset = offset + 1;
    }
    let label = Label { position: Point::new(30, 14), text: "PRESS ANY KEY TO BEGIN" };
    proof {
        assert(labels_shown(labels@.push(label)) =~= labels_shown(labels@).push(
            (label.position, label.text@),
        ));
        assert(title_screen().take(6).push(prompt()) =~= title_screen());
    }
    labels.push(label);
    Picture { window: mission_state.window, labels }
}

/// What the title screen asks for after `event`.
pub open spec fn transition(event: UiEvent) -> Transition {
    match event {
        UiEvent::KeyPressed => Transition::Level(0),
        UiEvent::Tick => Transition::Ui(UiState::Unselected),
    }
}

/// Lets the title screen react to `event`: any key enters the first level,
/// a tick changes nothing.
pub fn next(mission_state: &mut State, event: UiEvent, mv: &mut ModelView) -> (t: Transition)
    ensures
        t == transition(event),
        *final(mission_state) == *old(mission_state),
        *final(mv) == *old(mv),
{
    match event {
        UiEvent::KeyPressed => Transition::Level(0),
        UiEvent::Tick => Transition::Ui(UiState::Unselected),
    }
}

} // verus!
