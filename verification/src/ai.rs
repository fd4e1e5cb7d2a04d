//! What the opponent's planner reports after each of its steps.

use vstd::prelude::*;

verus! {

/// Where the planner stands after one step.
#[derive(Clone, Copy, Debug, PartialEq, Eq, Structural)]
pub enum AIState {
    /// It is still choosing; it wants another step.
    Plotting,
    /// It has acted and waits for the effects of that to play out.
    WaitingAnimation,
    /// It has ended its turn.
    Done,
}

impl AIState {
    /// The line that the map shows for this status.
    pub open spec fn help_text(self) -> Seq<char> {
        match self {
            AIState::Plotting => "AI STATUS: Plotting"@,
            AIState::WaitingAnimation => "AI STATUS: WaitingAnimation"@,
            AIState::Done => "AI STATUS: Done"@,
        }
    }

    /// The line that the map shows for this status.
    pub fn help(self) -> (text: String)
        ensures
            text@ == self.help_text(),
    {
        match self {
            AIState::Plotting => "AI STATUS: Plotting".to_owned(),
            AIState::WaitingAnimation => "AI STATUS: WaitingAnimation".to_owned(),
            AIState::Done => "AI STATUS: Done".to_owned(),
        }
    }
}

} // verus!
