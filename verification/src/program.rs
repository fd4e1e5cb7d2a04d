//! Programs: the units that the two sides command.

use crate::window::Point;
use vstd::prelude::*;

verus! {

/// The side that a program fights for.
#[derive(Clone, Copy, Debug, PartialEq, Eq, Structural)]
pub enum Team {
    Player,
    Enemy,
}

/// An attack that a program can aim at a cell: for how many ticks the target
/// is damaged, and how far from the program the target may be.
#[derive(Clone, Copy, Debug, PartialEq, Eq, Structural)]
pub struct Ability {
    pub damage: usize,
    pub range: usize,
}

/// A lasting effect on a program, with the number of ticks it still has to run.
#[derive(Clone, Copy, Debug, PartialEq, Eq, Structural)]
pub enum StatusEffect {
    Damage(usize),
}

impl StatusEffect {
    /// The number of ticks that the effect still has to run.
    pub open spec fn remaining(self) -> nat {
        match self {
            StatusEffect::Damage(ticks) => ticks as nat,
        }
    }

    /// The effect one tick later.
    pub open spec fn ticked(self) -> StatusEffect
        recommends
            self.remaining() >= 1,
    {
        match self {
            StatusEffect::Damage(ticks) => StatusEffect::Damage((ticks - 1) as usize),
        }
    }
}

/// The test that an effect passes while it has ticks left to run.
pub open spec fn lasting() -> spec_fn(StatusEffect) -> bool {
    |effect: StatusEffect| effect.remaining() > 0
}

/// A list of effects one tick later: each has run for one more tick, and those
/// that have run out are gone.
pub open spec fn decayed(effects: Seq<StatusEffect>) -> Seq<StatusEffect> {
    effects.map_values(|effect: StatusEffect| effect.ticked()).filter(lasting())
}

/// What a program has done since its side's turn began.
#[derive(Clone, Copy, Debug, PartialEq, Eq, Structural)]
pub struct TurnState {
    pub moves_made: usize,
    pub ability_used: bool,
}

impl TurnState {
    /// The state of a program that has not acted yet.
    pub open spec fn fresh() -> TurnState {
        TurnState { moves_made: 0, ability_used: false }
    }

    pub fn new() -> (t: TurnState)
        ensures
            t == TurnState::fresh(),
    {
        TurnState { moves_made: 0, ability_used: false }
    }
}

/// A unit on the grid.
#[derive(Debug, PartialEq, Eq)]
pub struct Program {
    pub name: String,
    pub team: Team,
    pub position: Point,
    pub health: usize,
    pub status_effects: Vec<StatusEffect>,
    pub turn_state: TurnState,
}

/// The mathematical value of a [`Program`].
pub struct ProgramModel {
    pub name: Seq<char>,
    pub team: Team,
    pub position: Point,
    pub health: nat,
    pub status_effects: Seq<StatusEffect>,
    pub turn_state: TurnState,
}

impl View for Program {
    type V = ProgramModel;

    open spec fn view(&self) -> ProgramModel {
        ProgramModel {
            name: self.name@,
            team: self.team,
            position: self.position,
            health: self.health as nat,
            status_effects: self.status_effects@,
            turn_state: self.turn_state,
        }
    }
}

impl ProgramModel {
    /// Every effect still has at least one tick to run.
    pub open spec fn well_formed(self) -> bool {
        forall|i: int|
            0 <= i < self.status_effects.len() ==> (#[trigger] self.status_effects[i]).remaining()
                >= 1
    }

    /// The program after one point of damage.
    pub open spec fn damaged(self) -> ProgramModel {
        ProgramModel { health: if self.health > 0 { (self.health - 1) as nat } else { 0 }, ..self }
    }

    /// Whether the program carries an effect that has yet to run out.
    pub open spec fn afflicted(self) -> bool {
        self.status_effects.len() > 0
    }

    /// The program one tick later: its effects have decayed and, where it
    /// carried any, it has taken one point of damage.
    pub open spec fn ticked(self) -> ProgramModel {
        if self.afflicted() {
            ProgramModel { status_effects: decayed(self.status_effects), ..self }.damaged()
        } else {
            self
        }
    }

    /// Whether no effect of the program has more than `ticks` ticks to run.
    pub open spec fn effects_within(self, ticks: nat) -> bool {
        forall|i: int|
            0 <= i < self.status_effects.len() ==> (#[trigger] self.status_effects[i]).remaining()
                <= ticks
    }

    /// Whether the program does not live through the coming tick.
    pub open spec fn succumbs(self) -> bool {
        self.afflicted() && self.health <= 1
    }
}

/// A well-formed program stays well formed over a tick.
pub proof fn lemma_ticked_well_formed(p: ProgramModel)
    requires
        p.well_formed(),
    ensures
        p.ticked().well_formed(),
{
    let ticked = p.status_effects.map_values(|effect: StatusEffect| effect.ticked());
    assert forall|i: int| 0 <= i < decayed(p.status_effects).len() implies (#[trigger] decayed(
        p.status_effects,
    )[i]).remaining() >= 1 by {
        ticked.lemma_filter_pred(lasting(), i);
    }
}

/// A tick brings every effect of a program one tick nearer to its end.
pub proof fn lemma_ticked_effects_within(p: ProgramModel, ticks: nat)
    requires
        p.well_formed(),
        p.effects_within(ticks),
        ticks >= 1,
    ensures
        p.ticked().effects_within((ticks - 1) as nat),
{
    let ticked = p.status_effects.map_values(|effect: StatusEffect| effect.ticked());
    assert forall|i: int| 0 <= i < p.ticked().status_effects.len() implies (
    #[trigger] p.ticked().status_effects[i]).remaining() <= ticks - 1 by {
        let after = p.ticked().status_effects[i];
        assert(p.afflicted());
        assert(ticked.filter(lasting()).contains(after));
        ticked.lemma_filter_contains_rev(lasting(), after);
        let at = choose|at: int| 0 <= at < ticked.len() && ticked[at] == after;
        assert(p.status_effects[at].remaining() >= 1);
        assert(p.status_effects[at].remaining() <= ticks);
    }
}

impl Clone for Program {
    fn clone(&self) -> (copy: Program)
        ensures
            copy@ == self@,
    {
        let mut status_effects: Vec<StatusEffect> = Vec::new();
        let mut i: usize = 0;
        while i < self.status_effects.len()
            invariant
                i <= self.status_effects.len(),
                status_effects@ == self.status_effects@.take(i as int),
            decreases self.status_effects.len() - i,
        {
            status_effects.push(self.status_effects[i]);
            assert(self.status_effects@.take(i as int).push(self.status_effects@[i as int])
                =~= self.status_effects@.take(i + 1));
            i = i + 1;
        }
        assert(self.status_effects@.take(i as int) =~= self.status_effects@);
        Program {
            name: self.name.clone(),
            team: self.team,
            position: self.position,
            health: self.health,
            status_effects,
            turn_state: self.turn_state,
        }
    }
}

/// Lets every effect of the list run for one tick and drops those that have
/// run out. Tells whether the list held any effect.
pub fn decay(effects: &mut Vec<StatusEffect>) -> (damaged: bool)
    requires
        forall|i: int| 0 <= i < old(effects).len() ==> (#[trigger] old(effects)[i]).remaining() >= 1,
    ensures
        final(effects)@ == decayed(old(effects)@),
        damaged == (old(effects).len() > 0),
{
    let damaged = effects.len() > 0;
    let mut i: usize = 0;
    while i < effects.len()
        invariant
            i <= effects.len(),
            effects.len() == old(effects).len(),
            forall|j: int| 0 <= j < i ==> (#[trigger] effects[j]) == old(effects)[j].ticked(),
            forall|j: int| i <= j < effects.len() ==> (#[trigger] effects[j]) == old(effects)[j],
            forall|j: int|
                0 <= j < old(effects).len() ==> (#[trigger] old(effects)[j]).remaining() >= 1,
        decreases effects.len() - i,
    {
        match effects[i] {
            StatusEffect::Damage(ticks) => {
                effects[i] = StatusEffect::Damage(ticks - 1);
            },
        }
        i = i + 1;
    }
    let ghost ticked = old(effects)@.map_values(|effect: StatusEffect| effect.ticked());
    assert(effects@ =~= ticked);
    let mut kept: Vec<StatusEffect> = Vec::new();
    let mut k: usize = 0;
    while k < effects.len()
        invariant
            k <= effects.len(),
            effects@ == ticked,
            kept@ == ticked.take(k as int).filter(lasting()),
        decreases effects.len() - k,
    {
        proof {
            assert(ticked.take(k + 1) =~= ticked.take(k as int).push(ticked[k as int]));
            ticked.take(k as int).lemma_filter_push(ticked[k as int], lasting());
        }
        match effects[k] {
            StatusEffect::Damage(ticks) => {
                if ticks != 0 {
                    kept.push(effects[k]);
                }
            },
        }
        k = k + 1;
    }
    assert(ticked.take(k as int) =~= ticked);
    *effects = kept;
    damaged
}

impl Program {
    /// A program at full strength, free of effects, that has not acted.
    pub fn new(team: Team, position: Point, name: &str, health: usize) -> (p: Program)
        ensures
            p@ == (ProgramModel {
                name: name@,
                team,
                position,
                health: health as nat,
                status_effects: Seq::empty(),
                turn_state: TurnState::fresh(),
            }),
    {
        Program {
            name: name.to_owned(),
            team,
            position,
            health,
            status_effects: Vec::new(),
            turn_state: TurnState::new(),
        }
    }

    /// Whether every effect on the program has at least one tick to run.
    pub fn is_well_formed(&self) -> (ok: bool)
        ensures
            ok == self@.well_formed(),
    {
        let mut i: usize = 0;
        while i < self.status_effects.len()
            invariant
                i <= self.status_effects.len(),
                forall|j: int| 0 <= j < i ==> (#[trigger] self@.status_effects[j]).remaining() >= 1,
            decreases self.status_effects.len() - i,
        {
            match self.status_effects[i] {
                StatusEffect::Damage(ticks) => {
                    if ticks == 0 {
                        assert(self@.status_effects[i as int].remaining() == 0);
                        return false;
                    }
                },
            }
            i = i + 1;
        }
        true
    }

    /// Takes one point of health from the program and tells whether it lives on.
    pub fn damage(&mut self) -> (lived: bool)
        ensures
            final(self)@ == old(self)@.damaged(),
            lived == (old(self).health > 1),
    {
        if self.health > 0 {
            self.health = self.health - 1;
        }
        self.health > 0
    }
}

} // verus!
