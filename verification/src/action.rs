use vstd::prelude::*;

verus! {

/// What the player on the ball can attempt.
#[derive(Clone, Copy, PartialEq, Eq, Structural, Debug, Hash)]
pub enum Action {
    Pass,
    Shoot,
    Cross,
    Dribble,
}

impl Action {
    /// The four actions, in the order in which the engine lists them.
    pub open spec fn every() -> Seq<Action> {
        seq![Action::Pass, Action::Shoot, Action::Cross, Action::Dribble]
    }

    /// The action's place in [`Action::every`].
    pub open spec fn ordinal(self) -> int {
        match self {
            Action::Pass => 0,
            Action::Shoot => 1,
            Action::Cross => 2,
            Action::Dribble => 3,
        }
    }

    /// The action's name as text.
    pub open spec fn label_text(self) -> Seq<char> {
        match self {
            Action::Pass => "Pass"@,
            Action::Shoot => "Shoot"@,
            Action::Cross => "Cross"@,
            Action::Dribble => "Dribble"@,
        }
    }

    /// All actions, each exactly once.
    pub fn all() -> (list: Vec<Action>)
        ensures
            list@ == Action::every(),
    {
        let mut list: Vec<Action> = Vec::new();
        list.push(Action::Pass);
        list.push(Action::Shoot);
        list.push(Action::Cross);
        list.push(Action::Dribble);
        assert(list@ =~= Action::every());
        list
    }

    /// The index of the action in [`Action::all`].
    pub fn index(&self) -> (i: usize)
        ensures
            i == self.ordinal(),
            i < 4,
            Action::every()[i as int] == *self,
    {
        match self {
            Action::Pass => 0,
            Action::Shoot => 1,
            Action::Cross => 2,
            Action::Dribble => 3,
        }
    }

    /// The action's name, for display.
    pub fn label(&self) -> (text: &'static str)
        ensures
            text@ == self.label_text(),
    {
        match self {
            Action::Pass => "Pass",
            Action::Shoot => "Shoot",
            Action::Cross => "Cross",
            Action::Dribble => "Dribble",
        }
    }
}

} // verus!
