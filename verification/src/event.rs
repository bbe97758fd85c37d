use vstd::prelude::*;
use vstd::string::StringExecFns;
use crate::action::Action;
use crate::text::{decimal, decimal_text};

verus! {

/// Something that happens in a match and is worth reporting.
#[derive(Clone, Copy, PartialEq, Eq, Debug)]
pub enum Event {
    /// The player caught offside.
    Offside(u32),
    /// The player who fouled, and how badly, from 0 to 255.
    Foul(u32, u8),
    YellowCard(u32),
    RedCard(u32),
    /// The player who leaves and the player who comes on.
    Substitution(u32, u32),
    /// The scorer and, where there was one, the player with the assist.
    Goal(u32, Option<u32>),
    ThrowIn,
    GoalKick,
    Corner,
    FreeKick,
    Penalty,
}

/// An id that may be missing, as text: `Some(7)` or `None`.
pub open spec fn optional_text(id: Option<u32>) -> Seq<char> {
    match id {
        Some(id) => "Some("@ + decimal_text(id as nat) + ")"@,
        None => "None"@,
    }
}

impl Event {
    /// The event as a line of text.
    pub open spec fn text(self) -> Seq<char> {
        match self {
            Event::Offside(id) => "Offside: "@ + decimal_text(id as nat),
            Event::Foul(id, severity) => "Foul: "@ + decimal_text(id as nat) + " severity: "@
                + decimal_text(severity as nat),
            Event::YellowCard(id) => "Yellow card: "@ + decimal_text(id as nat),
            Event::RedCard(id) => "Red card: "@ + decimal_text(id as nat),
            Event::Substitution(id, new_id) => "Substitution: "@ + decimal_text(id as nat)
                + " -> "@ + decimal_text(new_id as nat),
            Event::Goal(id, assist) => "Goal: "@ + decimal_text(id as nat) + " assist: "@
                + optional_text(assist),
            Event::ThrowIn => "Throw in"@,
            Event::GoalKick => "Goal kick"@,
            Event::Corner => "Corner"@,
            Event::FreeKick => "Free kick"@,
            Event::Penalty => "Penalty"@,
        }
    }

    /// The event as a line of text, for display.
    pub fn describe(&self) -> (line: String)
        ensures
            line@ == self.text(),
    {
        match *self {
            Event::Offside(id) => labelled("Offside: ", id),
            Event::Foul(id, severity) => {
                let mut line: String = labelled("Foul: ", id);
                line.append(" severity: ");
                line.append(decimal(severity as u32).as_str());
                line
            },
            Event::YellowCard(id) => labelled("Yellow card: ", id),
            Event::RedCard(id) => labelled("Red card: ", id),
            Event::Substitution(id, new_id) => {
                let mut line: String = labelled("Substitution: ", id);
                line.append(" -> ");
                line.append(decimal(new_id).as_str());
                line
            },
            Event::Goal(id, assist) => {
                let mut line: String = labelled("Goal: ", id);
                line.append(" assist: ");
                match assist {
                    Some(helper) => {
                        line.append("Some(");
                        line.append(decimal(helper).as_str());
                        line.append(")");
                        assert(line@ =~= self.text());
                    },
                    None => {
                        line.append("None");
                    },
                }
                line
            },
            Event::ThrowIn => String::from_str("Throw in"),
            Event::GoalKick => String::from_str("Goal kick"),
            Event::Corner => String::from_str("Corner"),
            Event::FreeKick => String::from_str("Free kick"),
            Event::Penalty => String::from_str("Penalty"),
        }
    }
}

/// A label followed by an id.
fn labelled(label: &str, id: u32) -> (line: String)
    ensures
        line@ == label@ + decimal_text(id as nat),
{
    let mut line: String = String::from_str(label);
    line.append(decimal(id).as_str());
    line
}

/// The event that an action that came off gives rise to. No action does by
/// itself: goals, set pieces and cards are counted for the half as a whole.
pub open spec fn event_of(action: Action) -> Option<Event> {
    None
}

/// The event that an action that came off gives rise to.
pub fn get_event_from_action(action: Action) -> (event: Option<Event>)
    ensures
        event == event_of(action),
{
    None
}

} // verus!
