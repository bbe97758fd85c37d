use vstd::prelude::*;
use crate::position::Position;
use crate::style::PlayStyle;

verus! {

/// A player's record: who the player is and what the player can do. Every
/// attribute runs from 0 to 255.
#[derive(Debug)]
pub struct Player {
    pub id: u32,
    pub name: String,
    pub team_id: u32,
    pub country_id: u32,
    // mental
    pub morale: u8,
    pub form: u8,
    pub tactical: u8,
    pub leadership: u8,
    pub decision_making: u8,
    pub vision: u8,
    pub creativity: u8,
    // physical
    pub fitness: u8,
    pub pace: u8,
    pub strength: u8,
    pub stamina: u8,
    pub height: u8,
    pub jumping: u8,
    // technical
    pub passing: u8,
    pub technique: u8,
    pub heading: u8,
    pub set_pieces: u8,
    // defending
    pub tackling: u8,
    pub marking: u8,
    pub goalkeeping: u8,
    pub defensive_positioning: u8,
    // attacking
    pub shooting: u8,
    pub long_shots: u8,
    pub attack_positioning: u8,
    // role
    pub position: Position,
    pub playstyle: PlayStyle,
}

impl Player {
    /// Whether every number of the record is zero, the name is empty and the
    /// role is that of a plain goalkeeper.
    pub open spec fn is_blank(self) -> bool {
        &&& self.id == 0
        &&& self.name@ == Seq::<char>::empty()
        &&& self.team_id == 0
        &&& self.country_id == 0
        &&& self.morale == 0
        &&& self.form == 0
        &&& self.tactical == 0
        &&& self.leadership == 0
        &&& self.decision_making == 0
        &&& self.vision == 0
        &&& self.creativity == 0
        &&& self.fitness == 0
        &&& self.pace == 0
        &&& self.strength == 0
        &&& self.stamina == 0
        &&& self.height == 0
        &&& self.jumping == 0
        &&& self.passing == 0
        &&& self.technique == 0
        &&& self.heading == 0
        &&& self.set_pieces == 0
        &&& self.tackling == 0
        &&& self.marking == 0
        &&& self.goalkeeping == 0
        &&& self.defensive_positioning == 0
        &&& self.shooting == 0
        &&& self.long_shots == 0
        &&& self.attack_positioning == 0
        &&& self.position == Position::Goalkeeper
        &&& self.playstyle == PlayStyle::Default
    }

    /// A blank record, to be filled in field by field.
    pub fn new() -> (player: Self)
        ensures
            player.is_blank(),
    {
        Self {
            id: 0,
            name: String::new(),
            team_id: 0,
            country_id: 0,
            morale: 0,
            form: 0,
            tactical: 0,
            leadership: 0,
            decision_making: 0,
            vision: 0,
            creativity: 0,
            fitness: 0,
            pace: 0,
            strength: 0,
            stamina: 0,
            height: 0,
            jumping: 0,
            passing: 0,
            technique: 0,
            heading: 0,
            set_pieces: 0,
            tackling: 0,
            marking: 0,
            goalkeeping: 0,
            defensive_positioning: 0,
            shooting: 0,
            long_shots: 0,
            attack_positioning: 0,
            position: Position::Goalkeeper,
            playstyle: PlayStyle::Default,
        }
    }
}

} // verus!
