use vstd::prelude::*;
use crate::lists::{append_list, copy_list};
use crate::strength::FULL_SHARE;

verus! {

/// What one side has to show for a half or for the match so far.
#[derive(Debug)]
pub struct GameStats {
    /// The side's share of possession, out of [`FULL_SHARE`].
    pub possession: u64,
    pub crosses: u8,
    pub shots: u8,
    pub shots_on_target: u8,
    pub goals: u8,
    pub freekicks: u8,
    pub penalties: u8,
    pub corners: u8,
    pub fouls: u8,
    /// The ids of the players shown a yellow card, in order.
    pub yellow_cards: Vec<u32>,
    /// The ids of the players sent off, in order.
    pub red_cards: Vec<u32>,
}

/// The statistics of one side as plain values.
pub struct StatsModel {
    pub possession: u64,
    pub crosses: u8,
    pub shots: u8,
    pub shots_on_target: u8,
    pub goals: u8,
    pub freekicks: u8,
    pub penalties: u8,
    pub corners: u8,
    pub fouls: u8,
    pub yellow_cards: Seq<u32>,
    pub red_cards: Seq<u32>,
}

impl View for GameStats {
    type V = StatsModel;

    open spec fn view(&self) -> StatsModel {
        StatsModel {
            possession: self.possession,
            crosses: self.crosses,
            shots: self.shots,
            shots_on_target: self.shots_on_target,
            goals: self.goals,
            freekicks: self.freekicks,
            penalties: self.penalties,
            corners: self.corners,
            fouls: self.fouls,
            yellow_cards: self.yellow_cards@,
            red_cards: self.red_cards@,
        }
    }
}

/// The sum of two counts, which stops at 255.
pub open spec fn capped_sum(a: u8, b: u8) -> u8 {
    if a + b > 255 {
        255u8
    } else {
        (a + b) as u8
    }
}

impl StatsModel {
    /// The statistics before anything has happened.
    pub open spec fn blank() -> StatsModel {
        StatsModel {
            possession: 0,
            crosses: 0,
            shots: 0,
            shots_on_target: 0,
            goals: 0,
            freekicks: 0,
            penalties: 0,
            corners: 0,
            fouls: 0,
            yellow_cards: Seq::empty(),
            red_cards: Seq::empty(),
        }
    }

    /// Whether the numbers can be those of a side: no more goals than shots
    /// on target, no more shots on target than shots, and no more than all
    /// of possession.
    pub open spec fn is_sound(self) -> bool {
        &&& self.goals <= self.shots_on_target
        &&& self.shots_on_target <= self.shots
        &&& self.possession <= FULL_SHARE
    }

    /// The match statistics once a half has been added to them: the share
    /// of possession is that of the half, the counts are added, each
    /// stopping at 255, and the cards of the half follow those shown before.
    pub open spec fn with_half(self, half: StatsModel) -> StatsModel {
        StatsModel {
            possession: half.possession,
            crosses: capped_sum(self.crosses, half.crosses),
            shots: capped_sum(self.shots, half.shots),
            shots_on_target: capped_sum(self.shots_on_target, half.shots_on_target),
            goals: capped_sum(self.goals, half.goals),
            freekicks: capped_sum(self.freekicks, half.freekicks),
            penalties: capped_sum(self.penalties, half.penalties),
            corners: capped_sum(self.corners, half.corners),
            fouls: capped_sum(self.fouls, half.fouls),
            yellow_cards: self.yellow_cards + half.yellow_cards,
            red_cards: self.red_cards + half.red_cards,
        }
    }
}

/// Sound statistics stay sound when a sound half is added: at no point of a
/// match does a side have more goals than shots on target.
pub proof fn lemma_with_half_is_sound(total: StatsModel, half: StatsModel)
    requires
        total.is_sound(),
        half.is_sound(),
    ensures
        total.with_half(half).is_sound(),
{
}

/// Adding a half takes no card back: the red cards shown before are still
/// there, in their places.
pub proof fn lemma_with_half_keeps_cards(total: StatsModel, half: StatsModel)
    ensures
        total.red_cards.is_prefix_of(total.with_half(half).red_cards),
        total.yellow_cards.is_prefix_of(total.with_half(half).yellow_cards),
        forall|id: u32|
            total.red_cards.contains(id) ==> total.with_half(half).red_cards.contains(id),
{
    let after = total.with_half(half).red_cards;
    assert forall|id: u32| total.red_cards.contains(id) implies after.contains(id) by {
        let i = choose|i: int| 0 <= i < total.red_cards.len() && total.red_cards[i] == id;
        assert(after[i] == id);
    }
}

/// The sum of two counts, which stops at 255.
pub fn add_capped(a: u8, b: u8) -> (sum: u8)
    ensures
        sum == capped_sum(a, b),
{
    if a > 255 - b {
        255
    } else {
        a + b
    }
}

impl GameStats {
    /// Statistics before anything has happened.
    pub fn new() -> (stats: GameStats)
        ensures
            stats@ == StatsModel::blank(),
            stats@.is_sound(),
    {
        GameStats {
            possession: 0,
            crosses: 0,
            shots: 0,
            shots_on_target: 0,
            goals: 0,
            freekicks: 0,
            penalties: 0,
            corners: 0,
            fouls: 0,
            yellow_cards: Vec::new(),
            red_cards: Vec::new(),
        }
    }

    /// The match statistics once a half has been added to them.
    pub fn with_half(&self, half: &GameStats) -> (sum: GameStats)
        ensures
            sum@ == self@.with_half(half@),
    {
        let mut yellow_cards: Vec<u32> = copy_list(&self.yellow_cards);
        append_list(&mut yellow_cards, &half.yellow_cards);
        let mut red_cards: Vec<u32> = copy_list(&self.red_cards);
        append_list(&mut red_cards, &half.red_cards);
        GameStats {
            possession: half.possession,
            crosses: add_capped(self.crosses, half.crosses),
            shots: add_capped(self.shots, half.shots),
            shots_on_target: add_capped(self.shots_on_target, half.shots_on_target),
            goals: add_capped(self.goals, half.goals),
            freekicks: add_capped(self.freekicks, half.freekicks),
            penalties: add_capped(self.penalties, half.penalties),
            corners: add_capped(self.corners, half.corners),
            fouls: add_capped(self.fouls, half.fouls),
            yellow_cards,
            red_cards,
        }
    }
}

impl Default for GameStats {
    fn default() -> (stats: GameStats)
        ensures
            stats@ == StatsModel::blank(),
    {
        GameStats::new()
    }
}

impl Clone for GameStats {
    fn clone(&self) -> (copy: GameStats)
        ensures
            copy@ == self@,
    {
        GameStats {
            possession: self.possession,
            crosses: self.crosses,
            shots: self.shots,
            shots_on_target: self.shots_on_target,
            goals: self.goals,
            freekicks: self.freekicks,
            penalties: self.penalties,
            corners: self.corners,
            fouls: self.fouls,
            yellow_cards: copy_list(&self.yellow_cards),
            red_cards: copy_list(&self.red_cards),
        }
    }
}

} // verus!
