use vstd::prelude::*;
use crate::action::Action;
use crate::carrier::{carrier_base, get_player_with_ball};
use crate::decision::{get_player_next_action, is_action_weight, threat_of, THREAT_CAP};
use crate::dice::Dice;
use crate::duel::{action_success, can_end, guards};
use crate::field::FieldZone;
use crate::player::Player;
use crate::squad::Lineup;
use crate::tactics::{Tactics, Width};

verus! {

/// A possession is cut off after this many attempts, so that a touch ends
/// even against opponents who set no guard against anything.
pub const MAX_ATTEMPTS: usize = 64;

/// The zone that a draw from 1 to 10 selects for a team. Of ten draws one
/// goes to the box; the others are split between left, centre and right as
/// the team's attack width has it: 5, 3 and 1 for a team that attacks down
/// the left, 2, 5 and 2 through the middle, 1, 3 and 5 down the right, 3, 3
/// and 3 for a balanced team. Any other draw selects the centre, but for
/// zero, which selects the box.
pub open spec fn zone_for(width: Width, draw: int) -> FieldZone {
    let (left_end, center_end): (int, int) = match width {
        Width::Left => (6, 9),
        Width::Central => (3, 8),
        Width::Right => (2, 5),
        Width::Balanced => (4, 7),
    };
    if draw <= 1 {
        FieldZone::Box
    } else if draw <= left_end {
        FieldZone::Left
    } else if draw <= center_end {
        FieldZone::Center
    } else if draw <= 10 {
        FieldZone::Right
    } else {
        FieldZone::Center
    }
}

/// The zone that a draw selects for a team with this attack width.
pub fn zone_for_draw(width: Width, draw: u8) -> (zone: FieldZone)
    ensures
        zone == zone_for(width, draw as int),
{
    let (left_end, center_end): (u8, u8) = match width {
        Width::Left => (6, 9),
        Width::Central => (3, 8),
        Width::Right => (2, 5),
        Width::Balanced => (4, 7),
    };
    if draw <= 1 {
        FieldZone::Box
    } else if draw <= left_end {
        FieldZone::Left
    } else if draw <= center_end {
        FieldZone::Center
    } else if draw <= 10 {
        FieldZone::Right
    } else {
        FieldZone::Center
    }
}

/// Draws the zone in which a team plays a possession: one draw from 1 to 10
/// against the cut points of the team's attack width.
pub fn get_fieldzone(dice: &mut Dice, tactics: &Tactics) -> (zone: FieldZone)
    ensures
        exists|draw: int| 1 <= draw <= 10 && zone == #[trigger] zone_for(tactics.attack_width, draw),
{
    let draw: u64 = 1 + dice.below(10);
    let zone = zone_for_draw(tactics.attack_width, draw as u8);
    assert(zone == zone_for(tactics.attack_width, draw as int));
    zone
}

/// One attempt of the player on the ball, and how it ended.
#[derive(Clone, Copy, Debug)]
pub struct Attempt {
    pub player_id: u32,
    pub action: Action,
    pub zone: FieldZone,
    /// In units of 1/240,000,000 of a point.
    pub threat: u64,
    pub success: bool,
}

/// One possession from its first action to its last.
pub struct Touch {
    pub zone: FieldZone,
    /// The place in the lineup of the player on the ball, if anybody could
    /// have it in the zone.
    pub carrier: Option<usize>,
    /// What the player tried, in order.
    pub attempts: Vec<Attempt>,
}

/// The action before attempt `k` of a possession, if there was one.
pub open spec fn action_before(attempts: Seq<Attempt>, k: int) -> Option<Action> {
    if k <= 0 {
        None
    } else {
        Some(attempts[k - 1].action)
    }
}

/// Whether `attempt` can be an attempt of `player` in `zone` after
/// `previous`: the action was weighed as the player, the zone, the
/// instructions and the previous action have it, the threat is that of the
/// action at that weight, and the result is one that the threat can have
/// against a guard of the opponents.
pub open spec fn is_attempt_of(
    attempt: Attempt,
    player: &Player,
    zone: FieldZone,
    tactics: Tactics,
    previous: Option<Action>,
    opponents: Seq<&Player>,
) -> bool {
    &&& attempt.player_id == player.id
    &&& attempt.zone == zone
    &&& attempt.threat <= THREAT_CAP
    &&& exists|weight: u64|
        #[trigger] is_action_weight(attempt.action, player, zone, tactics, previous, weight)
            && attempt.threat == threat_of(attempt.action, player, weight as int, zone, previous)
    &&& exists|guard: u64|
        #[trigger] guards(attempt.action, zone, opponents, guard as int) && can_end(
            attempt.threat,
            guard,
            attempt.success,
        )
}

/// Whether `attempts` can be the attempts of one possession of `player` in
/// `zone`: there is a first attempt, each follows from the one before, each
/// but the last came off, and the last failed unless the possession was cut
/// off at [`MAX_ATTEMPTS`].
pub open spec fn is_chain(
    attempts: Seq<Attempt>,
    player: &Player,
    zone: FieldZone,
    tactics: Tactics,
    opponents: Seq<&Player>,
) -> bool {
    &&& 0 < attempts.len() <= MAX_ATTEMPTS
    &&& forall|k: int|
        0 <= k < attempts.len() ==> #[trigger] is_attempt_of(
            attempts[k],
            player,
            zone,
            tactics,
            action_before(attempts, k),
            opponents,
        )
    &&& forall|k: int| 0 <= k < attempts.len() - 1 ==> (#[trigger] attempts[k]).success
    &&& attempts.len() < MAX_ATTEMPTS ==> !attempts.last().success
}

impl Touch {
    /// Whether this can be a possession of a team with these instructions
    /// and this lineup against these opponents. The zone is one that the
    /// team's attack width allows. Where nobody of the lineup can have the
    /// ball in the zone there is no carrier and no attempt; else the carrier
    /// is one who can, and the attempts are a chain of that player's.
    pub open spec fn is_possession(
        self,
        tactics: Tactics,
        lineup: Seq<&Player>,
        opponents: Seq<&Player>,
    ) -> bool {
        &&& exists|draw: int|
            1 <= draw <= 10 && self.zone == #[trigger] zone_for(tactics.attack_width, draw)
        &&& self.carrier is None <==> forall|i: int|
            0 <= i < lineup.len() ==> #[trigger] carrier_base(lineup[i], self.zone) == 0
        &&& match self.carrier {
            None => self.attempts@.len() == 0,
            Some(i) => {
                &&& i < lineup.len()
                &&& carrier_base(lineup[i as int], self.zone) > 0
                &&& is_chain(self.attempts@, lineup[i as int], self.zone, tactics, opponents)
            },
        }
    }
}

/// Plays one possession, stage by stage. First the zone is drawn, then the
/// ball carrier; where nobody can have the ball in the zone the possession
/// ends there. The carrier then tries one action after another, each chosen
/// afresh in the light of the one before, for as long as they come off. The
/// first attempt that fails ends the possession at once, and so does the
/// attempt that reaches [`MAX_ATTEMPTS`].
pub fn play_touch(dice: &mut Dice, tactics: &Tactics, lineup: &Lineup, opponents: &Lineup) -> (touch:
    Touch)
    ensures
        touch.is_possession(*tactics, lineup@, opponents@),
{
    let zone: FieldZone = get_fieldzone(dice, tactics);
    let mut attempts: Vec<Attempt> = Vec::new();
    match get_player_with_ball(dice, lineup, zone) {
        None => Touch { zone, carrier: None, attempts },
        Some(i) => {
            let player: &Player = lineup.get(i);
            let mut previous: Option<Action> = None;
            while attempts.len() < MAX_ATTEMPTS
                invariant_except_break
                    forall|k: int| 0 <= k < attempts.len() ==> (#[trigger] attempts[k]).success,
                invariant
                    attempts.len() <= MAX_ATTEMPTS,
                    player == lineup@[i as int],
                    previous == action_before(attempts@, attempts.len() as int),
                    forall|k: int|
                        0 <= k < attempts.len() ==> #[trigger] is_attempt_of(
                            attempts[k],
                            player,
                            zone,
                            *tactics,
                            action_before(attempts@, k),
                            opponents@,
                        ),
                ensures
                    is_chain(attempts@, player, zone, *tactics, opponents@),
                decreases MAX_ATTEMPTS - attempts.len(),
            {
                let ghost before = attempts@;
                match get_player_next_action(dice, previous, player, zone, tactics) {
                    Some((action, threat)) => {
                        let success: bool = action_success(dice, action, threat, zone, opponents);
                        let attempt = Attempt { player_id: player.id, action, zone, threat, success };
                        attempts.push(attempt);
                        proof {
                            assert(is_attempt_of(
                                attempt,
                                player,
                                zone,
                                *tactics,
                                previous,
                                opponents@,
                            ));
                            assert forall|k: int| 0 <= k < attempts.len() implies #[trigger] is_attempt_of(
                                attempts[k],
                                player,
                                zone,
                                *tactics,
                                action_before(attempts@, k),
                                opponents@,
                            ) by {
                                if k < before.len() {
                                    assert(attempts[k] == before[k]);
                                    assert(action_before(attempts@, k) == action_before(before, k));
                                    assert(is_attempt_of(
                                        before[k],
                                        player,
                                        zone,
                                        *tactics,
                                        action_before(before, k),
                                        opponents@,
                                    ));
                                } else {
                                    assert(action_before(attempts@, k) == previous);
                                }
                            }
                            assert forall|k: int| 0 <= k < attempts.len() - 1 implies (
                            #[trigger] attempts[k]).success by {
                                assert(attempts[k] == before[k]);
                            }
                        }
                        previous = Some(action);
                        if !success {
                            break;
                        }
                    },
                    None => {
                        break;
                    },
                }
            }
            Touch { zone, carrier: Some(i), attempts }
        },
    }
}

} // verus!
