use vstd::prelude::*;
use crate::action::Action;
use crate::decision::THREAT_CAP;
use crate::defender::{defender_base, get_defensive_player};
use crate::dice::{trial_succeeds, Dice};
use crate::field::FieldZone;
use crate::player::Player;
use crate::position::Position;
use crate::squad::Lineup;

verus! {

/// No guard is stronger, in units of 1/240,000,000 of a point.
pub const GUARD_CAP: u64 = 60_000_000_000;

/// What a goalkeeper sets against a shot: a quarter of goalkeeping, 0.7
/// defensive positioning, 0.6 height and 0.6 decision making. Unit:
/// 1/240,000,000 of a point, as for a threat.
pub open spec fn keeper_guard(p: &Player) -> int {
    (10 * p.goalkeeping + 7 * p.defensive_positioning + 6 * p.height + 6 * p.decision_making)
        * 6_000_000
}

/// What a defender sets against an attempt in a zone, a fifth of: in the box
/// defensive positioning, 0.7 height, 0.8 strength, 0.75 jumping and 0.85
/// heading; on a flank 0.9 defensive positioning, 0.8 pace, 0.9 tackling,
/// 0.7 decision making and 0.6 stamina; in the centre defensive positioning,
/// 0.6 pace, 0.9 tackling, 0.8 decision making and 0.7 stamina. Unit:
/// 1/240,000,000 of a point, as for a threat.
pub open spec fn zone_guard(p: &Player, zone: FieldZone) -> int {
    match zone {
        FieldZone::Box => (100 * p.defensive_positioning + 70 * p.height + 80 * p.strength + 75
            * p.jumping + 85 * p.heading) * 480_000,
        FieldZone::Left | FieldZone::Right => (9 * p.defensive_positioning + 8 * p.pace + 9
            * p.tackling + 7 * p.decision_making + 6 * p.stamina) * 4_800_000,
        FieldZone::Center => (10 * p.defensive_positioning + 6 * p.pace + 9 * p.tackling + 8
            * p.decision_making + 7 * p.stamina) * 4_800_000,
    }
}

/// Whether place `i` holds the first goalkeeper of `players`.
pub open spec fn is_first_keeper(players: Seq<&Player>, i: int) -> bool {
    &&& 0 <= i < players.len()
    &&& players[i].position == Position::Goalkeeper
    &&& forall|j: int| 0 <= j < i ==> players[j].position != Position::Goalkeeper
}

/// Whether `players` hold no goalkeeper.
pub open spec fn no_keeper(players: Seq<&Player>) -> bool {
    forall|j: int| 0 <= j < players.len() ==> players[j].position != Position::Goalkeeper
}

/// Whether nobody among `players` can defend in `zone`.
pub open spec fn no_defender(players: Seq<&Player>, zone: FieldZone) -> bool {
    forall|i: int| 0 <= i < players.len() ==> #[trigger] defender_base(players[i], zone) == 0
}

/// Whether `guard` can stand against an attempt. A shot meets the first
/// goalkeeper of the lineup, and an open goal where there is none. Any other
/// attempt meets one of the players who can defend in the zone, and nobody
/// where there is none; against nobody the guard is zero.
pub open spec fn guards(action: Action, zone: FieldZone, players: Seq<&Player>, guard: int) -> bool {
    if action == Action::Shoot {
        ||| exists|i: int| is_first_keeper(players, i) && guard == keeper_guard(players[i])
        ||| no_keeper(players) && guard == 0
    } else {
        ||| exists|i: int|
            0 <= i < players.len() && #[trigger] defender_base(players[i], zone) > 0 && guard
                == zone_guard(players[i], zone)
        ||| no_defender(players, zone) && guard == 0
    }
}

/// Whether an attempt comes off on `draw`, a number below threat plus guard:
/// it does on the first `threat` draws.
pub open spec fn comes_off(threat: u64, guard: u64, draw: u64) -> bool {
    trial_succeeds(threat, draw)
}

/// Whether an attempt with this threat can have this result against this
/// guard. With neither threat nor guard the attempt fails; else it comes
/// off with a probability of threat over threat plus guard.
pub open spec fn can_end(threat: u64, guard: u64, success: bool) -> bool {
    if threat + guard == 0 {
        !success
    } else {
        exists|draw: u64| draw < threat + guard && success == #[trigger] comes_off(threat, guard, draw)
    }
}

/// What a goalkeeper sets against a shot.
pub fn keeper_score(p: &Player) -> (guard: u64)
    ensures
        guard == keeper_guard(p),
        guard <= GUARD_CAP,
{
    (10 * (p.goalkeeping as u64) + 7 * (p.defensive_positioning as u64) + 6 * (p.height as u64) + 6
        * (p.decision_making as u64)) * 6_000_000
}

/// What a defender sets against an attempt in a zone.
pub fn zone_score(p: &Player, zone: FieldZone) -> (guard: u64)
    ensures
        guard == zone_guard(p, zone),
        guard <= GUARD_CAP,
{
    let positioning: u64 = p.defensive_positioning as u64;
    match zone {
        FieldZone::Box => (100 * positioning + 70 * (p.height as u64) + 80 * (p.strength as u64)
            + 75 * (p.jumping as u64) + 85 * (p.heading as u64)) * 480_000,
        FieldZone::Left | FieldZone::Right => (9 * positioning + 8 * (p.pace as u64) + 9 * (
        p.tackling as u64) + 7 * (p.decision_making as u64) + 6 * (p.stamina as u64)) * 4_800_000,
        FieldZone::Center => (10 * positioning + 6 * (p.pace as u64) + 9 * (p.tackling as u64) + 8
            * (p.decision_making as u64) + 7 * (p.stamina as u64)) * 4_800_000,
    }
}

/// The guard that stands against an attempt: the goalkeeper's against a
/// shot, else that of a defender drawn for the zone.
pub fn defense_score(dice: &mut Dice, action: Action, zone: FieldZone, opponents: &Lineup) -> (guard:
    u64)
    ensures
        guards(action, zone, opponents@, guard as int),
        guard <= GUARD_CAP,
{
    if action == Action::Shoot {
        match opponents.goalkeeper() {
            Some(i) => {
                let guard: u64 = keeper_score(opponents.get(i));
                assert(is_first_keeper(opponents@, i as int));
                guard
            },
            None => 0,
        }
    } else {
        match get_defensive_player(dice, opponents, zone) {
            Some(i) => {
                let guard: u64 = zone_score(opponents.get(i), zone);
                assert(defender_base(opponents@[i as int], zone) > 0 && guard == zone_guard(
                    opponents@[i as int],
                    zone,
                ));
                guard
            },
            None => 0,
        }
    }
}

/// One trial of threat against guard.
pub fn resolve(dice: &mut Dice, threat: u64, guard: u64) -> (success: bool)
    requires
        threat + guard <= u64::MAX,
    ensures
        can_end(threat, guard, success),
        threat == 0 ==> !success,
        guard == 0 && threat > 0 ==> success,
{
    let success = dice.chance(threat, threat + guard);
    proof {
        if threat + guard > 0 {
            let draw = choose|draw: u64|
                draw < threat + guard && success == trial_succeeds(threat, draw);
            assert(success == comes_off(threat, guard, draw));
        }
    }
    success
}

/// Whether an attempt comes off. The guard of the opponents is set against
/// the threat, and one trial decides: the attempt comes off with a
/// probability of threat over threat plus guard. An attempt without threat
/// fails; one with a threat that meets no guard comes off.
pub fn action_success(
    dice: &mut Dice,
    action: Action,
    threat: u64,
    zone: FieldZone,
    opponents: &Lineup,
) -> (success: bool)
    requires
        threat <= THREAT_CAP,
    ensures
        threat == 0 ==> !success,
        exists|guard: u64|
            #[trigger] guards(action, zone, opponents@, guard as int) && can_end(
                threat,
                guard,
                success,
            ),
{
    let guard: u64 = defense_score(dice, action, zone, opponents);
    let success = resolve(dice, threat, guard);
    assert(guards(action, zone, opponents@, guard as int) && can_end(threat, guard, success));
    success
}

} // verus!
