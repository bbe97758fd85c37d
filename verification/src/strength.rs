use vstd::prelude::*;
use crate::field::Flank;
use crate::manager::Manager;
use crate::player::Player;
use crate::position::Position;
use crate::squad::{lemma_sent_off_counts_for_nothing, still_playing, Lineup, Squad};
use crate::style::PlayStyle;
use crate::tactics::{Tactics, Width};

verus! {

/// An axis along which a team's strength is measured. A team's strength
/// along an axis is the sum of what each player of its lineup contributes;
/// the scores are sums, not ratings, and have no fixed upper end.
#[derive(Clone, Copy, PartialEq, Eq, Structural, Debug, Hash)]
pub enum Axis {
    /// Keeping the ball. Unit: 1/600 of an attribute point.
    Possession,
    /// Stopping the opponent. Unit: 1/10 of an attribute point.
    Defense,
    /// Winning the ball in the air in attack. Unit: 1/10 of a point.
    AerialAttack,
    /// Winning the ball in the air in defence. Unit: 1/10 of a point.
    AerialDefense,
    /// Attacking down one flank. Unit: 1/10 of a point.
    WideAttack(Flank),
    /// Defending one flank. Unit: 1/10 of a point.
    WideDefense(Flank),
    /// Making chances. Unit: one attribute point.
    Creation,
    /// Hitting the target. Unit: one attribute point.
    Finishing,
}

/// No player contributes more than this along any axis.
pub const CONTRIBUTION_CAP: u64 = 1_000_000;

/// The whole of possession, of which the two shares are parts.
pub const FULL_SHARE: u64 = 10_000;

/// Recycling the ball: (passing + 0.8 decision making) / 2, in 1/600 of a
/// point as all parts of keeping the ball.
pub open spec fn recycling(p: &Player) -> int {
    (10 * p.passing + 8 * p.decision_making) * 30
}

/// Tactical understanding: (tactical + 0.7 decision making) / 2, in 1/600 of
/// a point.
pub open spec fn understanding(p: &Player) -> int {
    (10 * p.tactical + 7 * p.decision_making) * 30
}

/// Movement off the ball: (attack positioning + 0.8 tactical + 0.7 decision
/// making + 0.7 stamina) / 4, in 1/600 of a point.
pub open spec fn movement(p: &Player) -> int {
    (10 * p.attack_positioning + 8 * p.tactical + 7 * p.decision_making + 7 * p.stamina) * 15
}

/// Holding on to the ball: (0.9 technique + 0.6 fitness + 0.5 strength + 0.7
/// vision + 0.8 decision making) / 5, in 1/600 of a point.
pub open spec fn retention(p: &Player) -> int {
    (9 * p.technique + 6 * p.fitness + 5 * p.strength + 7 * p.vision + 8 * p.decision_making)
        * 12
}

/// Winning the ball back: (0.9 stamina + 0.9 defensive positioning + 0.8
/// pace + 0.8 tackling) / 4, in 1/600 of a point.
pub open spec fn pressure(p: &Player) -> int {
    (9 * p.stamina + 9 * p.defensive_positioning + 8 * p.pace + 8 * p.tackling) * 15
}

/// Ball skills: (technique + passing + stamina) / 3, in 1/600 of a point.
pub open spec fn ball_skills(p: &Player) -> int {
    (p.technique + p.passing + p.stamina) * 200
}

/// Whether the role suits the position: a style played where it belongs.
pub open spec fn style_fits(position: Position, style: PlayStyle) -> bool {
    match (position, style) {
        (Position::Goalkeeper, PlayStyle::Sweeper) => true,
        (Position::CenterBack, PlayStyle::BallPlaying) => true,
        (Position::LeftBack, PlayStyle::Inverted) => true,
        (Position::RightBack, PlayStyle::Inverted) => true,
        (Position::LeftWingBack, PlayStyle::Inverted) => true,
        (Position::RightWingBack, PlayStyle::Inverted) => true,
        (Position::DefensiveMidfield, PlayStyle::BoxToBox) => true,
        (Position::CenterMidfield, PlayStyle::BoxToBox) => true,
        (Position::CenterMidfield, PlayStyle::Playmaker) => true,
        (Position::AttackingMidfield, PlayStyle::Playmaker) => true,
        (Position::Striker, PlayStyle::False9) => true,
        _ => false,
    }
}

/// What a position adds to keeping the ball, in attribute points: the
/// midfield counts most.
pub open spec fn formation_points(position: Position) -> int {
    match position {
        Position::Goalkeeper => 0,
        Position::CenterBack => 4,
        Position::LeftBack => 4,
        Position::RightBack => 4,
        Position::LeftWingBack => 6,
        Position::RightWingBack => 6,
        Position::DefensiveMidfield => 10,
        Position::CenterMidfield => 12,
        Position::AttackingMidfield => 10,
        Position::LeftMidfield => 8,
        Position::RightMidfield => 8,
        Position::LeftWing => 4,
        Position::RightWing => 4,
        Position::Striker => 2,
    }
}

/// The formation bonus of a player, in attribute points: what the position
/// adds, and six points more where the style fits the position.
pub open spec fn formation_bonus(position: Position, style: PlayStyle) -> int {
    formation_points(position) + if style_fits(position, style) {
        6int
    } else {
        0int
    }
}

/// What one player adds to keeping the ball, in 1/600 of a point.
pub open spec fn possession_part(p: &Player) -> int {
    recycling(p) + understanding(p) + movement(p) + retention(p) + pressure(p) + ball_skills(p)
        + 600 * formation_bonus(p.position, p.playstyle)
}

/// How much of an outfield player's defending counts, in tenths: most for a
/// centre-back, next to nothing up front.
pub open spec fn cover(position: Position) -> int {
    match position {
        Position::Goalkeeper => 0,
        Position::CenterBack => 10,
        Position::LeftBack => 8,
        Position::RightBack => 8,
        Position::LeftWingBack => 7,
        Position::RightWingBack => 7,
        Position::DefensiveMidfield => 7,
        Position::CenterMidfield => 5,
        Position::AttackingMidfield => 2,
        Position::LeftMidfield => 4,
        Position::RightMidfield => 4,
        Position::LeftWing => 1,
        Position::RightWing => 1,
        Position::Striker => 1,
    }
}

/// What one player adds to the defence, in tenths of a point: half the
/// goalkeeping of a goalkeeper; of anyone else defensive positioning,
/// tackling and marking, as far as the position counts.
pub open spec fn defense_part(p: &Player) -> int {
    if p.position == Position::Goalkeeper {
        5 * p.goalkeeping
    } else {
        cover(p.position) * (p.defensive_positioning + p.tackling + p.marking)
    }
}

/// How much of a player's presence in the air counts in attack, in tenths.
pub open spec fn aerial_reach(position: Position) -> int {
    match position {
        Position::Goalkeeper => 0,
        Position::CenterBack => 7,
        Position::LeftBack => 3,
        Position::RightBack => 3,
        Position::LeftWingBack => 3,
        Position::RightWingBack => 3,
        Position::DefensiveMidfield => 4,
        Position::CenterMidfield => 5,
        Position::AttackingMidfield => 6,
        Position::LeftMidfield => 4,
        Position::RightMidfield => 4,
        Position::LeftWing => 5,
        Position::RightWing => 5,
        Position::Striker => 10,
    }
}

/// How much of a player's presence in the air counts in defence, in tenths.
pub open spec fn aerial_guard(position: Position) -> int {
    match position {
        Position::Goalkeeper => 8,
        Position::CenterBack => 10,
        Position::LeftBack => 6,
        Position::RightBack => 6,
        Position::LeftWingBack => 5,
        Position::RightWingBack => 5,
        Position::DefensiveMidfield => 7,
        Position::CenterMidfield => 5,
        Position::AttackingMidfield => 2,
        Position::LeftMidfield => 3,
        Position::RightMidfield => 3,
        Position::LeftWing => 1,
        Position::RightWing => 1,
        Position::Striker => 2,
    }
}

/// Presence in the air: height, jumping, strength and heading.
pub open spec fn in_the_air(p: &Player) -> int {
    p.height + p.jumping + p.strength + p.heading
}

/// What one player adds in the air in attack, in tenths of a point.
pub open spec fn aerial_attack_part(p: &Player) -> int {
    aerial_reach(p.position) * (in_the_air(p) + p.attack_positioning)
}

/// What one player adds in the air in defence, in tenths of a point.
pub open spec fn aerial_defense_part(p: &Player) -> int {
    aerial_guard(p.position) * (in_the_air(p) + p.defensive_positioning)
}

/// Whether a position belongs to a flank.
pub open spec fn on_flank(position: Position, flank: Flank) -> bool {
    match flank {
        Flank::Left => position == Position::LeftBack || position == Position::LeftWingBack
            || position == Position::LeftMidfield || position == Position::LeftWing,
        Flank::Right => position == Position::RightBack || position == Position::RightWingBack
            || position == Position::RightMidfield || position == Position::RightWing,
    }
}

/// How much a style makes of the flank going forward, in tenths.
pub open spec fn wide_forward(style: PlayStyle) -> int {
    match style {
        PlayStyle::Wide => 13,
        PlayStyle::TrackBack => 9,
        PlayStyle::CutInside => 8,
        PlayStyle::Inverted => 7,
        _ => 10,
    }
}

/// How much a style makes of the flank going back, in tenths.
pub open spec fn wide_back(style: PlayStyle) -> int {
    match style {
        PlayStyle::TrackBack => 13,
        PlayStyle::Inverted => 9,
        PlayStyle::CutInside => 8,
        _ => 10,
    }
}

/// What one player adds to the attack down a flank, in tenths of a point:
/// technique, pace and attack positioning of a player of that flank.
pub open spec fn wide_attack_part(p: &Player, flank: Flank) -> int {
    if on_flank(p.position, flank) {
        wide_forward(p.playstyle) * (p.technique + p.pace + p.attack_positioning)
    } else {
        0
    }
}

/// What one player adds to the defence of a flank, in tenths of a point:
/// tackling, marking, pace and defensive positioning of a player of that
/// flank.
pub open spec fn wide_defense_part(p: &Player, flank: Flank) -> int {
    if on_flank(p.position, flank) {
        wide_back(p.playstyle) * (p.tackling + p.marking + p.pace + p.defensive_positioning)
    } else {
        0
    }
}

/// What one player adds to making chances: creativity, passing and
/// technique.
pub open spec fn creation_part(p: &Player) -> int {
    p.creativity + p.passing + p.technique
}

/// What one player adds to hitting the target: shooting twice, long shots
/// and decision making.
pub open spec fn finishing_part(p: &Player) -> int {
    2 * p.shooting + p.long_shots + p.decision_making
}

/// What one player contributes along an axis, in the axis's unit.
pub open spec fn contribution_of(axis: Axis, p: &Player) -> int {
    match axis {
        Axis::Creation => creation_part(p),
        Axis::Finishing => finishing_part(p),
        Axis::Possession => possession_part(p),
        Axis::Defense => defense_part(p),
        Axis::AerialAttack => aerial_attack_part(p),
        Axis::AerialDefense => aerial_defense_part(p),
        Axis::WideAttack(flank) => wide_attack_part(p, flank),
        Axis::WideDefense(flank) => wide_defense_part(p, flank),
    }
}

/// What the first `upto` players contribute together along an axis.
pub open spec fn strength_upto(axis: Axis, players: Seq<&Player>, upto: int) -> int
    decreases upto,
{
    if upto <= 0 {
        0
    } else {
        strength_upto(axis, players, upto - 1) + contribution_of(axis, players[upto - 1])
    }
}

/// The strength of a group of players along an axis.
pub open spec fn strength_of(axis: Axis, players: Seq<&Player>) -> int {
    strength_upto(axis, players, players.len() as int)
}

/// Every contribution lies between zero and the cap.
pub proof fn lemma_contribution_bounds(axis: Axis, p: &Player)
    ensures
        0 <= contribution_of(axis, p) <= CONTRIBUTION_CAP,
{
    assert(0 <= formation_bonus(p.position, p.playstyle) <= 18);
    assert(0 <= cover(p.position) <= 10);
    assert(0 <= aerial_reach(p.position) <= 10);
    assert(0 <= aerial_guard(p.position) <= 10);
    assert(0 <= wide_forward(p.playstyle) <= 13);
    assert(0 <= wide_back(p.playstyle) <= 13);
    let d = p.defensive_positioning + p.tackling + p.marking;
    assert(0 <= cover(p.position) * d <= 10 * 765) by (nonlinear_arith)
        requires
            0 <= cover(p.position) <= 10,
            0 <= d <= 765,
    ;
    let a = in_the_air(p) + p.attack_positioning;
    assert(0 <= aerial_reach(p.position) * a <= 10 * 1275) by (nonlinear_arith)
        requires
            0 <= aerial_reach(p.position) <= 10,
            0 <= a <= 1275,
    ;
    let b = in_the_air(p) + p.defensive_positioning;
    assert(0 <= aerial_guard(p.position) * b <= 10 * 1275) by (nonlinear_arith)
        requires
            0 <= aerial_guard(p.position) <= 10,
            0 <= b <= 1275,
    ;
    let f = p.technique + p.pace + p.attack_positioning;
    assert(0 <= wide_forward(p.playstyle) * f <= 13 * 765) by (nonlinear_arith)
        requires
            0 <= wide_forward(p.playstyle) <= 13,
            0 <= f <= 765,
    ;
    let g = p.tackling + p.marking + p.pace + p.defensive_positioning;
    assert(0 <= wide_back(p.playstyle) * g <= 13 * 1020) by (nonlinear_arith)
        requires
            0 <= wide_back(p.playstyle) <= 13,
            0 <= g <= 1020,
    ;
}

/// No strength depends on a player who has been sent off: along every axis
/// the players still on the pitch are as strong whatever the record of a
/// player who has been sent off says.
pub proof fn lemma_sent_off_adds_no_strength<'a>(
    axis: Axis,
    players: Seq<&'a Player>,
    red_cards: Seq<u32>,
    k: int,
    other: &'a Player,
)
    requires
        0 <= k < players.len(),
        red_cards.contains(players[k].id),
        other.id == players[k].id,
    ensures
        strength_of(axis, still_playing(players.update(k, other), red_cards)) == strength_of(
            axis,
            still_playing(players, red_cards),
        ),
{
    lemma_sent_off_counts_for_nothing(players, red_cards, k, other);
}

fn formation_bonus_for(position: Position, style: PlayStyle) -> (points: u64)
    ensures
        points == formation_bonus(position, style),
{
    let base: u64 = match position {
        Position::Goalkeeper => 0,
        Position::CenterBack | Position::LeftBack | Position::RightBack => 4,
        Position::LeftWingBack | Position::RightWingBack => 6,
        Position::DefensiveMidfield | Position::AttackingMidfield => 10,
        Position::CenterMidfield => 12,
        Position::LeftMidfield | Position::RightMidfield => 8,
        Position::LeftWing | Position::RightWing => 4,
        Position::Striker => 2,
    };
    let fits: bool = match style {
        PlayStyle::Sweeper => position == Position::Goalkeeper,
        PlayStyle::BallPlaying => position == Position::CenterBack,
        PlayStyle::Inverted => position == Position::LeftBack || position == Position::RightBack
            || position == Position::LeftWingBack || position == Position::RightWingBack,
        PlayStyle::BoxToBox => position == Position::DefensiveMidfield || position
            == Position::CenterMidfield,
        PlayStyle::Playmaker => position == Position::CenterMidfield || position
            == Position::AttackingMidfield,
        PlayStyle::False9 => position == Position::Striker,
        _ => false,
    };
    if fits {
        base + 6
    } else {
        base
    }
}

fn possession_contribution(p: &Player) -> (part: u64)
    ensures
        part == possession_part(p),
{
    let passing: u64 = p.passing as u64;
    let decision: u64 = p.decision_making as u64;
    let tactical: u64 = p.tactical as u64;
    let stamina: u64 = p.stamina as u64;
    let technique: u64 = p.technique as u64;
    let recycle: u64 = (10 * passing + 8 * decision) * 30;
    let understand: u64 = (10 * tactical + 7 * decision) * 30;
    let moving: u64 = (10 * (p.attack_positioning as u64) + 8 * tactical + 7 * decision + 7
        * stamina) * 15;
    let retain: u64 = (9 * technique + 6 * (p.fitness as u64) + 5 * (p.strength as u64) + 7 * (
    p.vision as u64) + 8 * decision) * 12;
    let press: u64 = (9 * stamina + 9 * (p.defensive_positioning as u64) + 8 * (p.pace as u64) + 8
        * (p.tackling as u64)) * 15;
    let skills: u64 = (technique + passing + stamina) * 200;
    let bonus: u64 = formation_bonus_for(p.position, p.playstyle);
    recycle + understand + moving + retain + press + skills + 600 * bonus
}

fn cover_for(position: Position) -> (tenths: u64)
    ensures
        tenths == cover(position),
{
    match position {
        Position::Goalkeeper => 0,
        Position::CenterBack => 10,
        Position::LeftBack | Position::RightBack => 8,
        Position::LeftWingBack | Position::RightWingBack | Position::DefensiveMidfield => 7,
        Position::CenterMidfield => 5,
        Position::AttackingMidfield => 2,
        Position::LeftMidfield | Position::RightMidfield => 4,
        Position::LeftWing | Position::RightWing | Position::Striker => 1,
    }
}

fn aerial_reach_for(position: Position) -> (tenths: u64)
    ensures
        tenths == aerial_reach(position),
{
    match position {
        Position::Goalkeeper => 0,
        Position::CenterBack => 7,
        Position::LeftBack | Position::RightBack | Position::LeftWingBack
        | Position::RightWingBack => 3,
        Position::DefensiveMidfield | Position::LeftMidfield | Position::RightMidfield => 4,
        Position::CenterMidfield | Position::LeftWing | Position::RightWing => 5,
        Position::AttackingMidfield => 6,
        Position::Striker => 10,
    }
}

fn aerial_guard_for(position: Position) -> (tenths: u64)
    ensures
        tenths == aerial_guard(position),
{
    match position {
        Position::Goalkeeper => 8,
        Position::CenterBack => 10,
        Position::LeftBack | Position::RightBack => 6,
        Position::LeftWingBack | Position::RightWingBack | Position::CenterMidfield => 5,
        Position::DefensiveMidfield => 7,
        Position::AttackingMidfield | Position::Striker => 2,
        Position::LeftMidfield | Position::RightMidfield => 3,
        Position::LeftWing | Position::RightWing => 1,
    }
}

/// Whether a position belongs to a flank.
pub fn plays_on_flank(position: Position, flank: Flank) -> (wide: bool)
    ensures
        wide == on_flank(position, flank),
{
    match flank {
        Flank::Left => match position {
            Position::LeftBack | Position::LeftWingBack | Position::LeftMidfield
            | Position::LeftWing => true,
            _ => false,
        },
        Flank::Right => match position {
            Position::RightBack | Position::RightWingBack | Position::RightMidfield
            | Position::RightWing => true,
            _ => false,
        },
    }
}

/// What one player contributes along an axis.
pub fn contribution(axis: Axis, p: &Player) -> (part: u64)
    ensures
        part == contribution_of(axis, p),
        part <= CONTRIBUTION_CAP,
{
    proof {
        lemma_contribution_bounds(axis, p);
        lemma_contribution_bounds(Axis::WideAttack(Flank::Left), p);
        lemma_contribution_bounds(Axis::WideDefense(Flank::Left), p);
        lemma_contribution_bounds(Axis::WideAttack(Flank::Right), p);
        lemma_contribution_bounds(Axis::WideDefense(Flank::Right), p);
        lemma_contribution_bounds(Axis::Defense, p);
        lemma_contribution_bounds(Axis::AerialAttack, p);
        lemma_contribution_bounds(Axis::AerialDefense, p);
    }
    let air: u64 = p.height as u64 + p.jumping as u64 + p.strength as u64 + p.heading as u64;
    match axis {
        Axis::Creation => p.creativity as u64 + p.passing as u64 + p.technique as u64,
        Axis::Finishing => 2 * (p.shooting as u64) + p.long_shots as u64
            + p.decision_making as u64,
        Axis::Possession => possession_contribution(p),
        Axis::Defense => {
            if p.position == Position::Goalkeeper {
                5 * (p.goalkeeping as u64)
            } else {
                let skill: u64 = p.defensive_positioning as u64 + p.tackling as u64
                    + p.marking as u64;
                assert(cover(p.position) * skill <= 10 * 765) by (nonlinear_arith)
                    requires
                        0 <= cover(p.position) <= 10,
                        0 <= skill <= 765,
                ;
                cover_for(p.position) * skill
            }
        },
        Axis::AerialAttack => {
            let skill: u64 = air + p.attack_positioning as u64;
            assert(aerial_reach(p.position) * skill <= 10 * 1275) by (nonlinear_arith)
                requires
                    0 <= aerial_reach(p.position) <= 10,
                    0 <= skill <= 1275,
            ;
            aerial_reach_for(p.position) * skill
        },
        Axis::AerialDefense => {
            let skill: u64 = air + p.defensive_positioning as u64;
            assert(aerial_guard(p.position) * skill <= 10 * 1275) by (nonlinear_arith)
                requires
                    0 <= aerial_guard(p.position) <= 10,
                    0 <= skill <= 1275,
            ;
            aerial_guard_for(p.position) * skill
        },
        Axis::WideAttack(flank) => {
            if plays_on_flank(p.position, flank) {
                let skill: u64 = p.technique as u64 + p.pace as u64 + p.attack_positioning as u64;
                let factor: u64 = match p.playstyle {
                    PlayStyle::Wide => 13,
                    PlayStyle::TrackBack => 9,
                    PlayStyle::CutInside => 8,
                    PlayStyle::Inverted => 7,
                    _ => 10,
                };
                assert(factor * skill <= 13 * 765) by (nonlinear_arith)
                    requires
                        0 <= factor <= 13,
                        0 <= skill <= 765,
                ;
                factor * skill
            } else {
                0
            }
        },
        Axis::WideDefense(flank) => {
            if plays_on_flank(p.position, flank) {
                let skill: u64 = p.tackling as u64 + p.marking as u64 + p.pace as u64
                    + p.defensive_positioning as u64;
                let factor: u64 = match p.playstyle {
                    PlayStyle::TrackBack => 13,
                    PlayStyle::Inverted => 9,
                    PlayStyle::CutInside => 8,
                    _ => 10,
                };
                assert(factor * skill <= 13 * 1020) by (nonlinear_arith)
                    requires
                        0 <= factor <= 13,
                        0 <= skill <= 1020,
                ;
                factor * skill
            } else {
                0
            }
        },
    }
}

/// The strength of a lineup along an axis: the sum of what its players
/// contribute. Nobody outside the lineup counts.
pub fn strength(axis: Axis, lineup: &Lineup) -> (total: u64)
    ensures
        total == strength_of(axis, lineup@),
        total <= 11 * CONTRIBUTION_CAP,
{
    let n: usize = lineup.len();
    let mut total: u64 = 0;
    let mut k: usize = 0;
    while k < n
        invariant
            k <= n,
            n == lineup@.len(),
            n <= 11,
            total == strength_upto(axis, lineup@, k as int),
            total <= k * CONTRIBUTION_CAP,
        decreases n - k,
    {
        let part: u64 = contribution(axis, lineup.get(k));
        total = total + part;
        k = k + 1;
    }
    total
}

/// The pressing of a team: defence line times aggression, over compactness.
/// A compactness of zero counts as one.
pub open spec fn pressing(tactics: Tactics) -> int {
    (tactics.defense_line * tactics.aggression) / (if tactics.compactness == 0 {
        1int
    } else {
        tactics.compactness as int
    })
}

/// The patience of a team in the build-up: the inverse of build-up speed
/// times pass range, on a scale on which the slowest, shortest game scores
/// 65025; a fifth less for a team that shoots on sight. A product of zero
/// counts as one.
pub open spec fn patience(tactics: Tactics) -> int {
    let haste = tactics.build_up_speed * tactics.pass_range;
    let calm = 65025int / (if haste == 0 {
        1int
    } else {
        haste
    });
    if tactics.shoot_more_often {
        calm * 8 / 10
    } else {
        calm
    }
}

/// What the instructions and the bench add to keeping the ball, in 1/600 of
/// a point: pressing and patience, scaled by the manager's tactical and
/// management skills.
pub open spec fn tactics_term(tactics: Tactics, manager: &Manager) -> int {
    (pressing(tactics) + patience(tactics)) * (manager.tactical + manager.management) * 30
}

/// The possession score of a team whose players on the pitch are `players`.
pub open spec fn possession_score_of(
    tactics: Tactics,
    manager: &Manager,
    players: Seq<&Player>,
) -> int {
    strength_of(Axis::Possession, players) + tactics_term(tactics, manager)
}

/// What the instructions and the bench add to keeping the ball.
pub fn team_tactics(tactics: &Tactics, manager: &Manager) -> (term: u64)
    ensures
        term == tactics_term(*tactics, manager),
        term <= 1_989_765_000,
{
    assert(tactics.defense_line * tactics.aggression <= 65025) by (nonlinear_arith)
        requires
            tactics.defense_line <= 255,
            tactics.aggression <= 255,
    ;
    assert(tactics.build_up_speed * tactics.pass_range <= 65025) by (nonlinear_arith)
        requires
            tactics.build_up_speed <= 255,
            tactics.pass_range <= 255,
    ;
    let drive: u64 = (tactics.defense_line as u64) * (tactics.aggression as u64);
    let tight: u64 = if tactics.compactness == 0 {
        1
    } else {
        tactics.compactness as u64
    };
    let press: u64 = drive / tight;
    let haste: u64 = (tactics.build_up_speed as u64) * (tactics.pass_range as u64);
    let calm: u64 = 65025 / (if haste == 0 {
        1
    } else {
        haste
    });
    let patient: u64 = if tactics.shoot_more_often {
        calm * 8 / 10
    } else {
        calm
    };
    let bench: u64 = manager.tactical as u64 + manager.management as u64;
    assert(press <= 65025 && patient <= 65025 && calm <= 65025) by (nonlinear_arith)
        requires
            press == drive / tight,
            tight >= 1,
            drive <= 65025,
            calm == 65025int / (if haste == 0 { 1int } else { haste as int }),
            patient == calm || patient == calm * 8 / 10,
    ;
    assert((press + patient) * bench <= 130050 * 510) by (nonlinear_arith)
        requires
            press + patient <= 130050,
            bench <= 510,
    ;
    (press + patient) * bench * 30
}

/// The possession score of a team: what its lineup contributes to keeping
/// the ball, and what its instructions and bench add. Unit: 1/600 of an
/// attribute point.
pub fn get_team_poss_score(team: &Squad, lineup: &Lineup) -> (score: u64)
    ensures
        score == possession_score_of(team.tactics, team.manager, lineup@),
        score <= 2_000_765_000,
{
    let players: u64 = strength(Axis::Possession, lineup);
    let term: u64 = team_tactics(&team.tactics, team.manager);
    players + term
}

/// The defensive strength of a lineup, in tenths of a point.
pub fn defensive_strength(lineup: &Lineup) -> (score: u64)
    ensures
        score == strength_of(Axis::Defense, lineup@),
        score <= 11 * CONTRIBUTION_CAP,
{
    strength(Axis::Defense, lineup)
}

/// The strength of a lineup in the air in attack, in tenths of a point.
pub fn aerial_attack(lineup: &Lineup) -> (score: u64)
    ensures
        score == strength_of(Axis::AerialAttack, lineup@),
        score <= 11 * CONTRIBUTION_CAP,
{
    strength(Axis::AerialAttack, lineup)
}

/// The strength of a lineup in the air in defence, in tenths of a point.
pub fn aerial_defense(lineup: &Lineup) -> (score: u64)
    ensures
        score == strength_of(Axis::AerialDefense, lineup@),
        score <= 11 * CONTRIBUTION_CAP,
{
    strength(Axis::AerialDefense, lineup)
}

/// How much a team makes of a flank going forward, in tenths: more of the
/// flank it favours, less of the other, and less of both when it attacks
/// through the middle.
pub open spec fn width_emphasis(width: Width, flank: Flank) -> int {
    match (width, flank) {
        (Width::Balanced, _) => 10,
        (Width::Central, _) => 7,
        (Width::Left, Flank::Left) => 13,
        (Width::Left, Flank::Right) => 8,
        (Width::Right, Flank::Right) => 13,
        (Width::Right, Flank::Left) => 8,
    }
}

/// How well a team's shape covers the flanks, in tenths: a compact team
/// gives up width.
pub open spec fn width_cover(compactness: u8) -> int {
    13 - compactness / 64
}

/// The attack of a team down a flank, in 1/100 of a point.
pub open spec fn wide_attack_of(tactics: Tactics, players: Seq<&Player>, flank: Flank) -> int {
    strength_of(Axis::WideAttack(flank), players) * width_emphasis(tactics.attack_width, flank)
}

/// The defence of a flank by a team, in 1/100 of a point.
pub open spec fn wide_defense_of(tactics: Tactics, players: Seq<&Player>, flank: Flank) -> int {
    strength_of(Axis::WideDefense(flank), players) * width_cover(tactics.compactness)
}

/// The attack of a team down a flank, in 1/100 of a point.
pub fn wide_attack(tactics: &Tactics, lineup: &Lineup, flank: Flank) -> (score: u64)
    ensures
        score == wide_attack_of(*tactics, lineup@, flank),
        score <= 13 * 11 * CONTRIBUTION_CAP,
{
    let players: u64 = strength(Axis::WideAttack(flank), lineup);
    let emphasis: u64 = match tactics.attack_width {
        Width::Balanced => 10,
        Width::Central => 7,
        Width::Left => match flank {
            Flank::Left => 13,
            Flank::Right => 8,
        },
        Width::Right => match flank {
            Flank::Left => 8,
            Flank::Right => 13,
        },
    };
    assert(players * emphasis <= 11 * CONTRIBUTION_CAP * 13) by (nonlinear_arith)
        requires
            players <= 11 * CONTRIBUTION_CAP,
            emphasis <= 13,
    ;
    players * emphasis
}

/// The defence of a flank by a team, in 1/100 of a point.
pub fn wide_defense(tactics: &Tactics, lineup: &Lineup, flank: Flank) -> (score: u64)
    ensures
        score == wide_defense_of(*tactics, lineup@, flank),
        score <= 13 * 11 * CONTRIBUTION_CAP,
{
    let players: u64 = strength(Axis::WideDefense(flank), lineup);
    let shape: u64 = 13 - (tactics.compactness as u64) / 64;
    assert(players * shape <= 11 * CONTRIBUTION_CAP * 13) by (nonlinear_arith)
        requires
            players <= 11 * CONTRIBUTION_CAP,
            shape <= 13,
    ;
    players * shape
}

/// The home side's share of possession, out of [`FULL_SHARE`], for the two
/// possession scores. The home score counts 1.1 times. Where both scores
/// are zero the halves are equal.
pub open spec fn home_share(home_score: int, away_score: int) -> int {
    if home_score + away_score == 0 {
        FULL_SHARE as int / 2
    } else {
        (home_score * 11 * FULL_SHARE) / (home_score * 11 + away_score * 10)
    }
}

/// Splits possession between home and away in proportion to their scores,
/// the home score counting 1.1 times. The two shares add up to
/// [`FULL_SHARE`].
pub fn split_possession(home_score: u64, away_score: u64) -> (shares: (u64, u64))
    ensures
        shares.0 == home_share(home_score as int, away_score as int),
        shares.0 + shares.1 == FULL_SHARE,
{
    if home_score == 0 && away_score == 0 {
        (FULL_SHARE / 2, FULL_SHARE / 2)
    } else {
        let home: u128 = (home_score as u128) * 11;
        let away: u128 = (away_score as u128) * 10;
        let whole: u128 = home + away;
        let part: u128 = home * 10_000 / whole;
        assert(part <= 10_000) by (nonlinear_arith)
            requires
                part == (home * 10_000) as int / (whole as int),
                0 <= home <= whole,
                whole > 0,
        ;
        let home_part: u64 = part as u64;
        (home_part, FULL_SHARE - home_part)
    }
}

/// The shares of possession of two teams, home first, out of
/// [`FULL_SHARE`].
pub fn get_poss(
    home: &Squad,
    home_lineup: &Lineup,
    away: &Squad,
    away_lineup: &Lineup,
) -> (shares: (u64, u64))
    ensures
        shares.0 == home_share(
            possession_score_of(home.tactics, home.manager, home_lineup@),
            possession_score_of(away.tactics, away.manager, away_lineup@),
        ),
        shares.0 + shares.1 == FULL_SHARE,
{
    let home_score: u64 = get_team_poss_score(home, home_lineup);
    let away_score: u64 = get_team_poss_score(away, away_lineup);
    split_possession(home_score, away_score)
}

} // verus!
