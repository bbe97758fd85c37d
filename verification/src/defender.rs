use vstd::prelude::*;
use crate::bounds::{lemma_product_within, lemma_product_zero};
use crate::dice::{Dice, JITTER_HIGH, JITTER_LOW};
use crate::field::FieldZone;
use crate::player::Player;
use crate::position::Position;
use crate::sampler::{lemma_total_within, lemma_total_zero, total_weight, weighted_choice};
use crate::squad::Lineup;
use crate::style::PlayStyle;

verus! {

/// How likely a position is to meet an attack in a zone, in tenths. The zone
/// is the attacker's: an attack down the attacker's right meets the left
/// back.
pub open spec fn defender_affinity(position: Position, zone: FieldZone) -> int {
    match position {
        Position::Goalkeeper => match zone {
            FieldZone::Box => 10,
            _ => 0,
        },
        Position::LeftBack | Position::LeftWingBack => match zone {
            FieldZone::Right => 10,
            _ => 1,
        },
        Position::RightBack | Position::RightWingBack => match zone {
            FieldZone::Left => 10,
            _ => 1,
        },
        Position::LeftMidfield => match zone {
            FieldZone::Right => 7,
            FieldZone::Left => 1,
            _ => 2,
        },
        Position::RightMidfield => match zone {
            FieldZone::Left => 7,
            FieldZone::Right => 1,
            _ => 2,
        },
        Position::LeftWing => match zone {
            FieldZone::Right => 4,
            FieldZone::Left => 1,
            _ => 2,
        },
        Position::RightWing => match zone {
            FieldZone::Left => 4,
            FieldZone::Right => 1,
            _ => 2,
        },
        Position::CenterBack => match zone {
            FieldZone::Box => 10,
            FieldZone::Left => 3,
            FieldZone::Right => 3,
            FieldZone::Center => 1,
        },
        Position::DefensiveMidfield => match zone {
            FieldZone::Box => 6,
            FieldZone::Center => 9,
            _ => 2,
        },
        Position::CenterMidfield => match zone {
            FieldZone::Center => 9,
            _ => 2,
        },
        Position::AttackingMidfield => match zone {
            FieldZone::Center => 7,
            _ => 2,
        },
        Position::Striker => match zone {
            FieldZone::Center => 5,
            _ => 1,
        },
    }
}

/// How a style draws a defender into a zone, in tenths.
pub open spec fn defender_style_bonus(style: PlayStyle, zone: FieldZone) -> int {
    match style {
        PlayStyle::TrackBack => match zone {
            FieldZone::Left => 13,
            FieldZone::Right => 13,
            _ => 10,
        },
        PlayStyle::BoxToBox => match zone {
            FieldZone::Box => 13,
            _ => 10,
        },
        _ => 10,
    }
}

/// How much a player offers against the ball, in hundredths of a point.
pub open spec fn defender_skill(p: &Player) -> int {
    100 * p.defensive_positioning + 75 * p.decision_making + 65 * p.stamina
}

/// A player's weight as defender in a zone before the jitter: affinity
/// times style bonus times skill.
pub open spec fn defender_base(p: &Player, zone: FieldZone) -> int {
    defender_affinity(p.position, zone) * defender_style_bonus(p.playstyle, zone)
        * defender_skill(p)
}

/// A player's weight as defender in a zone, for a jitter in hundredths.
/// Unit: 1/3,000,000 of a point; all weights of one draw share it.
pub open spec fn defender_weight_of(p: &Player, zone: FieldZone, jitter: int) -> int {
    defender_base(p, zone) * jitter
}

/// Whether `weight` is a player's weight as defender in a zone for some
/// jitter of the range.
pub open spec fn is_defender_weight(p: &Player, zone: FieldZone, weight: u64) -> bool {
    exists|jitter: int|
        JITTER_LOW <= jitter < JITTER_HIGH && weight == #[trigger] defender_weight_of(
            p,
            zone,
            jitter,
        )
}

/// No defender weighs more.
pub const DEFENDER_WEIGHT_CAP: u64 = 954_720_000;

/// A defender's base is at most 10 times 13 times 61200 and not negative.
pub proof fn lemma_defender_base_bounds(p: &Player, zone: FieldZone)
    ensures
        0 <= defender_base(p, zone) <= 7_956_000,
        defender_base(p, zone) == 0 <==> defender_affinity(p.position, zone) == 0
            || defender_skill(p) == 0,
{
    let a = defender_affinity(p.position, zone);
    let b = defender_style_bonus(p.playstyle, zone);
    let s = defender_skill(p);
    assert(0 <= a <= 10);
    assert(10 <= b <= 13);
    assert(0 <= s <= 61200);
    lemma_product_within(a, b, 10, 13);
    lemma_product_within(a * b, s, 130, 61200);
    lemma_product_zero(a, b);
    lemma_product_zero(a * b, s);
}

fn defender_affinity_for(position: Position, zone: FieldZone) -> (tenths: u64)
    ensures
        tenths == defender_affinity(position, zone),
{
    match position {
        Position::Goalkeeper => match zone {
            FieldZone::Box => 10,
            _ => 0,
        },
        Position::LeftBack | Position::LeftWingBack => match zone {
            FieldZone::Right => 10,
            _ => 1,
        },
        Position::RightBack | Position::RightWingBack => match zone {
            FieldZone::Left => 10,
            _ => 1,
        },
        Position::LeftMidfield => match zone {
            FieldZone::Right => 7,
            FieldZone::Left => 1,
            _ => 2,
        },
        Position::RightMidfield => match zone {
            FieldZone::Left => 7,
            FieldZone::Right => 1,
            _ => 2,
        },
        Position::LeftWing => match zone {
            FieldZone::Right => 4,
            FieldZone::Left => 1,
            _ => 2,
        },
        Position::RightWing => match zone {
            FieldZone::Left => 4,
            FieldZone::Right => 1,
            _ => 2,
        },
        Position::CenterBack => match zone {
            FieldZone::Box => 10,
            FieldZone::Left | FieldZone::Right => 3,
            FieldZone::Center => 1,
        },
        Position::DefensiveMidfield => match zone {
            FieldZone::Box => 6,
            FieldZone::Center => 9,
            _ => 2,
        },
        Position::CenterMidfield => match zone {
            FieldZone::Center => 9,
            _ => 2,
        },
        Position::AttackingMidfield => match zone {
            FieldZone::Center => 7,
            _ => 2,
        },
        Position::Striker => match zone {
            FieldZone::Center => 5,
            _ => 1,
        },
    }
}

fn defender_style_bonus_for(style: PlayStyle, zone: FieldZone) -> (tenths: u64)
    ensures
        tenths == defender_style_bonus(style, zone),
{
    match style {
        PlayStyle::TrackBack => match zone {
            FieldZone::Left | FieldZone::Right => 13,
            _ => 10,
        },
        PlayStyle::BoxToBox => match zone {
            FieldZone::Box => 13,
            _ => 10,
        },
        _ => 10,
    }
}

/// A player's weight as defender in a zone, for a jitter in hundredths.
pub fn defender_weight(p: &Player, zone: FieldZone, jitter: u64) -> (weight: u64)
    requires
        jitter <= JITTER_HIGH,
    ensures
        weight == defender_weight_of(p, zone, jitter as int),
        weight <= DEFENDER_WEIGHT_CAP,
{
    let affinity: u64 = defender_affinity_for(p.position, zone);
    let bonus: u64 = defender_style_bonus_for(p.playstyle, zone);
    let skill: u64 = 100 * (p.defensive_positioning as u64) + 75 * (p.decision_making as u64) + 65
        * (p.stamina as u64);
    proof {
        lemma_product_within(affinity as int, bonus as int, 10, 13);
        lemma_defender_base_bounds(p, zone);
        lemma_product_within(defender_base(p, zone), jitter as int, 7_956_000, 120);
    }
    affinity * bonus * skill * jitter
}

/// The weights of the players of a lineup as defenders in a zone, each with
/// a jitter of its own.
pub fn defender_weights(dice: &mut Dice, lineup: &Lineup, zone: FieldZone) -> (weights: Vec<u64>)
    ensures
        weights.len() == lineup@.len(),
        forall|i: int|
            0 <= i < weights.len() ==> #[trigger] is_defender_weight(lineup@[i], zone, weights[i]),
{
    let n: usize = lineup.len();
    let mut weights: Vec<u64> = Vec::new();
    let mut k: usize = 0;
    while k < n
        invariant
            k <= n,
            n == lineup@.len(),
            weights.len() == k,
            forall|i: int|
                0 <= i < k ==> #[trigger] is_defender_weight(lineup@[i], zone, weights[i]),
        decreases n - k,
    {
        let jitter: u64 = dice.jitter();
        let weight: u64 = defender_weight(lineup.get(k), zone, jitter);
        weights.push(weight);
        assert(JITTER_LOW <= jitter < JITTER_HIGH && weight == defender_weight_of(
            lineup@[k as int],
            zone,
            jitter as int,
        ));
        assert(is_defender_weight(lineup@[k as int], zone, weights[k as int]));
        k = k + 1;
    }
    weights
}

/// Draws the player who meets an attack in a zone, with a probability in
/// proportion to the player's weight as defender. Nobody is drawn where no
/// player of the lineup can defend there: the lineup is empty, or each of
/// its players has an affinity or a skill of zero.
pub fn get_defensive_player(dice: &mut Dice, lineup: &Lineup, zone: FieldZone) -> (chosen: Option<
    usize,
>)
    ensures
        chosen is None <==> forall|i: int|
            0 <= i < lineup@.len() ==> #[trigger] defender_base(lineup@[i], zone) == 0,
        chosen matches Some(i) ==> i < lineup@.len() && defender_base(lineup@[i as int], zone)
            > 0,
{
    let weights: Vec<u64> = defender_weights(dice, lineup, zone);
    let n: usize = lineup.len();
    proof {
        assert forall|i: int| 0 <= i < weights.len() implies #[trigger] weights[i]
            <= DEFENDER_WEIGHT_CAP && (weights[i] == 0 <==> defender_base(lineup@[i], zone)
            == 0) by {
            assert(is_defender_weight(lineup@[i], zone, weights[i]));
            let jitter = choose|jitter: int|
                JITTER_LOW <= jitter < JITTER_HIGH && weights[i] == #[trigger] defender_weight_of(
                    lineup@[i],
                    zone,
                    jitter,
                );
            lemma_defender_base_bounds(lineup@[i], zone);
            lemma_product_within(defender_base(lineup@[i], zone), jitter, 7_956_000, 120);
            lemma_product_zero(defender_base(lineup@[i], zone), jitter);
        }
        lemma_total_within(weights@, DEFENDER_WEIGHT_CAP as int);
        lemma_product_within(
            weights.len() as int,
            DEFENDER_WEIGHT_CAP as int,
            11,
            DEFENDER_WEIGHT_CAP as int,
        );
        lemma_total_zero(weights@);
    }
    let chosen = weighted_choice(dice, &weights);
    proof {
        if total_weight(weights@) == 0 {
            assert forall|i: int| 0 <= i < lineup@.len() implies #[trigger] defender_base(
                lineup@[i],
                zone,
            ) == 0 by {
                assert(weights[i] == 0);
            }
        } else {
            let i = choose|i: int| 0 <= i < weights.len() && weights[i] != 0;
            assert(defender_base(lineup@[i], zone) != 0);
        }
    }
    chosen
}

} // verus!
