use vstd::prelude::*;
use crate::bounds::{lemma_product_within, lemma_product_zero};
use crate::dice::{Dice, JITTER_HIGH, JITTER_LOW};
use crate::field::FieldZone;
use crate::player::Player;
use crate::position::Position;
use crate::sampler::{lemma_total_within, lemma_total_zero, total_weight, weighted_choice};
use crate::squad::Lineup;
use crate::style::PlayStyle;

verus! {

/// How likely a position is to have the ball in a zone, in hundredths.
pub open spec fn carrier_affinity(position: Position, zone: FieldZone) -> int {
    match position {
        Position::Goalkeeper => match zone {
            FieldZone::Center => 10,
            _ => 0,
        },
        Position::CenterBack => match zone {
            FieldZone::Center => 20,
            _ => 10,
        },
        Position::LeftBack | Position::LeftWingBack => match zone {
            FieldZone::Left => 70,
            FieldZone::Right => 1,
            _ => 20,
        },
        Position::RightBack | Position::RightWingBack => match zone {
            FieldZone::Right => 70,
            FieldZone::Left => 1,
            _ => 20,
        },
        Position::LeftMidfield => match zone {
            FieldZone::Left => 90,
            FieldZone::Right => 1,
            _ => 20,
        },
        Position::RightMidfield => match zone {
            FieldZone::Right => 90,
            FieldZone::Left => 1,
            _ => 20,
        },
        Position::DefensiveMidfield | Position::CenterMidfield => match zone {
            FieldZone::Center => 90,
            _ => 20,
        },
        Position::AttackingMidfield => match zone {
            FieldZone::Center => 90,
            FieldZone::Box => 50,
            _ => 20,
        },
        Position::LeftWing => match zone {
            FieldZone::Left => 70,
            FieldZone::Box => 50,
            FieldZone::Right => 1,
            FieldZone::Center => 20,
        },
        Position::RightWing => match zone {
            FieldZone::Right => 70,
            FieldZone::Box => 50,
            FieldZone::Left => 1,
            FieldZone::Center => 20,
        },
        Position::Striker => match zone {
            FieldZone::Box => 90,
            _ => 20,
        },
    }
}

/// How a style draws a player on the ball into a zone or away from it, in
/// tenths.
pub open spec fn carrier_style_bonus(style: PlayStyle, zone: FieldZone) -> int {
    match style {
        PlayStyle::False9 => match zone {
            FieldZone::Box => 7,
            FieldZone::Center => 13,
            _ => 10,
        },
        PlayStyle::Inverted => match zone {
            FieldZone::Left => 7,
            FieldZone::Right => 7,
            FieldZone::Center => 13,
            FieldZone::Box => 10,
        },
        PlayStyle::Wide => match zone {
            FieldZone::Left => 13,
            FieldZone::Right => 13,
            FieldZone::Center => 7,
            FieldZone::Box => 10,
        },
        PlayStyle::BoxToBox => match zone {
            FieldZone::Center => 13,
            FieldZone::Box => 13,
            _ => 10,
        },
        _ => 10,
    }
}

/// How much a player offers on the ball, in tenths of a point.
pub open spec fn carrier_skill(p: &Player) -> int {
    9 * p.attack_positioning + 8 * p.defensive_positioning + 8 * p.tactical + 8
        * p.decision_making + 5 * p.stamina + 7 * p.technique + 7 * p.passing + 6 * p.vision + 5
        * p.strength + 4 * p.pace + 4 * p.tackling
}

/// A player's weight as ball carrier in a zone before the jitter: affinity
/// times style bonus times skill.
pub open spec fn carrier_base(p: &Player, zone: FieldZone) -> int {
    carrier_affinity(p.position, zone) * carrier_style_bonus(p.playstyle, zone) * carrier_skill(
        p,
    )
}

/// A player's weight as ball carrier in a zone, for a jitter in hundredths.
/// Unit: 1/11,000,000 of a point; all weights of one draw share it.
pub open spec fn carrier_weight_of(p: &Player, zone: FieldZone, jitter: int) -> int {
    carrier_base(p, zone) * jitter
}

/// Whether `weight` is a player's weight as ball carrier in a zone for some
/// jitter of the range.
pub open spec fn is_carrier_weight(p: &Player, zone: FieldZone, weight: u64) -> bool {
    exists|jitter: int|
        JITTER_LOW <= jitter < JITTER_HIGH && weight == #[trigger] carrier_weight_of(
            p,
            zone,
            jitter,
        )
}

/// No ball carrier weighs more.
pub const CARRIER_WEIGHT_CAP: u64 = 2_541_942_000;

/// A carrier's base is at most 90 times 13 times 18105 and not negative.
pub proof fn lemma_carrier_base_bounds(p: &Player, zone: FieldZone)
    ensures
        0 <= carrier_base(p, zone) <= 21_182_850,
        carrier_base(p, zone) == 0 <==> carrier_affinity(p.position, zone) == 0 || carrier_skill(
            p,
        ) == 0,
{
    let a = carrier_affinity(p.position, zone);
    let b = carrier_style_bonus(p.playstyle, zone);
    let s = carrier_skill(p);
    assert(0 <= a <= 90);
    assert(7 <= b <= 13);
    assert(0 <= s <= 18105);
    lemma_product_within(a, b, 90, 13);
    lemma_product_within(a * b, s, 1170, 18105);
    lemma_product_zero(a, b);
    lemma_product_zero(a * b, s);
}

fn carrier_affinity_for(position: Position, zone: FieldZone) -> (hundredths: u64)
    ensures
        hundredths == carrier_affinity(position, zone),
{
    match position {
        Position::Goalkeeper => match zone {
            FieldZone::Center => 10,
            _ => 0,
        },
        Position::CenterBack => match zone {
            FieldZone::Center => 20,
            _ => 10,
        },
        Position::LeftBack | Position::LeftWingBack => match zone {
            FieldZone::Left => 70,
            FieldZone::Right => 1,
            _ => 20,
        },
        Position::RightBack | Position::RightWingBack => match zone {
            FieldZone::Right => 70,
            FieldZone::Left => 1,
            _ => 20,
        },
        Position::LeftMidfield => match zone {
            FieldZone::Left => 90,
            FieldZone::Right => 1,
            _ => 20,
        },
        Position::RightMidfield => match zone {
            FieldZone::Right => 90,
            FieldZone::Left => 1,
            _ => 20,
        },
        Position::DefensiveMidfield | Position::CenterMidfield => match zone {
            FieldZone::Center => 90,
            _ => 20,
        },
        Position::AttackingMidfield => match zone {
            FieldZone::Center => 90,
            FieldZone::Box => 50,
            _ => 20,
        },
        Position::LeftWing => match zone {
            FieldZone::Left => 70,
            FieldZone::Box => 50,
            FieldZone::Right => 1,
            FieldZone::Center => 20,
        },
        Position::RightWing => match zone {
            FieldZone::Right => 70,
            FieldZone::Box => 50,
            FieldZone::Left => 1,
            FieldZone::Center => 20,
        },
        Position::Striker => match zone {
            FieldZone::Box => 90,
            _ => 20,
        },
    }
}

fn carrier_style_bonus_for(style: PlayStyle, zone: FieldZone) -> (tenths: u64)
    ensures
        tenths == carrier_style_bonus(style, zone),
{
    match style {
        PlayStyle::False9 => match zone {
            FieldZone::Box => 7,
            FieldZone::Center => 13,
            _ => 10,
        },
        PlayStyle::Inverted => match zone {
            FieldZone::Left | FieldZone::Right => 7,
            FieldZone::Center => 13,
            FieldZone::Box => 10,
        },
        PlayStyle::Wide => match zone {
            FieldZone::Left | FieldZone::Right => 13,
            FieldZone::Center => 7,
            FieldZone::Box => 10,
        },
        PlayStyle::BoxToBox => match zone {
            FieldZone::Center | FieldZone::Box => 13,
            _ => 10,
        },
        _ => 10,
    }
}

/// A player's weight as ball carrier in a zone, for a jitter in hundredths.
pub fn carrier_weight(p: &Player, zone: FieldZone, jitter: u64) -> (weight: u64)
    requires
        jitter <= JITTER_HIGH,
    ensures
        weight == carrier_weight_of(p, zone, jitter as int),
        weight <= CARRIER_WEIGHT_CAP,
{
    let affinity: u64 = carrier_affinity_for(p.position, zone);
    let bonus: u64 = carrier_style_bonus_for(p.playstyle, zone);
    let skill: u64 = 9 * (p.attack_positioning as u64) + 8 * (p.defensive_positioning as u64) + 8
        * (p.tactical as u64) + 8 * (p.decision_making as u64) + 5 * (p.stamina as u64) + 7 * (
    p.technique as u64) + 7 * (p.passing as u64) + 6 * (p.vision as u64) + 5 * (p.strength as u64)
        + 4 * (p.pace as u64) + 4 * (p.tackling as u64);
    proof {
        lemma_product_within(affinity as int, bonus as int, 90, 13);
        lemma_carrier_base_bounds(p, zone);
        lemma_product_within(carrier_base(p, zone), jitter as int, 21_182_850, 120);
    }
    affinity * bonus * skill * jitter
}

/// The weights of the players of a lineup as ball carriers in a zone, each
/// with a jitter of its own.
pub fn carrier_weights(dice: &mut Dice, lineup: &Lineup, zone: FieldZone) -> (weights: Vec<u64>)
    ensures
        weights.len() == lineup@.len(),
        forall|i: int|
            0 <= i < weights.len() ==> #[trigger] is_carrier_weight(lineup@[i], zone, weights[i]),
{
    let n: usize = lineup.len();
    let mut weights: Vec<u64> = Vec::new();
    let mut k: usize = 0;
    while k < n
        invariant
            k <= n,
            n == lineup@.len(),
            weights.len() == k,
            forall|i: int|
                0 <= i < k ==> #[trigger] is_carrier_weight(lineup@[i], zone, weights[i]),
        decreases n - k,
    {
        let jitter: u64 = dice.jitter();
        let weight: u64 = carrier_weight(lineup.get(k), zone, jitter);
        weights.push(weight);
        assert(JITTER_LOW <= jitter < JITTER_HIGH && weight == carrier_weight_of(
            lineup@[k as int],
            zone,
            jitter as int,
        ));
        assert(is_carrier_weight(lineup@[k as int], zone, weights[k as int]));
        k = k + 1;
    }
    weights
}

/// Draws the player who has the ball in a zone, with a probability in
/// proportion to the player's weight as ball carrier. Nobody is drawn where
/// no player of the lineup can have the ball there: the lineup is empty, or
/// each of its players has an affinity or a skill of zero.
pub fn get_player_with_ball(dice: &mut Dice, lineup: &Lineup, zone: FieldZone) -> (chosen: Option<
    usize,
>)
    ensures
        chosen is None <==> forall|i: int|
            0 <= i < lineup@.len() ==> #[trigger] carrier_base(lineup@[i], zone) == 0,
        chosen matches Some(i) ==> i < lineup@.len() && carrier_base(lineup@[i as int], zone) > 0,
{
    let weights: Vec<u64> = carrier_weights(dice, lineup, zone);
    let n: usize = lineup.len();
    proof {
        assert forall|i: int| 0 <= i < weights.len() implies #[trigger] weights[i]
            <= CARRIER_WEIGHT_CAP && (weights[i] == 0 <==> carrier_base(lineup@[i], zone) == 0) by {
            assert(is_carrier_weight(lineup@[i], zone, weights[i]));
            let jitter = choose|jitter: int|
                JITTER_LOW <= jitter < JITTER_HIGH && weights[i] == #[trigger] carrier_weight_of(
                    lineup@[i],
                    zone,
                    jitter,
                );
            lemma_carrier_base_bounds(lineup@[i], zone);
            lemma_product_within(carrier_base(lineup@[i], zone), jitter, 21_182_850, 120);
            lemma_product_zero(carrier_base(lineup@[i], zone), jitter);
        }
        lemma_total_within(weights@, CARRIER_WEIGHT_CAP as int);
        lemma_product_within(
            weights.len() as int,
            CARRIER_WEIGHT_CAP as int,
            11,
            CARRIER_WEIGHT_CAP as int,
        );
        lemma_total_zero(weights@);
    }
    let chosen = weighted_choice(dice, &weights);
    proof {
        if total_weight(weights@) == 0 {
            assert forall|i: int| 0 <= i < lineup@.len() implies #[trigger] carrier_base(
                lineup@[i],
                zone,
            ) == 0 by {
                assert(weights[i] == 0);
            }
        } else {
            let i = choose|i: int| 0 <= i < weights.len() && weights[i] != 0;
            assert(carrier_base(lineup@[i], zone) != 0);
        }
    }
    chosen
}

} // verus!
