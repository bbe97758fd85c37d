use vstd::prelude::*;
use crate::action::Action;
use crate::bounds::{lemma_product_positive, lemma_product_within};
use crate::dice::Dice;
use crate::field::FieldZone;
use crate::player::Player;
use crate::sampler::{
    lands_on, lemma_positive_weight_can_win, lemma_total_within, lemma_total_zero, total_weight,
    weight_before, weighted_choice,
};
use crate::strength::in_the_air;
use crate::style::PlayStyle;
use crate::tactics::Tactics;

verus! {

/// The least that an action weighs before the zone, the style, the
/// instructions and the previous action have their say, in thousandths.
pub const BASE_FLOOR: u64 = 200;

/// No action weighs more, in millionths.
pub const ACTION_WEIGHT_CAP: u64 = 3_510_000;

/// No action threatens more, in units of 1/240,000,000 of a point.
pub const THREAT_CAP: u64 = 1_000_000_000_000;

/// How far above the floor the base weight of an action can lie, in
/// thousandths: the inverse of decision making. The worse a player decides,
/// the more the choice is left to chance. A decision making of zero counts
/// as one.
pub open spec fn base_spread(decision_making: u8) -> int {
    if decision_making == 0 {
        1000
    } else {
        1000int / (decision_making as int)
    }
}

/// What a zone calls for, in thousandths: a cross or a dribble on the
/// flanks, a pass in the centre, a shot in the box. Where the zone calls
/// for an action, that value takes the place of the action's base weight.
pub open spec fn zone_call(zone: FieldZone, action: Action) -> Option<int> {
    match (zone, action) {
        (FieldZone::Left, Action::Cross) => Some(900),
        (FieldZone::Right, Action::Cross) => Some(900),
        (FieldZone::Left, Action::Dribble) => Some(700),
        (FieldZone::Right, Action::Dribble) => Some(700),
        (FieldZone::Center, Action::Pass) => Some(1000),
        (FieldZone::Box, Action::Shoot) => Some(1000),
        _ => None,
    }
}

/// How a style leans towards an action or away from it, in tenths.
pub open spec fn style_factor(style: PlayStyle, action: Action) -> int {
    match (style, action) {
        (PlayStyle::Wide, Action::Cross) => 13,
        (PlayStyle::Inverted, Action::Cross) => 7,
        (PlayStyle::Inverted, Action::Pass) => 13,
        (PlayStyle::Inverted, Action::Dribble) => 11,
        (PlayStyle::False9, Action::Dribble) => 13,
        (PlayStyle::False9, Action::Shoot) => 8,
        (PlayStyle::False9, Action::Pass) => 11,
        (PlayStyle::CutInside, Action::Dribble) => 13,
        (PlayStyle::CutInside, Action::Cross) => 6,
        (PlayStyle::Playmaker, Action::Pass) => 15,
        (PlayStyle::BallPlaying, Action::Pass) => 15,
        _ => 10,
    }
}

/// How the instructions lean towards an action, in tenths.
pub open spec fn tactics_factor(tactics: Tactics, action: Action) -> int {
    match action {
        Action::Shoot => if tactics.shoot_more_often {
            13
        } else {
            10
        },
        Action::Cross => if tactics.cross_more_often {
            13
        } else {
            10
        },
        _ => 10,
    }
}

/// How the previous action leans towards the next, in tenths: a cross asks
/// for a shot.
pub open spec fn follow_up_factor(previous: Option<Action>, action: Action) -> int {
    if previous == Some(Action::Cross) && action == Action::Shoot {
        15
    } else {
        10
    }
}

/// The weight of an action for a base weight in thousandths. Unit:
/// millionths.
pub open spec fn action_weight_of(
    action: Action,
    base: int,
    style: PlayStyle,
    zone: FieldZone,
    tactics: Tactics,
    previous: Option<Action>,
) -> int {
    (match zone_call(zone, action) {
        Some(called) => called,
        None => base,
    }) * style_factor(style, action) * tactics_factor(tactics, action) * follow_up_factor(
        previous,
        action,
    )
}

/// Whether `weight` is the weight of an action for some base weight that
/// the player's decision making allows.
pub open spec fn is_action_weight(
    action: Action,
    player: &Player,
    zone: FieldZone,
    tactics: Tactics,
    previous: Option<Action>,
    weight: u64,
) -> bool {
    exists|base: int|
        BASE_FLOOR <= base < BASE_FLOOR + base_spread(player.decision_making) && weight
            == #[trigger] action_weight_of(
            action,
            base,
            player.playstyle,
            zone,
            tactics,
            previous,
        )
}

/// What a player brings to an action, in tenths of a point.
pub open spec fn action_skill(action: Action, p: &Player) -> int {
    match action {
        Action::Shoot => 10 * p.shooting + 10 * p.decision_making + 8 * p.attack_positioning,
        Action::Pass => 10 * p.passing + 10 * p.decision_making + 10 * p.vision + 10
            * p.creativity,
        Action::Dribble => 10 * p.technique + 10 * p.decision_making + 10 * p.pace + 7
            * p.strength,
        Action::Cross => 10 * p.passing + 7 * p.decision_making + 10 * p.vision,
    }
}

/// By how much the skill of an action is scaled to the unit of threat: the
/// skill of a shot is halved, that of a cross is taken by thirds, that of a
/// pass or a dribble by quarters.
pub open spec fn action_scale(action: Action) -> int {
    match action {
        Action::Shoot => 12,
        Action::Cross => 8,
        Action::Pass => 6,
        Action::Dribble => 6,
    }
}

/// Whether an attempt is a header at goal: a shot in the box that follows
/// a cross.
pub open spec fn is_header(action: Action, zone: FieldZone, previous: Option<Action>) -> bool {
    action == Action::Shoot && zone == FieldZone::Box && previous == Some(Action::Cross)
}

/// The threat of an action that was chosen with `weight`: the player's skill
/// at it times the weight. A header is half as dangerous again, and gains an
/// eighth of the player's presence in the air. Unit: 1/240,000,000 of a
/// point.
pub open spec fn threat_of(
    action: Action,
    p: &Player,
    weight: int,
    zone: FieldZone,
    previous: Option<Action>,
) -> int {
    let plain = action_skill(action, p) * weight * action_scale(action);
    if is_header(action, zone, previous) {
        plain + plain / 2 + in_the_air(p) * 30_000_000
    } else {
        plain
    }
}

/// The weight of an action lies between 120,000 and the cap for any base
/// weight from the floor to a thousand above it.
pub proof fn lemma_action_weight_bounds(
    action: Action,
    base: int,
    style: PlayStyle,
    zone: FieldZone,
    tactics: Tactics,
    previous: Option<Action>,
)
    requires
        BASE_FLOOR <= base < BASE_FLOOR + 1000,
    ensures
        120_000 <= action_weight_of(action, base, style, zone, tactics, previous)
            <= ACTION_WEIGHT_CAP,
{
    let seed = match zone_call(zone, action) {
        Some(called) => called,
        None => base,
    };
    let s = style_factor(style, action);
    let t = tactics_factor(tactics, action);
    let f = follow_up_factor(previous, action);
    assert(200 <= seed <= 1200);
    assert(6 <= s <= 15);
    assert(10 <= t <= 13);
    assert(10 <= f <= 15);
    lemma_product_within(seed, s, 1200, 15);
    lemma_product_within(seed * s, t, 18000, 13);
    lemma_product_within(seed * s * t, f, 234000, 15);
    assert(seed * s >= 1200) by (nonlinear_arith)
        requires
            seed >= 200,
            s >= 6,
    ;
    assert(seed * s * t >= 12000) by (nonlinear_arith)
        requires
            seed * s >= 1200,
            t >= 10,
    ;
    assert(seed * s * t * f >= 120000) by (nonlinear_arith)
        requires
            seed * s * t >= 12000,
            f >= 10,
    ;
}

/// A threat is not negative and stays under the cap.
pub proof fn lemma_threat_bounds(
    action: Action,
    p: &Player,
    weight: int,
    zone: FieldZone,
    previous: Option<Action>,
)
    requires
        0 <= weight <= ACTION_WEIGHT_CAP,
    ensures
        0 <= threat_of(action, p, weight, zone, previous) <= THREAT_CAP,
        action_skill(action, p) > 0 && weight > 0 ==> threat_of(action, p, weight, zone, previous)
            > 0,
{
    let skill = action_skill(action, p);
    assert(0 <= skill <= 10200);
    lemma_product_within(skill, weight, 10200, ACTION_WEIGHT_CAP as int);
    lemma_product_within(skill * weight, action_scale(action), 35_802_000_000, 12);
    if skill > 0 && weight > 0 {
        lemma_product_positive(skill, weight);
        lemma_product_positive(skill * weight, action_scale(action));
    }
}

fn style_factor_for(style: PlayStyle, action: Action) -> (tenths: u64)
    ensures
        tenths == style_factor(style, action),
{
    match style {
        PlayStyle::Wide => match action {
            Action::Cross => 13,
            _ => 10,
        },
        PlayStyle::Inverted => match action {
            Action::Cross => 7,
            Action::Pass => 13,
            Action::Dribble => 11,
            Action::Shoot => 10,
        },
        PlayStyle::False9 => match action {
            Action::Dribble => 13,
            Action::Shoot => 8,
            Action::Pass => 11,
            Action::Cross => 10,
        },
        PlayStyle::CutInside => match action {
            Action::Dribble => 13,
            Action::Cross => 6,
            _ => 10,
        },
        PlayStyle::Playmaker | PlayStyle::BallPlaying => match action {
            Action::Pass => 15,
            _ => 10,
        },
        _ => 10,
    }
}

/// How far above the floor the base weight of an action can lie for a
/// player's decision making.
pub fn spread_for(decision_making: u8) -> (spread: u64)
    ensures
        spread == base_spread(decision_making),
        3 <= spread <= 1000,
{
    if decision_making == 0 {
        1000
    } else {
        let d: u64 = decision_making as u64;
        assert(3 <= 1000u64 / d <= 1000) by (nonlinear_arith)
            requires
                1 <= d <= 255,
        ;
        1000 / d
    }
}

/// The weight of an action for a base weight in thousandths.
pub fn action_weight(
    action: Action,
    base: u64,
    style: PlayStyle,
    zone: FieldZone,
    tactics: &Tactics,
    previous: Option<Action>,
) -> (weight: u64)
    requires
        BASE_FLOOR <= base < BASE_FLOOR + 1000,
    ensures
        weight == action_weight_of(action, base as int, style, zone, *tactics, previous),
        120_000 <= weight <= ACTION_WEIGHT_CAP,
{
    let seed: u64 = match zone {
        FieldZone::Left | FieldZone::Right => match action {
            Action::Cross => 900,
            Action::Dribble => 700,
            _ => base,
        },
        FieldZone::Center => match action {
            Action::Pass => 1000,
            _ => base,
        },
        FieldZone::Box => match action {
            Action::Shoot => 1000,
            _ => base,
        },
    };
    let by_style: u64 = style_factor_for(style, action);
    let by_tactics: u64 = match action {
        Action::Shoot => if tactics.shoot_more_often {
            13
        } else {
            10
        },
        Action::Cross => if tactics.cross_more_often {
            13
        } else {
            10
        },
        _ => 10,
    };
    let after_cross: bool = match previous {
        Some(Action::Cross) => true,
        _ => false,
    };
    let by_follow_up: u64 = match action {
        Action::Shoot => if after_cross {
            15
        } else {
            10
        },
        _ => 10,
    };
    proof {
        lemma_action_weight_bounds(action, base as int, style, zone, *tactics, previous);
        lemma_product_within(seed as int, by_style as int, 1200, 15);
        lemma_product_within((seed * by_style) as int, by_tactics as int, 18000, 13);
    }
    seed * by_style * by_tactics * by_follow_up
}

/// The threat of an action that was chosen with `weight`.
pub fn threat_score(
    action: Action,
    p: &Player,
    weight: u64,
    zone: FieldZone,
    previous: Option<Action>,
) -> (threat: u64)
    requires
        weight <= ACTION_WEIGHT_CAP,
    ensures
        threat == threat_of(action, p, weight as int, zone, previous),
        threat <= THREAT_CAP,
{
    let decision: u64 = p.decision_making as u64;
    let skill: u64 = match action {
        Action::Shoot => 10 * (p.shooting as u64) + 10 * decision + 8 * (
        p.attack_positioning as u64),
        Action::Pass => 10 * (p.passing as u64) + 10 * decision + 10 * (p.vision as u64) + 10 * (
        p.creativity as u64),
        Action::Dribble => 10 * (p.technique as u64) + 10 * decision + 10 * (p.pace as u64) + 7 * (
        p.strength as u64),
        Action::Cross => 10 * (p.passing as u64) + 7 * decision + 10 * (p.vision as u64),
    };
    let scale: u64 = match action {
        Action::Shoot => 12,
        Action::Cross => 8,
        Action::Pass | Action::Dribble => 6,
    };
    proof {
        lemma_threat_bounds(action, p, weight as int, zone, previous);
        lemma_product_within(skill as int, weight as int, 10200, ACTION_WEIGHT_CAP as int);
        lemma_product_within((skill * weight) as int, scale as int, 35_802_000_000, 12);
    }
    let plain: u64 = skill * weight * scale;
    let after_cross: bool = match previous {
        Some(Action::Cross) => true,
        _ => false,
    };
    let header: bool = after_cross && match action {
        Action::Shoot => true,
        _ => false,
    } && match zone {
        FieldZone::Box => true,
        _ => false,
    };
    if header {
        let air: u64 = p.height as u64 + p.jumping as u64 + p.strength as u64 + p.heading as u64;
        plain + plain / 2 + air * 30_000_000
    } else {
        plain
    }
}

/// The weights of the four actions, in the order of `Action::all`, each
/// from a base weight of its own.
pub fn action_weights(
    dice: &mut Dice,
    previous: Option<Action>,
    player: &Player,
    zone: FieldZone,
    tactics: &Tactics,
) -> (weights: Vec<u64>)
    ensures
        weights.len() == 4,
        forall|i: int|
            0 <= i < 4 ==> #[trigger] is_action_weight(
                Action::every()[i],
                player,
                zone,
                *tactics,
                previous,
                weights[i],
            ),
{
    let actions: Vec<Action> = Action::all();
    let spread: u64 = spread_for(player.decision_making);
    let mut weights: Vec<u64> = Vec::new();
    let mut k: usize = 0;
    while k < 4
        invariant
            k <= 4,
            actions@ == Action::every(),
            spread == base_spread(player.decision_making),
            3 <= spread <= 1000,
            weights.len() == k,
            forall|i: int|
                0 <= i < k ==> #[trigger] is_action_weight(
                    Action::every()[i],
                    player,
                    zone,
                    *tactics,
                    previous,
                    weights[i],
                ),
        decreases 4 - k,
    {
        let base: u64 = BASE_FLOOR + dice.below(spread);
        let weight: u64 = action_weight(
            actions[k],
            base,
            player.playstyle,
            zone,
            tactics,
            previous,
        );
        weights.push(weight);
        assert(BASE_FLOOR <= base < BASE_FLOOR + base_spread(player.decision_making) && weight
            == action_weight_of(
            Action::every()[k as int],
            base as int,
            player.playstyle,
            zone,
            *tactics,
            previous,
        ));
        assert(is_action_weight(
            Action::every()[k as int],
            player,
            zone,
            *tactics,
            previous,
            weights[k as int],
        ));
        k = k + 1;
    }
    weights
}

/// Whichever base weight was drawn, an action weighs between 120,000 and
/// the cap.
pub proof fn lemma_is_action_weight_bounds(
    action: Action,
    player: &Player,
    zone: FieldZone,
    tactics: Tactics,
    previous: Option<Action>,
    weight: u64,
)
    requires
        is_action_weight(action, player, zone, tactics, previous, weight),
    ensures
        120_000 <= weight <= ACTION_WEIGHT_CAP,
{
    let base = choose|base: int|
        BASE_FLOOR <= base < BASE_FLOOR + base_spread(player.decision_making) && weight
            == #[trigger] action_weight_of(
            action,
            base,
            player.playstyle,
            zone,
            tactics,
            previous,
        );
    assert(base_spread(player.decision_making) <= 1000);
    lemma_action_weight_bounds(action, base, player.playstyle, zone, tactics, previous);
}

/// Every action is on: whatever the zone, the player, the instructions and
/// the previous action, each of the four actions has a slot on the wheel, so
/// a draw exists that chooses it. In particular a shot is on in the box and
/// a pass in the centre.
pub proof fn lemma_every_action_is_on(
    weights: Seq<u64>,
    action: Action,
    player: &Player,
    zone: FieldZone,
    tactics: Tactics,
    previous: Option<Action>,
)
    requires
        weights.len() == 4,
        is_action_weight(action, player, zone, tactics, previous, weights[action.ordinal()]),
    ensures
        weights[action.ordinal()] > 0,
        weight_before(weights, action.ordinal()) < total_weight(weights),
        lands_on(weights, weight_before(weights, action.ordinal()), action.ordinal()),
{
    lemma_is_action_weight_bounds(
        action,
        player,
        zone,
        tactics,
        previous,
        weights[action.ordinal()],
    );
    lemma_positive_weight_can_win(weights, action.ordinal());
}

/// Chooses what the player on the ball tries next, and says how dangerous
/// the attempt is. Each action is weighed by the zone, the player's style,
/// the team's instructions and the previous action, from a base weight that
/// is drawn anew; the action is then drawn with a probability in proportion
/// to its weight. Every action has a positive weight, so one is always
/// chosen.
pub fn get_player_next_action(
    dice: &mut Dice,
    previous: Option<Action>,
    player: &Player,
    zone: FieldZone,
    tactics: &Tactics,
) -> (next: Option<(Action, u64)>)
    ensures
        next is Some,
        next matches Some((action, threat)) ==> exists|weight: u64|
            #[trigger] is_action_weight(action, player, zone, *tactics, previous, weight)
                && threat == threat_of(action, player, weight as int, zone, previous),
        next matches Some((action, threat)) ==> threat <= THREAT_CAP,
{
    let actions: Vec<Action> = Action::all();
    let weights: Vec<u64> = action_weights(dice, previous, player, zone, tactics);
    proof {
        assert forall|i: int| 0 <= i < weights.len() implies 120_000 <= #[trigger] weights[i]
            <= ACTION_WEIGHT_CAP by {
            assert(is_action_weight(
                Action::every()[i],
                player,
                zone,
                *tactics,
                previous,
                weights[i],
            ));
            lemma_is_action_weight_bounds(
                Action::every()[i],
                player,
                zone,
                *tactics,
                previous,
                weights[i],
            );
        }
        lemma_total_within(weights@, ACTION_WEIGHT_CAP as int);
        lemma_total_zero(weights@);
        assert(weights[0] != 0);
    }
    match weighted_choice(dice, &weights) {
        Some(i) => {
            let action: Action = actions[i];
            let weight: u64 = weights[i];
            let threat: u64 = threat_score(action, player, weight, zone, previous);
            assert(is_action_weight(
                Action::every()[i as int],
                player,
                zone,
                *tactics,
                previous,
                weights[i as int],
            ));
            Some((action, threat))
        },
        None => None,
    }
}

} // verus!
