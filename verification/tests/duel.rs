use football_sim::action::Action;
use football_sim::dice::Dice;
use football_sim::duel::{action_success, defense_score, keeper_score, resolve, zone_score};
use football_sim::field::FieldZone;
use football_sim::manager::Manager;
use football_sim::player::Player;
use football_sim::position::Position;
use football_sim::squad::{Lineup, Squad};
use football_sim::tactics::{Tactics, Width};

fn guard_player(id: u32, position: Position, level: u8) -> Player {
    let mut p = Player::new();
    p.id = id;
    p.position = position;
    p.decision_making = level;
    p.pace = level;
    p.strength = level;
    p.stamina = level;
    p.height = level;
    p.jumping = level;
    p.heading = level;
    p.tackling = level;
    p.goalkeeping = level;
    p.defensive_positioning = level;
    p
}

fn duel_tactics() -> Tactics {
    Tactics {
        defense_line: 50,
        compactness: 50,
        aggression: 50,
        build_up_speed: 50,
        attack_width: Width::Balanced,
        shoot_more_often: false,
        cross_more_often: false,
        pass_range: 50,
    }
}

fn duel_manager() -> Manager {
    Manager { id: 1, name: String::from("Boss"), tactical: 50, management: 50, coaching: 50 }
}

fn back_line() -> [Position; 11] {
    [
        Position::Goalkeeper,
        Position::LeftBack,
        Position::CenterBack,
        Position::CenterBack,
        Position::RightBack,
        Position::DefensiveMidfield,
        Position::CenterMidfield,
        Position::AttackingMidfield,
        Position::LeftWing,
        Position::RightWing,
        Position::Striker,
    ]
}

#[test]
fn guards_in_the_unit_of_threat() {
    let p = guard_player(1, Position::Goalkeeper, 100);
    // 72.5 points against a shot; 82, 78 and 80 points in the zones.
    assert_eq!(keeper_score(&p), 17_400_000_000);
    assert_eq!(zone_score(&p, FieldZone::Box), 19_680_000_000);
    assert_eq!(zone_score(&p, FieldZone::Left), 18_720_000_000);
    assert_eq!(zone_score(&p, FieldZone::Right), 18_720_000_000);
    assert_eq!(zone_score(&p, FieldZone::Center), 19_200_000_000);
    let blank = Player::new();
    assert_eq!(keeper_score(&blank), 0);
    assert_eq!(zone_score(&blank, FieldZone::Box), 0);
    let best = guard_player(2, Position::CenterBack, 255);
    assert_eq!(keeper_score(&best), 7395 * 6_000_000);
    assert_eq!(zone_score(&best, FieldZone::Box), 104_550 * 480_000);
    assert_eq!(zone_score(&best, FieldZone::Left), 9945 * 4_800_000);
    assert_eq!(zone_score(&best, FieldZone::Center), 10_200 * 4_800_000);
}

#[test]
fn guards_weigh_each_attribute() {
    let mut p = Player::new();
    p.goalkeeping = 10;
    assert_eq!(keeper_score(&p), 100 * 6_000_000);
    assert_eq!(zone_score(&p, FieldZone::Box), 0);
    let mut q = Player::new();
    q.heading = 10;
    assert_eq!(zone_score(&q, FieldZone::Box), 850 * 480_000);
    assert_eq!(zone_score(&q, FieldZone::Center), 0);
    let mut r = Player::new();
    r.pace = 10;
    assert_eq!(zone_score(&r, FieldZone::Left), 80 * 4_800_000);
    assert_eq!(zone_score(&r, FieldZone::Center), 60 * 4_800_000);
}

#[test]
fn a_trial_without_threat_fails_and_one_without_guard_comes_off() {
    let mut dice = Dice::seeded(31);
    for _ in 0..200 {
        assert!(!resolve(&mut dice, 0, 0));
        assert!(!resolve(&mut dice, 0, 5));
        assert!(resolve(&mut dice, 5, 0));
        assert!(resolve(&mut dice, 1_000_000_000_000, 0));
    }
}

#[test]
fn a_trial_comes_off_in_proportion() {
    let mut dice = Dice::seeded(32);
    let mut won = 0;
    for _ in 0..4000 {
        if resolve(&mut dice, 3, 1) {
            won += 1;
        }
    }
    assert!(2800 < won && won < 3200);
}

#[test]
fn a_shot_meets_the_goalkeeper() {
    let positions = back_line();
    let players: Vec<Player> =
        (0..11).map(|i| guard_player(i as u32, positions[i], 50 + 10 * i as u8)).collect();
    let manager = duel_manager();
    let squad = Squad {
        manager: &manager,
        players: std::array::from_fn(|i| &players[i]),
        subs: Vec::new(),
        tactics: duel_tactics(),
    };
    let lineup = Lineup::of(&squad, &Vec::new());
    let mut dice = Dice::seeded(33);
    for zone in [FieldZone::Left, FieldZone::Right, FieldZone::Center, FieldZone::Box] {
        assert_eq!(
            defense_score(&mut dice, Action::Shoot, zone, &lineup),
            keeper_score(&players[0])
        );
    }
    // With the goalkeeper sent off the goal is open.
    let open = Lineup::of(&squad, &vec![0]);
    assert_eq!(defense_score(&mut dice, Action::Shoot, FieldZone::Box, &open), 0);
    for _ in 0..100 {
        assert!(action_success(&mut dice, Action::Shoot, 1, FieldZone::Box, &open));
        assert!(!action_success(&mut dice, Action::Shoot, 0, FieldZone::Box, &open));
    }
}

#[test]
fn another_attempt_meets_a_defender_of_the_zone() {
    let positions = back_line();
    let players: Vec<Player> =
        (0..11).map(|i| guard_player(i as u32, positions[i], 50 + 10 * i as u8)).collect();
    let manager = duel_manager();
    let squad = Squad {
        manager: &manager,
        players: std::array::from_fn(|i| &players[i]),
        subs: Vec::new(),
        tactics: duel_tactics(),
    };
    let lineup = Lineup::of(&squad, &Vec::new());
    let mut dice = Dice::seeded(34);
    for action in [Action::Pass, Action::Cross, Action::Dribble] {
        for zone in [FieldZone::Left, FieldZone::Right, FieldZone::Center, FieldZone::Box] {
            for _ in 0..50 {
                let guard = defense_score(&mut dice, action, zone, &lineup);
                let from: usize = if zone == FieldZone::Box { 0 } else { 1 };
                assert!((from..11).any(|i| zone_score(&players[i], zone) == guard));
            }
        }
    }
}

#[test]
fn an_attempt_against_nobody_comes_off() {
    let positions = back_line();
    let players: Vec<Player> =
        (0..11).map(|i| guard_player(i as u32, positions[i], 0)).collect();
    let manager = duel_manager();
    let squad = Squad {
        manager: &manager,
        players: std::array::from_fn(|i| &players[i]),
        subs: Vec::new(),
        tactics: duel_tactics(),
    };
    let lineup = Lineup::of(&squad, &Vec::new());
    let mut dice = Dice::seeded(35);
    for action in [Action::Pass, Action::Shoot, Action::Cross, Action::Dribble] {
        assert_eq!(defense_score(&mut dice, action, FieldZone::Center, &lineup), 0);
        assert!(action_success(&mut dice, action, 7, FieldZone::Center, &lineup));
        assert!(!action_success(&mut dice, action, 0, FieldZone::Center, &lineup));
    }
}
