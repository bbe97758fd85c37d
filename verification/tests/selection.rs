use football_sim::carrier::{carrier_weight, carrier_weights, get_player_with_ball};
use football_sim::defender::{defender_weight, defender_weights, get_defensive_player};
use football_sim::dice::Dice;
use football_sim::field::FieldZone;
use football_sim::manager::Manager;
use football_sim::player::Player;
use football_sim::position::Position;
use football_sim::squad::{Lineup, Squad};
use football_sim::style::PlayStyle;
use football_sim::tactics::{Tactics, Width};
use football_sim::touch::{get_fieldzone, zone_for_draw};

fn even_player(id: u32, position: Position, style: PlayStyle, level: u8) -> Player {
    let mut p = Player::new();
    p.id = id;
    p.position = position;
    p.playstyle = style;
    p.tactical = level;
    p.decision_making = level;
    p.vision = level;
    p.creativity = level;
    p.fitness = level;
    p.pace = level;
    p.strength = level;
    p.stamina = level;
    p.height = level;
    p.jumping = level;
    p.passing = level;
    p.technique = level;
    p.heading = level;
    p.tackling = level;
    p.marking = level;
    p.goalkeeping = level;
    p.defensive_positioning = level;
    p.shooting = level;
    p.long_shots = level;
    p.attack_positioning = level;
    p
}

fn width_tactics(width: Width) -> Tactics {
    Tactics {
        defense_line: 50,
        compactness: 50,
        aggression: 50,
        build_up_speed: 50,
        attack_width: width,
        shoot_more_often: false,
        cross_more_often: false,
        pass_range: 50,
    }
}

fn some_manager() -> Manager {
    Manager { id: 1, name: String::from("Boss"), tactical: 50, management: 50, coaching: 50 }
}

fn shape() -> [Position; 11] {
    [
        Position::Goalkeeper,
        Position::LeftBack,
        Position::CenterBack,
        Position::CenterBack,
        Position::RightBack,
        Position::DefensiveMidfield,
        Position::CenterMidfield,
        Position::AttackingMidfield,
        Position::LeftWing,
        Position::RightWing,
        Position::Striker,
    ]
}

fn zones_of(width: Width) -> Vec<FieldZone> {
    (1..=10u8).map(|draw| zone_for_draw(width, draw)).collect()
}

#[test]
fn zone_cut_points_of_a_balanced_team() {
    assert_eq!(
        zones_of(Width::Balanced),
        vec![FieldZone::Box, FieldZone::Left, FieldZone::Left, FieldZone::Left, FieldZone::Center, FieldZone::Center, FieldZone::Center, FieldZone::Right, FieldZone::Right, FieldZone::Right]
    );
}

#[test]
fn zone_cut_points_of_a_team_down_the_left() {
    assert_eq!(
        zones_of(Width::Left),
        vec![FieldZone::Box, FieldZone::Left, FieldZone::Left, FieldZone::Left, FieldZone::Left, FieldZone::Left, FieldZone::Center, FieldZone::Center, FieldZone::Center, FieldZone::Right]
    );
}

#[test]
fn zone_cut_points_of_a_team_down_the_right() {
    assert_eq!(
        zones_of(Width::Right),
        vec![FieldZone::Box, FieldZone::Left, FieldZone::Center, FieldZone::Center, FieldZone::Center, FieldZone::Right, FieldZone::Right, FieldZone::Right, FieldZone::Right, FieldZone::Right]
    );
}

#[test]
fn zone_cut_points_of_a_team_through_the_middle() {
    assert_eq!(
        zones_of(Width::Central),
        vec![FieldZone::Box, FieldZone::Left, FieldZone::Left, FieldZone::Center, FieldZone::Center, FieldZone::Center, FieldZone::Center, FieldZone::Center, FieldZone::Right, FieldZone::Right]
    );
}

#[test]
fn zone_for_a_draw_off_the_scale() {
    assert_eq!(zone_for_draw(Width::Balanced, 0), FieldZone::Box);
    assert_eq!(zone_for_draw(Width::Balanced, 11), FieldZone::Center);
    assert_eq!(zone_for_draw(Width::Left, 255), FieldZone::Center);
}

#[test]
fn drawn_zones_cover_the_pitch() {
    let mut dice = Dice::seeded(11);
    let tactics = width_tactics(Width::Left);
    let mut seen = [0u32; 4];
    for _ in 0..2000 {
        match get_fieldzone(&mut dice, &tactics) {
            FieldZone::Left => seen[0] += 1,
            FieldZone::Right => seen[1] += 1,
            FieldZone::Center => seen[2] += 1,
            FieldZone::Box => seen[3] += 1,
        }
    }
    assert!(seen.iter().all(|n| *n > 0));
    // Five draws of ten go left, one goes right.
    assert!(seen[0] > seen[2] && seen[2] > seen[1]);
}

#[test]
fn carrier_weight_is_affinity_bonus_skill_and_jitter() {
    // skill: 71 tenths for each attribute point
    let winger = even_player(1, Position::LeftWing, PlayStyle::Wide, 100);
    assert_eq!(carrier_weight(&winger, FieldZone::Left, 100), 70 * 13 * 7100 * 100);
    assert_eq!(carrier_weight(&winger, FieldZone::Right, 100), 1 * 13 * 7100 * 100);
    assert_eq!(carrier_weight(&winger, FieldZone::Center, 80), 20 * 7 * 7100 * 80);
    assert_eq!(carrier_weight(&winger, FieldZone::Box, 119), 50 * 10 * 7100 * 119);
    let keeper = even_player(2, Position::Goalkeeper, PlayStyle::Default, 100);
    assert_eq!(carrier_weight(&keeper, FieldZone::Center, 100), 10 * 10 * 7100 * 100);
    assert_eq!(carrier_weight(&keeper, FieldZone::Box, 100), 0);
    let false9 = even_player(3, Position::Striker, PlayStyle::False9, 255);
    assert_eq!(carrier_weight(&false9, FieldZone::Box, 120), 90 * 7 * 18105 * 120);
    assert_eq!(carrier_weight(&false9, FieldZone::Center, 100), 20 * 13 * 18105 * 100);
}

#[test]
fn carrier_weight_counts_each_attribute() {
    let mut p = Player::new();
    p.position = Position::CenterMidfield;
    p.attack_positioning = 10;
    assert_eq!(carrier_weight(&p, FieldZone::Center, 100), 90 * 10 * 90 * 100);
    p.attack_positioning = 0;
    p.pace = 10;
    assert_eq!(carrier_weight(&p, FieldZone::Center, 100), 90 * 10 * 40 * 100);
    p.pace = 0;
    p.shooting = 200;
    assert_eq!(carrier_weight(&p, FieldZone::Center, 100), 0);
}

#[test]
fn defender_weight_is_affinity_bonus_skill_and_jitter() {
    // skill: 240 hundredths for each attribute point
    let stopper = even_player(1, Position::CenterBack, PlayStyle::BoxToBox, 100);
    assert_eq!(defender_weight(&stopper, FieldZone::Box, 90), 10 * 13 * 24000 * 90);
    assert_eq!(defender_weight(&stopper, FieldZone::Left, 100), 3 * 10 * 24000 * 100);
    assert_eq!(defender_weight(&stopper, FieldZone::Center, 100), 1 * 10 * 24000 * 100);
    let back = even_player(2, Position::LeftBack, PlayStyle::TrackBack, 100);
    assert_eq!(defender_weight(&back, FieldZone::Right, 100), 10 * 13 * 24000 * 100);
    assert_eq!(defender_weight(&back, FieldZone::Left, 100), 1 * 13 * 24000 * 100);
    let keeper = even_player(3, Position::Goalkeeper, PlayStyle::Default, 255);
    assert_eq!(defender_weight(&keeper, FieldZone::Box, 120), 10 * 10 * 61200 * 120);
    assert_eq!(defender_weight(&keeper, FieldZone::Center, 120), 0);
}

#[test]
fn weights_of_a_lineup_lie_within_the_jitter() {
    let positions = shape();
    let players: Vec<Player> = (0..11)
        .map(|i| even_player(i as u32, positions[i], PlayStyle::Default, 100))
        .collect();
    let manager = some_manager();
    let squad = Squad {
        manager: &manager,
        players: std::array::from_fn(|i| &players[i]),
        subs: Vec::new(),
        tactics: width_tactics(Width::Balanced),
    };
    let lineup = Lineup::of(&squad, &Vec::new());
    let mut dice = Dice::seeded(5);
    for zone in [FieldZone::Left, FieldZone::Right, FieldZone::Center, FieldZone::Box] {
        let carriers = carrier_weights(&mut dice, &lineup, zone);
        let defenders = defender_weights(&mut dice, &lineup, zone);
        assert_eq!(carriers.len(), 11);
        assert_eq!(defenders.len(), 11);
        for i in 0..11 {
            let low = carrier_weight(&players[i], zone, 80);
            let high = carrier_weight(&players[i], zone, 120);
            assert!(low <= carriers[i] && (carriers[i] < high || high == 0));
            let low = defender_weight(&players[i], zone, 80);
            let high = defender_weight(&players[i], zone, 120);
            assert!(low <= defenders[i] && (defenders[i] < high || high == 0));
        }
    }
}

#[test]
fn the_goalkeeper_never_has_the_ball_in_the_box() {
    let positions = shape();
    let players: Vec<Player> = (0..11)
        .map(|i| even_player(i as u32, positions[i], PlayStyle::Default, 100))
        .collect();
    let manager = some_manager();
    let squad = Squad {
        manager: &manager,
        players: std::array::from_fn(|i| &players[i]),
        subs: Vec::new(),
        tactics: width_tactics(Width::Balanced),
    };
    let lineup = Lineup::of(&squad, &Vec::new());
    let mut dice = Dice::seeded(8);
    let mut striker = 0;
    for _ in 0..1000 {
        let i = get_player_with_ball(&mut dice, &lineup, FieldZone::Box).unwrap();
        assert!(i < 11);
        assert_ne!(lineup.get(i).position, Position::Goalkeeper);
        if lineup.get(i).position == Position::Striker {
            striker += 1;
        }
    }
    // The striker has 90 of the 350 hundredths of affinity in the box.
    assert!(striker > 150);
}

#[test]
fn the_goalkeeper_defends_in_the_box_only() {
    let positions = shape();
    let players: Vec<Player> = (0..11)
        .map(|i| even_player(i as u32, positions[i], PlayStyle::Default, 100))
        .collect();
    let manager = some_manager();
    let squad = Squad {
        manager: &manager,
        players: std::array::from_fn(|i| &players[i]),
        subs: Vec::new(),
        tactics: width_tactics(Width::Balanced),
    };
    let lineup = Lineup::of(&squad, &Vec::new());
    let mut dice = Dice::seeded(9);
    let mut in_box = 0;
    for _ in 0..1000 {
        let i = get_defensive_player(&mut dice, &lineup, FieldZone::Center).unwrap();
        assert_ne!(lineup.get(i).position, Position::Goalkeeper);
        let j = get_defensive_player(&mut dice, &lineup, FieldZone::Box).unwrap();
        if lineup.get(j).position == Position::Goalkeeper {
            in_box += 1;
        }
    }
    assert!(in_box > 0);
}

#[test]
fn nobody_is_drawn_from_players_without_skill() {
    let positions = shape();
    let players: Vec<Player> = (0..11)
        .map(|i| even_player(i as u32, positions[i], PlayStyle::Default, 0))
        .collect();
    let manager = some_manager();
    let squad = Squad {
        manager: &manager,
        players: std::array::from_fn(|i| &players[i]),
        subs: Vec::new(),
        tactics: width_tactics(Width::Balanced),
    };
    let lineup = Lineup::of(&squad, &Vec::new());
    let mut dice = Dice::seeded(10);
    for zone in [FieldZone::Left, FieldZone::Right, FieldZone::Center, FieldZone::Box] {
        assert_eq!(get_player_with_ball(&mut dice, &lineup, zone), None);
        assert_eq!(get_defensive_player(&mut dice, &lineup, zone), None);
    }
}

#[test]
fn nobody_is_drawn_from_an_empty_lineup() {
    let positions = shape();
    let players: Vec<Player> = (0..11)
        .map(|i| even_player(i as u32, positions[i], PlayStyle::Default, 100))
        .collect();
    let manager = some_manager();
    let squad = Squad {
        manager: &manager,
        players: std::array::from_fn(|i| &players[i]),
        subs: Vec::new(),
        tactics: width_tactics(Width::Balanced),
    };
    let everybody: Vec<u32> = (0..11).collect();
    let lineup = Lineup::of(&squad, &everybody);
    assert_eq!(lineup.len(), 0);
    let mut dice = Dice::seeded(12);
    assert_eq!(get_player_with_ball(&mut dice, &lineup, FieldZone::Center), None);
    assert_eq!(get_defensive_player(&mut dice, &lineup, FieldZone::Center), None);
}

#[test]
fn only_a_player_with_skill_is_drawn() {
    let positions = shape();
    let mut players: Vec<Player> = (0..11)
        .map(|i| even_player(i as u32, positions[i], PlayStyle::Default, 0))
        .collect();
    players[6].passing = 1;
    players[6].defensive_positioning = 1;
    let manager = some_manager();
    let squad = Squad {
        manager: &manager,
        players: std::array::from_fn(|i| &players[i]),
        subs: Vec::new(),
        tactics: width_tactics(Width::Balanced),
    };
    let lineup = Lineup::of(&squad, &Vec::new());
    let mut dice = Dice::seeded(13);
    for _ in 0..100 {
        assert_eq!(get_player_with_ball(&mut dice, &lineup, FieldZone::Left), Some(6));
        assert_eq!(get_defensive_player(&mut dice, &lineup, FieldZone::Box), Some(6));
    }
}
