use football_sim::field::Flank;
use football_sim::manager::Manager;
use football_sim::player::Player;
use football_sim::position::Position;
use football_sim::squad::{Lineup, Squad};
use football_sim::strength::{
    aerial_attack, aerial_defense, contribution, defensive_strength, get_poss,
    get_team_poss_score, plays_on_flank, split_possession, strength, team_tactics, wide_attack,
    wide_defense, Axis, FULL_SHARE,
};
use football_sim::style::PlayStyle;
use football_sim::tactics::{Tactics, Width};

fn level_player(id: u32, position: Position, style: PlayStyle, level: u8) -> Player {
    let mut p = Player::new();
    p.id = id;
    p.position = position;
    p.playstyle = style;
    p.morale = level;
    p.form = level;
    p.tactical = level;
    p.leadership = level;
    p.decision_making = level;
    p.vision = level;
    p.creativity = level;
    p.fitness = level;
    p.pace = level;
    p.strength = level;
    p.stamina = level;
    p.height = level;
    p.jumping = level;
    p.passing = level;
    p.technique = level;
    p.heading = level;
    p.set_pieces = level;
    p.tackling = level;
    p.marking = level;
    p.goalkeeping = level;
    p.defensive_positioning = level;
    p.shooting = level;
    p.long_shots = level;
    p.attack_positioning = level;
    p
}

fn plain_tactics() -> Tactics {
    Tactics {
        defense_line: 60,
        compactness: 40,
        aggression: 50,
        build_up_speed: 50,
        attack_width: Width::Balanced,
        shoot_more_often: false,
        cross_more_often: false,
        pass_range: 50,
    }
}

fn bench(tactical: u8, management: u8) -> Manager {
    Manager { id: 1, name: String::from("Boss"), tactical, management, coaching: 0 }
}

fn formation() -> [Position; 11] {
    [
        Position::Goalkeeper,
        Position::LeftBack,
        Position::CenterBack,
        Position::CenterBack,
        Position::RightBack,
        Position::DefensiveMidfield,
        Position::CenterMidfield,
        Position::AttackingMidfield,
        Position::LeftWing,
        Position::RightWing,
        Position::Striker,
    ]
}

fn level_team(level: u8) -> Vec<Player> {
    let positions = formation();
    (0..11).map(|i| level_player(i as u32, positions[i], PlayStyle::Default, level)).collect()
}

#[test]
fn possession_contribution_of_one_player() {
    // 3060 per attribute point, and 600 for each point of the formation bonus.
    let keeper = level_player(1, Position::Goalkeeper, PlayStyle::Default, 100);
    assert_eq!(contribution(Axis::Possession, &keeper), 306_000);
    let engine = level_player(2, Position::CenterMidfield, PlayStyle::BoxToBox, 100);
    assert_eq!(contribution(Axis::Possession, &engine), 306_000 + 600 * 18);
    let misfit = level_player(3, Position::CenterMidfield, PlayStyle::False9, 100);
    assert_eq!(contribution(Axis::Possession, &misfit), 306_000 + 600 * 12);
    let blank = Player::new();
    assert_eq!(contribution(Axis::Possession, &blank), 0);
    let best = level_player(4, Position::CenterMidfield, PlayStyle::Playmaker, 255);
    assert_eq!(contribution(Axis::Possession, &best), 3060 * 255 + 600 * 18);
}

#[test]
fn possession_contribution_weighs_each_attribute() {
    let mut p = Player::new();
    p.passing = 10;
    // recycling 10 * 10 * 30, ball skills 10 * 200
    assert_eq!(contribution(Axis::Possession, &p), 3000 + 2000);
    let mut q = Player::new();
    q.decision_making = 10;
    // 8 * 30 + 7 * 30 + 7 * 15 + 8 * 12 = 651 per point
    assert_eq!(contribution(Axis::Possession, &q), 6510);
    let mut r = Player::new();
    r.vision = 10;
    assert_eq!(contribution(Axis::Possession, &r), 7 * 12 * 10);
}

#[test]
fn defense_contribution_by_position() {
    let keeper = level_player(1, Position::Goalkeeper, PlayStyle::Default, 100);
    assert_eq!(contribution(Axis::Defense, &keeper), 500);
    let stopper = level_player(2, Position::CenterBack, PlayStyle::Default, 100);
    assert_eq!(contribution(Axis::Defense, &stopper), 3000);
    let striker = level_player(3, Position::Striker, PlayStyle::Default, 100);
    assert_eq!(contribution(Axis::Defense, &striker), 300);
    let back = level_player(4, Position::LeftBack, PlayStyle::Default, 100);
    assert_eq!(contribution(Axis::Defense, &back), 2400);
}

#[test]
fn aerial_contributions_by_position() {
    let striker = level_player(1, Position::Striker, PlayStyle::Default, 100);
    assert_eq!(contribution(Axis::AerialAttack, &striker), 5000);
    assert_eq!(contribution(Axis::AerialDefense, &striker), 1000);
    let stopper = level_player(2, Position::CenterBack, PlayStyle::Default, 100);
    assert_eq!(contribution(Axis::AerialAttack, &stopper), 3500);
    assert_eq!(contribution(Axis::AerialDefense, &stopper), 5000);
    let keeper = level_player(3, Position::Goalkeeper, PlayStyle::Default, 100);
    assert_eq!(contribution(Axis::AerialAttack, &keeper), 0);
    assert_eq!(contribution(Axis::AerialDefense, &keeper), 4000);
}

#[test]
fn wide_contributions_count_on_the_own_flank_only() {
    let winger = level_player(1, Position::LeftWing, PlayStyle::Wide, 100);
    assert_eq!(contribution(Axis::WideAttack(Flank::Left), &winger), 3900);
    assert_eq!(contribution(Axis::WideAttack(Flank::Right), &winger), 0);
    assert_eq!(contribution(Axis::WideDefense(Flank::Left), &winger), 4000);
    let tracker = level_player(2, Position::RightMidfield, PlayStyle::TrackBack, 100);
    assert_eq!(contribution(Axis::WideDefense(Flank::Right), &tracker), 5200);
    assert_eq!(contribution(Axis::WideAttack(Flank::Right), &tracker), 2700);
    assert_eq!(contribution(Axis::WideDefense(Flank::Left), &tracker), 0);
    let middle = level_player(3, Position::CenterMidfield, PlayStyle::Wide, 100);
    assert_eq!(contribution(Axis::WideAttack(Flank::Left), &middle), 0);
    assert_eq!(contribution(Axis::WideDefense(Flank::Right), &middle), 0);
}

#[test]
fn creation_and_finishing_contributions() {
    let mut p = Player::new();
    p.creativity = 10;
    p.passing = 20;
    p.technique = 30;
    p.shooting = 40;
    p.long_shots = 50;
    p.decision_making = 60;
    assert_eq!(contribution(Axis::Creation, &p), 60);
    assert_eq!(contribution(Axis::Finishing, &p), 190);
}

#[test]
fn flanks_hold_the_wide_positions() {
    for position in formation() {
        let left = matches!(position, Position::LeftBack | Position::LeftWing);
        let right = matches!(position, Position::RightBack | Position::RightWing);
        assert_eq!(plays_on_flank(position, Flank::Left), left);
        assert_eq!(plays_on_flank(position, Flank::Right), right);
    }
    assert!(plays_on_flank(Position::LeftWingBack, Flank::Left));
    assert!(plays_on_flank(Position::LeftMidfield, Flank::Left));
    assert!(plays_on_flank(Position::RightWingBack, Flank::Right));
    assert!(plays_on_flank(Position::RightMidfield, Flank::Right));
}

#[test]
fn team_tactics_term() {
    // pressing 60 * 50 / 40 = 75, patience 65025 / 2500 = 26
    let manager = bench(70, 80);
    assert_eq!(team_tactics(&plain_tactics(), &manager), (75 + 26) * 150 * 30);
    let mut eager = plain_tactics();
    eager.shoot_more_often = true;
    // patience 26 * 8 / 10 = 20
    assert_eq!(team_tactics(&eager, &manager), (75 + 20) * 150 * 30);
}

#[test]
fn team_tactics_term_guards_the_zero_divisors() {
    let manager = bench(255, 255);
    let mut open = plain_tactics();
    open.defense_line = 255;
    open.aggression = 255;
    open.compactness = 0;
    open.build_up_speed = 0;
    open.pass_range = 0;
    assert_eq!(team_tactics(&open, &manager), (65025 + 65025) * 510 * 30);
    let nobody = bench(0, 0);
    assert_eq!(team_tactics(&open, &nobody), 0);
}

#[test]
fn strengths_of_a_lineup_are_sums() {
    let players = level_team(100);
    let manager = bench(70, 80);
    let squad = Squad {
        manager: &manager,
        players: std::array::from_fn(|i| &players[i]),
        subs: Vec::new(),
        tactics: plain_tactics(),
    };
    let lineup = Lineup::of(&squad, &Vec::new());
    // formation bonus: 0 + 4 + 4 + 4 + 4 + 10 + 12 + 10 + 4 + 4 + 2 = 58
    assert_eq!(strength(Axis::Possession, &lineup), 11 * 306_000 + 600 * 58);
    assert_eq!(get_team_poss_score(&squad, &lineup), 11 * 306_000 + 600 * 58 + 454_500);
    // cover: 8 + 10 + 10 + 8 + 7 + 5 + 2 + 1 + 1 + 1 = 53, and the goalkeeper's 500
    assert_eq!(defensive_strength(&lineup), 53 * 300 + 500);
    // reach: 3 + 7 + 7 + 3 + 4 + 5 + 6 + 5 + 5 + 10 = 55
    assert_eq!(aerial_attack(&lineup), 55 * 500);
    // guard: 8 + 6 + 10 + 10 + 6 + 7 + 5 + 2 + 1 + 1 + 2 = 58
    assert_eq!(aerial_defense(&lineup), 58 * 500);
    // left back and left wing: 2 * 10 * 300, balanced width 10
    assert_eq!(wide_attack(&squad.tactics, &lineup, Flank::Left), 6000 * 10);
    // 2 * 10 * 400, compactness 40 gives 13
    assert_eq!(wide_defense(&squad.tactics, &lineup, Flank::Right), 8000 * 13);
}

#[test]
fn width_shifts_the_wide_attack() {
    let players = level_team(100);
    let manager = bench(70, 80);
    let mut squad = Squad {
        manager: &manager,
        players: std::array::from_fn(|i| &players[i]),
        subs: Vec::new(),
        tactics: plain_tactics(),
    };
    let lineup = Lineup::of(&squad, &Vec::new());
    squad.tactics.attack_width = Width::Left;
    assert_eq!(wide_attack(&squad.tactics, &lineup, Flank::Left), 6000 * 13);
    assert_eq!(wide_attack(&squad.tactics, &lineup, Flank::Right), 6000 * 8);
    squad.tactics.attack_width = Width::Right;
    assert_eq!(wide_attack(&squad.tactics, &lineup, Flank::Left), 6000 * 8);
    assert_eq!(wide_attack(&squad.tactics, &lineup, Flank::Right), 6000 * 13);
    squad.tactics.attack_width = Width::Central;
    assert_eq!(wide_attack(&squad.tactics, &lineup, Flank::Left), 6000 * 7);
    assert_eq!(wide_attack(&squad.tactics, &lineup, Flank::Right), 6000 * 7);
    squad.tactics.compactness = 255;
    assert_eq!(wide_defense(&squad.tactics, &lineup, Flank::Left), 8000 * 10);
    squad.tactics.compactness = 0;
    assert_eq!(wide_defense(&squad.tactics, &lineup, Flank::Left), 8000 * 13);
}

#[test]
fn sent_off_players_add_nothing() {
    let players = level_team(100);
    let manager = bench(70, 80);
    let squad = Squad {
        manager: &manager,
        players: std::array::from_fn(|i| &players[i]),
        subs: Vec::new(),
        tactics: plain_tactics(),
    };
    // The centre midfielder (id 6) and the goalkeeper (id 0) are off.
    let lineup = Lineup::of(&squad, &vec![6, 0]);
    assert_eq!(strength(Axis::Possession, &lineup), 9 * 306_000 + 600 * 46);
    assert_eq!(defensive_strength(&lineup), 48 * 300);
    assert_eq!(aerial_defense(&lineup), 45 * 500);
}

#[test]
fn possession_is_split_in_proportion_with_home_advantage() {
    assert_eq!(split_possession(1000, 1000), (5238, 4762));
    assert_eq!(split_possession(10, 11), (5000, 5000));
    assert_eq!(split_possession(1, 3), (2682, 7318));
    assert_eq!(split_possession(7, 0), (10_000, 0));
    assert_eq!(split_possession(0, 5), (0, 10_000));
    assert_eq!(split_possession(u64::MAX, u64::MAX), (5238, 4762));
}

#[test]
fn possession_of_two_teams_without_any_score_is_halved() {
    assert_eq!(split_possession(0, 0), (5000, 5000));
}

#[test]
fn possession_shares_add_up_to_the_whole() {
    for home in [0u64, 1, 2, 17, 999, 123_456, 2_000_765_000, u64::MAX] {
        for away in [0u64, 1, 3, 19, 1000, 654_321, 2_000_765_000, u64::MAX] {
            let (h, a) = split_possession(home, away);
            assert_eq!(h + a, FULL_SHARE);
        }
    }
}

#[test]
fn a_blank_squad_has_less_of_the_ball_than_the_best() {
    let weak = level_team(0);
    let strong = level_team(255);
    let nobody = bench(0, 0);
    let master = bench(255, 255);
    let mut no_tactics = plain_tactics();
    no_tactics.defense_line = 0;
    no_tactics.compactness = 0;
    no_tactics.aggression = 0;
    no_tactics.build_up_speed = 0;
    no_tactics.pass_range = 0;
    let home = Squad {
        manager: &nobody,
        players: std::array::from_fn(|i| &weak[i]),
        subs: Vec::new(),
        tactics: no_tactics,
    };
    let away = Squad {
        manager: &master,
        players: std::array::from_fn(|i| &strong[i]),
        subs: Vec::new(),
        tactics: plain_tactics(),
    };
    let home_lineup = Lineup::of(&home, &Vec::new());
    let away_lineup = Lineup::of(&away, &Vec::new());
    // The weak side has its formation bonus only.
    assert_eq!(get_team_poss_score(&home, &home_lineup), 600 * 58);
    let (h, a) = get_poss(&home, &home_lineup, &away, &away_lineup);
    assert_eq!(h + a, FULL_SHARE);
    assert!(h < a);
    let (h2, a2) = get_poss(&away, &away_lineup, &home, &home_lineup);
    assert_eq!(h2 + a2, FULL_SHARE);
    assert!(h2 > a2);
}
