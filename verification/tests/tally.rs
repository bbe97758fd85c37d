use football_sim::dice::Dice;
use football_sim::manager::Manager;
use football_sim::player::Player;
use football_sim::position::Position;
use football_sim::squad::{Lineup, Squad};
use football_sim::tactics::{Tactics, Width};
use football_sim::tally::{
    booking_for, corners_won, count_hits, expected_crosses, expected_shots, free_kicks,
    goals_scored, judge_lineup, keep_record, penalties_won, propensity, scoring_odds,
    shots_on_target, tally_half, Booking, Discipline, Verdict,
};

fn tally_player(id: u32, position: Position, level: u8) -> Player {
    let mut p = Player::new();
    p.id = id;
    p.position = position;
    p.decision_making = level;
    p.vision = level;
    p.creativity = level;
    p.pace = level;
    p.strength = level;
    p.stamina = level;
    p.passing = level;
    p.technique = level;
    p.tackling = level;
    p.marking = level;
    p.goalkeeping = level;
    p.defensive_positioning = level;
    p.shooting = level;
    p.long_shots = level;
    p.attack_positioning = level;
    p
}

fn tally_tactics() -> Tactics {
    Tactics {
        defense_line: 50,
        compactness: 50,
        aggression: 50,
        build_up_speed: 50,
        attack_width: Width::Balanced,
        shoot_more_often: false,
        cross_more_often: false,
        pass_range: 50,
    }
}

fn booked_lineup(
    dice: &mut Dice,
    lineup: &Lineup,
    tactics: &Tactics,
    booked: &Vec<u32>,
) -> Discipline {
    let verdicts = judge_lineup(dice, lineup, tactics);
    keep_record(lineup, &verdicts, booked)
}

fn tally_manager() -> Manager {
    Manager { id: 1, name: String::from("Boss"), tactical: 50, management: 50, coaching: 50 }
}

fn tally_shape() -> [Position; 11] {
    [
        Position::Goalkeeper,
        Position::LeftBack,
        Position::CenterBack,
        Position::CenterBack,
        Position::RightBack,
        Position::DefensiveMidfield,
        Position::CenterMidfield,
        Position::AttackingMidfield,
        Position::LeftWing,
        Position::RightWing,
        Position::Striker,
    ]
}

fn tally_team(first_id: u32, level: u8) -> Vec<Player> {
    let positions = tally_shape();
    (0..11).map(|i| tally_player(first_id + i as u32, positions[i], level)).collect()
}

#[test]
fn shots_follow_possessions_craft_and_resistance() {
    let t = tally_tactics();
    // 22 * 10 * 3300 / (20 * 5300) = 6.8
    assert_eq!(expected_shots(22, 3300, 2000, &t), 6);
    assert_eq!(expected_shots(22, 3300, 0, &t), 11);
    assert_eq!(expected_shots(22, 0, 2000, &t), 0);
    assert_eq!(expected_shots(0, 3300, 2000, &t), 0);
    assert_eq!(expected_shots(45, 1, 0, &t), 22);
    let mut eager = tally_tactics();
    eager.shoot_more_often = true;
    eager.build_up_speed = 255;
    // rate 10 + 3 + 3
    assert_eq!(expected_shots(22, 3300, 2000, &eager), 10);
    assert_eq!(expected_shots(255, u64::MAX, 0, &eager), 204);
    assert_eq!(expected_shots(255, u64::MAX, u64::MAX, &eager), 102);
}

#[test]
fn no_shots_without_craft_or_resistance() {
    assert_eq!(expected_shots(45, 0, 0, &tally_tactics()), 0);
    assert_eq!(expected_crosses(45, 0, 0, &tally_tactics()), 0);
}

#[test]
fn crosses_follow_possessions_and_the_flanks() {
    let t = tally_tactics();
    // 30 * 10 * 6000 / (40 * 10000) = 4.5
    assert_eq!(expected_crosses(30, 6000, 4000, &t), 4);
    let mut wide = tally_tactics();
    wide.cross_more_often = true;
    // 30 * 13 * 6000 / (40 * 10000) = 5.85
    assert_eq!(expected_crosses(30, 6000, 4000, &wide), 5);
    assert_eq!(expected_crosses(30, 0, 4000, &t), 0);
    assert_eq!(expected_crosses(255, u64::MAX, 0, &wide), 82);
}

#[test]
fn scoring_odds_fall_with_the_goalkeeper() {
    assert_eq!(scoring_odds(None), 512);
    assert_eq!(scoring_odds(Some(0)), 320);
    assert_eq!(scoring_odds(Some(128)), 192);
    assert_eq!(scoring_odds(Some(255)), 65);
}

#[test]
fn propensity_to_foul() {
    let mut p = Player::new();
    p.stamina = 100;
    p.decision_making = 150;
    p.tackling = 64;
    let mut t = tally_tactics();
    t.aggression = 128;
    // 155 + 105 + 128 * 64 / 64
    assert_eq!(propensity(&p, &t), 388);
    p.tackling = 0;
    // rashness 128 * 64 / 1, stopped at 510
    assert_eq!(propensity(&p, &t), 155 + 105 + 510);
    p.tackling = 255;
    assert_eq!(propensity(&p, &t), 155 + 105 + 32);
    t.aggression = 0;
    p.stamina = 255;
    p.decision_making = 255;
    assert_eq!(propensity(&p, &t), 0);
    let blank = Player::new();
    t.aggression = 255;
    assert_eq!(propensity(&blank, &t), 1020);
}

#[test]
fn bookings_by_draw() {
    assert_eq!(booking_for(388, 0, 0), Booking::Clean);
    assert_eq!(booking_for(388, 1, 0), Booking::Red);
    assert_eq!(booking_for(388, 1, 387), Booking::Red);
    assert_eq!(booking_for(388, 1, 388), Booking::Yellow);
    assert_eq!(booking_for(388, 3, 4267), Booking::Yellow);
    assert_eq!(booking_for(388, 3, 4268), Booking::Clean);
    assert_eq!(booking_for(388, 3, 40_799), Booking::Clean);
    assert_eq!(booking_for(0, 3, 0), Booking::Clean);
    assert_eq!(booking_for(1020, 1, 11_219), Booking::Yellow);
    assert_eq!(booking_for(1020, 1, 11_220), Booking::Clean);
}

#[test]
fn free_kicks_without_a_foul() {
    let mut dice = Dice::seeded(41);
    for yellow_cards in [0u8, 1, 5, 255] {
        for _ in 0..50 {
            assert_eq!(free_kicks(&mut dice, yellow_cards, 0), 0);
        }
    }
}

#[test]
fn free_kicks_lie_between_yellow_cards_and_fouls() {
    let mut dice = Dice::seeded(42);
    let mut seen = [false; 10];
    for _ in 0..500 {
        let kicks = free_kicks(&mut dice, 3, 10);
        assert!((3..10).contains(&kicks));
        seen[kicks as usize] = true;
    }
    assert_eq!(seen, [false, false, false, true, true, true, true, true, true, true]);
    // Where the range is empty every foul gives a free kick.
    assert_eq!(free_kicks(&mut dice, 4, 4), 4);
    assert_eq!(free_kicks(&mut dice, 9, 4), 4);
    assert_eq!(free_kicks(&mut dice, 0, 1), 0);
}

#[test]
fn corners_and_penalties_stay_in_range() {
    let mut dice = Dice::seeded(43);
    let mut most_corners = 0;
    let mut most_penalties = 0;
    for _ in 0..500 {
        let corners = corners_won(&mut dice, 22);
        assert!(corners <= 5);
        most_corners = most_corners.max(corners);
        let penalties = penalties_won(&mut dice, 17);
        assert!(penalties <= 2);
        most_penalties = most_penalties.max(penalties);
        assert_eq!(corners_won(&mut dice, 3), 0);
        assert_eq!(penalties_won(&mut dice, 7), 0);
        assert_eq!(penalties_won(&mut dice, 0), 0);
    }
    assert_eq!(most_corners, 5);
    assert_eq!(most_penalties, 2);
}

#[test]
fn shots_on_target_and_goals_never_outnumber_the_shots() {
    let players = tally_team(1, 128);
    let manager = tally_manager();
    let squad = Squad {
        manager: &manager,
        players: std::array::from_fn(|i| &players[i]),
        subs: Vec::new(),
        tactics: tally_tactics(),
    };
    let lineup = Lineup::of(&squad, &Vec::new());
    let mut dice = Dice::seeded(44);
    let mut on_target_sum: u32 = 0;
    let mut goals_sum: u32 = 0;
    for _ in 0..300 {
        let on_target = shots_on_target(&mut dice, 20, &lineup, &squad.tactics);
        assert!(on_target <= 20);
        let goals = goals_scored(&mut dice, on_target, &lineup);
        assert!(goals <= on_target);
        on_target_sum += on_target as u32;
        goals_sum += goals as u32;
    }
    // Accuracy 512 / 1020 and, against a goalkeeper of 128, 192 goals in 512.
    assert!(2700 < on_target_sum && on_target_sum < 3300);
    assert!(goals_sum * 2 < on_target_sum && goals_sum * 4 > on_target_sum);
}

#[test]
fn a_team_without_finishing_misses_and_an_open_goal_is_hit() {
    let blunt = tally_team(1, 0);
    let sharp = tally_team(21, 255);
    let manager = tally_manager();
    let weak = Squad {
        manager: &manager,
        players: std::array::from_fn(|i| &blunt[i]),
        subs: Vec::new(),
        tactics: tally_tactics(),
    };
    let strong = Squad {
        manager: &manager,
        players: std::array::from_fn(|i| &sharp[i]),
        subs: Vec::new(),
        tactics: tally_tactics(),
    };
    let weak_lineup = Lineup::of(&weak, &Vec::new());
    let strong_lineup = Lineup::of(&strong, &Vec::new());
    let no_keeper = Lineup::of(&strong, &vec![21]);
    let mut dice = Dice::seeded(45);
    for _ in 0..100 {
        assert_eq!(shots_on_target(&mut dice, 30, &weak_lineup, &weak.tactics), 0);
        assert_eq!(shots_on_target(&mut dice, 30, &strong_lineup, &strong.tactics), 30);
        assert_eq!(goals_scored(&mut dice, 9, &no_keeper), 9);
        assert_eq!(goals_scored(&mut dice, 0, &strong_lineup), 0);
    }
}

#[test]
fn a_lineup_that_cannot_foul_is_not_booked() {
    let players = tally_team(1, 255);
    let manager = tally_manager();
    let mut tactics = tally_tactics();
    tactics.aggression = 0;
    let squad = Squad {
        manager: &manager,
        players: std::array::from_fn(|i| &players[i]),
        subs: Vec::new(),
        tactics,
    };
    let lineup = Lineup::of(&squad, &Vec::new());
    let mut dice = Dice::seeded(46);
    for _ in 0..100 {
        let record = booked_lineup(&mut dice, &lineup, &squad.tactics, &Vec::new());
        assert_eq!(record.fouls, 0);
        assert!(record.yellow_cards.is_empty());
        assert!(record.red_cards.is_empty());
    }
}

#[test]
fn cards_go_to_players_of_the_lineup() {
    let players = tally_team(1, 0);
    let manager = tally_manager();
    let mut tactics = tally_tactics();
    tactics.aggression = 255;
    let squad = Squad {
        manager: &manager,
        players: std::array::from_fn(|i| &players[i]),
        subs: Vec::new(),
        tactics,
    };
    let lineup = Lineup::of(&squad, &vec![4]);
    let booked: Vec<u32> = vec![2, 3];
    let mut dice = Dice::seeded(47);
    let mut yellow_total = 0;
    let mut second_yellow = false;
    for _ in 0..300 {
        let record = booked_lineup(&mut dice, &lineup, &squad.tactics, &booked);
        assert!(record.fouls <= 30);
        assert!(record.yellow_cards.len() <= record.fouls as usize);
        assert!(record.red_cards.len() <= 10);
        for id in record.yellow_cards.iter().chain(record.red_cards.iter()) {
            assert!((1..=11).contains(id) && *id != 4);
        }
        for id in record.yellow_cards.iter() {
            if booked.contains(id) {
                assert!(record.red_cards.contains(id));
                second_yellow = true;
            }
        }
        yellow_total += record.yellow_cards.len();
    }
    assert!(yellow_total > 0);
    assert!(second_yellow);
}

#[test]
fn a_half_is_made_up_of_its_parts() {
    let home_players = tally_team(1, 120);
    let away_players = tally_team(21, 100);
    let manager = tally_manager();
    let home = Squad {
        manager: &manager,
        players: std::array::from_fn(|i| &home_players[i]),
        subs: Vec::new(),
        tactics: tally_tactics(),
    };
    let away = Squad {
        manager: &manager,
        players: std::array::from_fn(|i| &away_players[i]),
        subs: Vec::new(),
        tactics: tally_tactics(),
    };
    let home_lineup = Lineup::of(&home, &Vec::new());
    let away_lineup = Lineup::of(&away, &Vec::new());
    let mut dice = Dice::seeded(48);
    for _ in 0..50 {
        let own = Discipline { fouls: 4, yellow_cards: vec![3], red_cards: vec![9] };
        let stats = tally_half(
            &mut dice,
            &home,
            &home_lineup,
            &away,
            &away_lineup,
            24,
            5333,
            own,
            2,
            6,
        );
        assert_eq!(stats.possession, 5333);
        // craft 11 * 360 = 3960; resistance (53 * 300 + 500) / 10 = 1640
        // 24 * 10 * 3960 / (20 * 5600) = 8.48
        assert_eq!(stats.shots, 8);
        assert!(stats.shots_on_target <= stats.shots);
        assert!(stats.goals <= stats.shots_on_target);
        // attack 2 * (2 * 10 * 360) * 10 = 144000; defence 2 * (2 * 10 * 400) * 13 = 208000
        // 24 * 10 * 144000 / (40 * 352000) = 2.45
        assert_eq!(stats.crosses, 2);
        assert!(stats.corners <= 6);
        assert!((2..6).contains(&stats.freekicks));
        assert_eq!(stats.penalties, 0);
        assert_eq!(stats.fouls, 4);
        assert_eq!(stats.yellow_cards, vec![3]);
        assert_eq!(stats.red_cards, vec![9]);
    }
}

#[test]
fn no_free_kick_in_a_half_without_a_foul_of_the_opponents() {
    let home_players = tally_team(1, 120);
    let away_players = tally_team(21, 100);
    let manager = tally_manager();
    let home = Squad {
        manager: &manager,
        players: std::array::from_fn(|i| &home_players[i]),
        subs: Vec::new(),
        tactics: tally_tactics(),
    };
    let away = Squad {
        manager: &manager,
        players: std::array::from_fn(|i| &away_players[i]),
        subs: Vec::new(),
        tactics: tally_tactics(),
    };
    let home_lineup = Lineup::of(&home, &Vec::new());
    let away_lineup = Lineup::of(&away, &Vec::new());
    let mut dice = Dice::seeded(49);
    for _ in 0..50 {
        let own = Discipline { fouls: 7, yellow_cards: Vec::new(), red_cards: Vec::new() };
        let stats = tally_half(
            &mut dice,
            &home,
            &home_lineup,
            &away,
            &away_lineup,
            24,
            5333,
            own,
            0,
            0,
        );
        assert_eq!(stats.freekicks, 0);
        assert_eq!(stats.penalties, 0);
    }
}

#[test]
fn a_record_is_made_up_of_the_verdicts() {
    let players = tally_team(1, 100);
    let manager = tally_manager();
    let squad = Squad {
        manager: &manager,
        players: std::array::from_fn(|i| &players[i]),
        subs: Vec::new(),
        tactics: tally_tactics(),
    };
    // Ids 1 to 11 without 4: ten players.
    let lineup = Lineup::of(&squad, &vec![4]);
    let clean = Verdict { fouls: 0, booking: Booking::Clean };
    let mut verdicts = vec![clean; 10];
    verdicts[0] = Verdict { fouls: 2, booking: Booking::Yellow }; // id 1
    verdicts[2] = Verdict { fouls: 1, booking: Booking::Red }; // id 3
    verdicts[3] = Verdict { fouls: 3, booking: Booking::Clean }; // id 5
    verdicts[5] = Verdict { fouls: 1, booking: Booking::Yellow }; // id 7
    verdicts[9] = Verdict { fouls: 1, booking: Booking::Yellow }; // id 11
    let booked: Vec<u32> = vec![7, 2, 7];
    let record = keep_record(&lineup, &verdicts, &booked);
    assert_eq!(record.fouls, 8);
    assert_eq!(record.yellow_cards, vec![1, 7, 11]);
    assert_eq!(record.red_cards, vec![3, 7]);
    let nothing = keep_record(&lineup, &vec![clean; 10], &booked);
    assert_eq!(nothing.fouls, 0);
    assert!(nothing.yellow_cards.is_empty() && nothing.red_cards.is_empty());
}

#[test]
fn the_fouls_of_a_record_stop_at_255() {
    let players = tally_team(1, 100);
    let manager = tally_manager();
    let squad = Squad {
        manager: &manager,
        players: std::array::from_fn(|i| &players[i]),
        subs: Vec::new(),
        tactics: tally_tactics(),
    };
    let lineup = Lineup::of(&squad, &Vec::new());
    let rough = Verdict { fouls: 200, booking: Booking::Red };
    let record = keep_record(&lineup, &vec![rough; 11], &Vec::new());
    assert_eq!(record.fouls, 255);
    assert_eq!(record.red_cards, (1..=11).collect::<Vec<u32>>());
    assert!(record.yellow_cards.is_empty());
}

#[test]
fn verdicts_follow_the_propensity() {
    let mut players = tally_team(1, 255);
    // Player 3 alone is prone to foul: 255 + 255 + 510.
    players[2].stamina = 0;
    players[2].decision_making = 0;
    players[2].tackling = 0;
    let manager = tally_manager();
    let mut tactics = tally_tactics();
    tactics.aggression = 255;
    let squad = Squad {
        manager: &manager,
        players: std::array::from_fn(|i| &players[i]),
        subs: Vec::new(),
        tactics,
    };
    let lineup = Lineup::of(&squad, &Vec::new());
    let mut dice = Dice::seeded(71);
    let mut most = 0;
    let mut seen = [false; 3];
    for _ in 0..2000 {
        let verdicts = judge_lineup(&mut dice, &lineup, &squad.tactics);
        assert_eq!(verdicts.len(), 11);
        for (i, verdict) in verdicts.iter().enumerate() {
            if i == 2 {
                assert!(verdict.fouls <= 3);
                most = most.max(verdict.fouls);
                if verdict.fouls == 0 {
                    assert_eq!(verdict.booking, Booking::Clean);
                }
                match verdict.booking {
                    Booking::Clean => seen[0] = true,
                    Booking::Yellow => seen[1] = true,
                    Booking::Red => seen[2] = true,
                }
            } else {
                // Propensity 255 * 64 / 255 = 64: never a foul.
                assert_eq!(verdict.fouls, 0);
                assert_eq!(verdict.booking, Booking::Clean);
            }
        }
    }
    assert_eq!(most, 3);
    assert_eq!(seen, [true, true, true]);
}

#[test]
fn hits_are_the_draws_below_the_odds() {
    let draws: Vec<u64> = vec![0, 64, 65, 511, 191, 192, 3];
    assert_eq!(count_hits(&draws, 65), 3);
    assert_eq!(count_hits(&draws, 192), 5);
    assert_eq!(count_hits(&draws, 512), 7);
    assert_eq!(count_hits(&draws, 0), 0);
    assert_eq!(count_hits(&Vec::new(), 512), 0);
}

#[test]
fn goals_against_the_best_goalkeeper_are_few() {
    let players = tally_team(1, 255);
    let manager = tally_manager();
    let squad = Squad {
        manager: &manager,
        players: std::array::from_fn(|i| &players[i]),
        subs: Vec::new(),
        tactics: tally_tactics(),
    };
    let lineup = Lineup::of(&squad, &Vec::new());
    let mut dice = Dice::seeded(72);
    let mut goals: u32 = 0;
    for _ in 0..200 {
        let scored = goals_scored(&mut dice, 50, &lineup);
        assert!(scored <= 50);
        goals += scored as u32;
    }
    // 65 cases in 512: about 1270 of 10000.
    assert!(1000 < goals && goals < 1550);
}
