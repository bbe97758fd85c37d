use football_sim::dice::Dice;

#[test]
fn draws_stay_below_the_bound() {
    let mut dice = Dice::seeded(51);
    let mut seen = [false; 7];
    for _ in 0..500 {
        let draw = dice.below(7);
        assert!(draw < 7);
        seen[draw as usize] = true;
        assert_eq!(dice.below(1), 0);
    }
    assert!(seen.iter().all(|s| *s));
}

#[test]
fn rolls_stay_in_the_range() {
    let mut dice = Dice::seeded(52);
    for _ in 0..500 {
        let draw = dice.roll(10, 13).unwrap();
        assert!((10..13).contains(&draw));
        assert_eq!(dice.roll(5, 6), Some(5));
    }
    assert_eq!(dice.roll(u64::MAX - 1, u64::MAX), Some(u64::MAX - 1));
}

#[test]
fn an_empty_range_gives_no_roll() {
    let mut dice = Dice::seeded(53);
    assert_eq!(dice.roll(3, 3), None);
    assert_eq!(dice.roll(4, 3), None);
    assert_eq!(dice.roll(0, 0), None);
    assert_eq!(dice.roll(u64::MAX, 0), None);
}

#[test]
fn jitter_shakes_by_a_fifth_at_most() {
    let mut dice = Dice::seeded(54);
    let mut low = u64::MAX;
    let mut high = 0;
    for _ in 0..2000 {
        let j = dice.jitter();
        assert!((80..120).contains(&j));
        low = low.min(j);
        high = high.max(j);
    }
    assert_eq!((low, high), (80, 119));
}

#[test]
fn chance_is_sure_at_the_ends() {
    let mut dice = Dice::seeded(55);
    for _ in 0..200 {
        assert!(!dice.chance(0, 10));
        assert!(!dice.chance(0, 0));
        assert!(!dice.chance(5, 0));
        assert!(dice.chance(10, 10));
        assert!(dice.chance(11, 10));
    }
}

#[test]
fn chance_comes_in_proportion() {
    let mut dice = Dice::seeded(56);
    let mut hits = 0;
    for _ in 0..4000 {
        if dice.chance(1, 4) {
            hits += 1;
        }
    }
    assert!(850 < hits && hits < 1150);
}

#[test]
fn the_same_seed_gives_the_same_draws() {
    let mut a = Dice::seeded(57);
    let mut b = Dice::seeded(57);
    let mut c = Dice::seeded(58);
    let first: Vec<u64> = (0..50).map(|_| a.below(1_000_000)).collect();
    let second: Vec<u64> = (0..50).map(|_| b.below(1_000_000)).collect();
    let third: Vec<u64> = (0..50).map(|_| c.below(1_000_000)).collect();
    assert_eq!(first, second);
    assert_ne!(first, third);
}

#[test]
fn unseeded_dice_draw_within_bounds() {
    let mut dice = Dice::new();
    for _ in 0..100 {
        assert!(dice.below(3) < 3);
    }
}
