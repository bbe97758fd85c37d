use football_sim::dice::Dice;
use football_sim::sampler::{pick, sum_weights, weighted_choice};

#[test]
fn pick_walks_candidates_in_ascending_order_of_weight() {
    // On the wheel: index 1 (weight 1), then index 2 (weight 2), then index 0 (weight 5).
    let weights: Vec<u64> = vec![5, 1, 2];
    assert_eq!(pick(&weights, 0), Some(1));
    assert_eq!(pick(&weights, 1), Some(2));
    assert_eq!(pick(&weights, 2), Some(2));
    assert_eq!(pick(&weights, 3), Some(0));
    assert_eq!(pick(&weights, 7), Some(0));
    assert_eq!(pick(&weights, 8), None);
}

#[test]
fn pick_breaks_ties_by_position() {
    let weights: Vec<u64> = vec![3, 3, 3];
    assert_eq!(pick(&weights, 0), Some(0));
    assert_eq!(pick(&weights, 2), Some(0));
    assert_eq!(pick(&weights, 3), Some(1));
    assert_eq!(pick(&weights, 6), Some(2));
    assert_eq!(pick(&weights, 9), None);
}

#[test]
fn pick_never_lands_on_weight_zero() {
    let weights: Vec<u64> = vec![0, 4, 0];
    for draw in 0..4u64 {
        assert_eq!(pick(&weights, draw), Some(1));
    }
    assert_eq!(pick(&weights, 4), None);
}

#[test]
fn sum_weights_adds_everything() {
    assert_eq!(sum_weights(&vec![5, 1, 2]), 8);
    assert_eq!(sum_weights(&Vec::new()), 0);
}

#[test]
fn weighted_choice_of_nothing_is_none() {
    let mut dice = Dice::seeded(1);
    assert_eq!(weighted_choice(&mut dice, &Vec::new()), None);
    assert_eq!(weighted_choice(&mut dice, &vec![0, 0, 0]), None);
}

#[test]
fn weighted_choice_takes_the_only_positive_weight() {
    let mut dice = Dice::seeded(2);
    for _ in 0..200 {
        assert_eq!(weighted_choice(&mut dice, &vec![0, 0, 5]), Some(2));
    }
}

#[test]
fn weighted_choice_is_a_member_with_positive_weight() {
    let mut dice = Dice::seeded(3);
    let weights: Vec<u64> = vec![7, 0, 1, 12];
    let mut seen = [0u32; 4];
    for _ in 0..2000 {
        let i = weighted_choice(&mut dice, &weights).unwrap();
        assert!(i < weights.len());
        assert!(weights[i] > 0);
        seen[i] += 1;
    }
    assert_eq!(seen[1], 0);
    assert!(seen[3] > seen[0] && seen[0] > seen[2] && seen[2] > 0);
}
