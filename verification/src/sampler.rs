use vstd::prelude::*;
use crate::dice::Dice;

verus! {

/// Whether candidate `j` comes before candidate `i` on the wheel: candidates
/// stand in ascending order of weight, and of two with equal weight the one
/// listed first comes first.
pub open spec fn precedes(weights: Seq<u64>, j: int, i: int) -> bool {
    weights[j] < weights[i] || (weights[j] == weights[i] && j < i)
}

/// The sum of the first `upto` weights.
pub open spec fn weight_upto(weights: Seq<u64>, upto: int) -> nat
    decreases upto,
{
    if upto <= 0 {
        0
    } else {
        weight_upto(weights, upto - 1) + weights[upto - 1] as nat
    }
}

/// The sum of all weights: the size of the wheel.
pub open spec fn total_weight(weights: Seq<u64>) -> nat {
    weight_upto(weights, weights.len() as int)
}

/// The sum of those among the first `upto` weights whose candidate comes
/// before candidate `i` on the wheel.
pub open spec fn weight_before_upto(weights: Seq<u64>, i: int, upto: int) -> nat
    decreases upto,
{
    if upto <= 0 {
        0
    } else {
        weight_before_upto(weights, i, upto - 1) + if precedes(weights, upto - 1, i) {
            weights[upto - 1] as nat
        } else {
            0
        }
    }
}

/// Where candidate `i`'s slot begins: the weight of all candidates that come
/// before it on the wheel.
pub open spec fn weight_before(weights: Seq<u64>, i: int) -> nat {
    weight_before_upto(weights, i, weights.len() as int)
}

/// Whether `draw` falls into the slot of candidate `i`. The slot is as wide
/// as the candidate's weight, so no draw falls on a candidate of weight zero.
pub open spec fn lands_on(weights: Seq<u64>, draw: nat, i: int) -> bool {
    &&& 0 <= i < weights.len()
    &&& weight_before(weights, i) <= draw < weight_before(weights, i) + weights[i]
}

/// The sum of those among the first `upto` weights that `taken` marks.
pub open spec fn weight_taken_upto(weights: Seq<u64>, taken: Seq<bool>, upto: int) -> nat
    decreases upto,
{
    if upto <= 0 {
        0
    } else {
        weight_taken_upto(weights, taken, upto - 1) + if taken[upto - 1] {
            weights[upto - 1] as nat
        } else {
            0
        }
    }
}

/// How many of the first `upto` candidates `taken` leaves unmarked.
pub open spec fn open_upto(taken: Seq<bool>, upto: int) -> nat
    decreases upto,
{
    if upto <= 0 {
        0
    } else {
        open_upto(taken, upto - 1) + if taken[upto - 1] {
            0nat
        } else {
            1nat
        }
    }
}

proof fn lemma_weight_upto_grows(weights: Seq<u64>, a: int, b: int)
    requires
        0 <= a <= b,
    ensures
        weight_upto(weights, a) <= weight_upto(weights, b),
    decreases b - a,
{
    if a < b {
        lemma_weight_upto_grows(weights, a, b - 1);
    }
}

proof fn lemma_taken_matches_before(weights: Seq<u64>, taken: Seq<bool>, i: int, upto: int)
    requires
        0 <= upto <= taken.len(),
        forall|j: int| 0 <= j < upto ==> taken[j] == #[trigger] precedes(weights, j, i),
    ensures
        weight_taken_upto(weights, taken, upto) == weight_before_upto(weights, i, upto),
    decreases upto,
{
    if upto > 0 {
        lemma_taken_matches_before(weights, taken, i, upto - 1);
        assert(taken[upto - 1] == precedes(weights, upto - 1, i));
    }
}

proof fn lemma_all_taken_is_total(weights: Seq<u64>, taken: Seq<bool>, upto: int)
    requires
        0 <= upto <= taken.len(),
        forall|j: int| 0 <= j < upto ==> #[trigger] taken[j],
    ensures
        weight_taken_upto(weights, taken, upto) == weight_upto(weights, upto),
    decreases upto,
{
    if upto > 0 {
        lemma_all_taken_is_total(weights, taken, upto - 1);
        assert(taken[upto - 1]);
    }
}

proof fn lemma_take_one(weights: Seq<u64>, taken: Seq<bool>, m: int, upto: int)
    requires
        0 <= upto <= taken.len(),
        0 <= m < taken.len(),
        !taken[m],
    ensures
        weight_taken_upto(weights, taken.update(m, true), upto) == weight_taken_upto(
            weights,
            taken,
            upto,
        ) + if m < upto {
            weights[m] as nat
        } else {
            0
        },
        open_upto(taken.update(m, true), upto) + if m < upto {
            1nat
        } else {
            0nat
        } == open_upto(taken, upto),
    decreases upto,
{
    if upto > 0 {
        lemma_take_one(weights, taken, m, upto - 1);
    }
}

/// A candidate's slot ends within the wheel.
pub proof fn lemma_slot_within_wheel(weights: Seq<u64>, i: int)
    requires
        0 <= i < weights.len(),
    ensures
        weight_before(weights, i) + weights[i] <= total_weight(weights),
{
    lemma_slot_within_upto(weights, i, weights.len() as int);
}

proof fn lemma_slot_within_upto(weights: Seq<u64>, i: int, upto: int)
    requires
        0 <= i,
        0 <= upto,
    ensures
        weight_before_upto(weights, i, upto) + if i < upto {
            weights[i] as nat
        } else {
            0
        } <= weight_upto(weights, upto),
    decreases upto,
{
    if upto > 0 {
        lemma_slot_within_upto(weights, i, upto - 1);
    }
}

proof fn lemma_earlier_slot_ends_before(weights: Seq<u64>, i: int, j: int, upto: int)
    requires
        0 <= i,
        0 <= j,
        0 <= upto,
        precedes(weights, i, j),
    ensures
        weight_before_upto(weights, i, upto) + if i < upto {
            weights[i] as nat
        } else {
            0
        } <= weight_before_upto(weights, j, upto),
    decreases upto,
{
    if upto > 0 {
        lemma_earlier_slot_ends_before(weights, i, j, upto - 1);
    }
}

/// No two slots overlap: a draw lands on one candidate at most.
pub proof fn lemma_slots_disjoint(weights: Seq<u64>, draw: nat, i: int, j: int)
    requires
        lands_on(weights, draw, i),
        lands_on(weights, draw, j),
    ensures
        i == j,
{
    if i != j {
        if precedes(weights, i, j) {
            lemma_earlier_slot_ends_before(weights, i, j, weights.len() as int);
        } else {
            assert(precedes(weights, j, i));
            lemma_earlier_slot_ends_before(weights, j, i, weights.len() as int);
        }
    }
}

/// The open candidate among the first `upto` that comes first on the wheel,
/// or -1 where none of them is open.
spec fn least_open_upto(weights: Seq<u64>, taken: Seq<bool>, upto: int) -> int
    decreases upto,
{
    if upto <= 0 {
        -1
    } else {
        let least = least_open_upto(weights, taken, upto - 1);
        if taken[upto - 1] {
            least
        } else if least < 0 || weights[upto - 1] < weights[least] {
            upto - 1
        } else {
            least
        }
    }
}

proof fn lemma_least_open(weights: Seq<u64>, taken: Seq<bool>, upto: int)
    requires
        0 <= upto <= weights.len(),
        taken.len() == weights.len(),
    ensures
        ({
            let least = least_open_upto(weights, taken, upto);
            &&& -1 <= least < upto
            &&& least < 0 ==> forall|j: int| 0 <= j < upto ==> #[trigger] taken[j]
            &&& least >= 0 ==> !taken[least] && forall|j: int|
                0 <= j < upto && !taken[j] && j != least ==> #[trigger] precedes(weights, least, j)
        }),
    decreases upto,
{
    if upto > 0 {
        lemma_least_open(weights, taken, upto - 1);
        let before = least_open_upto(weights, taken, upto - 1);
        let least = least_open_upto(weights, taken, upto);
        if least >= 0 {
            assert forall|j: int| 0 <= j < upto && !taken[j] && j != least implies #[trigger] precedes(
                weights,
                least,
                j,
            ) by {
                if before >= 0 && j != before && j < upto - 1 {
                    assert(precedes(weights, before, j));
                }
            }
        }
    }
}

proof fn lemma_walk_lands(weights: Seq<u64>, taken: Seq<bool>, draw: nat)
    requires
        taken.len() == weights.len(),
        weight_taken_upto(weights, taken, weights.len() as int) <= draw < total_weight(weights),
        forall|i: int, j: int|
            0 <= i < weights.len() && 0 <= j < weights.len() && taken[i] && #[trigger] precedes(
                weights,
                j,
                i,
            ) ==> taken[j],
    ensures
        exists|i: int| lands_on(weights, draw, i),
    decreases open_upto(taken, weights.len() as int),
{
    let n = weights.len() as int;
    lemma_least_open(weights, taken, n);
    let m = least_open_upto(weights, taken, n);
    if m < 0 {
        lemma_all_taken_is_total(weights, taken, n);
    } else {
        assert forall|j: int| 0 <= j < n implies taken[j] == #[trigger] precedes(weights, j, m) by {
            if j != m {
                if taken[j] {
                    if precedes(weights, m, j) {
                        assert(taken[m]);
                    }
                    assert(precedes(weights, j, m));
                } else {
                    assert(precedes(weights, m, j));
                    assert(!precedes(weights, j, m));
                }
            } else {
                assert(!precedes(weights, m, m));
            }
        }
        lemma_taken_matches_before(weights, taken, m, n);
        lemma_take_one(weights, taken, m, n);
        if draw < weight_before(weights, m) + weights[m] {
            assert(lands_on(weights, draw, m));
        } else {
            let next = taken.update(m, true);
            assert forall|i: int, j: int|
                0 <= i < n && 0 <= j < n && next[i] && #[trigger] precedes(
                    weights,
                    j,
                    i,
                ) implies next[j] by {
                if i == m {
                    assert(taken[j] == precedes(weights, j, m));
                } else {
                    assert(taken[i]);
                }
            }
            lemma_walk_lands(weights, next, draw);
        }
    }
}

/// Every draw below the size of the wheel lands on a candidate, and by
/// [`lemma_slots_disjoint`] on one only: the slots cover the wheel.
pub proof fn lemma_every_draw_lands(weights: Seq<u64>, draw: nat)
    requires
        draw < total_weight(weights),
    ensures
        exists|i: int| lands_on(weights, draw, i),
{
    let taken = Seq::new(weights.len(), |j: int| false);
    lemma_none_taken(weights, taken, weights.len() as int);
    lemma_walk_lands(weights, taken, draw);
}

/// Every candidate of positive weight can be drawn: the draw at which its
/// slot begins lies on the wheel and lands on it.
pub proof fn lemma_positive_weight_can_win(weights: Seq<u64>, i: int)
    requires
        0 <= i < weights.len(),
        weights[i] > 0,
    ensures
        weight_before(weights, i) < total_weight(weights),
        lands_on(weights, weight_before(weights, i), i),
{
    lemma_slot_within_wheel(weights, i);
}

/// A wheel of candidates that weigh at most `cap` each is at most `cap`
/// times their number in size.
pub proof fn lemma_total_within(weights: Seq<u64>, cap: int)
    requires
        forall|i: int| 0 <= i < weights.len() ==> #[trigger] weights[i] <= cap,
    ensures
        total_weight(weights) <= weights.len() * cap,
{
    lemma_weight_upto_within(weights, cap, weights.len() as int);
}

proof fn lemma_weight_upto_within(weights: Seq<u64>, cap: int, upto: int)
    requires
        0 <= upto <= weights.len(),
        forall|i: int| 0 <= i < weights.len() ==> #[trigger] weights[i] <= cap,
    ensures
        weight_upto(weights, upto) <= upto * cap,
    decreases upto,
{
    if upto > 0 {
        lemma_weight_upto_within(weights, cap, upto - 1);
        assert(weights[upto - 1] <= cap);
        assert(upto * cap == (upto - 1) * cap + cap) by (nonlinear_arith);
    } else {
        assert(upto * cap == 0) by (nonlinear_arith)
            requires
                upto == 0,
        ;
    }
}

/// The wheel is empty exactly where every candidate weighs nothing.
pub proof fn lemma_total_zero(weights: Seq<u64>)
    ensures
        total_weight(weights) == 0 <==> forall|i: int|
            0 <= i < weights.len() ==> #[trigger] weights[i] == 0,
{
    lemma_weight_upto_zero(weights, weights.len() as int);
}

proof fn lemma_weight_upto_zero(weights: Seq<u64>, upto: int)
    requires
        0 <= upto <= weights.len(),
    ensures
        weight_upto(weights, upto) == 0 <==> forall|i: int|
            0 <= i < upto ==> #[trigger] weights[i] == 0,
    decreases upto,
{
    if upto > 0 {
        lemma_weight_upto_zero(weights, upto - 1);
        if weight_upto(weights, upto) == 0 {
            assert forall|i: int| 0 <= i < upto implies #[trigger] weights[i] == 0 by {
                if i < upto - 1 {
                } else {
                    assert(weights[upto - 1] == 0);
                }
            }
        } else {
            if weights[upto - 1] == 0 {
                assert(weight_upto(weights, upto - 1) != 0);
            }
        }
    }
}

/// The size of the wheel.
pub fn sum_weights(weights: &Vec<u64>) -> (total: u64)
    requires
        total_weight(weights@) <= u64::MAX,
    ensures
        total == total_weight(weights@),
{
    let mut total: u64 = 0;
    let mut k: usize = 0;
    while k < weights.len()
        invariant
            k <= weights.len(),
            total == weight_upto(weights@, k as int),
            total_weight(weights@) <= u64::MAX,
        decreases weights.len() - k,
    {
        proof {
            lemma_weight_upto_grows(weights@, k + 1, weights.len() as int);
        }
        total = total + weights[k];
        k = k + 1;
    }
    total
}

/// The open candidate that comes first on the wheel, if any is open.
fn first_open(weights: &Vec<u64>, taken: &Vec<bool>) -> (found: Option<usize>)
    requires
        taken.len() == weights.len(),
    ensures
        match found {
            Some(m) => {
                &&& m < weights.len()
                &&& !taken[m as int]
                &&& forall|j: int|
                    0 <= j < weights.len() && !taken[j] && j != m ==> #[trigger] precedes(
                        weights@,
                        m as int,
                        j,
                    )
            },
            None => forall|j: int| 0 <= j < weights.len() ==> #[trigger] taken[j],
        },
{
    let mut found: Option<usize> = None;
    let mut k: usize = 0;
    while k < weights.len()
        invariant
            k <= weights.len(),
            taken.len() == weights.len(),
            match found {
                Some(m) => {
                    &&& m < k
                    &&& !taken[m as int]
                    &&& forall|j: int|
                        0 <= j < k && !taken[j] && j != m ==> #[trigger] precedes(
                            weights@,
                            m as int,
                            j,
                        )
                },
                None => forall|j: int| 0 <= j < k ==> #[trigger] taken[j],
            },
        decreases weights.len() - k,
    {
        if !taken[k] {
            match found {
                Some(m) => {
                    if weights[k] < weights[m] {
                        assert forall|j: int| 0 <= j < k && !taken[j] implies #[trigger] precedes(
                            weights@,
                            k as int,
                            j,
                        ) by {
                            assert(j != m ==> precedes(weights@, m as int, j));
                        }
                        found = Some(k);
                    }
                },
                None => {
                    found = Some(k);
                },
            }
        }
        k = k + 1;
    }
    found
}

/// Roulette-wheel selection for a given draw. The candidates are walked in
/// ascending order of weight while their weights are summed up; the first
/// candidate at which the sum exceeds the draw is chosen. A draw at or beyond
/// the size of the wheel chooses nobody.
pub fn pick(weights: &Vec<u64>, draw: u64) -> (chosen: Option<usize>)
    ensures
        chosen is Some <==> draw < total_weight(weights@),
        chosen matches Some(i) ==> lands_on(weights@, draw as nat, i as int),
{
    let n: usize = weights.len();
    let mut taken: Vec<bool> = Vec::new();
    while taken.len() < n
        invariant
            taken.len() <= n,
            forall|j: int| 0 <= j < taken.len() ==> !#[trigger] taken[j],
        decreases n - taken.len(),
    {
        taken.push(false);
    }
    let mut passed: u64 = 0;
    proof {
        lemma_none_taken(weights@, taken@, n as int);
    }
    loop
        invariant
            n == weights.len(),
            taken.len() == n,
            passed == weight_taken_upto(weights@, taken@, n as int),
            passed <= draw,
            forall|i: int, j: int|
                0 <= i < n && 0 <= j < n && taken[i] && #[trigger] precedes(weights@, j, i)
                    ==> taken[j],
        decreases open_upto(taken@, n as int),
    {
        match first_open(weights, &taken) {
            None => {
                proof {
                    lemma_all_taken_is_total(weights@, taken@, n as int);
                }
                return None;
            },
            Some(m) => {
                proof {
                    assert forall|j: int| 0 <= j < n implies taken[j] == #[trigger] precedes(
                        weights@,
                        j,
                        m as int,
                    ) by {
                        if j != m {
                            if taken[j] {
                                if precedes(weights@, m as int, j) {
                                    assert(taken[m as int]);
                                }
                                assert(precedes(weights@, j, m as int));
                            } else {
                                assert(precedes(weights@, m as int, j));
                                assert(!precedes(weights@, j, m as int));
                            }
                        } else {
                            assert(!precedes(weights@, m as int, m as int));
                        }
                    }
                    lemma_taken_matches_before(weights@, taken@, m as int, n as int);
                    lemma_slot_within_wheel(weights@, m as int);
                    lemma_take_one(weights@, taken@, m as int, n as int);
                }
                if draw - passed < weights[m] {
                    return Some(m);
                }
                passed = passed + weights[m];
                taken.set(m, true);
            },
        }
    }
}

proof fn lemma_none_taken(weights: Seq<u64>, taken: Seq<bool>, upto: int)
    requires
        0 <= upto <= taken.len(),
        forall|j: int| 0 <= j < upto ==> !#[trigger] taken[j],
    ensures
        weight_taken_upto(weights, taken, upto) == 0,
    decreases upto,
{
    if upto > 0 {
        lemma_none_taken(weights, taken, upto - 1);
        assert(!taken[upto - 1]);
    }
}

/// Draws one candidate with a probability in proportion to its weight.
/// Nobody is chosen where there is no candidate or every weight is zero; a
/// candidate of weight zero is never chosen.
pub fn weighted_choice(dice: &mut Dice, weights: &Vec<u64>) -> (chosen: Option<usize>)
    requires
        total_weight(weights@) <= u64::MAX,
    ensures
        chosen is None <==> total_weight(weights@) == 0,
        chosen matches Some(i) ==> {
            &&& i < weights.len()
            &&& weights[i as int] > 0
            &&& exists|draw: nat|
                draw < total_weight(weights@) && #[trigger] lands_on(weights@, draw, i as int)
        },
{
    let total: u64 = sum_weights(weights);
    if total == 0 {
        return None;
    }
    let draw: u64 = dice.below(total);
    let chosen = pick(weights, draw);
    assert(chosen matches Some(i) ==> lands_on(weights@, draw as nat, i as int));
    chosen
}

} // verus!
