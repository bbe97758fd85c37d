use vstd::prelude::*;
use crate::bounds::{lemma_product_within, lemma_share_within};
use crate::dice::Dice;
use crate::duel::{is_first_keeper, no_keeper};
use crate::field::Flank;
use crate::player::Player;
use crate::position::Position;
use crate::squad::{holds_id, Lineup, Squad};
use crate::stats::{GameStats, StatsModel};
use crate::strength::{
    defensive_strength, strength, strength_of, wide_attack, wide_attack_of, wide_defense,
    wide_defense_of, Axis, FULL_SHARE,
};
use crate::tactics::Tactics;

verus! {

/// How readily a team turns possession into shots, in tenths: more readily
/// when it shoots on sight, and the faster it builds up.
pub open spec fn chance_rate(tactics: Tactics) -> int {
    10 + (if tactics.shoot_more_often {
        3int
    } else {
        0int
    }) + tactics.build_up_speed as int / 64
}

/// The shots of a team in a half: half its possessions, in the proportion
/// of its craft to craft plus the resistance it meets, times its chance
/// rate. Craft and resistance are in attribute points. With neither there
/// is no shot.
pub open spec fn shots_of(touches: u8, craft: int, resistance: int, tactics: Tactics) -> int {
    if craft + resistance <= 0 {
        0
    } else {
        (touches * chance_rate(tactics) * craft) / (20 * (craft + resistance))
    }
}

/// How readily a team crosses, in tenths.
pub open spec fn cross_rate(tactics: Tactics) -> int {
    if tactics.cross_more_often {
        13
    } else {
        10
    }
}

/// The crosses of a team in a half: a quarter of its possessions, in the
/// proportion of its attack down the flanks to that attack plus the defence
/// of the flanks it meets, times its cross rate. With neither there is no
/// cross.
pub open spec fn crosses_of(touches: u8, attack: int, defense: int, tactics: Tactics) -> int {
    if attack + defense <= 0 {
        0
    } else {
        (touches * cross_rate(tactics) * attack) / (40 * (attack + defense))
    }
}

/// The shots of a team in a half.
pub fn expected_shots(touches: u8, craft: u64, resistance: u64, tactics: &Tactics) -> (shots: u8)
    ensures
        shots == shots_of(touches, craft as int, resistance as int, *tactics),
        shots <= 204,
{
    if craft == 0 && resistance == 0 {
        return 0;
    }
    let rate: u128 = 10 + (if tactics.shoot_more_often {
        3
    } else {
        0
    }) + (tactics.build_up_speed as u128) / 64;
    proof {
        lemma_product_within(touches as int, rate as int, 255, 16);
    }
    let whole: u128 = (touches as u128) * rate;
    proof {
        lemma_product_within(whole as int, craft as int, 4080, u64::MAX as int);
        lemma_share_within(whole as int, craft as int, resistance as int, 20);
    }
    let shots: u128 = whole * (craft as u128) / (20 * (craft as u128 + resistance as u128));
    shots as u8
}

/// The crosses of a team in a half.
pub fn expected_crosses(touches: u8, attack: u64, defense: u64, tactics: &Tactics) -> (crosses: u8)
    ensures
        crosses == crosses_of(touches, attack as int, defense as int, *tactics),
        crosses <= 82,
{
    if attack == 0 && defense == 0 {
        return 0;
    }
    let rate: u128 = if tactics.cross_more_often {
        13
    } else {
        10
    };
    proof {
        lemma_product_within(touches as int, rate as int, 255, 13);
    }
    let whole: u128 = (touches as u128) * rate;
    proof {
        lemma_product_within(whole as int, attack as int, 3315, u64::MAX as int);
        lemma_share_within(whole as int, attack as int, defense as int, 40);
    }
    let crosses: u128 = whole * (attack as u128) / (40 * (attack as u128 + defense as u128));
    crosses as u8
}

/// In how many cases out of 10200 for each player of the lineup a shot is
/// on target: ten for each point of finishing, eight for a team that shoots
/// on sight.
pub open spec fn accuracy_of(finishing: int, tactics: Tactics) -> int {
    finishing * (if tactics.shoot_more_often {
        8int
    } else {
        10int
    })
}

/// How many of a team's shots are on target: one trial for each shot, with
/// the team's accuracy out of 10200 cases for each player of the lineup. No
/// shot of a team without finishing is on target; every shot is where the
/// accuracy reaches the number of cases.
pub fn shots_on_target(dice: &mut Dice, shots: u8, lineup: &Lineup, tactics: &Tactics) -> (on_target:
    u8)
    ensures
        on_target <= shots,
        accuracy_of(strength_of(Axis::Finishing, lineup@), *tactics) == 0 ==> on_target == 0,
        0 < 10200 * lineup@.len() <= accuracy_of(strength_of(Axis::Finishing, lineup@), *tactics)
            ==> on_target == shots,
{
    let finishing: u64 = strength(Axis::Finishing, lineup);
    let favourable: u64 = finishing * (if tactics.shoot_more_often {
        8
    } else {
        10
    });
    let cases: u64 = 10200 * (lineup.len() as u64);
    let mut on_target: u8 = 0;
    let mut k: u8 = 0;
    while k < shots
        invariant
            k <= shots,
            on_target <= k,
            favourable == 0 ==> on_target == 0,
            0 < cases <= favourable ==> on_target == k,
        decreases shots - k,
    {
        if dice.chance(favourable, cases) {
            on_target = on_target + 1;
        }
        k = k + 1;
    }
    on_target
}

/// In how many cases out of 512 a shot on target goes in: the better the
/// goalkeeper, the fewer. Into an empty goal every one goes in.
pub open spec fn scoring_cases(keeper: Option<u8>) -> int {
    match keeper {
        Some(goalkeeping) => 320 - goalkeeping,
        None => 512,
    }
}

/// In how many cases out of 512 a shot on target goes in.
pub fn scoring_odds(keeper: Option<u8>) -> (cases: u64)
    ensures
        cases == scoring_cases(keeper),
        65 <= cases <= 512,
{
    match keeper {
        Some(goalkeeping) => 320 - (goalkeeping as u64),
        None => 512,
    }
}

/// Out of how many cases a shot on target is tried against the goalkeeper.
pub const SCORING_CASES: u64 = 512;

/// The goalkeeping of the first goalkeeper among `players`, if they hold
/// one.
pub open spec fn keeper_skill(players: Seq<&Player>) -> Option<u8> {
    if exists|i: int| is_first_keeper(players, i) {
        Some(players[choose|i: int| is_first_keeper(players, i)].goalkeeping)
    } else {
        None
    }
}

/// The goalkeeping that counts is that of the first goalkeeper.
pub proof fn lemma_keeper_skill(players: Seq<&Player>, i: int)
    requires
        is_first_keeper(players, i),
    ensures
        keeper_skill(players) == Some(players[i].goalkeeping),
{
    let chosen = choose|j: int| is_first_keeper(players, j);
    if chosen < i {
        assert(players[chosen].position == Position::Goalkeeper);
    } else if i < chosen {
        assert(players[i].position == Position::Goalkeeper);
    }
}

/// Without a goalkeeper no goalkeeping counts.
pub proof fn lemma_no_keeper_skill(players: Seq<&Player>)
    requires
        no_keeper(players),
    ensures
        keeper_skill(players) is None,
{
    if exists|i: int| is_first_keeper(players, i) {
        let i = choose|i: int| is_first_keeper(players, i);
        assert(players[i].position == Position::Goalkeeper);
    }
}

/// How many of the first `upto` draws are hits: below `favourable`.
pub open spec fn hits_upto(draws: Seq<u64>, favourable: u64, upto: int) -> int
    decreases upto,
{
    if upto <= 0 {
        0
    } else {
        hits_upto(draws, favourable, upto - 1) + if draws[upto - 1] < favourable {
            1int
        } else {
            0int
        }
    }
}

/// Whether `draws` can be the draws of `trials` trials: one draw below
/// `cases` for each.
pub open spec fn are_trials(draws: Seq<u64>, trials: int, cases: u64) -> bool {
    &&& draws.len() == trials
    &&& forall|k: int| 0 <= k < draws.len() ==> #[trigger] draws[k] < cases
}

/// There are no more hits than draws, and as many where every draw is a
/// hit.
pub proof fn lemma_hits_bounds(draws: Seq<u64>, favourable: u64, upto: int)
    requires
        0 <= upto <= draws.len(),
    ensures
        0 <= hits_upto(draws, favourable, upto) <= upto,
        (forall|k: int| 0 <= k < upto ==> #[trigger] draws[k] < favourable) ==> hits_upto(
            draws,
            favourable,
            upto,
        ) == upto,
    decreases upto,
{
    if upto > 0 {
        lemma_hits_bounds(draws, favourable, upto - 1);
        if forall|k: int| 0 <= k < upto ==> #[trigger] draws[k] < favourable {
            assert(draws[upto - 1] < favourable);
        }
    }
}

/// How many of the draws are hits: below `favourable`.
pub fn count_hits(draws: &Vec<u64>, favourable: u64) -> (hits: usize)
    ensures
        hits == hits_upto(draws@, favourable, draws.len() as int),
        hits <= draws.len(),
{
    let mut hits: usize = 0;
    let mut k: usize = 0;
    while k < draws.len()
        invariant
            k <= draws.len(),
            hits == hits_upto(draws@, favourable, k as int),
            hits <= k,
        decreases draws.len() - k,
    {
        if draws[k] < favourable {
            hits = hits + 1;
        }
        k = k + 1;
    }
    hits
}

/// How many of a team's shots on target go in: one trial for each against
/// the first goalkeeper of the opponents. A trial is a draw below
/// [`SCORING_CASES`], and the shot goes in where the draw is below the
/// scoring cases that the goalkeeper leaves. With no goalkeeper every one
/// goes in.
pub fn goals_scored(dice: &mut Dice, on_target: u8, opponents: &Lineup) -> (goals: u8)
    ensures
        goals <= on_target,
        no_keeper(opponents@) ==> goals == on_target,
        exists|draws: Seq<u64>|
            are_trials(draws, on_target as int, SCORING_CASES) && goals == #[trigger] hits_upto(
                draws,
                scoring_cases(keeper_skill(opponents@)) as u64,
                on_target as int,
            ),
{
    let keeper: Option<u8> = match opponents.goalkeeper() {
        Some(i) => {
            proof {
                assert(is_first_keeper(opponents@, i as int));
                lemma_keeper_skill(opponents@, i as int);
            }
            Some(opponents.get(i).goalkeeping)
        },
        None => {
            proof {
                lemma_no_keeper_skill(opponents@);
            }
            None
        },
    };
    let favourable: u64 = scoring_odds(keeper);
    let mut draws: Vec<u64> = Vec::new();
    while draws.len() < on_target as usize
        invariant
            draws.len() <= on_target,
            forall|k: int| 0 <= k < draws.len() ==> #[trigger] draws[k] < SCORING_CASES,
        decreases on_target - draws.len(),
    {
        let draw: u64 = dice.below(SCORING_CASES);
        draws.push(draw);
    }
    let hits: usize = count_hits(&draws, favourable);
    proof {
        lemma_hits_bounds(draws@, favourable, draws.len() as int);
        assert(are_trials(draws@, on_target as int, SCORING_CASES));
        if no_keeper(opponents@) {
            lemma_no_keeper_skill(opponents@);
        }
        assert(keeper == keeper_skill(opponents@));
        assert(favourable == scoring_cases(keeper_skill(opponents@)) as u64);
        assert(hits == hits_upto(
            draws@,
            scoring_cases(keeper_skill(opponents@)) as u64,
            on_target as int,
        ));
    }
    hits as u8
}

/// The corners of a team in a half: a draw from none to a quarter of its
/// possessions.
pub fn corners_won(dice: &mut Dice, touches: u8) -> (corners: u8)
    ensures
        corners <= touches / 4,
{
    let most: u64 = (touches / 4) as u64;
    let corners: u64 = dice.below(most + 1);
    corners as u8
}

/// The free kicks that a team is given in a half: a draw from the range
/// that starts at the opponents' yellow cards of the half and ends before
/// their fouls. Where that range is empty, each foul gives a free kick; so
/// with no foul there is no free kick.
pub fn free_kicks(dice: &mut Dice, opponent_yellow_cards: u8, opponent_fouls: u8) -> (kicks: u8)
    ensures
        kicks <= opponent_fouls,
        opponent_yellow_cards < opponent_fouls ==> opponent_yellow_cards <= kicks
            < opponent_fouls,
        opponent_yellow_cards >= opponent_fouls ==> kicks == opponent_fouls,
{
    match dice.roll(opponent_yellow_cards as u64, opponent_fouls as u64) {
        Some(kicks) => kicks as u8,
        None => opponent_fouls,
    }
}

/// The penalties that a team is given in a half: a draw from none to an
/// eighth of the opponents' fouls.
pub fn penalties_won(dice: &mut Dice, opponent_fouls: u8) -> (penalties: u8)
    ensures
        penalties <= opponent_fouls / 8,
{
    let most: u64 = (opponent_fouls / 8) as u64;
    let penalties: u64 = dice.below(most + 1);
    penalties as u8
}

/// How rash a player's tackles are: the team's aggression against the
/// player's tackling, 64 for a player who tackles as well as the team is
/// aggressive, and 510 at most. A tackling of zero counts as one.
pub open spec fn rashness(aggression: u8, tackling: u8) -> int {
    let ratio = aggression as int * 64 / (if tackling == 0 {
        1int
    } else {
        tackling as int
    });
    if ratio > 510 {
        510
    } else {
        ratio
    }
}

/// How prone a player is to foul: what is missing in stamina and in
/// decision making, and the rashness of the player's tackles. From 0 to
/// 1020.
pub open spec fn foul_propensity(p: &Player, tactics: Tactics) -> int {
    (255 - p.stamina) + (255 - p.decision_making) + rashness(tactics.aggression, p.tackling)
}

/// How prone a player is to foul.
pub fn propensity(p: &Player, tactics: &Tactics) -> (prone: u64)
    ensures
        prone == foul_propensity(p, *tactics),
        prone <= 1020,
{
    let tackling: u64 = if p.tackling == 0 {
        1
    } else {
        p.tackling as u64
    };
    let ratio: u64 = (tactics.aggression as u64) * 64 / tackling;
    let rash: u64 = if ratio > 510 {
        510
    } else {
        ratio
    };
    (255 - p.stamina as u64) + (255 - p.decision_making as u64) + rash
}

/// What the referee makes of a player's half.
#[derive(Clone, Copy, PartialEq, Eq, Structural, Debug, Hash)]
pub enum Booking {
    Clean,
    Yellow,
    Red,
}

/// Out of how many cases a booking is drawn.
pub const BOOKING_CASES: u64 = 40_800;

/// The booking of a player for a draw below [`BOOKING_CASES`]. Who has not
/// fouled is not booked. Of the others, the first `propensity` draws send
/// the player off, and ten times as many after them bring a yellow card.
pub open spec fn booking_of(propensity: int, fouls: int, draw: int) -> Booking {
    if fouls <= 0 {
        Booking::Clean
    } else if draw < propensity {
        Booking::Red
    } else if draw < 11 * propensity {
        Booking::Yellow
    } else {
        Booking::Clean
    }
}

/// The booking of a player for a draw.
pub fn booking_for(propensity: u64, fouls: u8, draw: u64) -> (booking: Booking)
    requires
        propensity <= 1020,
    ensures
        booking == booking_of(propensity as int, fouls as int, draw as int),
{
    if fouls == 0 {
        Booking::Clean
    } else if draw < propensity {
        Booking::Red
    } else if draw < 11 * propensity {
        Booking::Yellow
    } else {
        Booking::Clean
    }
}

/// What the referee makes of one player's half: how often the player
/// fouled, and the booking.
#[derive(Clone, Copy, Debug)]
pub struct Verdict {
    pub fouls: u8,
    pub booking: Booking,
}

/// Whether `verdict` can be the verdict on a player under these
/// instructions: a foul for each 256 points of propensity at most, and a
/// booking that a draw below [`BOOKING_CASES`] gives.
pub open spec fn is_verdict_on(verdict: Verdict, p: &Player, tactics: Tactics) -> bool {
    &&& verdict.fouls <= foul_propensity(p, tactics) / 256
    &&& exists|draw: int|
        0 <= draw < BOOKING_CASES && verdict.booking == #[trigger] booking_of(
            foul_propensity(p, tactics),
            verdict.fouls as int,
            draw,
        )
}

/// Whether `verdicts` can be the verdicts on the players of a lineup, one
/// for each, in order.
pub open spec fn are_verdicts_on(
    verdicts: Seq<Verdict>,
    players: Seq<&Player>,
    tactics: Tactics,
) -> bool {
    &&& verdicts.len() == players.len()
    &&& forall|i: int|
        0 <= i < verdicts.len() ==> is_verdict_on(#[trigger] verdicts[i], players[i], tactics)
}

/// The fouls and cards of one team in one half.
pub struct Discipline {
    pub fouls: u8,
    /// The ids of the players shown a yellow card in the half.
    pub yellow_cards: Vec<u32>,
    /// The ids of the players sent off in the half.
    pub red_cards: Vec<u32>,
}

/// The fouls and cards of one team in one half as plain values.
pub struct Record {
    pub fouls: u8,
    pub yellow_cards: Seq<u32>,
    pub red_cards: Seq<u32>,
}

impl View for Discipline {
    type V = Record;

    open spec fn view(&self) -> Record {
        Record {
            fouls: self.fouls,
            yellow_cards: self.yellow_cards@,
            red_cards: self.red_cards@,
        }
    }
}

/// Whether `id` is the id of a player of the lineup.
pub open spec fn is_member(players: Seq<&Player>, id: u32) -> bool {
    exists|i: int| 0 <= i < players.len() && (#[trigger] players[i]).id == id
}

/// The fouls of the first `upto` verdicts together.
pub open spec fn fouls_upto(verdicts: Seq<Verdict>, upto: int) -> int
    decreases upto,
{
    if upto <= 0 {
        0
    } else {
        fouls_upto(verdicts, upto - 1) + verdicts[upto - 1].fouls
    }
}

/// The ids of those among the first `upto` players who are shown a yellow
/// card, in order.
pub open spec fn yellow_upto(players: Seq<&Player>, verdicts: Seq<Verdict>, upto: int) -> Seq<u32>
    decreases upto,
{
    if upto <= 0 {
        Seq::empty()
    } else if verdicts[upto - 1].booking == Booking::Yellow {
        yellow_upto(players, verdicts, upto - 1).push(players[upto - 1].id)
    } else {
        yellow_upto(players, verdicts, upto - 1)
    }
}

/// Whether a verdict sends a player off: a red card, or a yellow card for a
/// player who has been booked before.
pub open spec fn sends_off(verdict: Verdict, id: u32, booked: Seq<u32>) -> bool {
    verdict.booking == Booking::Red || (verdict.booking == Booking::Yellow && booked.contains(id))
}

/// The ids of those among the first `upto` players who are sent off, in
/// order.
pub open spec fn red_upto(
    players: Seq<&Player>,
    verdicts: Seq<Verdict>,
    booked: Seq<u32>,
    upto: int,
) -> Seq<u32>
    decreases upto,
{
    if upto <= 0 {
        Seq::empty()
    } else if sends_off(verdicts[upto - 1], players[upto - 1].id, booked) {
        red_upto(players, verdicts, booked, upto - 1).push(players[upto - 1].id)
    } else {
        red_upto(players, verdicts, booked, upto - 1)
    }
}

/// The record that the verdicts on a lineup make up, for the yellow cards
/// shown before the half: the fouls together, stopping at 255, and the ids
/// of the players shown a yellow card and of those sent off.
pub open spec fn record_of(players: Seq<&Player>, verdicts: Seq<Verdict>, booked: Seq<u32>) -> Record {
    let fouls = fouls_upto(verdicts, players.len() as int);
    Record {
        fouls: if fouls > 255 {
            255u8
        } else {
            fouls as u8
        },
        yellow_cards: yellow_upto(players, verdicts, players.len() as int),
        red_cards: red_upto(players, verdicts, booked, players.len() as int),
    }
}

impl Record {
    /// Whether this can be the record of a lineup: no more than three fouls
    /// for each player, no more yellow cards than fouls, no more red cards
    /// than players, and no card for anybody outside the lineup.
    pub open spec fn is_record_of(self, players: Seq<&Player>) -> bool {
        &&& self.fouls <= 3 * players.len()
        &&& self.yellow_cards.len() <= self.fouls
        &&& self.red_cards.len() <= players.len()
        &&& forall|k: int|
            0 <= k < self.yellow_cards.len() ==> is_member(players, #[trigger] self.yellow_cards[k])
        &&& forall|k: int|
            0 <= k < self.red_cards.len() ==> is_member(players, #[trigger] self.red_cards[k])
    }
}

proof fn lemma_record_upto(
    players: Seq<&Player>,
    verdicts: Seq<Verdict>,
    tactics: Tactics,
    booked: Seq<u32>,
    upto: int,
)
    requires
        are_verdicts_on(verdicts, players, tactics),
        0 <= upto <= players.len(),
    ensures
        0 <= fouls_upto(verdicts, upto) <= 3 * upto,
        yellow_upto(players, verdicts, upto).len() <= fouls_upto(verdicts, upto),
        red_upto(players, verdicts, booked, upto).len() <= upto,
        forall|k: int|
            0 <= k < yellow_upto(players, verdicts, upto).len() ==> is_member(
                players,
                #[trigger] yellow_upto(players, verdicts, upto)[k],
            ),
        forall|k: int|
            0 <= k < red_upto(players, verdicts, booked, upto).len() ==> is_member(
                players,
                #[trigger] red_upto(players, verdicts, booked, upto)[k],
            ),
    decreases upto,
{
    if upto > 0 {
        lemma_record_upto(players, verdicts, tactics, booked, upto - 1);
        let verdict = verdicts[upto - 1];
        let player = players[upto - 1];
        assert(is_verdict_on(verdict, player, tactics));
        assert(0 <= foul_propensity(player, tactics) <= 1020) by {
            assert(0 <= rashness(tactics.aggression, player.tackling) <= 510);
        }
        assert(verdict.fouls <= 3);
        assert(is_member(players, player.id));
        assert(verdict.booking == Booking::Yellow ==> verdict.fouls >= 1);
    }
}

/// The verdicts on a lineup make up a record of it: no more than three fouls
/// for each player, a foul at least for each yellow card, and cards for
/// players of the lineup only.
pub proof fn lemma_record_of_verdicts(
    players: Seq<&Player>,
    verdicts: Seq<Verdict>,
    tactics: Tactics,
    booked: Seq<u32>,
)
    requires
        are_verdicts_on(verdicts, players, tactics),
        players.len() <= 11,
    ensures
        record_of(players, verdicts, booked).is_record_of(players),
        record_of(players, verdicts, booked).fouls == fouls_upto(verdicts, players.len() as int),
{
    lemma_record_upto(players, verdicts, tactics, booked, players.len() as int);
}

/// Draws the verdicts on the players of a lineup for one half, one by one:
/// the fouls, a draw from none to one for each 256 points of the player's
/// propensity to foul, and one draw for the booking.
pub fn judge_lineup(dice: &mut Dice, lineup: &Lineup, tactics: &Tactics) -> (verdicts: Vec<Verdict>)
    ensures
        are_verdicts_on(verdicts@, lineup@, *tactics),
{
    let n: usize = lineup.len();
    let mut verdicts: Vec<Verdict> = Vec::new();
    while verdicts.len() < n
        invariant
            n == lineup@.len(),
            verdicts.len() <= n,
            forall|i: int|
                0 <= i < verdicts.len() ==> is_verdict_on(
                    #[trigger] verdicts[i],
                    lineup@[i],
                    *tactics,
                ),
        decreases n - verdicts.len(),
    {
        let player: &Player = lineup.get(verdicts.len());
        let prone: u64 = propensity(player, tactics);
        let fouls: u8 = dice.below(prone / 256 + 1) as u8;
        let draw: u64 = dice.below(BOOKING_CASES);
        let booking: Booking = booking_for(prone, fouls, draw);
        let verdict = Verdict { fouls, booking };
        assert(is_verdict_on(verdict, player, *tactics)) by {
            assert(0 <= draw < BOOKING_CASES && verdict.booking == booking_of(
                foul_propensity(player, *tactics),
                verdict.fouls as int,
                draw as int,
            ));
        }
        verdicts.push(verdict);
    }
    verdicts
}

/// Makes up the record of a lineup from the verdicts on its players. A
/// player who is shown a yellow card and whose id is in `booked` has been
/// booked before, and is sent off.
pub fn keep_record(lineup: &Lineup, verdicts: &Vec<Verdict>, booked: &Vec<u32>) -> (record:
    Discipline)
    requires
        verdicts.len() == lineup@.len(),
    ensures
        record@ == record_of(lineup@, verdicts@, booked@),
{
    let n: usize = lineup.len();
    let mut fouls: u64 = 0;
    let mut yellow_cards: Vec<u32> = Vec::new();
    let mut red_cards: Vec<u32> = Vec::new();
    let mut k: usize = 0;
    while k < n
        invariant
            k <= n,
            n == lineup@.len(),
            n <= 11,
            verdicts.len() == n,
            fouls == fouls_upto(verdicts@, k as int),
            fouls <= 255 * k,
            yellow_cards@ == yellow_upto(lineup@, verdicts@, k as int),
            red_cards@ == red_upto(lineup@, verdicts@, booked@, k as int),
        decreases n - k,
    {
        let player: &Player = lineup.get(k);
        let verdict: Verdict = verdicts[k];
        fouls = fouls + verdict.fouls as u64;
        match verdict.booking {
            Booking::Clean => {},
            Booking::Yellow => {
                yellow_cards.push(player.id);
                if holds_id(booked, player.id) {
                    red_cards.push(player.id);
                }
            },
            Booking::Red => {
                red_cards.push(player.id);
            },
        }
        k = k + 1;
    }
    let capped: u8 = if fouls > 255 {
        255
    } else {
        fouls as u8
    };
    Discipline { fouls: capped, yellow_cards, red_cards }
}

/// Whether `stats` can be what a team has to show for a half in which it
/// had `touches` possessions and `share` of possession, with these fouls
/// and cards of its own, against opponents with `opponent_fouls` fouls.
pub open spec fn is_half_of(
    stats: StatsModel,
    team_tactics: Tactics,
    lineup: Seq<&Player>,
    opponent_tactics: Tactics,
    opponents: Seq<&Player>,
    touches: u8,
    share: u64,
    own: Record,
    opponent_fouls: u8,
) -> bool {
    &&& stats.possession == share
    &&& stats.shots == shots_of(
        touches,
        strength_of(Axis::Creation, lineup),
        strength_of(Axis::Defense, opponents) / 10,
        team_tactics,
    )
    &&& stats.shots_on_target <= stats.shots
    &&& stats.goals <= stats.shots_on_target
    &&& stats.crosses == crosses_of(
        touches,
        wide_attack_of(team_tactics, lineup, Flank::Left) + wide_attack_of(
            team_tactics,
            lineup,
            Flank::Right,
        ),
        wide_defense_of(opponent_tactics, opponents, Flank::Left) + wide_defense_of(
            opponent_tactics,
            opponents,
            Flank::Right,
        ),
        team_tactics,
    )
    &&& stats.corners <= touches / 4
    &&& stats.freekicks <= opponent_fouls
    &&& stats.penalties <= opponent_fouls / 8
    &&& stats.fouls == own.fouls
    &&& stats.yellow_cards == own.yellow_cards
    &&& stats.red_cards == own.red_cards
}

/// What a team has to show for a half. Shots and crosses follow from the
/// strengths of the two lineups and the team's possessions; each shot is
/// tried for the target and each shot on target against the goalkeeper;
/// corners, free kicks and penalties are drawn from ranges that the
/// possessions and the opponents' fouls set. Free kicks are drawn from the
/// range from `opponent_yellow_cards` to `opponent_fouls`.
pub fn tally_half(
    dice: &mut Dice,
    team: &Squad,
    lineup: &Lineup,
    opponent: &Squad,
    opponents: &Lineup,
    touches: u8,
    share: u64,
    own: Discipline,
    opponent_yellow_cards: u8,
    opponent_fouls: u8,
) -> (stats: GameStats)
    requires
        share <= FULL_SHARE,
    ensures
        is_half_of(
            stats@,
            team.tactics,
            lineup@,
            opponent.tactics,
            opponents@,
            touches,
            share,
            own@,
            opponent_fouls,
        ),
        stats@.is_sound(),
        opponent_yellow_cards < opponent_fouls ==> opponent_yellow_cards <= stats.freekicks,
        opponent_yellow_cards >= opponent_fouls ==> stats.freekicks == opponent_fouls,
{
    let craft: u64 = strength(Axis::Creation, lineup);
    let resistance: u64 = defensive_strength(opponents) / 10;
    let shots: u8 = expected_shots(touches, craft, resistance, &team.tactics);
    let on_target: u8 = shots_on_target(dice, shots, lineup, &team.tactics);
    let goals: u8 = goals_scored(dice, on_target, opponents);
    let attack: u64 = wide_attack(&team.tactics, lineup, Flank::Left) + wide_attack(
        &team.tactics,
        lineup,
        Flank::Right,
    );
    let defense: u64 = wide_defense(&opponent.tactics, opponents, Flank::Left) + wide_defense(
        &opponent.tactics,
        opponents,
        Flank::Right,
    );
    let crosses: u8 = expected_crosses(touches, attack, defense, &team.tactics);
    let corners: u8 = corners_won(dice, touches);
    let freekicks: u8 = free_kicks(dice, opponent_yellow_cards, opponent_fouls);
    let penalties: u8 = penalties_won(dice, opponent_fouls);
    GameStats {
        possession: share,
        crosses,
        shots,
        shots_on_target: on_target,
        goals,
        freekicks,
        penalties,
        corners,
        fouls: own.fouls,
        yellow_cards: own.yellow_cards,
        red_cards: own.red_cards,
    }
}

} // verus!
