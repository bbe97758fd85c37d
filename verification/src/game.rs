use vstd::prelude::*;
use crate::dice::Dice;
use crate::event::{event_of, get_event_from_action, Event};
use crate::lists::{append_list, copy_list};
use crate::player::Player;
use crate::squad::{may_play, still_playing, Lineup, Squad};
use crate::stats::{lemma_with_half_is_sound, GameStats, StatsModel};
use crate::strength::{get_poss, home_share, possession_score_of, FULL_SHARE};
use crate::tally::{
    are_verdicts_on, is_half_of, judge_lineup, keep_record, lemma_record_of_verdicts, record_of,
    tally_half, Discipline, Verdict,
};
use crate::touch::{play_touch, Attempt, Touch};

verus! {

/// A half has this many ticks, one for each minute; each tick is one
/// possession.
pub const TICKS_PER_HALF: u8 = 45;

/// What the two sides have to show. On a scoreboard the statistics of both
/// sides are sound at all times.
struct Scoreboard {
    home: GameStats,
    away: GameStats,
}

impl Scoreboard {
    #[verifier::type_invariant]
    spec fn sound(self) -> bool {
        self.home@.is_sound() && self.away@.is_sound()
    }
}

/// One match between two squads.
pub struct Game<'a> {
    home: Squad<'a>,
    away: Squad<'a>,
    board: Scoreboard,
    home_actions: Vec<Attempt>,
    away_actions: Vec<Attempt>,
    events: Vec<Event>,
    dice: Dice,
}

/// A match as plain values: the two squads, what each side has to show so
/// far, what each side has tried on the ball, and what there was to report.
pub struct GameModel<'a> {
    pub home: Squad<'a>,
    pub away: Squad<'a>,
    pub home_stats: StatsModel,
    pub away_stats: StatsModel,
    pub home_actions: Seq<Attempt>,
    pub away_actions: Seq<Attempt>,
    pub events: Seq<Event>,
}

impl<'a> View for Game<'a> {
    type V = GameModel<'a>;

    closed spec fn view(&self) -> GameModel<'a> {
        GameModel {
            home: self.home,
            away: self.away,
            home_stats: self.board.home@,
            away_stats: self.board.away@,
            home_actions: self.home_actions@,
            away_actions: self.away_actions@,
            events: self.events@,
        }
    }
}

/// The share of possession, out of [`FULL_SHARE`], of a side that had the
/// ball in `touches` of the ticks of a half.
pub open spec fn share_of(touches: u8) -> u64 {
    (touches as int * FULL_SHARE as int / (TICKS_PER_HALF as int)) as u64
}

/// What one tick of the clock brings: a possession of one side.
pub struct Tick {
    /// Whether the home side has the ball.
    pub home_has_ball: bool,
    pub touch: Touch,
}

/// The home side's share of possession, out of [`FULL_SHARE`], when these
/// lineups meet.
pub open spec fn home_share_of(
    home: Squad,
    home_lineup: Seq<&Player>,
    away: Squad,
    away_lineup: Seq<&Player>,
) -> int {
    home_share(
        possession_score_of(home.tactics, home.manager, home_lineup),
        possession_score_of(away.tactics, away.manager, away_lineup),
    )
}

/// Whether `tick` can be a tick of a half between these lineups: a
/// possession of the side that has the ball against the other. A side with
/// no share of possession does not have the ball.
pub open spec fn is_tick_of(
    tick: Tick,
    home: Squad,
    home_lineup: Seq<&Player>,
    away: Squad,
    away_lineup: Seq<&Player>,
) -> bool {
    if tick.home_has_ball {
        &&& home_share_of(home, home_lineup, away, away_lineup) > 0
        &&& tick.touch.is_possession(home.tactics, home_lineup, away_lineup)
    } else {
        &&& home_share_of(home, home_lineup, away, away_lineup) < FULL_SHARE
        &&& tick.touch.is_possession(away.tactics, away_lineup, home_lineup)
    }
}

/// In how many of the first `upto` ticks the home side had the ball.
pub open spec fn home_touches_upto(ticks: Seq<Tick>, upto: int) -> int
    decreases upto,
{
    if upto <= 0 {
        0
    } else {
        home_touches_upto(ticks, upto - 1) + if ticks[upto - 1].home_has_ball {
            1int
        } else {
            0int
        }
    }
}

/// What one side tried in the first `upto` ticks, in order; `home` says
/// which side.
pub open spec fn attempts_upto(ticks: Seq<Tick>, home: bool, upto: int) -> Seq<Attempt>
    decreases upto,
{
    if upto <= 0 {
        Seq::empty()
    } else if ticks[upto - 1].home_has_ball == home {
        attempts_upto(ticks, home, upto - 1) + ticks[upto - 1].touch.attempts@
    } else {
        attempts_upto(ticks, home, upto - 1)
    }
}

/// What the first `upto` attempts give rise to, in order: the event of each
/// attempt that came off and has one.
pub open spec fn reported_upto(attempts: Seq<Attempt>, upto: int) -> Seq<Event>
    decreases upto,
{
    if upto <= 0 {
        Seq::empty()
    } else {
        let earlier = reported_upto(attempts, upto - 1);
        match event_of(attempts[upto - 1].action) {
            Some(event) => if attempts[upto - 1].success {
                earlier.push(event)
            } else {
                earlier
            },
            None => earlier,
        }
    }
}

/// What the first `upto` ticks give rise to, in order.
pub open spec fn events_upto(ticks: Seq<Tick>, upto: int) -> Seq<Event>
    decreases upto,
{
    if upto <= 0 {
        Seq::empty()
    } else {
        events_upto(ticks, upto - 1) + reported_upto(
            ticks[upto - 1].touch.attempts@,
            ticks[upto - 1].touch.attempts@.len() as int,
        )
    }
}

/// Whether the two sets of statistics can be those of the two sides for one
/// half that the squads play with the cards shown so far. The half has
/// [`TICKS_PER_HALF`] ticks, each a possession of one lineup against the
/// other; each side's fouls and cards are the record that the verdicts on
/// its lineup make up; and each side's statistics are those of its half
/// against the other, with as many possessions as it had the ball in ticks.
pub open spec fn halves_match(
    home_half: StatsModel,
    away_half: StatsModel,
    home: Squad,
    away: Squad,
    home_before: StatsModel,
    away_before: StatsModel,
    ticks: Seq<Tick>,
    home_verdicts: Seq<Verdict>,
    away_verdicts: Seq<Verdict>,
) -> bool {
    let home_lineup = still_playing(home.players@, home_before.red_cards);
    let away_lineup = still_playing(away.players@, away_before.red_cards);
    let home_touches = home_touches_upto(ticks, ticks.len() as int);
    let home_record = record_of(home_lineup, home_verdicts, home_before.yellow_cards);
    let away_record = record_of(away_lineup, away_verdicts, away_before.yellow_cards);
    &&& ticks.len() == TICKS_PER_HALF
    &&& forall|k: int|
        0 <= k < ticks.len() ==> is_tick_of(#[trigger] ticks[k], home, home_lineup, away, away_lineup)
    &&& are_verdicts_on(home_verdicts, home_lineup, home.tactics)
    &&& are_verdicts_on(away_verdicts, away_lineup, away.tactics)
    &&& is_half_of(
        home_half,
        home.tactics,
        home_lineup,
        away.tactics,
        away_lineup,
        home_touches as u8,
        share_of(home_touches as u8),
        home_record,
        away_record.fouls,
    )
    &&& is_half_of(
        away_half,
        away.tactics,
        away_lineup,
        home.tactics,
        home_lineup,
        (TICKS_PER_HALF - home_touches) as u8,
        (FULL_SHARE - share_of(home_touches as u8)) as u64,
        away_record,
        home_record.fouls,
    )
}

/// The home side had the ball in none of the ticks at least and in all of
/// them at most.
pub proof fn lemma_home_touches_bounds(ticks: Seq<Tick>, upto: int)
    requires
        0 <= upto,
    ensures
        0 <= home_touches_upto(ticks, upto) <= upto,
    decreases upto,
{
    if upto > 0 {
        lemma_home_touches_bounds(ticks, upto - 1);
    }
}

impl<'a> GameModel<'a> {
    /// A match before kick-off.
    pub open spec fn kickoff(home: Squad<'a>, away: Squad<'a>) -> GameModel<'a> {
        GameModel {
            home,
            away,
            home_stats: StatsModel::blank(),
            away_stats: StatsModel::blank(),
            home_actions: Seq::empty(),
            away_actions: Seq::empty(),
            events: Seq::empty(),
        }
    }

    /// Whether the statistics of both sides are sound.
    pub open spec fn is_sound(self) -> bool {
        self.home_stats.is_sound() && self.away_stats.is_sound()
    }

    /// Whether `after` can be this match one half later. The squads are the
    /// same. The half was played by those who had not been sent off before
    /// it, and its statistics were added to those of the match. What each
    /// side tried in its possessions follows what it tried before, and what
    /// the ticks gave rise to follows the earlier events.
    pub open spec fn half_later(self, after: GameModel<'a>) -> bool {
        &&& after.home == self.home
        &&& after.away == self.away
        &&& exists|
            home_half: StatsModel,
            away_half: StatsModel,
            ticks: Seq<Tick>,
            home_verdicts: Seq<Verdict>,
            away_verdicts: Seq<Verdict>,
        |
            {
                &&& #[trigger] halves_match(
                    home_half,
                    away_half,
                    self.home,
                    self.away,
                    self.home_stats,
                    self.away_stats,
                    ticks,
                    home_verdicts,
                    away_verdicts,
                )
                &&& after.home_stats == self.home_stats.with_half(home_half)
                &&& after.away_stats == self.away_stats.with_half(away_half)
                &&& after.home_actions == self.home_actions + attempts_upto(
                    ticks,
                    true,
                    ticks.len() as int,
                )
                &&& after.away_actions == self.away_actions + attempts_upto(
                    ticks,
                    false,
                    ticks.len() as int,
                )
                &&& after.events == self.events + events_upto(ticks, ticks.len() as int)
            }
    }

    /// Whether `after` can be this match two halves later.
    pub open spec fn match_later(self, after: GameModel<'a>) -> bool {
        exists|interval: GameModel<'a>|
            #[trigger] self.half_later(interval) && interval.half_later(after)
    }
}

/// What a half leaves behind, whatever the draws. The two shares of
/// possession add up to the whole. Sound statistics stay sound: neither
/// side has more goals than shots on target. Nobody's red card is taken
/// back, and nothing that was tried or reported is forgotten. No side is
/// given more free kicks in the half than the other side has fouled, so
/// none where the other side has not fouled.
pub proof fn lemma_half_later<'a>(before: GameModel<'a>, after: GameModel<'a>)
    requires
        before.half_later(after),
    ensures
        after.home_stats.possession + after.away_stats.possession == FULL_SHARE,
        before.is_sound() ==> after.is_sound(),
        before.home_stats.red_cards.is_prefix_of(after.home_stats.red_cards),
        before.away_stats.red_cards.is_prefix_of(after.away_stats.red_cards),
        before.home_actions.is_prefix_of(after.home_actions),
        before.away_actions.is_prefix_of(after.away_actions),
        before.events.is_prefix_of(after.events),
        exists|home_half: StatsModel, away_half: StatsModel|
            {
                &&& after.home_stats == #[trigger] before.home_stats.with_half(home_half)
                &&& after.away_stats == #[trigger] before.away_stats.with_half(away_half)
                &&& home_half.freekicks <= away_half.fouls
                &&& away_half.freekicks <= home_half.fouls
            },
{
    let (home_half, away_half, ticks, home_verdicts, away_verdicts) = choose|
        home_half: StatsModel,
        away_half: StatsModel,
        ticks: Seq<Tick>,
        home_verdicts: Seq<Verdict>,
        away_verdicts: Seq<Verdict>,
    |
        {
            &&& #[trigger] halves_match(
                home_half,
                away_half,
                before.home,
                before.away,
                before.home_stats,
                before.away_stats,
                ticks,
                home_verdicts,
                away_verdicts,
            )
            &&& after.home_stats == before.home_stats.with_half(home_half)
            &&& after.away_stats == before.away_stats.with_half(away_half)
            &&& after.home_actions == before.home_actions + attempts_upto(
                ticks,
                true,
                ticks.len() as int,
            )
            &&& after.away_actions == before.away_actions + attempts_upto(
                ticks,
                false,
                ticks.len() as int,
            )
            &&& after.events == before.events + events_upto(ticks, ticks.len() as int)
        };
    lemma_home_touches_bounds(ticks, ticks.len() as int);
    lemma_share_fits(home_touches_upto(ticks, ticks.len() as int) as u8);
    let home_lineup = still_playing(before.home.players@, before.home_stats.red_cards);
    let away_lineup = still_playing(before.away.players@, before.away_stats.red_cards);
    before.home.players@.lemma_filter_len(may_play(before.home_stats.red_cards));
    before.away.players@.lemma_filter_len(may_play(before.away_stats.red_cards));
    lemma_record_of_verdicts(
        home_lineup,
        home_verdicts,
        before.home.tactics,
        before.home_stats.yellow_cards,
    );
    lemma_record_of_verdicts(
        away_lineup,
        away_verdicts,
        before.away.tactics,
        before.away_stats.yellow_cards,
    );
    assert(after.home_stats == before.home_stats.with_half(home_half));
    assert(after.away_stats == before.away_stats.with_half(away_half));
}

/// A share of possession is at most the whole.
pub proof fn lemma_share_fits(touches: u8)
    requires
        touches <= TICKS_PER_HALF,
    ensures
        share_of(touches) <= FULL_SHARE,
        share_of(touches) == touches * FULL_SHARE / (TICKS_PER_HALF as int),
{
}

/// What a match leaves behind, whatever the draws: what a half does.
pub proof fn lemma_match_later<'a>(before: GameModel<'a>, after: GameModel<'a>)
    requires
        before.match_later(after),
    ensures
        after.home == before.home,
        after.away == before.away,
        after.home_stats.possession + after.away_stats.possession == FULL_SHARE,
        before.is_sound() ==> after.is_sound(),
        before.home_stats.red_cards.is_prefix_of(after.home_stats.red_cards),
        before.away_stats.red_cards.is_prefix_of(after.away_stats.red_cards),
{
    let interval = choose|interval: GameModel<'a>|
        #[trigger] before.half_later(interval) && interval.half_later(after);
    lemma_half_later(before, interval);
    lemma_half_later(interval, after);
}

/// Plays one tick. The possession scores of the two lineups are set against
/// each other, one trial with the home side's share decides which side has
/// the ball, and that side plays one possession against the other.
pub fn play_tick(
    dice: &mut Dice,
    home: &Squad,
    home_lineup: &Lineup,
    away: &Squad,
    away_lineup: &Lineup,
) -> (tick: Tick)
    ensures
        is_tick_of(tick, *home, home_lineup@, *away, away_lineup@),
{
    let shares: (u64, u64) = get_poss(home, home_lineup, away, away_lineup);
    if dice.chance(shares.0, FULL_SHARE) {
        let touch: Touch = play_touch(dice, &home.tactics, home_lineup, away_lineup);
        Tick { home_has_ball: true, touch }
    } else {
        let touch: Touch = play_touch(dice, &away.tactics, away_lineup, home_lineup);
        Tick { home_has_ball: false, touch }
    }
}

/// Plays the ticks of one half, in order.
pub fn play_ticks(
    dice: &mut Dice,
    home: &Squad,
    home_lineup: &Lineup,
    away: &Squad,
    away_lineup: &Lineup,
) -> (ticks: Vec<Tick>)
    ensures
        ticks.len() == TICKS_PER_HALF,
        forall|k: int|
            0 <= k < ticks.len() ==> is_tick_of(
                #[trigger] ticks[k],
                *home,
                home_lineup@,
                *away,
                away_lineup@,
            ),
{
    let mut ticks: Vec<Tick> = Vec::new();
    while ticks.len() < TICKS_PER_HALF as usize
        invariant
            ticks.len() <= TICKS_PER_HALF,
            forall|k: int|
                0 <= k < ticks.len() ==> is_tick_of(
                    #[trigger] ticks[k],
                    *home,
                    home_lineup@,
                    *away,
                    away_lineup@,
                ),
        decreases TICKS_PER_HALF - ticks.len(),
    {
        let tick: Tick = play_tick(dice, home, home_lineup, away, away_lineup);
        ticks.push(tick);
    }
    ticks
}

/// Puts what the attempts that came off give rise to behind the earlier
/// events.
pub fn report(attempts: &Vec<Attempt>, events: &mut Vec<Event>)
    ensures
        final(events)@ == old(events)@ + reported_upto(attempts@, attempts.len() as int),
{
    let mut k: usize = 0;
    assert(events@ =~= old(events)@ + reported_upto(attempts@, 0));
    while k < attempts.len()
        invariant
            k <= attempts.len(),
            events@ == old(events)@ + reported_upto(attempts@, k as int),
        decreases attempts.len() - k,
    {
        if attempts[k].success {
            match get_event_from_action(attempts[k].action) {
                Some(event) => {
                    events.push(event);
                },
                None => {},
            }
        }
        assert(events@ =~= old(events)@ + reported_upto(attempts@, k + 1));
        k = k + 1;
    }
}

/// Goes through the ticks of a half, in order: what each side tried is put
/// behind its earlier attempts, and what the ticks gave rise to behind the
/// earlier events. Says in how many ticks the home side had the ball.
pub fn record_ticks(
    ticks: &Vec<Tick>,
    home_actions: &mut Vec<Attempt>,
    away_actions: &mut Vec<Attempt>,
    events: &mut Vec<Event>,
) -> (home_touches: u8)
    requires
        ticks.len() <= 255,
    ensures
        home_touches == home_touches_upto(ticks@, ticks.len() as int),
        final(home_actions)@ == old(home_actions)@ + attempts_upto(
            ticks@,
            true,
            ticks.len() as int,
        ),
        final(away_actions)@ == old(away_actions)@ + attempts_upto(
            ticks@,
            false,
            ticks.len() as int,
        ),
        final(events)@ == old(events)@ + events_upto(ticks@, ticks.len() as int),
{
    let mut home_touches: u8 = 0;
    let mut k: usize = 0;
    assert(home_actions@ =~= old(home_actions)@ + attempts_upto(ticks@, true, 0));
    assert(away_actions@ =~= old(away_actions)@ + attempts_upto(ticks@, false, 0));
    assert(events@ =~= old(events)@ + events_upto(ticks@, 0));
    while k < ticks.len()
        invariant
            k <= ticks.len(),
            ticks.len() <= 255,
            home_touches == home_touches_upto(ticks@, k as int),
            home_touches <= k,
            home_actions@ == old(home_actions)@ + attempts_upto(ticks@, true, k as int),
            away_actions@ == old(away_actions)@ + attempts_upto(ticks@, false, k as int),
            events@ == old(events)@ + events_upto(ticks@, k as int),
        decreases ticks.len() - k,
    {
        let tick: &Tick = &ticks[k];
        if tick.home_has_ball {
            home_touches = home_touches + 1;
            append_list(home_actions, &tick.touch.attempts);
        } else {
            append_list(away_actions, &tick.touch.attempts);
        }
        report(&tick.touch.attempts, events);
        assert(home_actions@ =~= old(home_actions)@ + attempts_upto(ticks@, true, k + 1));
        assert(away_actions@ =~= old(away_actions)@ + attempts_upto(ticks@, false, k + 1));
        assert(events@ =~= old(events)@ + events_upto(ticks@, k + 1));
        k = k + 1;
    }
    home_touches
}

impl<'a> Game<'a> {
    /// A match between two squads, home side first, whose draws nobody can
    /// foretell.
    pub fn new(home_squad: Squad<'a>, away_squad: Squad<'a>) -> (game: Self)
        ensures
            game@ == GameModel::kickoff(home_squad, away_squad),
    {
        Self::with_dice(home_squad, away_squad, Dice::new())
    }

    /// A match between two squads, home side first, whose draws `seed`
    /// determines.
    pub fn with_seed(home_squad: Squad<'a>, away_squad: Squad<'a>, seed: u64) -> (game: Self)
        ensures
            game@ == GameModel::kickoff(home_squad, away_squad),
    {
        Self::with_dice(home_squad, away_squad, Dice::seeded(seed))
    }

    /// A match between two squads, home side first, that draws from `dice`.
    pub fn with_dice(home_squad: Squad<'a>, away_squad: Squad<'a>, dice: Dice) -> (game: Self)
        ensures
            game@ == GameModel::kickoff(home_squad, away_squad),
    {
        Game {
            home: home_squad,
            away: away_squad,
            board: Scoreboard { home: GameStats::new(), away: GameStats::new() },
            home_actions: Vec::new(),
            away_actions: Vec::new(),
            events: Vec::new(),
            dice,
        }
    }

    /// Plays the match: two halves.
    pub fn play(&mut self)
        ensures
            old(self)@.match_later(final(self)@),
            final(self)@.is_sound(),
    {
        let ghost before = self@;
        self.play_half();
        let ghost interval = self@;
        self.play_half();
        assert(before.half_later(interval) && interval.half_later(self@));
    }

    /// Plays one half. The lineups are those of the squads without the
    /// players sent off so far. The ticks of the half are played; then each
    /// side's fouls and cards are drawn and its statistics for the half are
    /// made up and added to those of the match.
    pub fn play_half(&mut self)
        ensures
            old(self)@.half_later(final(self)@),
            final(self)@.is_sound(),
    {
        proof {
            use_type_invariant(&self.board);
        }
        let ghost before = self@;
        let home_lineup: Lineup = Lineup::of(&self.home, &self.board.home.red_cards);
        let away_lineup: Lineup = Lineup::of(&self.away, &self.board.away.red_cards);
        let ticks: Vec<Tick> = play_ticks(
            &mut self.dice,
            &self.home,
            &home_lineup,
            &self.away,
            &away_lineup,
        );
        let home_touches: u8 = record_ticks(
            &ticks,
            &mut self.home_actions,
            &mut self.away_actions,
            &mut self.events,
        );
        proof {
            lemma_home_touches_bounds(ticks@, ticks.len() as int);
            lemma_share_fits(home_touches);
        }
        let away_touches: u8 = TICKS_PER_HALF - home_touches;
        let home_share: u64 = (home_touches as u64) * FULL_SHARE / (TICKS_PER_HALF as u64);
        let away_share: u64 = FULL_SHARE - home_share;
        let home_verdicts: Vec<Verdict> = judge_lineup(
            &mut self.dice,
            &home_lineup,
            &self.home.tactics,
        );
        let away_verdicts: Vec<Verdict> = judge_lineup(
            &mut self.dice,
            &away_lineup,
            &self.away.tactics,
        );
        proof {
            lemma_record_of_verdicts(
                home_lineup@,
                home_verdicts@,
                self.home.tactics,
                self.board.home.yellow_cards@,
            );
            lemma_record_of_verdicts(
                away_lineup@,
                away_verdicts@,
                self.away.tactics,
                self.board.away.yellow_cards@,
            );
        }
        let home_record: Discipline = keep_record(
            &home_lineup,
            &home_verdicts,
            &self.board.home.yellow_cards,
        );
        let away_record: Discipline = keep_record(
            &away_lineup,
            &away_verdicts,
            &self.board.away.yellow_cards,
        );
        let home_fouls: u8 = home_record.fouls;
        let away_fouls: u8 = away_record.fouls;
        let home_yellow_cards: u8 = home_record.yellow_cards.len() as u8;
        let away_yellow_cards: u8 = away_record.yellow_cards.len() as u8;
        let home_half: GameStats = tally_half(
            &mut self.dice,
            &self.home,
            &home_lineup,
            &self.away,
            &away_lineup,
            home_touches,
            home_share,
            home_record,
            away_yellow_cards,
            away_fouls,
        );
        let away_half: GameStats = tally_half(
            &mut self.dice,
            &self.away,
            &away_lineup,
            &self.home,
            &home_lineup,
            away_touches,
            away_share,
            away_record,
            home_yellow_cards,
            home_fouls,
        );
        proof {
            lemma_with_half_is_sound(self.board.home@, home_half@);
            lemma_with_half_is_sound(self.board.away@, away_half@);
        }
        let home_stats: GameStats = self.board.home.with_half(&home_half);
        let away_stats: GameStats = self.board.away.with_half(&away_half);
        self.board = Scoreboard { home: home_stats, away: away_stats };
        proof {
            assert(self@.home == before.home && self@.away == before.away);
            assert(self@.home_stats == before.home_stats.with_half(home_half@));
            assert(self@.away_stats == before.away_stats.with_half(away_half@));
            assert(halves_match(
                home_half@,
                away_half@,
                before.home,
                before.away,
                before.home_stats,
                before.away_stats,
                ticks@,
                home_verdicts@,
                away_verdicts@,
            ));
        }
    }

    /// What the home side has to show so far.
    pub fn get_home_stats(&self) -> (stats: GameStats)
        ensures
            stats@ == self@.home_stats,
            stats@.is_sound(),
    {
        proof {
            use_type_invariant(&self.board);
        }
        self.board.home.clone()
    }

    /// What the away side has to show so far.
    pub fn get_away_stats(&self) -> (stats: GameStats)
        ensures
            stats@ == self@.away_stats,
            stats@.is_sound(),
    {
        proof {
            use_type_invariant(&self.board);
        }
        self.board.away.clone()
    }

    /// What there was to report so far, in order.
    pub fn get_events(&self) -> (events: Vec<Event>)
        ensures
            events@ == self@.events,
    {
        copy_list(&self.events)
    }

    /// What the home side has tried on the ball so far, in order.
    pub fn get_home_actions(&self) -> (attempts: Vec<Attempt>)
        ensures
            attempts@ == self@.home_actions,
    {
        copy_list(&self.home_actions)
    }

    /// What the away side has tried on the ball so far, in order.
    pub fn get_away_actions(&self) -> (attempts: Vec<Attempt>)
        ensures
            attempts@ == self@.away_actions,
    {
        copy_list(&self.away_actions)
    }
}

} // verus!
