use vstd::prelude::*;
use crate::manager::Manager;
use crate::player::Player;
use crate::position::Position;
use crate::tactics::Tactics;

verus! {

/// A team as it takes the field: eleven starters, the bench, the manager and
/// the instructions. The records belong to the caller; a squad borrows them.
pub struct Squad<'a> {
    pub manager: &'a Manager,
    pub players: [&'a Player; 11],
    pub subs: Vec<&'a Player>,
    pub tactics: Tactics,
}

/// The test that a player passes who has not been sent off: the player's id
/// is not among the red cards.
pub open spec fn may_play<'a>(red_cards: Seq<u32>) -> spec_fn(&'a Player) -> bool {
    |p: &'a Player| !red_cards.contains(p.id)
}

/// The starters who are still on the pitch, in squad order.
pub open spec fn still_playing<'a>(players: Seq<&'a Player>, red_cards: Seq<u32>) -> Seq<
    &'a Player,
> {
    players.filter(may_play(red_cards))
}

/// Whether `id` is among `ids`.
pub fn holds_id(ids: &Vec<u32>, id: u32) -> (found: bool)
    ensures
        found == ids@.contains(id),
{
    let mut k: usize = 0;
    while k < ids.len()
        invariant
            k <= ids.len(),
            forall|j: int| 0 <= j < k ==> ids[j] != id,
        decreases ids.len() - k,
    {
        if ids[k] == id {
            return true;
        }
        k = k + 1;
    }
    false
}

/// The players of one team who take part in play: at most eleven, none of
/// them sent off. Strengths are computed over a lineup, and ball carriers
/// and defenders are drawn from one.
pub struct Lineup<'a> {
    players: Vec<&'a Player>,
}

impl<'a> View for Lineup<'a> {
    type V = Seq<&'a Player>;

    closed spec fn view(&self) -> Seq<&'a Player> {
        self.players@
    }
}

impl<'a> Lineup<'a> {
    #[verifier::type_invariant]
    spec fn fits(self) -> bool {
        self.players.len() <= 11
    }

    /// The lineup of `squad` once the players whose ids are in `red_cards`
    /// have left the pitch.
    pub fn of(squad: &Squad<'a>, red_cards: &Vec<u32>) -> (lineup: Lineup<'a>)
        ensures
            lineup@ == still_playing(squad.players@, red_cards@),
            lineup@.len() <= 11,
    {
        let mut players: Vec<&'a Player> = Vec::new();
        let ghost test = may_play(red_cards@);
        let mut k: usize = 0;
        assert(squad.players@.take(0) =~= Seq::<&'a Player>::empty());
        while k < 11
            invariant
                k <= 11,
                test == may_play::<'a>(red_cards@),
                players@ == squad.players@.take(k as int).filter(test),
                players.len() <= k,
            decreases 11 - k,
        {
            let p: &'a Player = squad.players[k];
            let sent_off = holds_id(red_cards, p.id);
            proof {
                let before = squad.players@.take(k as int);
                let now = squad.players@.take(k + 1);
                assert(now.drop_last() =~= before);
                assert(now.last() == p);
                reveal_with_fuel(Seq::filter, 2);
                assert(test(p) == !sent_off);
            }
            if !sent_off {
                players.push(p);
            }
            k = k + 1;
        }
        assert(squad.players@.take(11) =~= squad.players@);
        Lineup { players }
    }

    /// How many players the lineup holds.
    pub fn len(&self) -> (n: usize)
        ensures
            n == self@.len(),
            n <= 11,
    {
        proof {
            use_type_invariant(self);
        }
        self.players.len()
    }

    /// The player in place `i`.
    pub fn get(&self, i: usize) -> (player: &'a Player)
        requires
            i < self@.len(),
        ensures
            player == self@[i as int],
    {
        self.players[i]
    }

    /// The place of the first goalkeeper in the lineup, if it has one.
    pub fn goalkeeper(&self) -> (place: Option<usize>)
        ensures
            match place {
                Some(i) => {
                    &&& i < self@.len()
                    &&& self@[i as int].position == Position::Goalkeeper
                    &&& forall|j: int| 0 <= j < i ==> self@[j].position != Position::Goalkeeper
                },
                None => forall|j: int|
                    0 <= j < self@.len() ==> self@[j].position != Position::Goalkeeper,
            },
    {
        let mut k: usize = 0;
        while k < self.players.len()
            invariant
                k <= self.players.len(),
                forall|j: int| 0 <= j < k ==> self.players[j].position != Position::Goalkeeper,
            decreases self.players.len() - k,
        {
            if self.players[k].position == Position::Goalkeeper {
                return Some(k);
            }
            k = k + 1;
        }
        None
    }
}

/// A player who has been sent off is in no lineup.
pub proof fn lemma_sent_off_is_out<'a>(players: Seq<&'a Player>, red_cards: Seq<u32>, i: int)
    requires
        0 <= i < still_playing(players, red_cards).len(),
    ensures
        !red_cards.contains(still_playing(players, red_cards)[i].id),
        players.contains(still_playing(players, red_cards)[i]),
{
    broadcast use vstd::seq_lib::group_filter_ensures;

    let test = may_play::<'a>(red_cards);
    assert(test(players.filter(test)[i]));
    lemma_filter_keeps_members(players, test, i);
}

proof fn lemma_filter_keeps_members<'a>(
    players: Seq<&'a Player>,
    test: spec_fn(&'a Player) -> bool,
    i: int,
)
    requires
        0 <= i < players.filter(test).len(),
    ensures
        players.contains(players.filter(test)[i]),
    decreases players.len(),
{
    reveal(Seq::filter);
    if players.len() > 0 {
        let rest = players.drop_last();
        if i < rest.filter(test).len() {
            lemma_filter_keeps_members(rest, test, i);
            let j = choose|j: int| 0 <= j < rest.len() && rest[j] == rest.filter(test)[i];
            assert(players[j] == rest[j]);
        } else {
            assert(players.filter(test)[i] == players.last());
            assert(players[players.len() - 1] == players.last());
        }
    }
}

/// Once sent off, out for good: with more red cards the lineup can only
/// shrink. Whoever plays after further red cards played before them.
pub proof fn lemma_lineup_only_shrinks<'a>(
    players: Seq<&'a Player>,
    earlier: Seq<u32>,
    later: Seq<u32>,
    i: int,
)
    requires
        forall|id: u32| earlier.contains(id) ==> later.contains(id),
        0 <= i < still_playing(players, later).len(),
    ensures
        still_playing(players, earlier).contains(still_playing(players, later)[i]),
{
    let p = still_playing(players, later)[i];
    lemma_sent_off_is_out(players, later, i);
    let j = choose|j: int| 0 <= j < players.len() && players[j] == p;
    assert(!earlier.contains(p.id));
    let test = may_play::<'a>(earlier);
    assert(test(players[j]));
    players.lemma_filter_contains(test, j);
}

proof fn lemma_filter_ignores_rejected<'a>(
    players: Seq<&'a Player>,
    test: spec_fn(&'a Player) -> bool,
    k: int,
    other: &'a Player,
)
    requires
        0 <= k < players.len(),
        !test(players[k]),
        !test(other),
    ensures
        players.update(k, other).filter(test) == players.filter(test),
    decreases players.len(),
{
    reveal(Seq::filter);
    let changed = players.update(k, other);
    if k == players.len() - 1 {
        assert(changed.drop_last() =~= players.drop_last());
    } else {
        assert(changed.drop_last() =~= players.drop_last().update(k, other));
        lemma_filter_ignores_rejected(players.drop_last(), test, k, other);
    }
}

/// Whoever has been sent off counts for nothing: whatever the record of a
/// player who has been sent off says, the lineup is the same.
pub proof fn lemma_sent_off_counts_for_nothing<'a>(
    players: Seq<&'a Player>,
    red_cards: Seq<u32>,
    k: int,
    other: &'a Player,
)
    requires
        0 <= k < players.len(),
        red_cards.contains(players[k].id),
        other.id == players[k].id,
    ensures
        still_playing(players.update(k, other), red_cards) == still_playing(players, red_cards),
{
    lemma_filter_ignores_rejected(players, may_play(red_cards), k, other);
}

} // verus!
