//! What a match allows, and how a resolved round changes it.

use vstd::prelude::*;
use crate::outcome::{resolve, round_outcome, Choice, RoundOutcome};
use crate::types::{
    history_view, players_view, Game, GameView, MatchStatus, PlayerInfo, PlayerInfoView,
    RoundRecord, RoundRecordView,
};

verus! {

/// The score that ends a match.
pub const WINNING_SCORE: u8 = 3;

/// How many rounds the history keeps.
pub const HISTORY_LIMIT: usize = 50;

/// `n` plus one, stopping at the largest value.
pub open spec fn next_u8(n: u8) -> u8 {
    if n < u8::MAX {
        (n + 1) as u8
    } else {
        n
    }
}

/// The identity of the first player at or after `from` who is not `peer`.
pub open spec fn first_other_from(players: Seq<PlayerInfoView>, peer: Seq<char>, from: int) -> Option<
    Seq<char>,
>
    decreases players.len() - from,
{
    if from < 0 || from >= players.len() {
        None
    } else if players[from].chain_id != peer {
        Some(players[from].chain_id)
    } else {
        first_other_from(players, peer, from + 1)
    }
}

/// The identity of the first player who is not `peer`.
pub open spec fn first_other(players: Seq<PlayerInfoView>, peer: Seq<char>) -> Option<Seq<char>> {
    first_other_from(players, peer, 0)
}

/// The most recent [`HISTORY_LIMIT`] entries of `history`, in their order.
pub open spec fn latest_rounds(history: Seq<RoundRecordView>) -> Seq<RoundRecordView> {
    if history.len() > HISTORY_LIMIT {
        history.skip(history.len() - HISTORY_LIMIT)
    } else {
        history
    }
}

/// A match just set up: first round, no score, nothing played.
pub open spec fn fresh_game(
    match_id: Seq<char>,
    host_chain_id: Seq<char>,
    status: MatchStatus,
    players: Seq<PlayerInfoView>,
) -> GameView {
    GameView {
        match_id,
        host_chain_id,
        status,
        players,
        round: 1,
        host_score: 0,
        guest_score: 0,
        last_round: None,
        last_host_choice: None,
        last_guest_choice: None,
        last_outcome: None,
        history: Seq::empty(),
        winner_chain_id: None,
    }
}

impl GameView {
    /// Rounds can be played: the match is active and both seats are taken.
    pub open spec fn can_play(self) -> bool {
        self.status == MatchStatus::Active && self.players.len() == 2
    }

    /// `peer` is the host of this match.
    pub open spec fn hosted_by(self, peer: Seq<char>) -> bool {
        self.host_chain_id == peer
    }

    /// The host's score after a round with this outcome.
    pub open spec fn host_score_after(self, outcome: RoundOutcome) -> u8 {
        if outcome == RoundOutcome::HostWins {
            next_u8(self.host_score)
        } else {
            self.host_score
        }
    }

    /// The guest's score after a round with this outcome.
    pub open spec fn guest_score_after(self, outcome: RoundOutcome) -> u8 {
        if outcome == RoundOutcome::GuestWins {
            next_u8(self.guest_score)
        } else {
            self.guest_score
        }
    }

    /// The round with this outcome decides the match.
    pub open spec fn ends_with(self, outcome: RoundOutcome) -> bool {
        self.host_score_after(outcome) >= WINNING_SCORE || self.guest_score_after(outcome)
            >= WINNING_SCORE
    }

    /// Who has won once a round with this outcome has decided the match: the
    /// host if the host has the winning score, else the first player who is
    /// not the host (nobody, written as the empty text, if there is none).
    pub open spec fn winner_after(self, outcome: RoundOutcome) -> Seq<char> {
        if self.host_score_after(outcome) >= WINNING_SCORE {
            self.host_chain_id
        } else {
            match first_other(self.players, self.host_chain_id) {
                Some(guest) => guest,
                None => Seq::empty(),
            }
        }
    }

    /// The entry that the current round leaves in the history.
    pub open spec fn record_of(
        self,
        host_choice: Choice,
        guest_choice: Choice,
        timestamp: Seq<char>,
    ) -> RoundRecordView {
        let outcome = resolve(host_choice, guest_choice);
        RoundRecordView {
            round: self.round,
            host_choice,
            guest_choice,
            outcome,
            host_score: self.host_score_after(outcome),
            guest_score: self.guest_score_after(outcome),
            timestamp,
        }
    }

    /// The match once the current round has been resolved with these choices.
    pub open spec fn after_round(
        self,
        host_choice: Choice,
        guest_choice: Choice,
        timestamp: Seq<char>,
    ) -> GameView {
        let outcome = resolve(host_choice, guest_choice);
        let over = self.ends_with(outcome);
        GameView {
            match_id: self.match_id,
            host_chain_id: self.host_chain_id,
            status: if over {
                MatchStatus::Ended
            } else {
                self.status
            },
            players: self.players,
            round: if over {
                self.round
            } else {
                next_u8(self.round)
            },
            host_score: self.host_score_after(outcome),
            guest_score: self.guest_score_after(outcome),
            last_round: Some(self.round),
            last_host_choice: Some(host_choice),
            last_guest_choice: Some(guest_choice),
            last_outcome: Some(outcome),
            history: latest_rounds(
                self.history.push(self.record_of(host_choice, guest_choice, timestamp)),
            ),
            winner_chain_id: if over {
                Some(self.winner_after(outcome))
            } else {
                self.winner_chain_id
            },
        }
    }
}

/// Where the first player stands who is not `peer`.
pub fn find_other_player(players: &Vec<PlayerInfo>, peer: &String) -> (place: Option<usize>)
    ensures
        match place {
            Some(i) => {
                &&& i < players.len()
                &&& players[i as int].chain_id@ != peer@
                &&& forall|j: int| 0 <= j < i ==> (#[trigger] players[j]).chain_id@ == peer@
                &&& first_other(players_view(players@), peer@) == Some(players[i as int].chain_id@)
            },
            None => {
                &&& forall|j: int| 0 <= j < players.len() ==> (#[trigger] players[j]).chain_id@ == peer@
                &&& first_other(players_view(players@), peer@) is None
            },
        },
{
    let ghost seats = players_view(players@);
    let mut i: usize = 0;
    while i < players.len()
        invariant
            i <= players.len(),
            seats == players_view(players@),
            first_other(seats, peer@) == first_other_from(seats, peer@, i as int),
            forall|j: int| 0 <= j < i ==> (#[trigger] players[j]).chain_id@ == peer@,
        decreases players.len() - i,
    {
        if !(players[i].chain_id == *peer) {
            return Some(i);
        }
        i += 1;
    }
    None
}

impl Game {
    /// A match just set up with the given seats.
    pub fn fresh(
        match_id: String,
        host_chain_id: String,
        status: MatchStatus,
        players: Vec<PlayerInfo>,
    ) -> (game: Game)
        ensures
            game@ == fresh_game(match_id@, host_chain_id@, status, players_view(players@)),
    {
        let game = Game {
            match_id,
            host_chain_id,
            status,
            players,
            round: 1,
            host_score: 0,
            guest_score: 0,
            last_round: None,
            last_host_choice: None,
            last_guest_choice: None,
            last_outcome: None,
            history: Vec::new(),
            winner_chain_id: None,
        };
        assert(game@.history =~= Seq::empty());
        game
    }

    /// Whether rounds can be played.
    pub fn can_play(&self) -> (ready: bool)
        ensures
            ready == self@.can_play(),
    {
        self.status == MatchStatus::Active && self.players.len() == 2
    }

    /// Whether `peer` is the host.
    pub fn hosted_by(&self, peer: &String) -> (hosted: bool)
        ensures
            hosted == self@.hosted_by(peer@),
    {
        self.host_chain_id == *peer
    }

    /// Resolves the current round: records the choices and the outcome, gives
    /// the winner a point, appends the round to the history and drops what no
    /// longer fits; then ends the match if a side has the winning score, or
    /// moves on to the next round.
    pub fn resolve_round(&mut self, host_choice: Choice, guest_choice: Choice, timestamp: String)
        ensures
            final(self)@ == old(self)@.after_round(host_choice, guest_choice, timestamp@),
    {
        let outcome = round_outcome(host_choice, guest_choice);
        let ghost before = self@;
        self.last_round = Some(self.round);
        self.last_host_choice = Some(host_choice);
        self.last_guest_choice = Some(guest_choice);
        self.last_outcome = Some(outcome);
        match outcome {
            RoundOutcome::HostWins => {
                self.host_score = self.host_score.saturating_add(1);
            },
            RoundOutcome::GuestWins => {
                self.guest_score = self.guest_score.saturating_add(1);
            },
            RoundOutcome::Draw => {},
        }
        let record = RoundRecord {
            round: self.round,
            host_choice,
            guest_choice,
            outcome,
            host_score: self.host_score,
            guest_score: self.guest_score,
            timestamp,
        };
        assert(record@ == before.record_of(host_choice, guest_choice, timestamp@));
        self.history.push(record);
        assert(history_view(self.history@) =~= before.history.push(record@));
        if self.history.len() > HISTORY_LIMIT {
            let excess: usize = self.history.len() - HISTORY_LIMIT;
            let kept = self.history.split_off(excess);
            assert(history_view(kept@) =~= latest_rounds(before.history.push(record@)));
            self.history = kept;
        }
        if self.host_score >= WINNING_SCORE || self.guest_score >= WINNING_SCORE {
            self.status = MatchStatus::Ended;
            let winner = if self.host_score >= WINNING_SCORE {
                self.host_chain_id.clone()
            } else {
                match find_other_player(&self.players, &self.host_chain_id) {
                    Some(place) => self.players[place].chain_id.clone(),
                    None => String::new(),
                }
            };
            self.winner_chain_id = Some(winner);
        } else {
            self.round = self.round.saturating_add(1);
        }
    }
}

impl MatchStatus {
    /// How far along a match is.
    pub open spec fn rank(self) -> nat {
        match self {
            MatchStatus::WaitingForPlayer => 0,
            MatchStatus::Active => 1,
            MatchStatus::Ended => 2,
        }
    }
}

impl GameView {
    /// What holds of every match that the protocol builds: one or two seats,
    /// the second taken as soon as the match is active; rounds counted from
    /// one; no score above the winning one; a history within its limit; and a
    /// match that has ended exactly when a side has the winning score, which
    /// is also exactly when it has a winner.
    pub open spec fn well_formed(self) -> bool {
        &&& 1 <= self.players.len() <= 2
        &&& self.status != MatchStatus::WaitingForPlayer ==> self.players.len() == 2
        &&& self.round >= 1
        &&& self.host_score <= WINNING_SCORE
        &&& self.guest_score <= WINNING_SCORE
        &&& self.history.len() <= HISTORY_LIMIT
        &&& self.status == MatchStatus::Ended <==> (self.host_score >= WINNING_SCORE
            || self.guest_score >= WINNING_SCORE)
        &&& self.status == MatchStatus::Ended <==> self.winner_chain_id is Some
    }

    /// `later` is this match further on: the same match between the same
    /// host and players, no earlier in its course, in no earlier round, and
    /// with no score lower than it was.
    pub open spec fn continued_by(self, later: GameView) -> bool {
        &&& later.match_id == self.match_id
        &&& later.host_chain_id == self.host_chain_id
        &&& self.players.len() <= later.players.len()
        &&& forall|i: int| 0 <= i < self.players.len() ==> later.players[i] == self.players[i]
        &&& self.status.rank() <= later.status.rank()
        &&& self.round <= later.round
        &&& self.host_score <= later.host_score
        &&& self.guest_score <= later.guest_score
    }
}

/// A match that has just been set up with one or two seats, the second only
/// for an active match, is well formed.
pub proof fn fresh_game_is_well_formed(
    match_id: Seq<char>,
    host_chain_id: Seq<char>,
    status: MatchStatus,
    players: Seq<PlayerInfoView>,
)
    requires
        status == MatchStatus::WaitingForPlayer && players.len() == 1 || status
            == MatchStatus::Active && players.len() == 2,
    ensures
        fresh_game(match_id, host_chain_id, status, players).well_formed(),
{
}

/// The history never holds more than its limit after a round, however long it
/// was before. What it holds are the latest entries in the order in which
/// they were made: the round just resolved is the last, and an older entry
/// has left only if the history was full.
pub proof fn history_keeps_the_latest(
    game: GameView,
    host_choice: Choice,
    guest_choice: Choice,
    timestamp: Seq<char>,
)
    ensures
        ({
            let all = game.history.push(game.record_of(host_choice, guest_choice, timestamp));
            let kept = game.after_round(host_choice, guest_choice, timestamp).history;
            let dropped = all.len() - kept.len();
            &&& kept.len() <= HISTORY_LIMIT
            &&& kept.len() == if all.len() <= HISTORY_LIMIT {
                all.len()
            } else {
                HISTORY_LIMIT as nat
            }
            &&& forall|i: int| 0 <= i < kept.len() ==> kept[i] == all[dropped + i]
            &&& kept.last() == game.record_of(host_choice, guest_choice, timestamp)
        }),
{
}

/// A resolved round never lowers a score, and it raises at most the winner's.
pub proof fn scores_never_decrease(
    game: GameView,
    host_choice: Choice,
    guest_choice: Choice,
    timestamp: Seq<char>,
)
    ensures
        ({
            let after = game.after_round(host_choice, guest_choice, timestamp);
            &&& game.host_score <= after.host_score <= game.host_score + 1
            &&& game.guest_score <= after.guest_score <= game.guest_score + 1
            &&& after.host_score == game.host_score || after.guest_score == game.guest_score
        }),
{
}

/// A resolved round gives the winner one point and leaves the loser's score
/// alone; a draw leaves both alone. A score that already stands at the
/// largest value that it can hold stays there, so such a winner is left out.
pub proof fn winner_takes_one_point(
    game: GameView,
    host_choice: Choice,
    guest_choice: Choice,
    timestamp: Seq<char>,
)
    requires
        resolve(host_choice, guest_choice) == RoundOutcome::HostWins ==> game.host_score < u8::MAX,
        resolve(host_choice, guest_choice) == RoundOutcome::GuestWins ==> game.guest_score
            < u8::MAX,
    ensures
        ({
            let after = game.after_round(host_choice, guest_choice, timestamp);
            match resolve(host_choice, guest_choice) {
                RoundOutcome::HostWins => after.host_score == game.host_score + 1
                    && after.guest_score == game.guest_score,
                RoundOutcome::GuestWins => after.guest_score == game.guest_score + 1
                    && after.host_score == game.host_score,
                RoundOutcome::Draw => after.host_score == game.host_score && after.guest_score
                    == game.guest_score,
            }
        }),
{
}

/// A resolved round either ends the match or leaves its status alone, and it
/// ends it exactly when a side then has the winning score. A match that
/// ends keeps its round number and gets a winner; one that goes on moves to
/// the next round and keeps whatever winner it had.
pub proof fn round_ends_or_continues(
    game: GameView,
    host_choice: Choice,
    guest_choice: Choice,
    timestamp: Seq<char>,
)
    ensures
        ({
            let after = game.after_round(host_choice, guest_choice, timestamp);
            let over = after.host_score >= WINNING_SCORE || after.guest_score >= WINNING_SCORE;
            &&& over ==> after.status == MatchStatus::Ended && after.round == game.round
                && after.winner_chain_id is Some
            &&& after.host_score >= WINNING_SCORE ==> after.winner_chain_id == Some(
                game.host_chain_id,
            )
            &&& !over ==> after.status == game.status && after.round == next_u8(game.round)
                && after.winner_chain_id == game.winner_chain_id
            &&& game.status.rank() <= after.status.rank()
        }),
{
}

/// Resolving a round of a well-formed match that can be played gives a
/// well-formed match that continues it.
pub proof fn round_keeps_match_well_formed(
    game: GameView,
    host_choice: Choice,
    guest_choice: Choice,
    timestamp: Seq<char>,
)
    requires
        game.well_formed(),
        game.can_play(),
    ensures
        game.after_round(host_choice, guest_choice, timestamp).well_formed(),
        game.continued_by(game.after_round(host_choice, guest_choice, timestamp)),
{
}

} // verus!
