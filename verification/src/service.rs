//! The read side of a peer, and the commands that a front end schedules.
//!
//! [`QueryRoot`] answers questions about a snapshot of what the peer keeps,
//! from the point of view of the peer itself. [`MutationRoot`] turns the
//! wishes of the player into commands to be scheduled, and words to show the
//! player meanwhile; whether a command takes effect is seen in later answers.

use vstd::prelude::*;
use vstd::string::StringExecFns;
use crate::messages::{Operation, OperationView};
use crate::outcome::{Choice, RoundOutcome};
use crate::rules::{find_other_player, first_other};
use crate::state::SpsState;
use crate::types::{
    clone_game, clone_history, clone_text, game_view, history_view, text_view, Game, GameView,
    MatchStatus, RoundRecord, RoundRecordView,
};

verus! {

/// A snapshot of what a peer keeps, with the identity of the peer.
#[derive(Debug)]
pub struct QueryRoot {
    pub game: Option<Game>,
    pub chain_id: String,
    pub my_ready: bool,
    pub opponent_ready: bool,
    pub my_choice: Option<Choice>,
    pub opponent_choice: Option<Choice>,
    pub last_notification: Option<String>,
}

/// What a [`QueryRoot`] stands for.
#[verifier::ext_equal]
pub struct QueryView {
    pub game: Option<GameView>,
    pub chain_id: Seq<char>,
    pub my_ready: bool,
    pub opponent_ready: bool,
    pub my_choice: Option<Choice>,
    pub opponent_choice: Option<Choice>,
    pub last_notification: Option<Seq<char>>,
}

impl View for QueryRoot {
    type V = QueryView;

    open spec fn view(&self) -> QueryView {
        QueryView {
            game: game_view(self.game),
            chain_id: self.chain_id@,
            my_ready: self.my_ready,
            opponent_ready: self.opponent_ready,
            my_choice: self.my_choice,
            opponent_choice: self.opponent_choice,
            last_notification: text_view(self.last_notification),
        }
    }
}

impl QueryView {
    /// The peer is the host of the match it holds.
    pub open spec fn is_host(self) -> bool {
        self.game matches Some(game) && game.hosted_by(self.chain_id)
    }

    /// The first player of the match held who is not the peer.
    pub open spec fn opponent(self) -> Option<Seq<char>> {
        match self.game {
            Some(game) => first_other(game.players, self.chain_id),
            None => None,
        }
    }

    /// The score of the peer's own side.
    pub open spec fn my_score(self) -> Option<int> {
        match self.game {
            Some(game) => Some(
                if game.hosted_by(self.chain_id) {
                    game.host_score as int
                } else {
                    game.guest_score as int
                },
            ),
            None => None,
        }
    }

    /// The score of the other side.
    pub open spec fn opponent_score(self) -> Option<int> {
        match self.game {
            Some(game) => Some(
                if game.hosted_by(self.chain_id) {
                    game.guest_score as int
                } else {
                    game.host_score as int
                },
            ),
            None => None,
        }
    }

    /// The rounds on record, oldest first.
    pub open spec fn history(self) -> Seq<RoundRecordView> {
        match self.game {
            Some(game) => game.history,
            None => Seq::empty(),
        }
    }
}

impl QueryRoot {
    /// A snapshot of `state` as kept by the peer `chain_id`.
    pub fn new(state: &SpsState, chain_id: String) -> (root: QueryRoot)
        ensures
            root@ == (QueryView {
                game: state@.game,
                chain_id: chain_id@,
                my_ready: state@.my_ready,
                opponent_ready: state@.opponent_ready,
                my_choice: state@.my_choice,
                opponent_choice: state@.opponent_choice,
                last_notification: state@.last_notification,
            }),
    {
        QueryRoot {
            game: clone_game(&state.game),
            chain_id,
            my_ready: state.my_ready,
            opponent_ready: state.opponent_ready,
            my_choice: state.my_choice,
            opponent_choice: state.opponent_choice,
            last_notification: clone_text(&state.last_notification),
        }
    }

    /// The match held.
    pub fn game(&self) -> (game: Option<&Game>)
        ensures
            match game {
                Some(held) => self.game == Some(*held),
                None => self.game is None,
            },
    {
        self.game.as_ref()
    }

    /// The status of the match held.
    pub fn match_status(&self) -> (status: Option<MatchStatus>)
        ensures
            match status {
                Some(s) => self@.game is Some && self@.game.unwrap().status == s,
                None => self@.game is None,
            },
    {
        match &self.game {
            Some(game) => Some(game.status),
            None => None,
        }
    }

    /// The round in progress.
    pub fn round(&self) -> (round: Option<i32>)
        ensures
            match round {
                Some(r) => self@.game is Some && self@.game.unwrap().round == r,
                None => self@.game is None,
            },
    {
        match &self.game {
            Some(game) => Some(game.round as i32),
            None => None,
        }
    }

    /// Whether the peer hosts the match held.
    pub fn is_host(&self) -> (host: bool)
        ensures
            host == self@.is_host(),
    {
        match &self.game {
            Some(game) => game.hosted_by(&self.chain_id),
            None => false,
        }
    }

    /// The first player of the match held who is not the peer.
    pub fn opponent_chain_id(&self) -> (opponent: Option<String>)
        ensures
            text_view(opponent) == self@.opponent(),
    {
        match &self.game {
            Some(game) => match find_other_player(&game.players, &self.chain_id) {
                Some(place) => Some(game.players[place].chain_id.clone()),
                None => None,
            },
            None => None,
        }
    }

    /// Whether the peer's player is ready for the round.
    pub fn my_ready(&self) -> (ready: bool)
        ensures
            ready == self@.my_ready,
    {
        self.my_ready
    }

    /// Whether the opponent is known to be ready for the round.
    pub fn opponent_ready(&self) -> (ready: bool)
        ensures
            ready == self@.opponent_ready,
    {
        self.opponent_ready
    }

    /// What the peer's player has picked for the round.
    pub fn my_choice(&self) -> (choice: Option<Choice>)
        ensures
            choice == self@.my_choice,
    {
        self.my_choice
    }

    /// What the opponent is known to have picked for the round.
    pub fn opponent_choice(&self) -> (choice: Option<Choice>)
        ensures
            choice == self@.opponent_choice,
    {
        self.opponent_choice
    }

    /// The score of the peer's own side.
    pub fn my_score(&self) -> (score: Option<i32>)
        ensures
            match score {
                Some(points) => self@.my_score() == Some(points as int),
                None => self@.my_score() is None,
            },
    {
        match &self.game {
            Some(game) => {
                if game.hosted_by(&self.chain_id) {
                    Some(game.host_score as i32)
                } else {
                    Some(game.guest_score as i32)
                }
            },
            None => None,
        }
    }

    /// The score of the other side.
    pub fn opponent_score(&self) -> (score: Option<i32>)
        ensures
            match score {
                Some(points) => self@.opponent_score() == Some(points as int),
                None => self@.opponent_score() is None,
            },
    {
        match &self.game {
            Some(game) => {
                if game.hosted_by(&self.chain_id) {
                    Some(game.guest_score as i32)
                } else {
                    Some(game.host_score as i32)
                }
            },
            None => None,
        }
    }

    /// How the last resolved round ended.
    pub fn last_outcome(&self) -> (outcome: Option<RoundOutcome>)
        ensures
            outcome == match self@.game {
                Some(game) => game.last_outcome,
                None => None,
            },
    {
        match &self.game {
            Some(game) => game.last_outcome,
            None => None,
        }
    }

    /// The rounds on record, oldest first.
    pub fn round_history(&self) -> (history: Vec<RoundRecord>)
        ensures
            history_view(history@) == self@.history(),
    {
        match &self.game {
            Some(game) => clone_history(&game.history),
            None => {
                let history: Vec<RoundRecord> = Vec::new();
                assert(history_view(history@) =~= Seq::empty());
                history
            },
        }
    }

    /// The latest round on record.
    pub fn last_round_record(&self) -> (record: Option<RoundRecord>)
        ensures
            match record {
                Some(latest) => self@.history().len() > 0 && latest@ == self@.history().last(),
                None => self@.history().len() == 0,
            },
    {
        match &self.game {
            Some(game) => {
                if game.history.len() == 0 {
                    None
                } else {
                    Some(game.history[game.history.len() - 1].clone())
                }
            },
            None => None,
        }
    }

    /// The last notice for the player.
    pub fn last_notification(&self) -> (notice: Option<String>)
        ensures
            text_view(notice) == self@.last_notification,
    {
        clone_text(&self.last_notification)
    }
}

/// The commands that the front end has asked for and that wait to be
/// scheduled, in the order in which they were asked for.
#[derive(Debug)]
pub struct MutationRoot {
    pub scheduled: Vec<Operation>,
}

/// The commands that a list of operations stands for.
pub open spec fn operations_view(operations: Seq<Operation>) -> Seq<OperationView> {
    operations.map_values(|o: Operation| o@)
}

impl View for MutationRoot {
    type V = Seq<OperationView>;

    open spec fn view(&self) -> Seq<OperationView> {
        operations_view(self.scheduled@)
    }
}

impl MutationRoot {
    /// Nothing asked for yet.
    pub fn new() -> (root: MutationRoot)
        ensures
            root@ == Seq::<OperationView>::empty(),
    {
        let root = MutationRoot { scheduled: Vec::new() };
        assert(root@ =~= Seq::<OperationView>::empty());
        root
    }

    fn schedule_operation(&mut self, operation: Operation)
        ensures
            final(self)@ == old(self)@.push(operation@),
    {
        self.scheduled.push(operation);
        assert(self@ =~= old(self)@.push(operation@));
    }

    /// Asks for a new match hosted as `host_name`.
    pub fn create_match(&mut self, host_name: String) -> (words: String)
        ensures
            final(self)@ == old(self)@.push(OperationView::CreateMatch { host_name: host_name@ }),
            words@ == "Match created by '"@ + host_name@ + "'"@,
    {
        let words = String::from_str("Match created by '").concat(host_name.as_str()).concat("'");
        self.schedule_operation(Operation::CreateMatch { host_name });
        words
    }

    /// Asks for the free seat in the match hosted at `host_chain_id`.
    pub fn join_match(&mut self, host_chain_id: String, player_name: String) -> (words: String)
        ensures
            final(self)@ == old(self)@.push(
                OperationView::JoinMatch {
                    host_chain_id: host_chain_id@,
                    player_name: player_name@,
                },
            ),
            words@ == "Join request sent to "@ + host_chain_id@,
    {
        let words = String::from_str("Join request sent to ").concat(host_chain_id.as_str());
        self.schedule_operation(Operation::JoinMatch { host_chain_id, player_name });
        words
    }

    /// Asks the orchestrator at `orchestrator_chain_id` for an opponent.
    pub fn search_player(&mut self, orchestrator_chain_id: String, player_name: String) -> (words: String)
        ensures
            final(self)@ == old(self)@.push(
                OperationView::SearchPlayer {
                    orchestrator_chain_id: orchestrator_chain_id@,
                    player_name: player_name@,
                },
            ),
            words@ == "Search requested via "@ + orchestrator_chain_id@,
    {
        let words = String::from_str("Search requested via ").concat(
            orchestrator_chain_id.as_str(),
        );
        self.schedule_operation(Operation::SearchPlayer { orchestrator_chain_id, player_name });
        words
    }

    /// Asks to commit to `choice` for the round.
    pub fn pick_and_ready(&mut self, choice: Choice) -> (words: String)
        ensures
            final(self)@ == old(self)@.push(OperationView::PickAndReady { choice }),
            words@ == "Ready sent"@,
    {
        self.schedule_operation(Operation::PickAndReady { choice });
        String::from_str("Ready sent")
    }

    /// Asks to leave the match.
    pub fn leave_match(&mut self) -> (words: String)
        ensures
            final(self)@ == old(self)@.push(OperationView::LeaveMatch),
            words@ == "Leave requested"@,
    {
        self.schedule_operation(Operation::LeaveMatch);
        String::from_str("Leave requested")
    }
}

} // verus!
