//! What one peer keeps between two commands or messages.

use vstd::prelude::*;
use crate::matchmaking::{clone_queue, queue_view, MatchmakingPlayer, MatchmakingPlayerView};
use crate::outcome::Choice;
use crate::types::{clone_game, clone_text, game_view, text_view, Game, GameView};

verus! {

/// A peer's replica of the match, what it knows of the round in progress, the
/// last notice for its player, and the queue it keeps as an orchestrator.
#[derive(Debug)]
pub struct SpsState {
    pub game: Option<Game>,
    pub my_ready: bool,
    pub opponent_ready: bool,
    pub my_choice: Option<Choice>,
    pub opponent_choice: Option<Choice>,
    pub last_notification: Option<String>,
    pub matchmaking_queue: Vec<MatchmakingPlayer>,
}

/// What an [`SpsState`] stands for.
#[verifier::ext_equal]
pub struct SpsStateView {
    pub game: Option<GameView>,
    pub my_ready: bool,
    pub opponent_ready: bool,
    pub my_choice: Option<Choice>,
    pub opponent_choice: Option<Choice>,
    pub last_notification: Option<Seq<char>>,
    pub matchmaking_queue: Seq<MatchmakingPlayerView>,
}

impl View for SpsState {
    type V = SpsStateView;

    open spec fn view(&self) -> SpsStateView {
        SpsStateView {
            game: game_view(self.game),
            my_ready: self.my_ready,
            opponent_ready: self.opponent_ready,
            my_choice: self.my_choice,
            opponent_choice: self.opponent_choice,
            last_notification: text_view(self.last_notification),
            matchmaking_queue: queue_view(self.matchmaking_queue@),
        }
    }
}

impl SpsStateView {
    /// The state of a peer that has just been set up.
    pub open spec fn empty() -> SpsStateView {
        SpsStateView {
            game: None,
            my_ready: false,
            opponent_ready: false,
            my_choice: None,
            opponent_choice: None,
            last_notification: None,
            matchmaking_queue: Seq::empty(),
        }
    }

    /// This state with nothing known of the round in progress.
    pub open spec fn round_reset(self) -> SpsStateView {
        SpsStateView {
            my_ready: false,
            opponent_ready: false,
            my_choice: None,
            opponent_choice: None,
            ..self
        }
    }

    /// This state with another replica.
    pub open spec fn with_game(self, game: Option<GameView>) -> SpsStateView {
        SpsStateView { game, ..self }
    }

    /// This state with another notice.
    pub open spec fn with_notification(self, notice: Option<Seq<char>>) -> SpsStateView {
        SpsStateView { last_notification: notice, ..self }
    }

    /// This state with another queue.
    pub open spec fn with_queue(self, queue: Seq<MatchmakingPlayerView>) -> SpsStateView {
        SpsStateView { matchmaking_queue: queue, ..self }
    }
}

impl SpsState {
    /// The state of a peer that has just been set up.
    pub fn new() -> (state: SpsState)
        ensures
            state@ == SpsStateView::empty(),
    {
        let state = SpsState {
            game: None,
            my_ready: false,
            opponent_ready: false,
            my_choice: None,
            opponent_choice: None,
            last_notification: None,
            matchmaking_queue: Vec::new(),
        };
        assert(state@.matchmaking_queue =~= Seq::empty());
        state
    }

    /// Forgets what is known of the round in progress.
    pub fn reset_round(&mut self)
        ensures
            final(self)@ == old(self)@.round_reset(),
    {
        self.my_ready = false;
        self.opponent_ready = false;
        self.my_choice = None;
        self.opponent_choice = None;
    }
}

impl Clone for SpsState {
    fn clone(&self) -> (copy: Self)
        ensures
            copy@ == self@,
    {
        SpsState {
            game: clone_game(&self.game),
            my_ready: self.my_ready,
            opponent_ready: self.opponent_ready,
            my_choice: self.my_choice,
            opponent_choice: self.opponent_choice,
            last_notification: clone_text(&self.last_notification),
            matchmaking_queue: clone_queue(&self.matchmaking_queue),
        }
    }
}

} // verus!
