//! One peer at work: it takes a command or a delivered message, changes what
//! it keeps, and puts what it has to say into its outbox.

use vstd::prelude::*;
use vstd::string::StringExecFns;
use crate::identity::is_valid_chain_id;
use crate::matchmaking::{prune_queue, take_front_pair, upsert_player};
use crate::messages::{
    outbox_view, ContractError, CrossChainMessage, InstantiationArgument, Operation, OutgoingMessage,
};
use crate::outcome::Choice;
use crate::protocol::{ContractView, Step};
use crate::rules::find_other_player;
use crate::state::{SpsState, SpsStateView};
use crate::text::decimal_text;
use crate::types::{clone_game, players_view, Game, MatchStatus, PlayerInfo};

verus! {

/// A peer while it processes one command or message.
///
/// `chain_id` is the identity of this peer and `now_micros` the time of the
/// block being executed. Whatever the peer sends is appended to `outbox`, to
/// be handed to the channel when the step is over. A step that returns an
/// error has changed nothing and sent nothing.
#[derive(Debug)]
pub struct SpsContract {
    pub state: SpsState,
    pub chain_id: String,
    pub now_micros: u64,
    pub outbox: Vec<OutgoingMessage>,
}

impl View for SpsContract {
    type V = ContractView;

    open spec fn view(&self) -> ContractView {
        ContractView {
            state: self.state@,
            chain_id: self.chain_id@,
            now_micros: self.now_micros,
            outbox: outbox_view(self.outbox@),
        }
    }
}

/// `result` and `after` are what `expected` asks for, given the peer `before`
/// the step.
pub open spec fn step_taken(
    result: Result<(), ContractError>,
    before: ContractView,
    after: ContractView,
    expected: Step,
) -> bool {
    match result {
        Ok(()) => expected == Ok::<ContractView, ContractError>(after),
        Err(error) => expected == Err::<ContractView, ContractError>(error) && after == before,
    }
}

impl SpsContract {
    /// A peer about to process a command or a message, with an empty outbox.
    pub fn new(state: SpsState, chain_id: String, now_micros: u64) -> (contract: SpsContract)
        ensures
            contract@ == (ContractView {
                state: state@,
                chain_id: chain_id@,
                now_micros,
                outbox: Seq::empty(),
            }),
    {
        let contract = SpsContract { state, chain_id, now_micros, outbox: Vec::new() };
        assert(contract@.outbox =~= Seq::empty());
        contract
    }

    /// Whether this peer is the host of `game`.
    pub fn is_host(&self, game: &Game) -> (host: bool)
        ensures
            host == game@.hosted_by(self@.chain_id),
    {
        game.hosted_by(&self.chain_id)
    }

    /// The peer at the other side of `game`, if it can be addressed.
    pub fn opponent_chain_id(&self, game: &Game) -> (opponent: Option<String>)
        ensures
            match opponent {
                Some(other) => self@.opponent(game@) == Some(other@),
                None => self@.opponent(game@) is None,
            },
    {
        match find_other_player(&game.players, &self.chain_id) {
            Some(place) => {
                if is_valid_chain_id(game.players[place].chain_id.as_str()) {
                    Some(game.players[place].chain_id.clone())
                } else {
                    None
                }
            },
            None => None,
        }
    }

    /// Forgets what is known of the round in progress.
    pub fn reset_round_local_state(&mut self)
        ensures
            final(self)@ == old(self)@.with_state(old(self)@.state.round_reset()),
    {
        self.state.reset_round();
    }

    /// Whether rounds can be played in `game`.
    pub fn can_play(&self, game: &Game) -> (ready: bool)
        ensures
            ready == game@.can_play(),
    {
        game.can_play()
    }

    /// Sorts the choice of this peer's player and that of its opponent into
    /// the host's and the guest's.
    pub fn host_and_guest_choices(
        &self,
        game: &Game,
        my_choice: Choice,
        opponent_choice: Choice,
    ) -> (choices: (Choice, Choice))
        ensures
            choices == if game@.hosted_by(self@.chain_id) {
                (my_choice, opponent_choice)
            } else {
                (opponent_choice, my_choice)
            },
    {
        if self.is_host(game) {
            (my_choice, opponent_choice)
        } else {
            (opponent_choice, my_choice)
        }
    }

    fn send_message(&mut self, destination: String, message: CrossChainMessage)
        ensures
            final(self)@ == old(self)@.sending(destination@, message@),
    {
        let outgoing = OutgoingMessage { destination, message };
        self.outbox.push(outgoing);
        assert(outbox_view(self.outbox@) =~= outbox_view(old(self).outbox@).push(outgoing@));
    }

    /// Sets the peer up: no match, no round, no notice, nobody waiting.
    pub fn instantiate(&mut self, _argument: InstantiationArgument)
        ensures
            final(self)@ == old(self)@.with_state(SpsStateView::empty()),
    {
        self.state = SpsState::new();
    }

    /// Opens a match with this peer as host, in place of any match it held.
    pub fn create_match(&mut self, host_name: String)
        ensures
            final(self)@ == old(self)@.after_create_match(host_name@),
    {
        let match_id = decimal_text(self.now_micros);
        let seat = PlayerInfo { chain_id: self.chain_id.clone(), name: host_name };
        let mut players: Vec<PlayerInfo> = Vec::new();
        players.push(seat);
        assert(players_view(players@) =~= seq![seat@]);
        let game = Game::fresh(
            match_id,
            self.chain_id.clone(),
            MatchStatus::WaitingForPlayer,
            players,
        );
        self.state.game = Some(game);
        self.state.reset_round();
        self.state.last_notification = None;
    }

    /// Asks the host at `host_chain_id` for the free seat of its match.
    pub fn join_match(
        &mut self,
        host_chain_id: String,
        player_name: String,
    ) -> (result: Result<(), ContractError>)
        ensures
            step_taken(
                result,
                old(self)@,
                final(self)@,
                old(self)@.after_join_match(host_chain_id@, player_name@),
            ),
    {
        if !is_valid_chain_id(host_chain_id.as_str()) {
            return Err(ContractError::InvalidHostChainId);
        }
        let request = CrossChainMessage::JoinRequest {
            player_chain_id: self.chain_id.clone(),
            player_name,
        };
        self.send_message(host_chain_id, request);
        Ok(())
    }

    /// Asks the orchestrator at `orchestrator_chain_id` for an opponent.
    pub fn search_player(
        &mut self,
        orchestrator_chain_id: String,
        player_name: String,
    ) -> (result: Result<(), ContractError>)
        ensures
            step_taken(
                result,
                old(self)@,
                final(self)@,
                old(self)@.after_search_player(orchestrator_chain_id@, player_name@),
            ),
    {
        if !is_valid_chain_id(orchestrator_chain_id.as_str()) {
            return Err(ContractError::InvalidOrchestratorChainId);
        }
        self.state.last_notification = Some(String::from_str("Matchmaking search started"));
        let request = CrossChainMessage::MatchmakingEnqueue {
            player_chain_id: self.chain_id.clone(),
            player_name,
        };
        self.send_message(orchestrator_chain_id, request);
        Ok(())
    }

    /// Commits the player of this peer to `choice` for the current round.
    pub fn pick_and_ready(&mut self, choice: Choice) -> (result: Result<(), ContractError>)
        ensures
            step_taken(result, old(self)@, final(self)@, old(self)@.after_pick_and_ready(choice)),
    {
        let game = match clone_game(&self.state.game) {
            Some(game) => game,
            None => {
                return Err(ContractError::MatchNotFound);
            },
        };
        if !self.can_play(&game) {
            return Err(ContractError::MatchNotReady);
        }
        if self.state.my_ready {
            return Err(ContractError::AlreadyReady);
        }
        if self.state.my_choice.is_some() {
            return Err(ContractError::ChoiceAlreadySet);
        }
        let opponent = match self.opponent_chain_id(&game) {
            Some(opponent) => opponent,
            None => {
                return Err(ContractError::OpponentNotFound);
            },
        };
        self.state.my_choice = Some(choice);
        self.state.my_ready = true;
        let round: u8 = game.round;
        let notice = CrossChainMessage::ReadyNotice { player_chain_id: self.chain_id.clone(), round };
        self.send_message(opponent.clone(), notice);
        if self.state.opponent_ready {
            let reveal = CrossChainMessage::ChoiceReveal {
                player_chain_id: self.chain_id.clone(),
                round,
                choice,
            };
            self.send_message(opponent, reveal);
        }
        Ok(())
    }

    /// Leaves the match, telling the opponent if there is one to tell.
    pub fn leave_match(&mut self)
        ensures
            final(self)@ == old(self)@.after_leave_match(),
    {
        match clone_game(&self.state.game) {
            Some(game) => {
                match self.opponent_chain_id(&game) {
                    Some(opponent) => {
                        let notice = CrossChainMessage::LeaveNotice {
                            player_chain_id: self.chain_id.clone(),
                        };
                        self.send_message(opponent, notice);
                    },
                    None => {},
                }
            },
            None => {},
        }
        self.state.game = None;
        self.state.reset_round();
        self.state.last_notification = None;
    }

    /// Carries out one command of the local player.
    pub fn execute_operation(&mut self, operation: Operation) -> (result: Result<(), ContractError>)
        ensures
            step_taken(result, old(self)@, final(self)@, old(self)@.after_operation(operation@)),
    {
        match operation {
            Operation::CreateMatch { host_name } => {
                self.create_match(host_name);
                Ok(())
            },
            Operation::JoinMatch { host_chain_id, player_name } => {
                self.join_match(host_chain_id, player_name)
            },
            Operation::SearchPlayer { orchestrator_chain_id, player_name } => {
                self.search_player(orchestrator_chain_id, player_name)
            },
            Operation::PickAndReady { choice } => self.pick_and_ready(choice),
            Operation::LeaveMatch => {
                self.leave_match();
                Ok(())
            },
        }
    }

    /// Lets `player_chain_id` into the match as `player_name`.
    pub fn handle_join_request(
        &mut self,
        player_chain_id: String,
        player_name: String,
    ) -> (result: Result<(), ContractError>)
        ensures
            step_taken(
                result,
                old(self)@,
                final(self)@,
                old(self)@.after_join_request(player_chain_id@, player_name@),
            ),
    {
        let mut game = match clone_game(&self.state.game) {
            Some(game) => game,
            None => {
                return Err(ContractError::MatchNotFound);
            },
        };
        if !self.is_host(&game) {
            return Err(ContractError::OnlyHostCanAcceptJoins);
        }
        if game.status != MatchStatus::WaitingForPlayer {
            return Err(ContractError::MatchNotJoinable);
        }
        if game.players.len() >= 2 {
            return Err(ContractError::MatchFull);
        }
        let ghost seats = game@.players;
        let seat = PlayerInfo { chain_id: player_chain_id.clone(), name: player_name };
        game.players.push(seat);
        assert(players_view(game.players@) =~= seats.push(seat@));
        game.status = MatchStatus::Active;
        self.state.game = Some(game.clone());
        self.state.reset_round();
        self.state.last_notification = Some(String::from_str("Player joined"));
        self.send_message(player_chain_id, CrossChainMessage::InitialStateSync { game });
        Ok(())
    }

    /// Takes the first snapshot of a match as this peer's replica.
    pub fn handle_initial_state_sync(&mut self, game: Game)
        ensures
            final(self)@ == old(self)@.after_initial_state_sync(game@),
    {
        self.state.game = Some(game);
        self.state.reset_round();
        self.state.last_notification = Some(String::from_str("Match ready"));
    }

    /// Takes a later snapshot of the match as this peer's replica.
    pub fn handle_game_sync(&mut self, game: Game)
        ensures
            final(self)@ == old(self)@.after_game_sync(game@),
    {
        self.state.game = Some(game);
        self.state.reset_round();
    }

    /// Notes that the opponent is ready for `round`.
    pub fn handle_ready_notice(&mut self, round: u8) -> (result: Result<(), ContractError>)
        ensures
            step_taken(result, old(self)@, final(self)@, old(self)@.after_ready_notice(round)),
    {
        let game = match clone_game(&self.state.game) {
            Some(game) => game,
            None => {
                return Err(ContractError::MatchNotFound);
            },
        };
        if !self.can_play(&game) {
            return Ok(());
        }
        if game.round != round {
            return Ok(());
        }
        self.state.opponent_ready = true;
        if self.state.my_ready {
            match self.state.my_choice {
                Some(choice) => {
                    match self.opponent_chain_id(&game) {
                        Some(opponent) => {
                            let reveal = CrossChainMessage::ChoiceReveal {
                                player_chain_id: self.chain_id.clone(),
                                round,
                                choice,
                            };
                            self.send_message(opponent, reveal);
                        },
                        None => {},
                    }
                },
                None => {},
            }
        }
        Ok(())
    }

    /// Takes note of the opponent's choice for `round` and, as host with both
    /// choices in hand, resolves the round.
    pub fn handle_choice_reveal(
        &mut self,
        round: u8,
        choice: Choice,
    ) -> (result: Result<(), ContractError>)
        ensures
            step_taken(
                result,
                old(self)@,
                final(self)@,
                old(self)@.after_choice_reveal(round, choice),
            ),
    {
        let mut game = match clone_game(&self.state.game) {
            Some(game) => game,
            None => {
                return Err(ContractError::MatchNotFound);
            },
        };
        if !self.can_play(&game) {
            return Ok(());
        }
        if game.round != round {
            return Ok(());
        }
        if self.state.opponent_choice.is_some() {
            return Ok(());
        }
        self.state.opponent_choice = Some(choice);
        if !self.is_host(&game) {
            return Ok(());
        }
        let my_choice = match self.state.my_choice {
            Some(mine) => mine,
            None => {
                return Ok(());
            },
        };
        let (host_choice, guest_choice) = self.host_and_guest_choices(&game, my_choice, choice);
        game.resolve_round(host_choice, guest_choice, decimal_text(self.now_micros));
        let opponent = self.opponent_chain_id(&game);
        self.state.game = Some(game.clone());
        self.state.reset_round();
        match opponent {
            Some(opponent) => {
                self.send_message(opponent, CrossChainMessage::GameSync { game });
            },
            None => {},
        }
        Ok(())
    }

    /// Drops the match because the opponent has left it.
    pub fn handle_leave_notice(&mut self)
        ensures
            final(self)@ == old(self)@.after_leave_notice(),
    {
        self.state.game = None;
        self.state.reset_round();
        self.state.last_notification = Some(String::from_str("Opponent left"));
    }

    /// Enqueues `player_chain_id` for an opponent and pairs the two peers at
    /// the front of the queue if two are waiting.
    pub fn handle_matchmaking_enqueue(
        &mut self,
        player_chain_id: String,
        player_name: String,
    ) -> (result: Result<(), ContractError>)
        ensures
            step_taken(
                result,
                old(self)@,
                final(self)@,
                old(self)@.after_matchmaking_enqueue(player_chain_id@, player_name@),
            ),
    {
        let mut queue = prune_queue(&self.state.matchmaking_queue, self.now_micros);
        upsert_player(&mut queue, player_chain_id.clone(), player_name, self.now_micros);
        let receipt = CrossChainMessage::MatchmakingEnqueued {
            orchestrator_chain_id: self.chain_id.clone(),
        };
        match take_front_pair(&mut queue) {
            None => {
                self.state.matchmaking_queue = queue;
                self.send_message(player_chain_id, receipt);
                Ok(())
            },
            Some((host, guest)) => {
                if !is_valid_chain_id(host.chain_id.as_str()) {
                    return Err(ContractError::InvalidHostChainId);
                }
                if !is_valid_chain_id(guest.chain_id.as_str()) {
                    return Err(ContractError::InvalidGuestChainId);
                }
                self.state.matchmaking_queue = queue;
                self.send_message(player_chain_id, receipt);
                let start = CrossChainMessage::MatchmakingStart {
                    host_name: host.player_name,
                    guest_chain_id: guest.chain_id.clone(),
                    guest_name: guest.player_name,
                };
                let found = CrossChainMessage::MatchmakingFound {
                    host_chain_id: host.chain_id.clone(),
                };
                self.send_message(host.chain_id, start);
                self.send_message(guest.chain_id, found);
                Ok(())
            },
        }
    }

    /// Tells the player that the orchestrator has enqueued it.
    pub fn handle_matchmaking_enqueued(&mut self, orchestrator_chain_id: String)
        ensures
            final(self)@ == old(self)@.after_matchmaking_enqueued(orchestrator_chain_id@),
    {
        let notice = String::from_str("Enqueued on ").concat(orchestrator_chain_id.as_str());
        self.state.last_notification = Some(notice);
    }

    /// Opens a match against `guest_chain_id` on the orchestrator's word,
    /// unless this peer is in an active match.
    pub fn handle_matchmaking_start(
        &mut self,
        host_name: String,
        guest_chain_id: String,
        guest_name: String,
    )
        ensures
            final(self)@ == old(self)@.after_matchmaking_start(
                host_name@,
                guest_chain_id@,
                guest_name@,
            ),
    {
        let busy = match &self.state.game {
            Some(game) => game.status == MatchStatus::Active,
            None => false,
        };
        if busy {
            return;
        }
        let match_id = decimal_text(self.now_micros);
        let host_seat = PlayerInfo { chain_id: self.chain_id.clone(), name: host_name };
        let guest_seat = PlayerInfo { chain_id: guest_chain_id.clone(), name: guest_name };
        let mut players: Vec<PlayerInfo> = Vec::new();
        players.push(host_seat);
        players.push(guest_seat);
        assert(players_view(players@) =~= seq![host_seat@, guest_seat@]);
        let game = Game::fresh(match_id, self.chain_id.clone(), MatchStatus::Active, players);
        self.state.game = Some(game.clone());
        self.state.reset_round();
        self.state.last_notification = Some(String::from_str("Match found (host)"));
        self.send_message(guest_chain_id, CrossChainMessage::InitialStateSync { game });
    }

    /// Tells the player who will host its match.
    pub fn handle_matchmaking_found(&mut self, host_chain_id: String)
        ensures
            final(self)@ == old(self)@.after_matchmaking_found(host_chain_id@),
    {
        let notice = String::from_str("Match found. Host: ").concat(host_chain_id.as_str());
        self.state.last_notification = Some(notice);
    }

    /// Processes one message delivered to this peer.
    pub fn execute_message(&mut self, message: CrossChainMessage) -> (result: Result<(), ContractError>)
        ensures
            step_taken(result, old(self)@, final(self)@, old(self)@.after_message(message@)),
    {
        match message {
            CrossChainMessage::JoinRequest { player_chain_id, player_name } => {
                self.handle_join_request(player_chain_id, player_name)
            },
            CrossChainMessage::InitialStateSync { game } => {
                self.handle_initial_state_sync(game);
                Ok(())
            },
            CrossChainMessage::GameSync { game } => {
                self.handle_game_sync(game);
                Ok(())
            },
            CrossChainMessage::ReadyNotice { player_chain_id: _, round } => {
                self.handle_ready_notice(round)
            },
            CrossChainMessage::ChoiceReveal { player_chain_id: _, round, choice } => {
                self.handle_choice_reveal(round, choice)
            },
            CrossChainMessage::LeaveNotice { player_chain_id: _ } => {
                self.handle_leave_notice();
                Ok(())
            },
            CrossChainMessage::MatchmakingEnqueue { player_chain_id, player_name } => {
                self.handle_matchmaking_enqueue(player_chain_id, player_name)
            },
            CrossChainMessage::MatchmakingEnqueued { orchestrator_chain_id } => {
                self.handle_matchmaking_enqueued(orchestrator_chain_id);
                Ok(())
            },
            CrossChainMessage::MatchmakingStart { host_name, guest_chain_id, guest_name } => {
                self.handle_matchmaking_start(host_name, guest_chain_id, guest_name);
                Ok(())
            },
            CrossChainMessage::MatchmakingFound { host_chain_id } => {
                self.handle_matchmaking_found(host_chain_id);
                Ok(())
            },
        }
    }
}

} // verus!
