//! Commands, the messages that peers exchange, and the ways a command or a
//! message can be refused.

use vstd::prelude::*;
use vstd::string::StringExecFns;
use crate::outcome::Choice;
use crate::types::{Game, GameView};

verus! {

/// The argument of instantiation; it carries nothing.
#[derive(Debug, Clone, Copy)]
pub struct InstantiationArgument;

/// A command of the local player.
#[derive(Debug)]
pub enum Operation {
    CreateMatch { host_name: String },
    JoinMatch { host_chain_id: String, player_name: String },
    SearchPlayer { orchestrator_chain_id: String, player_name: String },
    PickAndReady { choice: Choice },
    LeaveMatch,
}

/// What an [`Operation`] stands for.
#[verifier::ext_equal]
pub enum OperationView {
    CreateMatch { host_name: Seq<char> },
    JoinMatch { host_chain_id: Seq<char>, player_name: Seq<char> },
    SearchPlayer { orchestrator_chain_id: Seq<char>, player_name: Seq<char> },
    PickAndReady { choice: Choice },
    LeaveMatch,
}

impl View for Operation {
    type V = OperationView;

    open spec fn view(&self) -> OperationView {
        match *self {
            Operation::CreateMatch { host_name } => OperationView::CreateMatch {
                host_name: host_name@,
            },
            Operation::JoinMatch { host_chain_id, player_name } => OperationView::JoinMatch {
                host_chain_id: host_chain_id@,
                player_name: player_name@,
            },
            Operation::SearchPlayer { orchestrator_chain_id, player_name } => {
                OperationView::SearchPlayer {
                    orchestrator_chain_id: orchestrator_chain_id@,
                    player_name: player_name@,
                }
            },
            Operation::PickAndReady { choice } => OperationView::PickAndReady { choice },
            Operation::LeaveMatch => OperationView::LeaveMatch,
        }
    }
}

/// A message from one peer to another.
#[derive(Debug)]
pub enum CrossChainMessage {
    JoinRequest { player_chain_id: String, player_name: String },
    InitialStateSync { game: Game },
    GameSync { game: Game },
    ReadyNotice { player_chain_id: String, round: u8 },
    ChoiceReveal { player_chain_id: String, round: u8, choice: Choice },
    LeaveNotice { player_chain_id: String },
    MatchmakingEnqueue { player_chain_id: String, player_name: String },
    MatchmakingEnqueued { orchestrator_chain_id: String },
    MatchmakingStart { host_name: String, guest_chain_id: String, guest_name: String },
    MatchmakingFound { host_chain_id: String },
}

/// What a [`CrossChainMessage`] stands for.
#[verifier::ext_equal]
pub enum MessageView {
    JoinRequest { player_chain_id: Seq<char>, player_name: Seq<char> },
    InitialStateSync { game: GameView },
    GameSync { game: GameView },
    ReadyNotice { player_chain_id: Seq<char>, round: u8 },
    ChoiceReveal { player_chain_id: Seq<char>, round: u8, choice: Choice },
    LeaveNotice { player_chain_id: Seq<char> },
    MatchmakingEnqueue { player_chain_id: Seq<char>, player_name: Seq<char> },
    MatchmakingEnqueued { orchestrator_chain_id: Seq<char> },
    MatchmakingStart { host_name: Seq<char>, guest_chain_id: Seq<char>, guest_name: Seq<char> },
    MatchmakingFound { host_chain_id: Seq<char> },
}

impl View for CrossChainMessage {
    type V = MessageView;

    open spec fn view(&self) -> MessageView {
        match *self {
            CrossChainMessage::JoinRequest { player_chain_id, player_name } => {
                MessageView::JoinRequest {
                    player_chain_id: player_chain_id@,
                    player_name: player_name@,
                }
            },
            CrossChainMessage::InitialStateSync { game } => MessageView::InitialStateSync {
                game: game@,
            },
            CrossChainMessage::GameSync { game } => MessageView::GameSync { game: game@ },
            CrossChainMessage::ReadyNotice { player_chain_id, round } => MessageView::ReadyNotice {
                player_chain_id: player_chain_id@,
                round,
            },
            CrossChainMessage::ChoiceReveal { player_chain_id, round, choice } => {
                MessageView::ChoiceReveal { player_chain_id: player_chain_id@, round, choice }
            },
            CrossChainMessage::LeaveNotice { player_chain_id } => MessageView::LeaveNotice {
                player_chain_id: player_chain_id@,
            },
            CrossChainMessage::MatchmakingEnqueue { player_chain_id, player_name } => {
                MessageView::MatchmakingEnqueue {
                    player_chain_id: player_chain_id@,
                    player_name: player_name@,
                }
            },
            CrossChainMessage::MatchmakingEnqueued { orchestrator_chain_id } => {
                MessageView::MatchmakingEnqueued { orchestrator_chain_id: orchestrator_chain_id@ }
            },
            CrossChainMessage::MatchmakingStart { host_name, guest_chain_id, guest_name } => {
                MessageView::MatchmakingStart {
                    host_name: host_name@,
                    guest_chain_id: guest_chain_id@,
                    guest_name: guest_name@,
                }
            },
            CrossChainMessage::MatchmakingFound { host_chain_id } => MessageView::MatchmakingFound {
                host_chain_id: host_chain_id@,
            },
        }
    }
}

/// A message on its way, with the peer it is addressed to.
#[derive(Debug)]
pub struct OutgoingMessage {
    pub destination: String,
    pub message: CrossChainMessage,
}

/// What an [`OutgoingMessage`] stands for.
#[verifier::ext_equal]
pub struct OutgoingView {
    pub destination: Seq<char>,
    pub message: MessageView,
}

impl View for OutgoingMessage {
    type V = OutgoingView;

    open spec fn view(&self) -> OutgoingView {
        OutgoingView { destination: self.destination@, message: self.message@ }
    }
}

/// The messages that an outbox stands for, in the order in which they were sent.
pub open spec fn outbox_view(outbox: Seq<OutgoingMessage>) -> Seq<OutgoingView> {
    outbox.map_values(|m: OutgoingMessage| m@)
}

/// Why a command or a message was refused. A refusal leaves everything as it was.
#[derive(Debug, Clone, Copy, PartialEq, Eq, Structural)]
pub enum ContractError {
    /// The peer holds no match.
    MatchNotFound,
    /// The match is not active with both seats taken.
    MatchNotReady,
    /// The player is already ready for this round.
    AlreadyReady,
    /// The player has already picked for this round.
    ChoiceAlreadySet,
    /// No other player of the match can be addressed.
    OpponentNotFound,
    /// Somebody other than the host was asked to let a player in.
    OnlyHostCanAcceptJoins,
    /// The match is not waiting for a player.
    MatchNotJoinable,
    /// Both seats are taken.
    MatchFull,
    /// The text given for the host names no chain.
    InvalidHostChainId,
    /// The text given for the guest names no chain.
    InvalidGuestChainId,
    /// The text given for the orchestrator names no chain.
    InvalidOrchestratorChainId,
}

impl ContractError {
    /// The words for this refusal.
    pub open spec fn text(self) -> Seq<char> {
        match self {
            ContractError::MatchNotFound => "Match not found"@,
            ContractError::MatchNotReady => "Match not ready"@,
            ContractError::AlreadyReady => "Already ready"@,
            ContractError::ChoiceAlreadySet => "Choice already set"@,
            ContractError::OpponentNotFound => "Opponent not found"@,
            ContractError::OnlyHostCanAcceptJoins => "Only host can accept joins"@,
            ContractError::MatchNotJoinable => "Match not joinable"@,
            ContractError::MatchFull => "Match full"@,
            ContractError::InvalidHostChainId => "Invalid host chain ID"@,
            ContractError::InvalidGuestChainId => "Invalid guest chain ID"@,
            ContractError::InvalidOrchestratorChainId => "Invalid orchestrator chain ID"@,
        }
    }

    /// The words for this refusal.
    pub fn message(&self) -> (words: String)
        ensures
            words@ == self.text(),
    {
        match self {
            ContractError::MatchNotFound => String::from_str("Match not found"),
            ContractError::MatchNotReady => String::from_str("Match not ready"),
            ContractError::AlreadyReady => String::from_str("Already ready"),
            ContractError::ChoiceAlreadySet => String::from_str("Choice already set"),
            ContractError::OpponentNotFound => String::from_str("Opponent not found"),
            ContractError::OnlyHostCanAcceptJoins => String::from_str("Only host can accept joins"),
            ContractError::MatchNotJoinable => String::from_str("Match not joinable"),
            ContractError::MatchFull => String::from_str("Match full"),
            ContractError::InvalidHostChainId => String::from_str("Invalid host chain ID"),
            ContractError::InvalidGuestChainId => String::from_str("Invalid guest chain ID"),
            ContractError::InvalidOrchestratorChainId => String::from_str(
                "Invalid orchestrator chain ID",
            ),
        }
    }
}

} // verus!
