//! A two-player stone-paper-scissors match whose state is replicated between
//! two peers that only exchange messages.
//!
//! Each peer owns one [`SpsContract`]: its replica of the match, its choices
//! for the round in progress, and, when it acts as an orchestrator, a queue of
//! peers waiting to be paired. Commands and delivered messages are processed
//! one at a time; each either is refused without any effect or updates what
//! the peer keeps and appends messages to its outbox. What a step does is
//! written down once, as a function on mathematical values, in [`protocol`];
//! [`contract`] computes it, and [`laws`] says what follows from it.

pub mod contract;
pub mod identity;
pub mod laws;
pub mod matchmaking;
pub mod messages;
pub mod outcome;
pub mod protocol;
pub mod rules;
pub mod service;
pub mod state;
pub mod text;
pub mod types;

pub use contract::SpsContract;
pub use matchmaking::MatchmakingPlayer;
pub use messages::{
    ContractError, CrossChainMessage, InstantiationArgument, Operation, OutgoingMessage,
};
pub use outcome::{round_outcome, Choice, RoundOutcome};
pub use service::{MutationRoot, QueryRoot};
pub use state::SpsState;
pub use types::{Game, MatchStatus, PlayerInfo, RoundRecord};
