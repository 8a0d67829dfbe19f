//! The protocol as a function: what a peer becomes, and what it sends, when
//! it processes one command or one delivered message.
//!
//! Every step is total. A step that is refused is an `Err`, and the peer stays
//! as it was; a message that arrives late or twice is accepted and changes
//! nothing.

use vstd::prelude::*;
use crate::identity::is_chain_id_text;
use crate::matchmaking::{pruned, upserted, MatchmakingPlayerView};
use crate::messages::{ContractError, MessageView, OperationView, OutgoingView};
use crate::outcome::Choice;
use crate::rules::{first_other, fresh_game};
use crate::state::SpsStateView;
use crate::text::decimal_digits;
use crate::types::{GameView, MatchStatus, PlayerInfoView};

verus! {

/// A peer while it processes one command or message: what it keeps, who it
/// is, what time it is, and what it has sent so far.
#[verifier::ext_equal]
pub struct ContractView {
    pub state: SpsStateView,
    pub chain_id: Seq<char>,
    pub now_micros: u64,
    pub outbox: Seq<OutgoingView>,
}

/// What a step gives: the peer after it, or the reason for the refusal.
pub type Step = Result<ContractView, ContractError>;

impl ContractView {
    /// This peer keeping `state`.
    pub open spec fn with_state(self, state: SpsStateView) -> ContractView {
        ContractView { state, ..self }
    }

    /// This peer after it has sent `message` to `destination`.
    pub open spec fn sending(self, destination: Seq<char>, message: MessageView) -> ContractView {
        ContractView { outbox: self.outbox.push(OutgoingView { destination, message }), ..self }
    }

    /// The time, written as a decimal number of microseconds.
    pub open spec fn time_text(self) -> Seq<char> {
        decimal_digits(self.now_micros as nat)
    }

    /// The peer at the other side of `game`: the first player who is not this
    /// peer, provided that its identity names a chain.
    pub open spec fn opponent(self, game: GameView) -> Option<Seq<char>> {
        match first_other(game.players, self.chain_id) {
            Some(other) => if is_chain_id_text(other) {
                Some(other)
            } else {
                None
            },
            None => None,
        }
    }

    /// The seat of this peer under `name`.
    pub open spec fn seat(self, name: Seq<char>) -> PlayerInfoView {
        PlayerInfoView { chain_id: self.chain_id, name }
    }

    /// After this peer has opened a match as `host_name`.
    pub open spec fn after_create_match(self, host_name: Seq<char>) -> ContractView {
        let game = fresh_game(
            self.time_text(),
            self.chain_id,
            MatchStatus::WaitingForPlayer,
            seq![self.seat(host_name)],
        );
        self.with_state(self.state.with_game(Some(game)).round_reset().with_notification(None))
    }

    /// After this peer has asked `host_chain_id` for the free seat.
    pub open spec fn after_join_match(self, host_chain_id: Seq<char>, player_name: Seq<char>) -> Step {
        if !is_chain_id_text(host_chain_id) {
            Err(ContractError::InvalidHostChainId)
        } else {
            Ok(
                self.sending(
                    host_chain_id,
                    MessageView::JoinRequest { player_chain_id: self.chain_id, player_name },
                ),
            )
        }
    }

    /// After this peer has asked `orchestrator_chain_id` for an opponent.
    pub open spec fn after_search_player(
        self,
        orchestrator_chain_id: Seq<char>,
        player_name: Seq<char>,
    ) -> Step {
        if !is_chain_id_text(orchestrator_chain_id) {
            Err(ContractError::InvalidOrchestratorChainId)
        } else {
            Ok(
                self.with_state(
                    self.state.with_notification(Some("Matchmaking search started"@)),
                ).sending(
                    orchestrator_chain_id,
                    MessageView::MatchmakingEnqueue { player_chain_id: self.chain_id, player_name },
                ),
            )
        }
    }

    /// After the player of this peer has picked `choice` for the current
    /// round. The opponent is told that the player is ready; it is also shown
    /// the choice if it is known to be ready itself.
    pub open spec fn after_pick_and_ready(self, choice: Choice) -> Step {
        match self.state.game {
            None => Err(ContractError::MatchNotFound),
            Some(game) => if !game.can_play() {
                Err(ContractError::MatchNotReady)
            } else if self.state.my_ready {
                Err(ContractError::AlreadyReady)
            } else if self.state.my_choice is Some {
                Err(ContractError::ChoiceAlreadySet)
            } else {
                match self.opponent(game) {
                    None => Err(ContractError::OpponentNotFound),
                    Some(opponent) => {
                        let ready = self.with_state(
                            SpsStateView { my_choice: Some(choice), my_ready: true, ..self.state },
                        ).sending(
                            opponent,
                            MessageView::ReadyNotice {
                                player_chain_id: self.chain_id,
                                round: game.round,
                            },
                        );
                        if self.state.opponent_ready {
                            Ok(
                                ready.sending(
                                    opponent,
                                    MessageView::ChoiceReveal {
                                        player_chain_id: self.chain_id,
                                        round: game.round,
                                        choice,
                                    },
                                ),
                            )
                        } else {
                            Ok(ready)
                        }
                    },
                }
            },
        }
    }

    /// After this peer has left its match, telling the opponent if there is one.
    pub open spec fn after_leave_match(self) -> ContractView {
        let told = match self.state.game {
            Some(game) => match self.opponent(game) {
                Some(opponent) => self.sending(
                    opponent,
                    MessageView::LeaveNotice { player_chain_id: self.chain_id },
                ),
                None => self,
            },
            None => self,
        };
        told.with_state(told.state.with_game(None).round_reset().with_notification(None))
    }

    /// After one command.
    pub open spec fn after_operation(self, operation: OperationView) -> Step {
        match operation {
            OperationView::CreateMatch { host_name } => Ok(self.after_create_match(host_name)),
            OperationView::JoinMatch { host_chain_id, player_name } => self.after_join_match(
                host_chain_id,
                player_name,
            ),
            OperationView::SearchPlayer { orchestrator_chain_id, player_name } => {
                self.after_search_player(orchestrator_chain_id, player_name)
            },
            OperationView::PickAndReady { choice } => self.after_pick_and_ready(choice),
            OperationView::LeaveMatch => Ok(self.after_leave_match()),
        }
    }

    /// After a request for the free seat. Only the host of a match that waits
    /// for a player grants it; the newcomer gets the whole match in reply.
    pub open spec fn after_join_request(self, player_chain_id: Seq<char>, player_name: Seq<char>) -> Step {
        match self.state.game {
            None => Err(ContractError::MatchNotFound),
            Some(game) => if !game.hosted_by(self.chain_id) {
                Err(ContractError::OnlyHostCanAcceptJoins)
            } else if game.status != MatchStatus::WaitingForPlayer {
                Err(ContractError::MatchNotJoinable)
            } else if game.players.len() >= 2 {
                Err(ContractError::MatchFull)
            } else {
                let joined = GameView {
                    players: game.players.push(
                        PlayerInfoView { chain_id: player_chain_id, name: player_name },
                    ),
                    status: MatchStatus::Active,
                    ..game
                };
                Ok(
                    self.with_state(
                        self.state.with_game(Some(joined)).round_reset().with_notification(
                            Some("Player joined"@),
                        ),
                    ).sending(player_chain_id, MessageView::InitialStateSync { game: joined }),
                )
            },
        }
    }

    /// After the first snapshot of a match has arrived.
    pub open spec fn after_initial_state_sync(self, game: GameView) -> ContractView {
        self.with_state(
            self.state.with_game(Some(game)).round_reset().with_notification(Some("Match ready"@)),
        )
    }

    /// After a later snapshot of the match has arrived.
    pub open spec fn after_game_sync(self, game: GameView) -> ContractView {
        self.with_state(self.state.with_game(Some(game)).round_reset())
    }

    /// After the opponent has said it is ready for `round`. If the player of
    /// this peer is ready too, the opponent is shown the choice.
    pub open spec fn after_ready_notice(self, round: u8) -> Step {
        match self.state.game {
            None => Err(ContractError::MatchNotFound),
            Some(game) => if !game.can_play() || game.round != round {
                Ok(self)
            } else {
                let noted = self.with_state(SpsStateView { opponent_ready: true, ..self.state });
                if self.state.my_ready && self.state.my_choice is Some && self.opponent(
                    game,
                ) is Some {
                    Ok(
                        noted.sending(
                            self.opponent(game).unwrap(),
                            MessageView::ChoiceReveal {
                                player_chain_id: self.chain_id,
                                round,
                                choice: self.state.my_choice.unwrap(),
                            },
                        ),
                    )
                } else {
                    Ok(noted)
                }
            },
        }
    }

    /// The opponent's choice for `round` is news to this peer.
    pub open spec fn accepts_reveal(self, round: u8) -> bool {
        &&& self.state.game matches Some(game)
        &&& game.can_play()
        &&& game.round == round
        &&& self.state.opponent_choice is None
    }

    /// The opponent's choice for `round` lets this peer resolve the round: it
    /// is news, this peer is the host, and its own player has picked.
    pub open spec fn resolves_on_reveal(self, round: u8) -> bool {
        &&& self.accepts_reveal(round)
        &&& self.state.game.unwrap().hosted_by(self.chain_id)
        &&& self.state.my_choice is Some
    }

    /// The match after this peer, as host, has resolved the current round
    /// against the opponent's `choice`.
    pub open spec fn resolved_game(self, choice: Choice) -> GameView {
        self.state.game.unwrap().after_round(self.state.my_choice.unwrap(), choice, self.time_text())
    }

    /// After the opponent has shown its choice for `round`. A guest only
    /// takes note. The host resolves the round as soon as it holds both
    /// choices, and sends the new snapshot to the opponent.
    pub open spec fn after_choice_reveal(self, round: u8, choice: Choice) -> Step {
        if self.state.game is None {
            Err(ContractError::MatchNotFound)
        } else if !self.accepts_reveal(round) {
            Ok(self)
        } else if !self.resolves_on_reveal(round) {
            Ok(self.with_state(SpsStateView { opponent_choice: Some(choice), ..self.state }))
        } else {
            let game = self.resolved_game(choice);
            let resolved = self.with_state(self.state.with_game(Some(game)).round_reset());
            match self.opponent(game) {
                Some(opponent) => Ok(resolved.sending(opponent, MessageView::GameSync { game })),
                None => Ok(resolved),
            }
        }
    }

    /// After the opponent has left.
    pub open spec fn after_leave_notice(self) -> ContractView {
        self.with_state(
            self.state.with_game(None).round_reset().with_notification(Some("Opponent left"@)),
        )
    }

    /// The queue of this peer once `peer` has enqueued under `name`, before
    /// anybody is paired.
    pub open spec fn queue_with(self, peer: Seq<char>, name: Seq<char>) -> Seq<MatchmakingPlayerView> {
        upserted(pruned(self.state.matchmaking_queue, self.now_micros), peer, name, self.now_micros)
    }

    /// After `peer` has asked this peer, as orchestrator, for an opponent.
    /// The peer always gets a receipt. If two peers wait, the two at the
    /// front leave the queue: the first is told to host the second, and the
    /// second is told who its host is.
    pub open spec fn after_matchmaking_enqueue(self, peer: Seq<char>, name: Seq<char>) -> Step {
        let queue = self.queue_with(peer, name);
        let receipted = self.sending(
            peer,
            MessageView::MatchmakingEnqueued { orchestrator_chain_id: self.chain_id },
        );
        if queue.len() < 2 {
            Ok(receipted.with_state(self.state.with_queue(queue)))
        } else if !is_chain_id_text(queue[0].chain_id) {
            Err(ContractError::InvalidHostChainId)
        } else if !is_chain_id_text(queue[1].chain_id) {
            Err(ContractError::InvalidGuestChainId)
        } else {
            Ok(
                receipted.with_state(self.state.with_queue(queue.skip(2))).sending(
                    queue[0].chain_id,
                    MessageView::MatchmakingStart {
                        host_name: queue[0].player_name,
                        guest_chain_id: queue[1].chain_id,
                        guest_name: queue[1].player_name,
                    },
                ).sending(
                    queue[1].chain_id,
                    MessageView::MatchmakingFound { host_chain_id: queue[0].chain_id },
                ),
            )
        }
    }

    /// After the orchestrator's receipt has arrived.
    pub open spec fn after_matchmaking_enqueued(self, orchestrator_chain_id: Seq<char>) -> ContractView {
        self.with_state(
            self.state.with_notification(Some("Enqueued on "@ + orchestrator_chain_id)),
        )
    }

    /// After the orchestrator has told this peer to host a match against
    /// `guest_chain_id`. A peer in an active match stays in it.
    pub open spec fn after_matchmaking_start(
        self,
        host_name: Seq<char>,
        guest_chain_id: Seq<char>,
        guest_name: Seq<char>,
    ) -> ContractView {
        if self.state.game matches Some(game) && game.status == MatchStatus::Active {
            self
        } else {
            let game = fresh_game(
                self.time_text(),
                self.chain_id,
                MatchStatus::Active,
                seq![
                    self.seat(host_name),
                    PlayerInfoView { chain_id: guest_chain_id, name: guest_name },
                ],
            );
            self.with_state(
                self.state.with_game(Some(game)).round_reset().with_notification(
                    Some("Match found (host)"@),
                ),
            ).sending(guest_chain_id, MessageView::InitialStateSync { game })
        }
    }

    /// After the orchestrator has told this peer who its host is.
    pub open spec fn after_matchmaking_found(self, host_chain_id: Seq<char>) -> ContractView {
        self.with_state(
            self.state.with_notification(Some("Match found. Host: "@ + host_chain_id)),
        )
    }

    /// After one delivered message.
    pub open spec fn after_message(self, message: MessageView) -> Step {
        match message {
            MessageView::JoinRequest { player_chain_id, player_name } => self.after_join_request(
                player_chain_id,
                player_name,
            ),
            MessageView::InitialStateSync { game } => Ok(self.after_initial_state_sync(game)),
            MessageView::GameSync { game } => Ok(self.after_game_sync(game)),
            MessageView::ReadyNotice { round, .. } => self.after_ready_notice(round),
            MessageView::ChoiceReveal { round, choice, .. } => self.after_choice_reveal(
                round,
                choice,
            ),
            MessageView::LeaveNotice { .. } => Ok(self.after_leave_notice()),
            MessageView::MatchmakingEnqueue { player_chain_id, player_name } => {
                self.after_matchmaking_enqueue(player_chain_id, player_name)
            },
            MessageView::MatchmakingEnqueued { orchestrator_chain_id } => Ok(
                self.after_matchmaking_enqueued(orchestrator_chain_id),
            ),
            MessageView::MatchmakingStart { host_name, guest_chain_id, guest_name } => Ok(
                self.after_matchmaking_start(host_name, guest_chain_id, guest_name),
            ),
            MessageView::MatchmakingFound { host_chain_id } => Ok(
                self.after_matchmaking_found(host_chain_id),
            ),
        }
    }
}

} // verus!
