//! What holds of every step of the protocol.

use vstd::prelude::*;
use crate::matchmaking::{
    distinct_peers, enqueuing_refreshes_or_joins, is_live, oldest_first, position_is_first,
    position_of, pruned, pruning_keeps_the_live, pruning_keeps_the_queue_in_shape,
};
use crate::messages::{ContractError, MessageView, OperationView};
use crate::outcome::Choice;
use crate::protocol::ContractView;
use crate::rules::round_keeps_match_well_formed;
use crate::state::SpsStateView;
use crate::types::MatchStatus;

verus! {

impl SpsStateView {
    /// The match held, if any, is well formed, and no peer waits twice.
    pub open spec fn well_formed(self) -> bool {
        &&& self.game matches Some(game) ==> game.well_formed()
        &&& distinct_peers(self.matchmaking_queue)
    }
}

impl MessageView {
    /// The snapshot that the message carries, if any, is well formed.
    pub open spec fn well_formed(self) -> bool {
        match self {
            MessageView::InitialStateSync { game } => game.well_formed(),
            MessageView::GameSync { game } => game.well_formed(),
            _ => true,
        }
    }
}

/// A command leaves a well-formed peer well formed.
pub proof fn commands_keep_the_peer_well_formed(peer: ContractView, operation: OperationView)
    requires
        peer.state.well_formed(),
    ensures
        peer.after_operation(operation) matches Ok(after) ==> after.state.well_formed(),
{
}

/// A message that carries no ill-formed snapshot leaves a well-formed peer
/// well formed. In particular the history of the match held never exceeds its
/// limit, and its players never number more than two.
pub proof fn messages_keep_the_peer_well_formed(peer: ContractView, message: MessageView)
    requires
        peer.state.well_formed(),
        message.well_formed(),
    ensures
        peer.after_message(message) matches Ok(after) ==> after.state.well_formed(),
{
    match message {
        MessageView::ChoiceReveal { round, choice, .. } => {
            if peer.resolves_on_reveal(round) {
                round_keeps_match_well_formed(
                    peer.state.game.unwrap(),
                    peer.state.my_choice.unwrap(),
                    choice,
                    peer.time_text(),
                );
            }
        },
        MessageView::MatchmakingEnqueue { player_chain_id, player_name } => {
            let live = pruned(peer.state.matchmaking_queue, peer.now_micros);
            pruning_keeps_the_queue_in_shape(peer.state.matchmaking_queue, peer.now_micros);
            enqueuing_refreshes_or_joins(live, player_chain_id, player_name, peer.now_micros);
            let waiting = peer.queue_with(player_chain_id, player_name);
            assert(distinct_peers(waiting));
            if waiting.len() >= 2 {
                let left = waiting.skip(2);
                assert forall|i: int, j: int| 0 <= i < j < left.len() implies (#[trigger] left[i]).chain_id
                    != (#[trigger] left[j]).chain_id by {
                    assert(left[i] == waiting[i + 2] && left[j] == waiting[j + 2]);
                }
            }
        },
        _ => {},
    }
}

/// A command other than the opening of a new match never takes the match
/// held backward: if the peer holds a match afterwards, it held it before, and
/// status, round and scores are where they were or further on.
pub proof fn commands_move_the_match_forward(peer: ContractView, operation: OperationView)
    requires
        !(operation is CreateMatch),
    ensures
        match peer.after_operation(operation) {
            Ok(after) => match after.state.game {
                Some(later) => peer.state.game is Some && peer.state.game.unwrap().continued_by(
                    later,
                ),
                None => true,
            },
            Err(_) => true,
        },
{
}

/// A message never takes the match held backward, provided that a snapshot
/// it carries continues the match held, and that an order to host a new match
/// finds the peer in an active one (where it is ignored): if the peer holds a
/// match afterwards, it held it before, and status, round and scores are
/// where they were or further on.
pub proof fn messages_move_the_match_forward(peer: ContractView, message: MessageView)
    requires
        message matches MessageView::InitialStateSync { game } ==> peer.state.game is Some
            && peer.state.game.unwrap().continued_by(game),
        message matches MessageView::GameSync { game } ==> peer.state.game is Some
            && peer.state.game.unwrap().continued_by(game),
        message is MatchmakingStart ==> peer.state.game is Some && peer.state.game.unwrap().status
            == MatchStatus::Active,
    ensures
        match peer.after_message(message) {
            Ok(after) => match after.state.game {
                Some(later) => peer.state.game is Some && peer.state.game.unwrap().continued_by(
                    later,
                ),
                None => true,
            },
            Err(_) => true,
        },
{
}

/// Once a match has ended no round is played in it: a player cannot commit to
/// a choice, and notices and choices that still arrive change nothing and
/// send nothing.
pub proof fn ended_match_plays_no_round(peer: ContractView, round: u8, choice: Choice)
    requires
        peer.state.game is Some,
        peer.state.game.unwrap().status == MatchStatus::Ended,
    ensures
        peer.after_pick_and_ready(choice) == Err::<ContractView, ContractError>(
            ContractError::MatchNotReady,
        ),
        peer.after_ready_notice(round) == Ok::<ContractView, ContractError>(peer),
        peer.after_choice_reveal(round, choice) == Ok::<ContractView, ContractError>(peer),
{
}

/// A match that has ended stays as it is until the peer drops it or takes up
/// another: its round number, its scores and its winner are final.
pub proof fn ended_match_is_final(peer: ContractView, operation: OperationView, message: MessageView)
    requires
        peer.state.game is Some,
        peer.state.game.unwrap().status == MatchStatus::Ended,
        !(operation is CreateMatch),
        !(message is InitialStateSync),
        !(message is GameSync),
        !(message is MatchmakingStart),
    ensures
        peer.after_operation(operation) matches Ok(after) ==> after.state.game is None
            || after.state.game == peer.state.game,
        peer.after_message(message) matches Ok(after) ==> after.state.game is None
            || after.state.game == peer.state.game,
{
}

/// Whenever a step changes the match held, be it a new match, a new player,
/// a new round, a snapshot or no match at all, the peer forgets what it knew
/// of the round in progress.
pub proof fn changed_match_resets_the_round(
    peer: ContractView,
    operation: OperationView,
    message: MessageView,
)
    ensures
        peer.after_operation(operation) matches Ok(after) ==> after.state.game == peer.state.game
            || after.state == after.state.round_reset(),
        peer.after_message(message) matches Ok(after) ==> after.state.game == peer.state.game
            || after.state == after.state.round_reset(),
{
}

/// A round is resolved by nobody but the host, and only in an active match
/// with both seats taken: any other delivery of a choice leaves the match as
/// it is.
pub proof fn only_the_host_resolves(peer: ContractView, round: u8, choice: Choice)
    requires
        !peer.resolves_on_reveal(round),
    ensures
        peer.after_choice_reveal(round, choice) matches Ok(after) ==> after.state.game
            == peer.state.game && after.outbox == peer.outbox,
{
}

/// When the host resolves a round and can address its opponent, the last
/// thing it sends is the match as it now holds it, to that opponent; a peer
/// that processes this message holds the same match, with nothing known of
/// the round in progress.
pub proof fn snapshot_brings_the_guest_level(
    host: ContractView,
    guest: ContractView,
    round: u8,
    choice: Choice,
)
    requires
        host.resolves_on_reveal(round),
        host.opponent(host.resolved_game(choice)) is Some,
    ensures
        ({
            let resolved = host.after_choice_reveal(round, choice);
            let sent = resolved.unwrap().outbox.last();
            let level = guest.after_message(sent.message);
            &&& resolved is Ok
            &&& resolved.unwrap().outbox.len() == host.outbox.len() + 1
            &&& Some(sent.destination) == host.opponent(host.resolved_game(choice))
            &&& level is Ok
            &&& level.unwrap().state.game == resolved.unwrap().state.game
            &&& level.unwrap().state == level.unwrap().state.round_reset()
            &&& level.unwrap().outbox == guest.outbox
        }),
{
}

/// A choice that is delivered a second time changes nothing and sends
/// nothing. Left out is the one case in which the round counter cannot move
/// on: the host resolves round 255 and the match does not end with it.
pub proof fn second_reveal_changes_nothing(peer: ContractView, round: u8, choice: Choice)
    requires
        !(peer.resolves_on_reveal(round) && round == u8::MAX && peer.resolved_game(choice).status
            != MatchStatus::Ended),
    ensures
        peer.after_choice_reveal(round, choice) matches Ok(once) ==> once.after_choice_reveal(
            round,
            choice,
        ) == Ok::<ContractView, ContractError>(once),
{
}

/// Nothing but a request to be enqueued changes the queue.
pub proof fn only_enqueuing_changes_the_queue(
    peer: ContractView,
    operation: OperationView,
    message: MessageView,
)
    requires
        !(message is MatchmakingEnqueue),
    ensures
        peer.after_operation(operation) matches Ok(after) ==> after.state.matchmaking_queue
            == peer.state.matchmaking_queue,
        peer.after_message(message) matches Ok(after) ==> after.state.matchmaking_queue
            == peer.state.matchmaking_queue,
{
}

/// Pairing takes the two entries at the front of the queue as it stands once
/// the expired entries are gone and the newcomer is in: the first becomes the
/// host, the second the guest, each is told so after the newcomer has its
/// receipt, and the entries behind them stay, in their order. With fewer
/// than two entries nobody is paired and only the receipt is sent.
pub proof fn pairing_takes_the_front(peer: ContractView, newcomer: Seq<char>, name: Seq<char>)
    ensures
        ({
            let waiting = peer.queue_with(newcomer, name);
            let sent = peer.outbox.len() as int;
            match peer.after_matchmaking_enqueue(newcomer, name) {
                Ok(after) => {
                    &&& after.outbox.len() >= sent + 1
                    &&& after.outbox.take(sent) == peer.outbox
                    &&& after.outbox[sent].destination == newcomer
                    &&& after.outbox[sent].message
                        == (MessageView::MatchmakingEnqueued { orchestrator_chain_id: peer.chain_id })
                    &&& waiting.len() < 2 ==> after.state.matchmaking_queue == waiting
                        && after.outbox.len() == sent + 1
                    &&& waiting.len() >= 2 ==> {
                        &&& after.state.matchmaking_queue.len() == waiting.len() - 2
                        &&& forall|i: int|
                            0 <= i < waiting.len() - 2 ==> #[trigger] after.state.matchmaking_queue[i]
                                == waiting[i + 2]
                        &&& after.outbox.len() == sent + 3
                        &&& after.outbox[sent + 1].destination == waiting[0].chain_id
                        &&& after.outbox[sent + 1].message
                            == (MessageView::MatchmakingStart {
                            host_name: waiting[0].player_name,
                            guest_chain_id: waiting[1].chain_id,
                            guest_name: waiting[1].player_name,
                        })
                        &&& after.outbox[sent + 2].destination == waiting[1].chain_id
                        &&& after.outbox[sent + 2].message
                            == (MessageView::MatchmakingFound { host_chain_id: waiting[0].chain_id })
                    }
                },
                Err(_) => waiting.len() >= 2,
            }
        }),
{
}

/// Nobody who has expired is ever paired, and, where the queue is ordered by
/// the time of joining and the clock has not run backwards, the two at the
/// front joined no later than anybody who stays behind. Left out is a peer
/// that enqueues again while it is one of the first two of more than two: it
/// keeps its place with a new time.
pub proof fn pairing_takes_the_oldest(peer: ContractView, newcomer: Seq<char>, name: Seq<char>)
    requires
        oldest_first(peer.state.matchmaking_queue),
        forall|i: int|
            0 <= i < peer.state.matchmaking_queue.len() ==> (
            #[trigger] peer.state.matchmaking_queue[i]).enqueued_at_micros <= peer.now_micros,
        position_of(pruned(peer.state.matchmaking_queue, peer.now_micros), newcomer) matches Some(
            place,
        ) ==> place >= 2 || pruned(peer.state.matchmaking_queue, peer.now_micros).len() <= 2,
    ensures
        ({
            let waiting = peer.queue_with(newcomer, name);
            &&& forall|i: int| 0 <= i < waiting.len() ==> is_live(#[trigger] waiting[i], peer.now_micros)
            &&& forall|k: int|
                2 <= k < waiting.len() ==> waiting[0].enqueued_at_micros <= (
                #[trigger] waiting[k]).enqueued_at_micros && waiting[1].enqueued_at_micros
                    <= waiting[k].enqueued_at_micros
        }),
{
    let queue = peer.state.matchmaking_queue;
    let live = pruned(queue, peer.now_micros);
    let waiting = peer.queue_with(newcomer, name);
    pruning_keeps_the_live(queue, peer.now_micros);
    pruning_keeps_the_queue_in_shape(queue, peer.now_micros);
    position_is_first(live, newcomer);
    assert forall|i: int| 0 <= i < live.len() implies (#[trigger] live[i]).enqueued_at_micros
        <= peer.now_micros by {
        assert(queue.contains(live[i]));
    }
    assert forall|i: int| 0 <= i < waiting.len() implies is_live(#[trigger] waiting[i], peer.now_micros) by {
        if i < live.len() {
            assert(is_live(live[i], peer.now_micros));
        }
    }
    assert forall|k: int| 2 <= k < waiting.len() implies waiting[0].enqueued_at_micros <= (
    #[trigger] waiting[k]).enqueued_at_micros && waiting[1].enqueued_at_micros
        <= waiting[k].enqueued_at_micros by {
        assert(waiting[0] == live[0] && waiting[1] == live[1]);
        if k < live.len() {
            assert(live[0].enqueued_at_micros <= live[k].enqueued_at_micros);
            assert(live[1].enqueued_at_micros <= live[k].enqueued_at_micros);
        }
    }
}

/// An orchestrator whose queue holds at most one entry, as it does when the
/// peer is set up, never holds more after a step: whoever enqueues second is
/// paired with whoever waits.
pub proof fn queue_holds_at_most_one(peer: ContractView, message: MessageView)
    requires
        peer.state.matchmaking_queue.len() <= 1,
    ensures
        peer.after_message(message) matches Ok(after) ==> after.state.matchmaking_queue.len() <= 1,
{
    match message {
        MessageView::MatchmakingEnqueue { player_chain_id, .. } => {
            pruning_keeps_the_live(peer.state.matchmaking_queue, peer.now_micros);
            position_is_first(
                pruned(peer.state.matchmaking_queue, peer.now_micros),
                player_chain_id,
            );
        },
        _ => {},
    }
}

} // verus!
