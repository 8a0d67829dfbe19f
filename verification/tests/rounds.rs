use stone_paper_scissors::{
    Choice, ContractError, CrossChainMessage, Game, MatchStatus, Operation, OutgoingMessage,
    PlayerInfo, RoundOutcome, RoundRecord, SpsContract, SpsState,
};

const START: u64 = 1_700_000_000_000_000;

fn host_chain() -> String {
    "a".repeat(64)
}

fn guest_chain() -> String {
    "b".repeat(64)
}

fn active_game() -> Game {
    Game {
        match_id: "77".to_string(),
        host_chain_id: host_chain(),
        status: MatchStatus::Active,
        players: vec![
            PlayerInfo { chain_id: host_chain(), name: "Alice".to_string() },
            PlayerInfo { chain_id: guest_chain(), name: "Bob".to_string() },
        ],
        round: 1,
        host_score: 0,
        guest_score: 0,
        last_round: None,
        last_host_choice: None,
        last_guest_choice: None,
        last_outcome: None,
        history: Vec::new(),
        winner_chain_id: None,
    }
}

fn peer_with(id: String, game: Game, now: u64) -> SpsContract {
    let mut state = SpsState::new();
    state.game = Some(game);
    SpsContract::new(state, id, now)
}

fn drain(peer: &mut SpsContract) -> Vec<OutgoingMessage> {
    std::mem::take(&mut peer.outbox)
}

fn deliver_all(from: &mut SpsContract, to: &mut SpsContract) {
    for outgoing in drain(from) {
        assert_eq!(outgoing.destination, to.chain_id);
        assert_eq!(to.execute_message(outgoing.message), Ok(()));
    }
}

fn play_round(host: &mut SpsContract, guest: &mut SpsContract, host_pick: Choice, guest_pick: Choice) {
    assert_eq!(host.execute_operation(Operation::PickAndReady { choice: host_pick }), Ok(()));
    deliver_all(host, guest);
    assert_eq!(guest.execute_operation(Operation::PickAndReady { choice: guest_pick }), Ok(()));
    deliver_all(guest, host);
    deliver_all(host, guest);
    assert!(host.outbox.is_empty());
    assert!(guest.outbox.is_empty());
}

fn record_tuple(record: &RoundRecord) -> (u8, Choice, Choice, RoundOutcome, u8, u8) {
    (
        record.round,
        record.host_choice,
        record.guest_choice,
        record.outcome,
        record.host_score,
        record.guest_score,
    )
}

#[test]
fn a_full_round_between_two_peers() {
    let mut host = SpsContract::new(SpsState::new(), host_chain(), START);
    let mut guest = SpsContract::new(SpsState::new(), guest_chain(), START);
    assert_eq!(
        host.execute_operation(Operation::CreateMatch { host_name: "Alice".to_string() }),
        Ok(())
    );
    assert_eq!(
        guest.execute_operation(Operation::JoinMatch {
            host_chain_id: host_chain(),
            player_name: "Bob".to_string(),
        }),
        Ok(())
    );
    deliver_all(&mut guest, &mut host);
    deliver_all(&mut host, &mut guest);
    {
        let game = guest.state.game.as_ref().unwrap();
        assert_eq!(game.status, MatchStatus::Active);
        assert_eq!(game.round, 1);
        let names: Vec<&str> = game.players.iter().map(|p| p.name.as_str()).collect();
        assert_eq!(names, vec!["Alice", "Bob"]);
    }

    // The host picks first and tells the guest that it is ready.
    assert_eq!(host.execute_operation(Operation::PickAndReady { choice: Choice::Stone }), Ok(()));
    assert!(host.state.my_ready);
    assert_eq!(host.state.my_choice, Some(Choice::Stone));
    let mut sent = drain(&mut host);
    assert_eq!(sent.len(), 1);
    let notice = sent.remove(0);
    assert_eq!(notice.destination, guest_chain());
    match &notice.message {
        CrossChainMessage::ReadyNotice { player_chain_id, round } => {
            assert_eq!(*player_chain_id, host_chain());
            assert_eq!(*round, 1);
        }
        other => panic!("unexpected message {:?}", other),
    }
    assert_eq!(guest.execute_message(notice.message), Ok(()));
    assert!(guest.state.opponent_ready);
    assert!(guest.outbox.is_empty());

    // The guest picks; the host is known to be ready, so the choice goes out at once.
    assert_eq!(
        guest.execute_operation(Operation::PickAndReady { choice: Choice::Scissors }),
        Ok(())
    );
    let mut sent = drain(&mut guest);
    assert_eq!(sent.len(), 2);
    let reveal = sent.remove(1);
    let notice = sent.remove(0);
    assert!(matches!(notice.message, CrossChainMessage::ReadyNotice { round: 1, .. }));
    match &reveal.message {
        CrossChainMessage::ChoiceReveal { player_chain_id, round, choice } => {
            assert_eq!(*player_chain_id, guest_chain());
            assert_eq!(*round, 1);
            assert_eq!(*choice, Choice::Scissors);
        }
        other => panic!("unexpected message {:?}", other),
    }
    assert_eq!(reveal.destination, host_chain());

    // The guest's notice makes the host show its choice as well.
    assert_eq!(host.execute_message(notice.message), Ok(()));
    assert!(host.state.opponent_ready);
    let mut sent = drain(&mut host);
    assert_eq!(sent.len(), 1);
    let host_reveal = sent.remove(0);
    match &host_reveal.message {
        CrossChainMessage::ChoiceReveal { player_chain_id, round, choice } => {
            assert_eq!(*player_chain_id, host_chain());
            assert_eq!(*round, 1);
            assert_eq!(*choice, Choice::Stone);
        }
        other => panic!("unexpected message {:?}", other),
    }

    // The guest's choice lets the host resolve the round.
    assert_eq!(host.execute_message(reveal.message), Ok(()));
    let game = host.state.game.as_ref().unwrap();
    assert_eq!(game.last_outcome, Some(RoundOutcome::HostWins));
    assert_eq!(game.last_round, Some(1));
    assert_eq!(game.last_host_choice, Some(Choice::Stone));
    assert_eq!(game.last_guest_choice, Some(Choice::Scissors));
    assert_eq!(game.host_score, 1);
    assert_eq!(game.guest_score, 0);
    assert_eq!(game.round, 2);
    assert_eq!(game.status, MatchStatus::Active);
    assert_eq!(game.winner_chain_id, None);
    assert_eq!(game.history.len(), 1);
    assert_eq!(
        record_tuple(&game.history[0]),
        (1, Choice::Stone, Choice::Scissors, RoundOutcome::HostWins, 1, 0)
    );
    assert_eq!(game.history[0].timestamp, "1700000000000000");
    assert!(!host.state.my_ready);
    assert!(!host.state.opponent_ready);
    assert_eq!(host.state.my_choice, None);
    assert_eq!(host.state.opponent_choice, None);

    // The guest only takes note of the host's choice; the snapshot moves it on.
    assert_eq!(guest.execute_message(host_reveal.message), Ok(()));
    assert_eq!(guest.state.opponent_choice, Some(Choice::Stone));
    assert_eq!(guest.state.game.as_ref().unwrap().round, 1);
    assert_eq!(guest.state.game.as_ref().unwrap().host_score, 0);
    assert!(guest.outbox.is_empty());
    let mut sent = drain(&mut host);
    assert_eq!(sent.len(), 1);
    let sync = sent.remove(0);
    assert_eq!(sync.destination, guest_chain());
    assert!(matches!(sync.message, CrossChainMessage::GameSync { .. }));
    assert_eq!(guest.execute_message(sync.message), Ok(()));
    let replica = guest.state.game.as_ref().unwrap();
    assert_eq!(replica.last_outcome, Some(RoundOutcome::HostWins));
    assert_eq!(replica.host_score, 1);
    assert_eq!(replica.guest_score, 0);
    assert_eq!(replica.round, 2);
    assert_eq!(replica.history.len(), 1);
    assert_eq!(
        record_tuple(&replica.history[0]),
        (1, Choice::Stone, Choice::Scissors, RoundOutcome::HostWins, 1, 0)
    );
    assert!(!guest.state.my_ready);
    assert_eq!(guest.state.my_choice, None);
    assert_eq!(guest.state.opponent_choice, None);
}

#[test]
fn three_points_end_the_match() {
    let mut host = peer_with(host_chain(), active_game(), START);
    let mut guest = peer_with(guest_chain(), active_game(), START);
    play_round(&mut host, &mut guest, Choice::Stone, Choice::Scissors);
    play_round(&mut host, &mut guest, Choice::Paper, Choice::Paper);
    play_round(&mut host, &mut guest, Choice::Paper, Choice::Stone);
    {
        let game = host.state.game.as_ref().unwrap();
        assert_eq!((game.host_score, game.guest_score, game.round), (2, 0, 4));
        assert_eq!(game.status, MatchStatus::Active);
    }
    play_round(&mut host, &mut guest, Choice::Scissors, Choice::Paper);
    for peer in [&host, &guest] {
        let game = peer.state.game.as_ref().unwrap();
        assert_eq!(game.status, MatchStatus::Ended);
        assert_eq!(game.winner_chain_id, Some(host_chain()));
        assert_eq!(game.host_score, 3);
        assert_eq!(game.guest_score, 0);
        assert_eq!(game.round, 4);
        assert_eq!(game.last_round, Some(4));
        assert_eq!(game.history.len(), 4);
        assert_eq!(
            record_tuple(&game.history[1]),
            (2, Choice::Paper, Choice::Paper, RoundOutcome::Draw, 1, 0)
        );
        assert_eq!(
            record_tuple(&game.history[3]),
            (4, Choice::Scissors, Choice::Paper, RoundOutcome::HostWins, 3, 0)
        );
    }
    // Nothing is played after the end.
    assert_eq!(
        host.execute_operation(Operation::PickAndReady { choice: Choice::Stone }),
        Err(ContractError::MatchNotReady)
    );
    assert_eq!(
        host.execute_message(CrossChainMessage::ChoiceReveal {
            player_chain_id: guest_chain(),
            round: 4,
            choice: Choice::Stone,
        }),
        Ok(())
    );
    assert_eq!(
        host.execute_message(CrossChainMessage::ReadyNotice {
            player_chain_id: guest_chain(),
            round: 4,
        }),
        Ok(())
    );
    let game = host.state.game.as_ref().unwrap();
    assert_eq!((game.host_score, game.guest_score, game.round), (3, 0, 4));
    assert_eq!(game.history.len(), 4);
    assert_eq!(host.state.opponent_choice, None);
    assert!(!host.state.opponent_ready);
    assert!(host.outbox.is_empty());
}

#[test]
fn the_guest_can_win() {
    let mut host = peer_with(host_chain(), active_game(), START);
    let mut guest = peer_with(guest_chain(), active_game(), START);
    play_round(&mut host, &mut guest, Choice::Stone, Choice::Paper);
    play_round(&mut host, &mut guest, Choice::Stone, Choice::Scissors);
    play_round(&mut host, &mut guest, Choice::Paper, Choice::Scissors);
    play_round(&mut host, &mut guest, Choice::Scissors, Choice::Stone);
    for peer in [&host, &guest] {
        let game = peer.state.game.as_ref().unwrap();
        assert_eq!(game.status, MatchStatus::Ended);
        assert_eq!(game.winner_chain_id, Some(guest_chain()));
        assert_eq!((game.host_score, game.guest_score, game.round), (1, 3, 4));
        assert_eq!(game.last_outcome, Some(RoundOutcome::GuestWins));
    }
}

#[test]
fn picking_needs_a_match() {
    let mut peer = SpsContract::new(SpsState::new(), host_chain(), START);
    assert_eq!(peer.pick_and_ready(Choice::Stone), Err(ContractError::MatchNotFound));
    assert_eq!(peer.state.my_choice, None);
    assert!(!peer.state.my_ready);
    assert!(peer.outbox.is_empty());
}

#[test]
fn picking_needs_an_active_match_with_two_players() {
    let mut waiting = active_game();
    waiting.status = MatchStatus::WaitingForPlayer;
    let mut alone = active_game();
    alone.players.pop();
    let mut ended = active_game();
    ended.status = MatchStatus::Ended;
    for game in [waiting, alone, ended] {
        let mut peer = peer_with(host_chain(), game, START);
        assert_eq!(peer.pick_and_ready(Choice::Stone), Err(ContractError::MatchNotReady));
        assert_eq!(peer.state.my_choice, None);
        assert!(!peer.state.my_ready);
        assert!(peer.outbox.is_empty());
    }
}

#[test]
fn picking_twice_is_refused() {
    let mut peer = peer_with(host_chain(), active_game(), START);
    assert_eq!(peer.pick_and_ready(Choice::Stone), Ok(()));
    assert_eq!(peer.outbox.len(), 1);
    assert_eq!(peer.pick_and_ready(Choice::Paper), Err(ContractError::AlreadyReady));
    assert_eq!(peer.state.my_choice, Some(Choice::Stone));
    assert_eq!(peer.outbox.len(), 1);
}

#[test]
fn a_choice_without_readiness_blocks_picking() {
    let mut peer = peer_with(host_chain(), active_game(), START);
    peer.state.my_choice = Some(Choice::Scissors);
    assert_eq!(peer.pick_and_ready(Choice::Paper), Err(ContractError::ChoiceAlreadySet));
    assert_eq!(peer.state.my_choice, Some(Choice::Scissors));
    assert!(!peer.state.my_ready);
    assert!(peer.outbox.is_empty());
}

#[test]
fn picking_needs_an_opponent_that_can_be_addressed() {
    let mut game = active_game();
    game.players[1].chain_id = "guest".to_string();
    let mut peer = peer_with(host_chain(), game, START);
    assert_eq!(peer.pick_and_ready(Choice::Paper), Err(ContractError::OpponentNotFound));
    assert_eq!(peer.state.my_choice, None);
    assert!(!peer.state.my_ready);
    assert!(peer.outbox.is_empty());

    let mut game = active_game();
    game.players[1].chain_id = host_chain();
    let mut peer = peer_with(host_chain(), game, START);
    assert_eq!(peer.pick_and_ready(Choice::Paper), Err(ContractError::OpponentNotFound));
    assert!(peer.outbox.is_empty());
}

#[test]
fn a_ready_notice_needs_a_match() {
    let mut peer = SpsContract::new(SpsState::new(), host_chain(), START);
    assert_eq!(peer.handle_ready_notice(1), Err(ContractError::MatchNotFound));
    assert_eq!(peer.handle_choice_reveal(1, Choice::Stone), Err(ContractError::MatchNotFound));
    assert!(!peer.state.opponent_ready);
    assert_eq!(peer.state.opponent_choice, None);
}

#[test]
fn a_stale_ready_notice_is_ignored() {
    let mut game = active_game();
    game.round = 3;
    let mut peer = peer_with(host_chain(), game, START);
    peer.state.my_ready = true;
    peer.state.my_choice = Some(Choice::Stone);
    assert_eq!(peer.handle_ready_notice(2), Ok(()));
    assert!(!peer.state.opponent_ready);
    assert!(peer.outbox.is_empty());
    assert_eq!(peer.handle_ready_notice(4), Ok(()));
    assert!(!peer.state.opponent_ready);
    assert!(peer.outbox.is_empty());
    assert_eq!(peer.handle_ready_notice(3), Ok(()));
    assert!(peer.state.opponent_ready);
    assert_eq!(peer.outbox.len(), 1);
}

#[test]
fn a_ready_notice_for_a_match_that_cannot_be_played_is_ignored() {
    let mut game = active_game();
    game.status = MatchStatus::WaitingForPlayer;
    let mut peer = peer_with(host_chain(), game, START);
    assert_eq!(peer.handle_ready_notice(1), Ok(()));
    assert!(!peer.state.opponent_ready);
    assert!(peer.outbox.is_empty());
}

#[test]
fn a_ready_notice_before_the_own_pick_only_notes() {
    let mut peer = peer_with(guest_chain(), active_game(), START);
    assert_eq!(peer.handle_ready_notice(1), Ok(()));
    assert!(peer.state.opponent_ready);
    assert!(peer.outbox.is_empty());
    // Ready without a choice, or a choice without being ready: still nothing to show.
    peer.state.opponent_ready = false;
    peer.state.my_ready = true;
    assert_eq!(peer.handle_ready_notice(1), Ok(()));
    assert!(peer.state.opponent_ready);
    assert!(peer.outbox.is_empty());
    peer.state.my_ready = false;
    peer.state.my_choice = Some(Choice::Paper);
    assert_eq!(peer.handle_ready_notice(1), Ok(()));
    assert!(peer.outbox.is_empty());
}

#[test]
fn a_stale_choice_is_ignored() {
    let mut game = active_game();
    game.round = 5;
    let mut peer = peer_with(host_chain(), game, START);
    peer.state.my_ready = true;
    peer.state.my_choice = Some(Choice::Stone);
    assert_eq!(peer.handle_choice_reveal(4, Choice::Paper), Ok(()));
    assert_eq!(peer.state.opponent_choice, None);
    assert_eq!(peer.state.game.as_ref().unwrap().round, 5);
    assert!(peer.state.game.as_ref().unwrap().history.is_empty());
    assert!(peer.outbox.is_empty());
}

#[test]
fn a_second_choice_for_the_round_is_ignored() {
    // A guest that has the host's choice keeps it.
    let mut guest = peer_with(guest_chain(), active_game(), START);
    assert_eq!(guest.handle_choice_reveal(1, Choice::Stone), Ok(()));
    assert_eq!(guest.state.opponent_choice, Some(Choice::Stone));
    assert_eq!(guest.handle_choice_reveal(1, Choice::Paper), Ok(()));
    assert_eq!(guest.state.opponent_choice, Some(Choice::Stone));
    assert!(guest.outbox.is_empty());

    // A host that has not picked yet keeps the first choice too.
    let mut host = peer_with(host_chain(), active_game(), START);
    assert_eq!(host.handle_choice_reveal(1, Choice::Stone), Ok(()));
    assert_eq!(host.handle_choice_reveal(1, Choice::Paper), Ok(()));
    assert_eq!(host.state.opponent_choice, Some(Choice::Stone));
    assert_eq!(host.state.game.as_ref().unwrap().round, 1);
    assert!(host.outbox.is_empty());
}

#[test]
fn the_same_choice_delivered_twice_resolves_once() {
    let mut host = peer_with(host_chain(), active_game(), START);
    assert_eq!(host.pick_and_ready(Choice::Paper), Ok(()));
    drain(&mut host);
    let reveal = || CrossChainMessage::ChoiceReveal {
        player_chain_id: guest_chain(),
        round: 1,
        choice: Choice::Stone,
    };
    assert_eq!(host.execute_message(reveal()), Ok(()));
    assert_eq!(drain(&mut host).len(), 1);
    let once = host.state.clone();
    assert_eq!(host.execute_message(reveal()), Ok(()));
    assert!(host.outbox.is_empty());
    let game = host.state.game.as_ref().unwrap();
    let before = once.game.as_ref().unwrap();
    assert_eq!(game.round, 2);
    assert_eq!(game.round, before.round);
    assert_eq!(game.host_score, 1);
    assert_eq!(game.guest_score, 0);
    assert_eq!(game.history.len(), 1);
    assert_eq!(host.state.opponent_choice, None);
    assert_eq!(host.state.my_choice, None);
    assert!(!host.state.my_ready);
    assert!(!host.state.opponent_ready);
}

#[test]
fn the_guest_never_resolves() {
    let mut guest = peer_with(guest_chain(), active_game(), START);
    assert_eq!(guest.pick_and_ready(Choice::Paper), Ok(()));
    drain(&mut guest);
    assert_eq!(guest.handle_choice_reveal(1, Choice::Stone), Ok(()));
    let game = guest.state.game.as_ref().unwrap();
    assert_eq!(game.round, 1);
    assert_eq!(game.guest_score, 0);
    assert!(game.history.is_empty());
    assert_eq!(game.last_outcome, None);
    assert_eq!(guest.state.opponent_choice, Some(Choice::Stone));
    assert_eq!(guest.state.my_choice, Some(Choice::Paper));
    assert!(guest.outbox.is_empty());
}

#[test]
fn the_host_resolves_without_an_addressable_opponent_but_sends_nothing() {
    let mut game = active_game();
    game.players[1].chain_id = "guest".to_string();
    let mut host = peer_with(host_chain(), game, START);
    host.state.my_ready = true;
    host.state.my_choice = Some(Choice::Scissors);
    assert_eq!(host.handle_choice_reveal(1, Choice::Stone), Ok(()));
    let game = host.state.game.as_ref().unwrap();
    assert_eq!(game.round, 2);
    assert_eq!(game.guest_score, 1);
    assert_eq!(game.last_outcome, Some(RoundOutcome::GuestWins));
    assert!(host.outbox.is_empty());
}

#[test]
fn resolve_round_records_the_round() {
    let mut game = active_game();
    game.round = 7;
    game.host_score = 1;
    game.guest_score = 2;
    game.resolve_round(Choice::Paper, Choice::Stone, "42".to_string());
    assert_eq!(game.last_round, Some(7));
    assert_eq!(game.last_host_choice, Some(Choice::Paper));
    assert_eq!(game.last_guest_choice, Some(Choice::Stone));
    assert_eq!(game.last_outcome, Some(RoundOutcome::HostWins));
    assert_eq!((game.host_score, game.guest_score), (2, 2));
    assert_eq!(game.round, 8);
    assert_eq!(game.status, MatchStatus::Active);
    assert_eq!(game.winner_chain_id, None);
    assert_eq!(game.history.len(), 1);
    assert_eq!(
        record_tuple(&game.history[0]),
        (7, Choice::Paper, Choice::Stone, RoundOutcome::HostWins, 2, 2)
    );
    assert_eq!(game.history[0].timestamp, "42");
    assert_eq!(game.match_id, "77");
    assert_eq!(game.players.len(), 2);
}

#[test]
fn a_draw_changes_no_score() {
    let mut game = active_game();
    game.host_score = 2;
    game.guest_score = 1;
    game.resolve_round(Choice::Stone, Choice::Stone, "1".to_string());
    assert_eq!((game.host_score, game.guest_score), (2, 1));
    assert_eq!(game.round, 2);
    assert_eq!(game.last_outcome, Some(RoundOutcome::Draw));
    assert_eq!(game.status, MatchStatus::Active);
}

#[test]
fn the_host_has_priority_when_both_have_three() {
    let mut game = active_game();
    game.host_score = 2;
    game.guest_score = 3;
    game.resolve_round(Choice::Stone, Choice::Scissors, "1".to_string());
    assert_eq!((game.host_score, game.guest_score), (3, 3));
    assert_eq!(game.status, MatchStatus::Ended);
    assert_eq!(game.winner_chain_id, Some(host_chain()));
    assert_eq!(game.round, 1);
}

#[test]
fn a_guest_that_wins_without_a_seat_leaves_no_name() {
    let mut game = active_game();
    game.players.pop();
    game.guest_score = 2;
    game.resolve_round(Choice::Stone, Choice::Paper, "1".to_string());
    assert_eq!(game.status, MatchStatus::Ended);
    assert_eq!(game.winner_chain_id, Some(String::new()));
}

#[test]
fn scores_and_rounds_stop_at_the_largest_value() {
    let mut game = active_game();
    game.round = 255;
    game.resolve_round(Choice::Stone, Choice::Stone, "1".to_string());
    assert_eq!(game.round, 255);
    assert_eq!(game.status, MatchStatus::Active);

    let mut game = active_game();
    game.host_score = 255;
    game.resolve_round(Choice::Stone, Choice::Scissors, "1".to_string());
    assert_eq!(game.host_score, 255);
    assert_eq!(game.guest_score, 0);
    assert_eq!(game.status, MatchStatus::Ended);
}

#[test]
fn the_history_keeps_the_latest_fifty() {
    let mut game = active_game();
    for n in 1..=50u8 {
        game.resolve_round(Choice::Stone, Choice::Stone, n.to_string());
        assert_eq!(game.history.len(), n as usize);
    }
    assert_eq!(game.history[0].round, 1);
    assert_eq!(game.history[49].round, 50);
    game.resolve_round(Choice::Paper, Choice::Paper, "51".to_string());
    assert_eq!(game.history.len(), 50);
    assert_eq!(game.history[0].round, 2);
    assert_eq!(game.history[0].timestamp, "2");
    assert_eq!(game.history[49].round, 51);
    assert_eq!(game.history[49].host_choice, Choice::Paper);
    for n in 52..=60u8 {
        game.resolve_round(Choice::Stone, Choice::Stone, n.to_string());
        assert_eq!(game.history.len(), 50);
    }
    let rounds: Vec<u8> = game.history.iter().map(|r| r.round).collect();
    let expected: Vec<u8> = (11..=60).collect();
    assert_eq!(rounds, expected);
    assert_eq!(game.round, 61);
}

#[test]
fn an_overlong_history_is_cut_to_fifty() {
    let mut game = active_game();
    for n in 0..80u8 {
        game.history.push(RoundRecord {
            round: n,
            host_choice: Choice::Stone,
            guest_choice: Choice::Stone,
            outcome: RoundOutcome::Draw,
            host_score: 0,
            guest_score: 0,
            timestamp: String::new(),
        });
    }
    game.round = 80;
    game.resolve_round(Choice::Stone, Choice::Paper, "t".to_string());
    assert_eq!(game.history.len(), 50);
    let rounds: Vec<u8> = game.history.iter().map(|r| r.round).collect();
    let expected: Vec<u8> = (31..=80).collect();
    assert_eq!(rounds, expected);
    assert_eq!(game.history[49].outcome, RoundOutcome::GuestWins);
}

#[test]
fn scores_never_go_down_over_a_match() {
    let mut host = peer_with(host_chain(), active_game(), START);
    let mut guest = peer_with(guest_chain(), active_game(), START);
    let picks = [
        (Choice::Stone, Choice::Paper),
        (Choice::Stone, Choice::Stone),
        (Choice::Scissors, Choice::Paper),
        (Choice::Paper, Choice::Scissors),
        (Choice::Paper, Choice::Paper),
        (Choice::Stone, Choice::Scissors),
    ];
    let mut last = (0u8, 0u8, 1u8);
    for (host_pick, guest_pick) in picks {
        play_round(&mut host, &mut guest, host_pick, guest_pick);
        let game = host.state.game.as_ref().unwrap();
        let now = (game.host_score, game.guest_score, game.round);
        assert!(now.0 >= last.0 && now.1 >= last.1 && now.2 > last.2);
        assert!((now.0 - last.0) + (now.1 - last.1) <= 1);
        last = now;
    }
    assert_eq!(last, (2, 2, 7));
}
