//! The records of a match and the values that travel between peers, each with
//! the mathematical value it stands for.

use vstd::prelude::*;
use crate::outcome::{Choice, RoundOutcome};

verus! {

/// Where a match stands. A match only ever moves down this list.
#[derive(Debug, Clone, Copy, PartialEq, Eq, Structural)]
pub enum MatchStatus {
    WaitingForPlayer,
    Active,
    Ended,
}

/// One seat at the table.
#[derive(Debug)]
pub struct PlayerInfo {
    pub chain_id: String,
    pub name: String,
}

/// What a [`PlayerInfo`] stands for.
#[verifier::ext_equal]
pub struct PlayerInfoView {
    pub chain_id: Seq<char>,
    pub name: Seq<char>,
}

impl View for PlayerInfo {
    type V = PlayerInfoView;

    open spec fn view(&self) -> PlayerInfoView {
        PlayerInfoView { chain_id: self.chain_id@, name: self.name@ }
    }
}

impl Clone for PlayerInfo {
    fn clone(&self) -> (copy: Self)
        ensures
            copy@ == self@,
    {
        PlayerInfo { chain_id: self.chain_id.clone(), name: self.name.clone() }
    }
}

/// A resolved round as it is kept in the history.
#[derive(Debug)]
pub struct RoundRecord {
    pub round: u8,
    pub host_choice: Choice,
    pub guest_choice: Choice,
    pub outcome: RoundOutcome,
    pub host_score: u8,
    pub guest_score: u8,
    pub timestamp: String,
}

/// What a [`RoundRecord`] stands for.
#[verifier::ext_equal]
pub struct RoundRecordView {
    pub round: u8,
    pub host_choice: Choice,
    pub guest_choice: Choice,
    pub outcome: RoundOutcome,
    pub host_score: u8,
    pub guest_score: u8,
    pub timestamp: Seq<char>,
}

impl View for RoundRecord {
    type V = RoundRecordView;

    open spec fn view(&self) -> RoundRecordView {
        RoundRecordView {
            round: self.round,
            host_choice: self.host_choice,
            guest_choice: self.guest_choice,
            outcome: self.outcome,
            host_score: self.host_score,
            guest_score: self.guest_score,
            timestamp: self.timestamp@,
        }
    }
}

impl Clone for RoundRecord {
    fn clone(&self) -> (copy: Self)
        ensures
            copy@ == self@,
    {
        RoundRecord {
            round: self.round,
            host_choice: self.host_choice,
            guest_choice: self.guest_choice,
            outcome: self.outcome,
            host_score: self.host_score,
            guest_score: self.guest_score,
            timestamp: self.timestamp.clone(),
        }
    }
}

/// The seats that a list of players stands for.
pub open spec fn players_view(players: Seq<PlayerInfo>) -> Seq<PlayerInfoView> {
    players.map_values(|p: PlayerInfo| p@)
}

/// The rounds that a list of records stands for.
pub open spec fn history_view(history: Seq<RoundRecord>) -> Seq<RoundRecordView> {
    history.map_values(|r: RoundRecord| r@)
}

/// The text that an optional string stands for.
pub open spec fn text_view(text: Option<String>) -> Option<Seq<char>> {
    match text {
        Some(t) => Some(t@),
        None => None,
    }
}

/// Copies a list of players.
pub fn clone_players(players: &Vec<PlayerInfo>) -> (copy: Vec<PlayerInfo>)
    ensures
        players_view(copy@) == players_view(players@),
{
    let mut copy: Vec<PlayerInfo> = Vec::new();
    let mut i: usize = 0;
    while i < players.len()
        invariant
            i <= players.len(),
            copy.len() == i,
            forall|j: int| 0 <= j < i ==> copy[j]@ == players[j]@,
        decreases players.len() - i,
    {
        copy.push(players[i].clone());
        i += 1;
    }
    assert(players_view(copy@) =~= players_view(players@));
    copy
}

/// Copies a history.
pub fn clone_history(history: &Vec<RoundRecord>) -> (copy: Vec<RoundRecord>)
    ensures
        history_view(copy@) == history_view(history@),
{
    let mut copy: Vec<RoundRecord> = Vec::new();
    let mut i: usize = 0;
    while i < history.len()
        invariant
            i <= history.len(),
            copy.len() == i,
            forall|j: int| 0 <= j < i ==> copy[j]@ == history[j]@,
        decreases history.len() - i,
    {
        copy.push(history[i].clone());
        i += 1;
    }
    assert(history_view(copy@) =~= history_view(history@));
    copy
}

/// Copies an optional string.
pub fn clone_text(text: &Option<String>) -> (copy: Option<String>)
    ensures
        text_view(copy) == text_view(*text),
{
    match text {
        Some(t) => Some(t.clone()),
        None => None,
    }
}

/// The canonical snapshot of a match. Peers never share one: each holds its
/// own, and whole snapshots travel inside messages.
#[derive(Debug)]
pub struct Game {
    pub match_id: String,
    pub host_chain_id: String,
    pub status: MatchStatus,
    pub players: Vec<PlayerInfo>,
    pub round: u8,
    pub host_score: u8,
    pub guest_score: u8,
    pub last_round: Option<u8>,
    pub last_host_choice: Option<Choice>,
    pub last_guest_choice: Option<Choice>,
    pub last_outcome: Option<RoundOutcome>,
    pub history: Vec<RoundRecord>,
    pub winner_chain_id: Option<String>,
}

/// What a [`Game`] stands for.
#[verifier::ext_equal]
pub struct GameView {
    pub match_id: Seq<char>,
    pub host_chain_id: Seq<char>,
    pub status: MatchStatus,
    pub players: Seq<PlayerInfoView>,
    pub round: u8,
    pub host_score: u8,
    pub guest_score: u8,
    pub last_round: Option<u8>,
    pub last_host_choice: Option<Choice>,
    pub last_guest_choice: Option<Choice>,
    pub last_outcome: Option<RoundOutcome>,
    pub history: Seq<RoundRecordView>,
    pub winner_chain_id: Option<Seq<char>>,
}

impl View for Game {
    type V = GameView;

    open spec fn view(&self) -> GameView {
        GameView {
            match_id: self.match_id@,
            host_chain_id: self.host_chain_id@,
            status: self.status,
            players: players_view(self.players@),
            round: self.round,
            host_score: self.host_score,
            guest_score: self.guest_score,
            last_round: self.last_round,
            last_host_choice: self.last_host_choice,
            last_guest_choice: self.last_guest_choice,
            last_outcome: self.last_outcome,
            history: history_view(self.history@),
            winner_chain_id: text_view(self.winner_chain_id),
        }
    }
}

impl Clone for Game {
    fn clone(&self) -> (copy: Self)
        ensures
            copy@ == self@,
    {
        Game {
            match_id: self.match_id.clone(),
            host_chain_id: self.host_chain_id.clone(),
            status: self.status,
            players: clone_players(&self.players),
            round: self.round,
            host_score: self.host_score,
            guest_score: self.guest_score,
            last_round: self.last_round,
            last_host_choice: self.last_host_choice,
            last_guest_choice: self.last_guest_choice,
            last_outcome: self.last_outcome,
            history: clone_history(&self.history),
            winner_chain_id: clone_text(&self.winner_chain_id),
        }
    }
}

/// The match that an optional snapshot stands for.
pub open spec fn game_view(game: Option<Game>) -> Option<GameView> {
    match game {
        Some(g) => Some(g@),
        None => None,
    }
}

/// Copies an optional snapshot.
pub fn clone_game(game: &Option<Game>) -> (copy: Option<Game>)
    ensures
        game_view(copy) == game_view(*game),
{
    match game {
        Some(g) => Some(g.clone()),
        None => None,
    }
}

} // verus!
