//! The rule that decides a round from the two choices made in it.

use vstd::prelude::*;

verus! {

/// What a player can pick in a round.
#[derive(Debug, Clone, Copy, PartialEq, Eq, Hash, Structural)]
pub enum Choice {
    Stone,
    Paper,
    Scissors,
}

/// How a round ended, seen from the host's side of the table.
#[derive(Debug, Clone, Copy, PartialEq, Eq, Hash, Structural)]
pub enum RoundOutcome {
    Draw,
    HostWins,
    GuestWins,
}

/// `a` beats `b`: stone blunts scissors, scissors cut paper, paper wraps stone.
pub open spec fn beats(a: Choice, b: Choice) -> bool {
    ||| (a == Choice::Stone && b == Choice::Scissors)
    ||| (a == Choice::Scissors && b == Choice::Paper)
    ||| (a == Choice::Paper && b == Choice::Stone)
}

/// The outcome of a round in which the host picked `host` and the guest `guest`.
pub open spec fn resolve(host: Choice, guest: Choice) -> RoundOutcome {
    if host == guest {
        RoundOutcome::Draw
    } else if beats(host, guest) {
        RoundOutcome::HostWins
    } else {
        RoundOutcome::GuestWins
    }
}

/// The outcome with the seats exchanged.
pub open spec fn mirrored(outcome: RoundOutcome) -> RoundOutcome {
    match outcome {
        RoundOutcome::Draw => RoundOutcome::Draw,
        RoundOutcome::HostWins => RoundOutcome::GuestWins,
        RoundOutcome::GuestWins => RoundOutcome::HostWins,
    }
}

/// Decides a round.
pub fn round_outcome(host_choice: Choice, guest_choice: Choice) -> (outcome: RoundOutcome)
    ensures
        outcome == resolve(host_choice, guest_choice),
{
    match (host_choice, guest_choice) {
        (Choice::Stone, Choice::Stone) => RoundOutcome::Draw,
        (Choice::Paper, Choice::Paper) => RoundOutcome::Draw,
        (Choice::Scissors, Choice::Scissors) => RoundOutcome::Draw,
        (Choice::Stone, Choice::Scissors) => RoundOutcome::HostWins,
        (Choice::Paper, Choice::Stone) => RoundOutcome::HostWins,
        (Choice::Scissors, Choice::Paper) => RoundOutcome::HostWins,
        _ => RoundOutcome::GuestWins,
    }
}

/// Equal choices draw, and nothing else does.
pub proof fn draw_iff_equal(host: Choice, guest: Choice)
    ensures
        resolve(host, guest) == RoundOutcome::Draw <==> host == guest,
        resolve(host, host) == RoundOutcome::Draw,
{
}

/// Of two different choices exactly one beats the other, so a round that is
/// not drawn has exactly one winner.
pub proof fn one_winner(host: Choice, guest: Choice)
    ensures
        host != guest ==> (beats(host, guest) <==> !beats(guest, host)),
        resolve(host, guest) == RoundOutcome::HostWins <==> beats(host, guest),
        resolve(host, guest) == RoundOutcome::GuestWins <==> beats(guest, host),
{
}

/// Exchanging the two choices exchanges the winner.
pub proof fn swap_mirrors(host: Choice, guest: Choice)
    ensures
        resolve(guest, host) == mirrored(resolve(host, guest)),
{
}

/// Dominance runs in a cycle: stone over scissors, scissors over paper, paper
/// over stone, and never the other way round.
pub proof fn dominance_cycle()
    ensures
        resolve(Choice::Stone, Choice::Scissors) == RoundOutcome::HostWins,
        resolve(Choice::Scissors, Choice::Paper) == RoundOutcome::HostWins,
        resolve(Choice::Paper, Choice::Stone) == RoundOutcome::HostWins,
        resolve(Choice::Scissors, Choice::Stone) == RoundOutcome::GuestWins,
        resolve(Choice::Paper, Choice::Scissors) == RoundOutcome::GuestWins,
        resolve(Choice::Stone, Choice::Paper) == RoundOutcome::GuestWins,
{
}

} // verus!
