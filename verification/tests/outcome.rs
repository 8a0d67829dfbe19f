use stone_paper_scissors::{round_outcome, Choice, RoundOutcome};

#[test]
fn equal_choices_draw() {
    assert_eq!(round_outcome(Choice::Stone, Choice::Stone), RoundOutcome::Draw);
    assert_eq!(round_outcome(Choice::Paper, Choice::Paper), RoundOutcome::Draw);
    assert_eq!(round_outcome(Choice::Scissors, Choice::Scissors), RoundOutcome::Draw);
}

#[test]
fn host_wins_along_the_cycle() {
    assert_eq!(round_outcome(Choice::Stone, Choice::Scissors), RoundOutcome::HostWins);
    assert_eq!(round_outcome(Choice::Scissors, Choice::Paper), RoundOutcome::HostWins);
    assert_eq!(round_outcome(Choice::Paper, Choice::Stone), RoundOutcome::HostWins);
}

#[test]
fn guest_wins_against_the_cycle() {
    assert_eq!(round_outcome(Choice::Scissors, Choice::Stone), RoundOutcome::GuestWins);
    assert_eq!(round_outcome(Choice::Paper, Choice::Scissors), RoundOutcome::GuestWins);
    assert_eq!(round_outcome(Choice::Stone, Choice::Paper), RoundOutcome::GuestWins);
}

#[test]
fn swapping_the_choices_swaps_the_winner() {
    let all = [Choice::Stone, Choice::Paper, Choice::Scissors];
    for host in all {
        for guest in all {
            let expected = match round_outcome(host, guest) {
                RoundOutcome::Draw => RoundOutcome::Draw,
                RoundOutcome::HostWins => RoundOutcome::GuestWins,
                RoundOutcome::GuestWins => RoundOutcome::HostWins,
            };
            assert_eq!(round_outcome(guest, host), expected);
        }
    }
}
