use stone_paper_scissors::identity::is_valid_chain_id;
use stone_paper_scissors::{ContractError, Operation, SpsContract, SpsState};

#[test]
fn sixty_four_hex_digits_name_a_chain() {
    assert!(is_valid_chain_id(&"a".repeat(64)));
    assert!(is_valid_chain_id(&"0".repeat(64)));
    assert!(is_valid_chain_id(
        "0123456789abcdef0123456789abcdef0123456789abcdef0123456789abcdef"
    ));
}

#[test]
fn upper_and_mixed_case_are_accepted() {
    assert!(is_valid_chain_id(&"F".repeat(64)));
    assert!(is_valid_chain_id(
        "0123456789ABCDEF0123456789abcdef0123456789AbCdEf0123456789aBcDeF"
    ));
}

#[test]
fn wrong_lengths_are_refused() {
    assert!(!is_valid_chain_id(""));
    assert!(!is_valid_chain_id(&"a".repeat(63)));
    assert!(!is_valid_chain_id(&"a".repeat(65)));
    assert!(!is_valid_chain_id(&"a".repeat(62)));
    assert!(!is_valid_chain_id(&"a".repeat(66)));
    assert!(!is_valid_chain_id(&"a".repeat(128)));
}

#[test]
fn other_characters_are_refused() {
    let mut text = "a".repeat(63);
    text.push('g');
    assert!(!is_valid_chain_id(&text));
    let mut text = "a".repeat(63);
    text.push(' ');
    assert!(!is_valid_chain_id(&text));
    let mut text = "a".repeat(63);
    text.push('/');
    assert!(!is_valid_chain_id(&text));
    let mut text = "a".repeat(63);
    text.push(':');
    assert!(!is_valid_chain_id(&text));
    let mut text = "a".repeat(63);
    text.push('@');
    assert!(!is_valid_chain_id(&text));
    let mut text = "a".repeat(63);
    text.push('G');
    assert!(!is_valid_chain_id(&text));
    let mut text = "a".repeat(63);
    text.push('`');
    assert!(!is_valid_chain_id(&text));
}

#[test]
fn characters_outside_ascii_are_refused() {
    // 64 characters, but more bytes.
    let mut text = "a".repeat(63);
    text.push('é');
    assert!(!is_valid_chain_id(&text));
    // 64 bytes, but fewer characters.
    let mut text = "a".repeat(62);
    text.push('é');
    assert!(!is_valid_chain_id(&text));
}

#[test]
fn a_command_goes_by_what_the_parser_says() {
    let me = "1".repeat(64);
    let mut peer = SpsContract::new(SpsState::new(), me, 0);
    let refused = peer.execute_operation(Operation::JoinMatch {
        host_chain_id: "not a chain".to_string(),
        player_name: "Bob".to_string(),
    });
    assert_eq!(refused, Err(ContractError::InvalidHostChainId));
    assert!(peer.outbox.is_empty());
    let accepted = peer.execute_operation(Operation::JoinMatch {
        host_chain_id: "2".repeat(64),
        player_name: "Bob".to_string(),
    });
    assert_eq!(accepted, Ok(()));
    assert_eq!(peer.outbox.len(), 1);
}
