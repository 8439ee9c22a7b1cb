//! State machine scenarios, driven through the always-accepting verifier
//! double exactly as a host would drive the real one: ask for the journal
//! request, obtain the verdict, hand the verdict back.

use zk_uno::Error;
use zk_uno::HubEvent;
use zk_uno::MockRisc0Verifier;
use zk_uno::ZkUnoContract;
use zk_uno::commit_hash;
use zk_uno::BLUE;
use zk_uno::GREEN;
use zk_uno::RED;
use zk_uno::WILD;
use zk_uno::WILD_CARD;
use zk_uno::YELLOW;

const ADMIN: u64 = 900;
const HUB: u64 = 901;
const VERIFIER: u64 = 700;
const PLAYER1: u64 = 11;
const PLAYER2: u64 = 22;

fn setup() -> (ZkUnoContract, u64, u64) {
    let c = ZkUnoContract::new(ADMIN, HUB);
    (c, PLAYER1, PLAYER2)
}

fn setup_zk(c: &mut ZkUnoContract) {
    c.set_risc0_verifier(VERIFIER);
}

fn zero_salt() -> [u8; 32] {
    [0u8; 32]
}

fn one_salt() -> [u8; 32] {
    [1u8; 32]
}

fn make_hand(pairs: &[(u32, u32)]) -> Vec<u8> {
    let mut b = Vec::new();
    for (c, v) in pairs {
        b.push(*c as u8);
        b.push(*v as u8);
    }
    b
}

fn valid_hand() -> Vec<u8> {
    make_hand(&[
        (RED, 0),
        (RED, 0),
        (RED, 0),
        (RED, 0),
        (RED, 0),
        (RED, 0),
        (RED, 0),
    ])
}

fn hand_hash(hand: &Vec<u8>, salt: &[u8; 32]) -> [u8; 32] {
    commit_hash(hand, salt)
}

fn mock_seal() -> Vec<u8> {
    vec![0u8; 36]
}

/// Ask the mock verifier for its verdict on a commit request, as the host
/// would, and hand it to the state machine.
fn commit_via_mock(
    c: &mut ZkUnoContract,
    session_id: u32,
    player: u64,
    hash: [u8; 32],
) -> Result<(), Error> {
    let req = c.commit_hand_journal(session_id, &hash)?;
    let accepted = MockRisc0Verifier::verify(&mock_seal(), &req.image_id, &req.journal_sha256);
    c.commit_hand_zk(session_id, player, hash, accepted)
}

#[test]
fn test_start_game() {
    let (mut c, p1, p2) = setup();
    c.start_game(1, p1, p2, 100, 100).unwrap();
    let game = c.get_game(1);
    assert_eq!(game.player1, p1);
    assert_eq!(game.player2, p2);
    assert_eq!(game.current_turn, 0);
    assert_eq!(game.draw_count, 15);
    assert!(game.winner.is_none());
    assert!(game.hand_hash_p1.is_none());
}

#[test]
fn test_get_deck_card_is_deterministic() {
    let (mut c, p1, p2) = setup();
    c.start_game(99, p1, p2, 100, 100).unwrap();
    let (c1, v1) = c.get_deck_card(99, 0);
    let (c2, v2) = c.get_deck_card(99, 0);
    assert_eq!((c1, v1), (c2, v2));
}

#[test]
fn test_commit_hand_zk_success() {
    let (mut c, p1, p2) = setup();
    c.start_game(42, p1, p2, 100, 100).unwrap();
    setup_zk(&mut c);
    let h = hand_hash(&valid_hand(), &zero_salt());
    commit_via_mock(&mut c, 42, p1, h).unwrap();
    let game = c.get_game(42);
    assert_eq!(game.hand_hash_p1, Some(h));
}

#[test]
#[should_panic]
fn test_commit_hand_zk_invalid_proof_rejected() {
    let (mut c, p1, p2) = setup();
    c.start_game(43, p1, p2, 100, 100).unwrap();
    // A failing verifier rejects every seal: its verdict is always false.
    setup_zk(&mut c);
    let h = hand_hash(&valid_hand(), &zero_salt());
    c.commit_hand_zk(43, p1, h, false).unwrap();
}

#[test]
fn test_commit_hand_zk_verifier_not_set() {
    let (mut c, p1, p2) = setup();
    c.start_game(44, p1, p2, 100, 100).unwrap();
    let h = hand_hash(&valid_hand(), &zero_salt());
    let result = c.commit_hand_zk(44, p1, h, true);
    assert_eq!(result, Err(Error::ZkVerifierNotSet));
}

#[test]
fn test_play_card_zk_success() {
    let (mut c, p1, p2) = setup();
    c.start_game(50, p1, p2, 100, 100).unwrap();
    setup_zk(&mut c);
    let hand = make_hand(&[
        (RED, 0),
        (RED, 1),
        (RED, 2),
        (YELLOW, 3),
        (GREEN, 4),
        (BLUE, 5),
        (WILD, WILD_CARD),
    ]);
    let salt = zero_salt();
    let h = hand_hash(&hand, &salt);
    commit_via_mock(&mut c, 50, p1, h).unwrap();
    let new_hand = make_hand(&[(RED, 0), (RED, 1), (RED, 2), (YELLOW, 3), (GREEN, 4), (BLUE, 5)]);
    let new_h = hand_hash(&new_hand, &one_salt());
    let req = c
        .play_card_journal(50, p1, WILD, WILD_CARD, RED, &new_h, false, false)
        .unwrap();
    let accepted = MockRisc0Verifier::verify(&mock_seal(), &req.image_id, &req.journal_sha256);
    c.play_card_zk(50, p1, WILD, WILD_CARD, RED, new_h, accepted, false, false)
        .unwrap();
    let game = c.get_game(50);
    assert_eq!(game.top_colour, WILD);
    assert_eq!(game.top_value, WILD_CARD);
    assert_eq!(game.active_colour, RED);
    assert_eq!(game.current_turn, 1);
    assert_eq!(game.hand_hash_p1, Some(new_h));
}

#[test]
#[should_panic]
fn test_play_card_zk_invalid_seal_rejected() {
    let (mut c, p1, p2) = setup();
    c.start_game(51, p1, p2, 100, 100).unwrap();
    // Commit with a passing verifier first
    setup_zk(&mut c);
    let h = hand_hash(&valid_hand(), &zero_salt());
    commit_via_mock(&mut c, 51, p1, h).unwrap();
    // The verifier now rejects the play's seal: its verdict is false.
    let new_hand = make_hand(&[(RED, 0), (RED, 0), (RED, 0), (RED, 0), (RED, 0), (RED, 0)]);
    let new_h = hand_hash(&new_hand, &one_salt());
    c.play_card_zk(51, p1, WILD, WILD_CARD, RED, new_h, false, false, false)
        .unwrap();
}

#[test]
fn test_draw_card_zk_success() {
    let (mut c, p1, p2) = setup();
    c.start_game(52, p1, p2, 100, 100).unwrap();
    setup_zk(&mut c);
    let hand = valid_hand();
    let salt = zero_salt();
    let h = hand_hash(&hand, &salt);
    commit_via_mock(&mut c, 52, p1, h).unwrap();
    let game_before = c.get_game(52);
    assert_eq!(game_before.draw_count, 15);
    let new_h = hand_hash(&valid_hand(), &one_salt());
    let req = c.draw_card_journal(52, p1, &new_h).unwrap();
    let accepted = MockRisc0Verifier::verify(&mock_seal(), &req.image_id, &req.journal_sha256);
    c.draw_card_zk(52, p1, new_h, accepted).unwrap();
    let game = c.get_game(52);
    assert_eq!(game.draw_count, 16);
    assert_eq!(game.current_turn, 1);
    assert_eq!(game.hand_hash_p1, Some(new_h));
}

#[test]
fn test_play_card_zk_win_detection() {
    let (mut c, p1, p2) = setup();
    c.start_game(60, p1, p2, 100, 100).unwrap();
    setup_zk(&mut c);

    // Player 1 commits a hand with a single card
    let hand = make_hand(&[(WILD, WILD_CARD)]);
    let salt = zero_salt();
    let h = hand_hash(&hand, &salt);
    commit_via_mock(&mut c, 60, p1, h).unwrap();

    // Player 2 also commits (required for game to be playable)
    let p2_hand = valid_hand();
    let p2_salt = zero_salt();
    let p2_h = hand_hash(&p2_hand, &p2_salt);
    commit_via_mock(&mut c, 60, p2, p2_h).unwrap();

    // Play the last card with is_winner set; the commitment is to the empty hand
    let empty_hand: Vec<u8> = Vec::new();
    let new_salt = one_salt();
    let new_h = hand_hash(&empty_hand, &new_salt);
    let req = c
        .play_card_journal(60, p1, WILD, WILD_CARD, RED, &new_h, true, false)
        .unwrap();
    let accepted = MockRisc0Verifier::verify(&mock_seal(), &req.image_id, &req.journal_sha256);
    c.play_card_zk(60, p1, WILD, WILD_CARD, RED, new_h, accepted, true, false)
        .unwrap();

    let game = c.get_game(60);
    assert_eq!(game.winner, Some(p1));
}

#[test]
fn test_declare_uno_zk_success() {
    let (mut c, p1, p2) = setup();
    c.start_game(70, p1, p2, 100, 100).unwrap();
    setup_zk(&mut c);

    // Commit a single-card hand
    let hand = make_hand(&[(RED, 0)]);
    let salt = zero_salt();
    let h = hand_hash(&hand, &salt);
    commit_via_mock(&mut c, 70, p1, h).unwrap();

    // Declare UNO: the proof is checked against the stored commitment
    let req = c.declare_uno_journal(70, p1).unwrap();
    let accepted = MockRisc0Verifier::verify(&mock_seal(), &req.image_id, &req.journal_sha256);
    c.declare_uno_zk(70, p1, accepted).unwrap();

    // Game state should be unchanged (the declaration is validation only)
    let game = c.get_game(70);
    assert!(game.winner.is_none());
    assert_eq!(game.hand_hash_p1, Some(h));
}

#[test]
fn test_declare_uno_zk_verifier_not_set() {
    let (mut c, p1, p2) = setup();
    c.start_game(71, p1, p2, 100, 100).unwrap();
    // No verifier is set on this fresh instance: the declaration must
    // report the missing verifier before looking at hand state.
    let result = c.declare_uno_zk(71, p1, true);
    assert_eq!(result, Err(Error::ZkVerifierNotSet));
}

#[test]
fn finished_session_rejects_every_mutation() {
    let (mut c, p1, p2) = setup();
    c.start_game(80, p1, p2, 100, 100).unwrap();
    setup_zk(&mut c);
    let h = hand_hash(&make_hand(&[(WILD, WILD_CARD)]), &zero_salt());
    commit_via_mock(&mut c, 80, p1, h).unwrap();
    let p2_h = hand_hash(&valid_hand(), &zero_salt());
    commit_via_mock(&mut c, 80, p2, p2_h).unwrap();
    let new_h = hand_hash(&Vec::new(), &one_salt());
    c.play_card_zk(80, p1, WILD, WILD_CARD, RED, new_h, true, true, false)
        .unwrap();
    assert_eq!(c.get_game(80).winner, Some(p1));
    assert_eq!(
        c.commit_hand_zk(80, p2, p2_h, true),
        Err(Error::GameAlreadyEnded)
    );
    assert_eq!(
        c.play_card_zk(80, p2, RED, 0, 0, p2_h, true, false, false),
        Err(Error::GameAlreadyEnded)
    );
    assert_eq!(
        c.draw_card_zk(80, p2, p2_h, true),
        Err(Error::GameAlreadyEnded)
    );
    assert_eq!(c.declare_uno_zk(80, p2, true), Err(Error::GameAlreadyEnded));
}

#[test]
fn hub_events_record_start_and_end() {
    let (mut c, p1, p2) = setup();
    c.start_game(81, p1, p2, 250, 300).unwrap();
    assert_eq!(c.hub_events.len(), 1);
    match c.hub_events[0] {
        HubEvent::StartGame {
            session_id,
            player1,
            player2,
            player1_points,
            player2_points,
        } => {
            assert_eq!(session_id, 81);
            assert_eq!(player1, p1);
            assert_eq!(player2, p2);
            assert_eq!(player1_points, 250);
            assert_eq!(player2_points, 300);
        }
        _ => panic!("expected a start event"),
    }
    setup_zk(&mut c);
    let h = hand_hash(&make_hand(&[(WILD, WILD_CARD)]), &zero_salt());
    commit_via_mock(&mut c, 81, p1, h).unwrap();
    let p2_h = hand_hash(&valid_hand(), &zero_salt());
    commit_via_mock(&mut c, 81, p2, p2_h).unwrap();
    let new_h = hand_hash(&Vec::new(), &one_salt());
    c.play_card_zk(81, p1, WILD, WILD_CARD, RED, new_h, true, true, false)
        .unwrap();
    assert_eq!(c.hub_events.len(), 2);
    match c.hub_events[1] {
        HubEvent::EndGame {
            session_id,
            player1_won,
        } => {
            assert_eq!(session_id, 81);
            assert!(player1_won);
        }
        _ => panic!("expected an end event"),
    }
}

#[test]
fn turn_order_and_legality_errors() {
    let (mut c, p1, p2) = setup();
    c.start_game(82, p1, p2, 100, 100).unwrap();
    setup_zk(&mut c);
    let h1 = hand_hash(&valid_hand(), &zero_salt());
    commit_via_mock(&mut c, 82, p1, h1).unwrap();
    let h2 = hand_hash(&valid_hand(), &one_salt());
    commit_via_mock(&mut c, 82, p2, h2).unwrap();
    // An unknown session
    assert_eq!(
        c.play_card_zk(9999, p1, RED, 0, 0, h1, true, false, false),
        Err(Error::GameNotFound)
    );
    // Not player 2's turn
    assert_eq!(
        c.play_card_zk(82, p2, WILD, WILD_CARD, 0, h2, true, false, false),
        Err(Error::NotYourTurn)
    );
    // A stranger
    assert_eq!(
        c.play_card_zk(82, 555, WILD, WILD_CARD, 0, h1, true, false, false),
        Err(Error::NotPlayer)
    );
    // An illegal card: wrong colour, wrong value
    let game = c.get_game(82);
    let bad_colour = (game.active_colour + 1) % 4;
    let bad_value = if game.top_value == 0 { 1 } else { 0 };
    assert_eq!(
        c.play_card_zk(82, p1, bad_colour, bad_value, 0, h1, true, false, false),
        Err(Error::InvalidCard)
    );
}

#[test]
fn play_before_commit_is_rejected() {
    let (mut c, p1, p2) = setup();
    c.start_game(83, p1, p2, 100, 100).unwrap();
    setup_zk(&mut c);
    let h = hand_hash(&valid_hand(), &zero_salt());
    // Wild is always playable, so the missing commitment is what fails.
    assert_eq!(
        c.play_card_zk(83, p1, WILD, WILD_CARD, 0, h, true, false, false),
        Err(Error::HandNotCommitted)
    );
    assert_eq!(c.draw_card_zk(83, p1, h, true), Err(Error::HandNotCommitted));
    assert_eq!(c.declare_uno_zk(83, p1, true), Err(Error::HandNotCommitted));
}

#[test]
fn verifier_reference_is_stored_and_read_back() {
    let (mut c, _p1, _p2) = setup();
    assert_eq!(c.get_risc0_verifier(), None);
    c.set_risc0_verifier(VERIFIER);
    assert_eq!(c.get_risc0_verifier(), Some(VERIFIER));
}

#[test]
fn recommitting_the_same_player_fails() {
    let (mut c, p1, p2) = setup();
    c.start_game(84, p1, p2, 100, 100).unwrap();
    setup_zk(&mut c);
    let hand = valid_hand();
    let h = hand_hash(&hand, &zero_salt());
    commit_via_mock(&mut c, 84, p1, h).unwrap();
    assert_eq!(c.get_game(84).hand_hash_p1, Some(h));
    // A second commitment for the same player is refused,
    // and a rejected proof surfaces as its own error.
    let h2 = hand_hash(&hand, &one_salt());
    assert_eq!(
        c.commit_hand_zk(84, p1, h2, true),
        Err(Error::HandAlreadyCommitted)
    );
    assert_eq!(
        c.commit_hand_zk(84, p2, h2, false),
        Err(Error::ZkProofInvalid)
    );
    assert_eq!(c.get_game(84).hand_hash_p1, Some(h));
    assert_eq!(c.get_game(84).hand_hash_p2, None);
}
