//! A two-player hidden-hand card game whose every move is checked against a
//! zero-knowledge proof.  Hands are never stored: each player's hand lives
//! on-chain only as a 32-byte keccak256 commitment, and the four proof
//! statements (hand commitment, move, draw, single-card declaration) bind a
//! fixed-layout public journal to the game state.
//!
//! The crate holds the deterministic deck derivation, the commitment scheme,
//! the four journal codecs, the four guest statement evaluators, and the
//! turn-based state machine that consumes accepted proofs.

pub mod cards;
pub mod deck;
pub mod encoding;
pub mod game;
pub mod guest;
pub mod hand;
pub mod hashing;
pub mod hex;
pub mod journal;
pub mod mock_verifier;
pub mod seal;

pub use cards::can_play;
pub use cards::BLUE;
pub use cards::BYTES_PER_CARD;
pub use cards::DRAW_TWO;
pub use cards::INITIAL_HAND_SIZE;
pub use cards::GREEN;
pub use cards::RED;
pub use cards::REVERSE;
pub use cards::SKIP;
pub use cards::WILD;
pub use cards::WILD_CARD;
pub use cards::WILD_DRAW4;
pub use cards::YELLOW;
pub use deck::derive_card;
pub use game::Error;
pub use game::Game;
pub use game::HubEvent;
pub use game::VerifyRequest;
pub use game::ZkUnoContract;
pub use guest::eval_commit;
pub use guest::eval_draw;
pub use guest::eval_move;
pub use guest::eval_uno;
pub use hand::card_in_hand;
pub use hand::has_matching_colour;
pub use hand::remove_first_card;
pub use hashing::commit_hash;
pub use hex::decode_hex;
pub use hex::encode_hex;
pub use journal::commit_journal;
pub use journal::decode_commit_journal;
pub use journal::decode_draw_journal;
pub use journal::decode_move_journal;
pub use journal::draw_journal;
pub use journal::move_journal;
pub use journal::CommitJournal;
pub use journal::DrawJournal;
pub use journal::MoveJournal;
pub use journal::ZK_UNO_DRAW_IMAGE_ID;
pub use journal::ZK_UNO_IMAGE_ID;
pub use journal::ZK_UNO_MOVE_IMAGE_ID;
pub use journal::ZK_UNO_UNO_IMAGE_ID;
pub use mock_verifier::MockRisc0Verifier;
pub use seal::build_mock_seal;
