//! The turn-based game state machine.
//!
//! A session's record holds the two players, their stakes, one optional
//! 32-byte hand commitment per player, the top card, the colour in force,
//! whose turn it is, the index of the next deck card, and the winner once
//! the game is over.  The machine never sees a hand: a mutating call first
//! asks for the journal the proof must have committed to (`*_journal`), the
//! caller has the external verifier check the seal against that journal's
//! digest, and the verdict is handed back to the mutating call as
//! `proof_accepted`.  Ledger notifications (game started, game ended) are
//! recorded as events for the host to deliver.
//!
//! Record expiry is the host storage's concern: the host extends a
//! session's time-to-live on every successful mutation, and an expired
//! record reads the same as an absent one.

use std::collections::HashMap;
use vstd::prelude::*;
use crate::cards::can_play;
use crate::cards::spec_can_play;
use crate::cards::DRAW_TWO;
use crate::cards::RED;
use crate::cards::REVERSE;
use crate::cards::SKIP;
use crate::cards::WILD;
use crate::cards::WILD_DRAW4;
use crate::deck::derive_card;
use crate::deck::spec_derive_card;
use crate::encoding::low_byte;
use crate::hashing::sha256;
use crate::hashing::sha256_of;
use crate::journal::commit_journal;
use crate::journal::draw_journal;
use crate::journal::move_journal;
use crate::journal::spec_commit_journal;
use crate::journal::spec_draw_journal;
use crate::journal::spec_move_journal;
use crate::journal::ZK_UNO_DRAW_IMAGE_ID;
use crate::journal::ZK_UNO_IMAGE_ID;
use crate::journal::ZK_UNO_MOVE_IMAGE_ID;
use crate::journal::ZK_UNO_UNO_IMAGE_ID;

verus! {

broadcast use vstd::std_specs::hash::group_hash_axioms;

/// The stable error codes of the state machine.
#[derive(Copy, Clone, Debug, PartialEq, Eq, Structural)]
pub enum Error {
    GameNotFound,
    NotPlayer,
    GameAlreadyEnded,
    NotYourTurn,
    HandNotCommitted,
    InvalidHandHash,
    CardNotInHand,
    InvalidCard,
    IllegalWildDraw4,
    InvalidHandSize,
    HandAlreadyCommitted,
    ZkProofInvalid,
    ZkVerifierNotSet,
    ZkActiveColourMismatch,
    ZkDrawCountMismatch,
}

/// One session's persisted record.  The hand commitments are the only trace
/// of the hands: never the cards themselves.
#[derive(Clone, Copy, Debug)]
pub struct Game {
    pub player1: u64,
    pub player2: u64,
    pub player1_points: i128,
    pub player2_points: i128,
    /// Commitment to player 1's hand, absent until committed.
    pub hand_hash_p1: Option<[u8; 32]>,
    /// Commitment to player 2's hand, absent until committed.
    pub hand_hash_p2: Option<[u8; 32]>,
    pub top_colour: u32,
    pub top_value: u32,
    /// May differ from `top_colour` after a wild was played.
    pub active_colour: u32,
    /// 0 when it is player 1's turn, 1 for player 2.
    pub current_turn: u32,
    /// Index of the next card to deal from the deterministic deck.
    pub draw_count: u32,
    pub winner: Option<u64>,
}

/// A ledger notification owed to the companion game-hub service.  The state
/// machine records them; the host delivers them.
#[derive(Clone, Copy, Debug)]
pub enum HubEvent {
    StartGame {
        session_id: u32,
        player1: u64,
        player2: u64,
        player1_points: i128,
        player2_points: i128,
    },
    EndGame { session_id: u32, player1_won: bool },
}

/// What the external verifier must be asked to check: the seal of the
/// claimed proof kind, against this program identifier and this journal
/// digest.
pub struct VerifyRequest {
    pub image_id: [u8; 32],
    pub journal: Vec<u8>,
    pub journal_sha256: [u8; 32],
}

/// The state machine: per-session records, the verifier reference, and the
/// pending ledger notifications.
pub struct ZkUnoContract {
    pub admin: u64,
    pub game_hub: u64,
    pub risc0_verifier: Option<u64>,
    pub games: HashMap<u32, Game>,
    pub hub_events: Vec<HubEvent>,
}

/// How many forced draws a played value adds to the deal index.
pub open spec fn spec_effect_draw(draw_count: u32, played_value: u32) -> u32 {
    if played_value == DRAW_TWO {
        (draw_count + 2) as u32
    } else if played_value == WILD_DRAW4 {
        (draw_count + 4) as u32
    } else {
        draw_count
    }
}

/// Whose turn follows a played value: Skip, Reverse, DrawTwo and WildDraw4
/// hold the turn (in a two-player game skipping and reversing coincide);
/// every other value passes it.
pub open spec fn spec_effect_turn(current_turn: u32, played_value: u32) -> u32 {
    if played_value == SKIP || played_value == REVERSE || played_value == DRAW_TWO
        || played_value == WILD_DRAW4 {
        current_turn
    } else {
        (1 - current_turn) as u32
    }
}

/// The record created by `start_game`: no commitments, player 1 to move,
/// deal index 15, and the opening discard derived from deck index 14 — a
/// wild there is forced to a red numeral, since wild cannot open play.
pub open spec fn spec_initial_game(
    session_id: u32,
    player1: u64,
    player2: u64,
    player1_points: i128,
    player2_points: i128,
) -> Game {
    let card = spec_derive_card(session_id, 14);
    let top_colour = if card.0 == WILD {
        RED
    } else {
        card.0
    };
    let top_value = if card.0 == WILD {
        card.1 % 10
    } else {
        card.1
    };
    Game {
        player1,
        player2,
        player1_points,
        player2_points,
        hand_hash_p1: None,
        hand_hash_p2: None,
        top_colour,
        top_value,
        active_colour: top_colour,
        current_turn: 0,
        draw_count: 15,
        winner: None,
    }
}

/// The outcome of a hand commitment.  The verifier reference and the
/// verdict are examined before the record: a missing verifier or a rejected
/// proof fails first, then the record is checked and the player's free slot
/// is filled.
pub open spec fn spec_commit_hand(
    games: Map<u32, Game>,
    verifier: Option<u64>,
    session_id: u32,
    player: u64,
    hand_hash: [u8; 32],
    proof_accepted: bool,
) -> Result<Game, Error> {
    if verifier is None {
        Err(Error::ZkVerifierNotSet)
    } else if !proof_accepted {
        Err(Error::ZkProofInvalid)
    } else if !games.contains_key(session_id) {
        Err(Error::GameNotFound)
    } else {
        let g = games[session_id];
        if g.winner is Some {
            Err(Error::GameAlreadyEnded)
        } else if player == g.player1 {
            if g.hand_hash_p1 is Some {
                Err(Error::HandAlreadyCommitted)
            } else {
                Ok(Game { hand_hash_p1: Some(hand_hash), ..g })
            }
        } else if player == g.player2 {
            if g.hand_hash_p2 is Some {
                Err(Error::HandAlreadyCommitted)
            } else {
                Ok(Game { hand_hash_p2: Some(hand_hash), ..g })
            }
        } else {
            Err(Error::NotPlayer)
        }
    }
}

/// Everything `play_card_zk` validates before the verifier is consulted;
/// on success, the stored commitment that the move proof must open.
pub open spec fn spec_play_checks(
    games: Map<u32, Game>,
    verifier: Option<u64>,
    session_id: u32,
    player: u64,
    played_colour: u32,
    played_value: u32,
) -> Result<[u8; 32], Error> {
    if !games.contains_key(session_id) {
        Err(Error::GameNotFound)
    } else {
        let g = games[session_id];
        if g.winner is Some {
            Err(Error::GameAlreadyEnded)
        } else if player != g.player1 && player != g.player2 {
            Err(Error::NotPlayer)
        } else if (if player == g.player1 {
            0u32
        } else {
            1u32
        }) != g.current_turn {
            Err(Error::NotYourTurn)
        } else if !spec_can_play(played_colour, played_value, g.active_colour, g.top_value) {
            Err(Error::InvalidCard)
        } else if (if player == g.player1 {
            g.hand_hash_p1
        } else {
            g.hand_hash_p2
        }) is None {
            Err(Error::HandNotCommitted)
        } else if verifier is None {
            Err(Error::ZkVerifierNotSet)
        } else {
            Ok(
                (if player == g.player1 {
                    g.hand_hash_p1
                } else {
                    g.hand_hash_p2
                })->Some_0,
            )
        }
    }
}

/// The record after an accepted move: top card and colour in force updated,
/// the mover's commitment replaced; a winning move seals the record, any
/// other applies the card effects to the turn and the deal index.
pub open spec fn spec_play_update(
    g: Game,
    player: u64,
    played_colour: u32,
    played_value: u32,
    wild_colour: u32,
    new_hand_hash: [u8; 32],
    is_winner: bool,
) -> Game {
    let g1 = Game {
        top_colour: played_colour,
        top_value: played_value,
        active_colour: if played_colour == WILD {
            wild_colour % 4
        } else {
            played_colour
        },
        hand_hash_p1: if player == g.player1 {
            Some(new_hand_hash)
        } else {
            g.hand_hash_p1
        },
        hand_hash_p2: if player == g.player1 {
            g.hand_hash_p2
        } else {
            Some(new_hand_hash)
        },
        ..g
    };
    if is_winner {
        Game { winner: Some(player), ..g1 }
    } else {
        Game {
            current_turn: spec_effect_turn(g1.current_turn, played_value),
            draw_count: spec_effect_draw(g1.draw_count, played_value),
            ..g1
        }
    }
}

/// The outcome of a play: the pre-verifier checks, then the verdict, then
/// the update.
pub open spec fn spec_play_card(
    games: Map<u32, Game>,
    verifier: Option<u64>,
    session_id: u32,
    player: u64,
    played_colour: u32,
    played_value: u32,
    wild_colour: u32,
    new_hand_hash: [u8; 32],
    proof_accepted: bool,
    is_winner: bool,
) -> Result<Game, Error> {
    match spec_play_checks(games, verifier, session_id, player, played_colour, played_value) {
        Err(e) => Err(e),
        Ok(_) => if !proof_accepted {
            Err(Error::ZkProofInvalid)
        } else {
            Ok(
                spec_play_update(
                    games[session_id],
                    player,
                    played_colour,
                    played_value,
                    wild_colour,
                    new_hand_hash,
                    is_winner,
                ),
            )
        },
    }
}

/// Everything `draw_card_zk` validates before the verifier is consulted;
/// on success, the stored commitment that the draw proof must open.
pub open spec fn spec_draw_checks(
    games: Map<u32, Game>,
    verifier: Option<u64>,
    session_id: u32,
    player: u64,
) -> Result<[u8; 32], Error> {
    if !games.contains_key(session_id) {
        Err(Error::GameNotFound)
    } else {
        let g = games[session_id];
        if g.winner is Some {
            Err(Error::GameAlreadyEnded)
        } else if player != g.player1 && player != g.player2 {
            Err(Error::NotPlayer)
        } else if (if player == g.player1 {
            0u32
        } else {
            1u32
        }) != g.current_turn {
            Err(Error::NotYourTurn)
        } else if (if player == g.player1 {
            g.hand_hash_p1
        } else {
            g.hand_hash_p2
        }) is None {
            Err(Error::HandNotCommitted)
        } else if verifier is None {
            Err(Error::ZkVerifierNotSet)
        } else {
            Ok(
                (if player == g.player1 {
                    g.hand_hash_p1
                } else {
                    g.hand_hash_p2
                })->Some_0,
            )
        }
    }
}

/// The outcome of a draw: after the checks and an accepted proof, the deal
/// index advances by one, the drawer's commitment is replaced, and the turn
/// passes.
pub open spec fn spec_draw_card(
    games: Map<u32, Game>,
    verifier: Option<u64>,
    session_id: u32,
    player: u64,
    new_hand_hash: [u8; 32],
    proof_accepted: bool,
) -> Result<Game, Error> {
    match spec_draw_checks(games, verifier, session_id, player) {
        Err(e) => Err(e),
        Ok(_) => if !proof_accepted {
            Err(Error::ZkProofInvalid)
        } else {
            let g = games[session_id];
            Ok(
                (Game {
                    draw_count: (g.draw_count + 1) as u32,
                    hand_hash_p1: if player == g.player1 {
                        Some(new_hand_hash)
                    } else {
                        g.hand_hash_p1
                    },
                    hand_hash_p2: if player == g.player1 {
                        g.hand_hash_p2
                    } else {
                        Some(new_hand_hash)
                    },
                    current_turn: (1 - g.current_turn) as u32,
                    ..g
                }),
            )
        },
    }
}

/// Everything `declare_uno_zk` validates; the verifier reference is
/// examined before the declarer's commitment, so a missing verifier is
/// always reported first.  On success, the stored commitment that the
/// declaration proof must open.
pub open spec fn spec_declare_checks(
    games: Map<u32, Game>,
    verifier: Option<u64>,
    session_id: u32,
    player: u64,
) -> Result<[u8; 32], Error> {
    if !games.contains_key(session_id) {
        Err(Error::GameNotFound)
    } else {
        let g = games[session_id];
        if g.winner is Some {
            Err(Error::GameAlreadyEnded)
        } else if player != g.player1 && player != g.player2 {
            Err(Error::NotPlayer)
        } else if verifier is None {
            Err(Error::ZkVerifierNotSet)
        } else if (if player == g.player1 {
            g.hand_hash_p1
        } else {
            g.hand_hash_p2
        }) is None {
            Err(Error::HandNotCommitted)
        } else {
            Ok(
                (if player == g.player1 {
                    g.hand_hash_p1
                } else {
                    g.hand_hash_p2
                })->Some_0,
            )
        }
    }
}

impl ZkUnoContract {
    /// Every stored turn marker is 0 or 1.
    pub open spec fn wf(&self) -> bool {
        forall|sid: u32|
            self.games@.contains_key(sid) ==> (#[trigger] self.games@[sid]).current_turn <= 1
    }

    /// The record stored for a session, if any.
    pub open spec fn spec_game(&self, session_id: u32) -> Option<Game> {
        if self.games@.contains_key(session_id) {
            Some(self.games@[session_id])
        } else {
            None
        }
    }

    /// Create the state machine with its administrator and the ledger
    /// service it reports to.
    pub fn new(admin: u64, game_hub: u64) -> (r: ZkUnoContract)
        ensures
            r.admin == admin,
            r.game_hub == game_hub,
            r.risc0_verifier is None,
            r.games@ == Map::<u32, Game>::empty(),
            r.hub_events@ == Seq::<HubEvent>::empty(),
            r.wf(),
    {
        ZkUnoContract {
            admin,
            game_hub,
            risc0_verifier: None,
            games: HashMap::new(),
            hub_events: Vec::new(),
        }
    }

    fn lookup_game(&self, session_id: u32) -> (r: Option<Game>)
        ensures
            r == self.spec_game(session_id),
    {
        match self.games.get(&session_id) {
            Some(g) => Some(*g),
            None => None,
        }
    }

    /// Read a session's record.  The session must exist: asking for an
    /// absent one is the caller's fault.
    pub fn get_game(&self, session_id: u32) -> (r: Game)
        requires
            self.spec_game(session_id) is Some,
        ensures
            Some(r) == self.spec_game(session_id),
    {
        match self.lookup_game(session_id) {
            Some(g) => g,
            None => vstd::pervasive::unreached(),
        }
    }

    /// Derive a deck card; a pure function of the arguments.
    pub fn get_deck_card(&self, session_id: u32, index: u32) -> (r: (u32, u32))
        ensures
            r == spec_derive_card(session_id, index),
    {
        derive_card(session_id, index)
    }

    /// Set the active verifier reference.  The caller must have
    /// authenticated the administrator.
    pub fn set_risc0_verifier(&mut self, verifier: u64)
        ensures
            final(self).risc0_verifier == Some(verifier),
            final(self).admin == old(self).admin,
            final(self).game_hub == old(self).game_hub,
            final(self).games@ == old(self).games@,
            final(self).hub_events@ == old(self).hub_events@,
            old(self).wf() ==> final(self).wf(),
    {
        self.risc0_verifier = Some(verifier);
    }

    /// Read the active verifier reference.
    pub fn get_risc0_verifier(&self) -> (r: Option<u64>)
        ensures
            r == self.risc0_verifier,
    {
        self.risc0_verifier
    }

    /// Open a session: record the ledger notification, derive the opening
    /// discard, and store the fresh record.  The caller must have
    /// authenticated both players over the session and their stakes; a
    /// player may not face themself.
    pub fn start_game(
        &mut self,
        session_id: u32,
        player1: u64,
        player2: u64,
        player1_points: i128,
        player2_points: i128,
    ) -> (r: Result<(), Error>)
        requires
            old(self).wf(),
            player1 != player2,
        ensures
            r is Ok,
            final(self).wf(),
            final(self).games@ == old(self).games@.insert(
                session_id,
                spec_initial_game(session_id, player1, player2, player1_points, player2_points),
            ),
            final(self).hub_events@ == old(self).hub_events@.push(
                (HubEvent::StartGame {
                    session_id,
                    player1,
                    player2,
                    player1_points,
                    player2_points,
                }),
            ),
            final(self).admin == old(self).admin,
            final(self).game_hub == old(self).game_hub,
            final(self).risc0_verifier == old(self).risc0_verifier,
    {
        self.hub_events.push(
            HubEvent::StartGame { session_id, player1, player2, player1_points, player2_points },
        );
        let (card_colour, card_value) = derive_card(session_id, 14);
        let (top_colour, top_value) = if card_colour == WILD {
            (RED, card_value % 10)
        } else {
            (card_colour, card_value)
        };
        let game = Game {
            player1,
            player2,
            player1_points,
            player2_points,
            hand_hash_p1: None,
            hand_hash_p2: None,
            top_colour,
            top_value,
            active_colour: top_colour,
            current_turn: 0,
            draw_count: 15,
            winner: None,
        };
        self.games.insert(session_id, game);
        Ok(())
    }

    /// The journal a hand-commit proof for `(session_id, hand_hash)` must
    /// have committed to, with the program identifier to check it under.
    pub fn commit_hand_journal(&self, session_id: u32, hand_hash: &[u8; 32]) -> (r: Result<
        VerifyRequest,
        Error,
    >)
        ensures
            self.risc0_verifier is None ==> r == Result::<VerifyRequest, Error>::Err(
                Error::ZkVerifierNotSet,
            ),
            self.risc0_verifier is Some ==> (r matches Ok(req) && req.image_id@
                == ZK_UNO_IMAGE_ID@ && req.journal@ == spec_commit_journal(session_id, hand_hash@)
                && req.journal_sha256@ == sha256_of(req.journal@)),
    {
        if self.risc0_verifier.is_none() {
            return Err(Error::ZkVerifierNotSet);
        }
        let journal = commit_journal(session_id, hand_hash);
        let journal_sha256 = sha256(&journal);
        Ok(VerifyRequest { image_id: ZK_UNO_IMAGE_ID, journal, journal_sha256 })
    }

    /// Store a player's hand commitment once the verifier accepted the
    /// hand-commit proof.  The caller must have authenticated `player` and
    /// must pass the verifier's verdict on the request built by
    /// `commit_hand_journal`.
    pub fn commit_hand_zk(
        &mut self,
        session_id: u32,
        player: u64,
        hand_hash: [u8; 32],
        proof_accepted: bool,
    ) -> (r: Result<(), Error>)
        requires
            old(self).wf(),
        ensures
            final(self).wf(),
            final(self).admin == old(self).admin,
            final(self).game_hub == old(self).game_hub,
            final(self).risc0_verifier == old(self).risc0_verifier,
            final(self).hub_events@ == old(self).hub_events@,
            match spec_commit_hand(
                old(self).games@,
                old(self).risc0_verifier,
                session_id,
                player,
                hand_hash,
                proof_accepted,
            ) {
                Ok(g) => r is Ok && final(self).games@ == old(self).games@.insert(session_id, g),
                Err(e) => r == Result::<(), Error>::Err(e) && final(self).games@ == old(
                    self,
                ).games@,
            },
    {
        if self.risc0_verifier.is_none() {
            return Err(Error::ZkVerifierNotSet);
        }
        if !proof_accepted {
            return Err(Error::ZkProofInvalid);
        }
        let mut game = match self.lookup_game(session_id) {
            None => return Err(Error::GameNotFound),
            Some(g) => g,
        };
        if game.winner.is_some() {
            return Err(Error::GameAlreadyEnded);
        }
        if player == game.player1 {
            if game.hand_hash_p1.is_some() {
                return Err(Error::HandAlreadyCommitted);
            }
            game.hand_hash_p1 = Some(hand_hash);
        } else if player == game.player2 {
            if game.hand_hash_p2.is_some() {
                return Err(Error::HandAlreadyCommitted);
            }
            game.hand_hash_p2 = Some(hand_hash);
        } else {
            return Err(Error::NotPlayer);
        }
        self.games.insert(session_id, game);
        Ok(())
    }

    /// The journal a move proof must have committed to, computed from the
    /// stored record and the claimed move, with the program identifier to
    /// check it under.  Fails exactly where `play_card_zk` would fail
    /// before consulting the verifier.
    pub fn play_card_journal(
        &self,
        session_id: u32,
        player: u64,
        played_colour: u32,
        played_value: u32,
        wild_colour: u32,
        new_hand_hash: &[u8; 32],
        is_winner: bool,
        is_uno: bool,
    ) -> (r: Result<VerifyRequest, Error>)
        ensures
            match spec_play_checks(
                self.games@,
                self.risc0_verifier,
                session_id,
                player,
                played_colour,
                played_value,
            ) {
                Err(e) => r == Result::<VerifyRequest, Error>::Err(e),
                Ok(old_hash) => r matches Ok(req) && req.image_id@ == ZK_UNO_MOVE_IMAGE_ID@
                    && req.journal@ == spec_move_journal(
                    session_id,
                    old_hash@,
                    new_hand_hash@,
                    (played_colour & 0xff) as u8,
                    (played_value & 0xff) as u8,
                    (wild_colour & 0xff) as u8,
                    (self.games@[session_id].active_colour & 0xff) as u8,
                    is_winner,
                    is_uno,
                ) && req.journal_sha256@ == sha256_of(req.journal@),
            },
    {
        let game = match self.lookup_game(session_id) {
            None => return Err(Error::GameNotFound),
            Some(g) => g,
        };
        if game.winner.is_some() {
            return Err(Error::GameAlreadyEnded);
        }
        let is_p1 = player == game.player1;
        let is_p2 = player == game.player2;
        if !is_p1 && !is_p2 {
            return Err(Error::NotPlayer);
        }
        if (if is_p1 {
            0u32
        } else {
            1u32
        }) != game.current_turn {
            return Err(Error::NotYourTurn);
        }
        if !can_play(played_colour, played_value, game.active_colour, game.top_value) {
            return Err(Error::InvalidCard);
        }
        let old_hash = if is_p1 {
            match game.hand_hash_p1 {
                None => return Err(Error::HandNotCommitted),
                Some(h) => h,
            }
        } else {
            match game.hand_hash_p2 {
                None => return Err(Error::HandNotCommitted),
                Some(h) => h,
            }
        };
        if self.risc0_verifier.is_none() {
            return Err(Error::ZkVerifierNotSet);
        }
        let journal = move_journal(
            session_id,
            &old_hash,
            new_hand_hash,
            low_byte(played_colour),
            low_byte(played_value),
            low_byte(wild_colour),
            low_byte(game.active_colour),
            is_winner,
            is_uno,
        );
        let journal_sha256 = sha256(&journal);
        Ok(VerifyRequest { image_id: ZK_UNO_MOVE_IMAGE_ID, journal, journal_sha256 })
    }

    /// Apply an accepted move proof: update the top card and the colour in
    /// force, replace the mover's commitment, and either seal the game (a
    /// winning move, reported to the ledger) or apply the card effects.
    /// The caller must have authenticated `player` and must pass the
    /// verifier's verdict on the request built by `play_card_journal`.
    pub fn play_card_zk(
        &mut self,
        session_id: u32,
        player: u64,
        played_colour: u32,
        played_value: u32,
        wild_colour: u32,
        new_hand_hash: [u8; 32],
        proof_accepted: bool,
        is_winner: bool,
        is_uno: bool,
    ) -> (r: Result<(), Error>)
        requires
            old(self).wf(),
            old(self).spec_game(session_id) matches Some(g) ==> g.draw_count + 4 <= u32::MAX,
        ensures
            final(self).wf(),
            final(self).admin == old(self).admin,
            final(self).game_hub == old(self).game_hub,
            final(self).risc0_verifier == old(self).risc0_verifier,
            match spec_play_card(
                old(self).games@,
                old(self).risc0_verifier,
                session_id,
                player,
                played_colour,
                played_value,
                wild_colour,
                new_hand_hash,
                proof_accepted,
                is_winner,
            ) {
                Ok(g) => {
                    &&& r is Ok
                    &&& final(self).games@ == old(self).games@.insert(session_id, g)
                    &&& if is_winner {
                        final(self).hub_events@ == old(self).hub_events@.push(
                            (HubEvent::EndGame {
                                session_id,
                                player1_won: player == old(self).games@[session_id].player1,
                            }),
                        )
                    } else {
                        final(self).hub_events@ == old(self).hub_events@
                    }
                },
                Err(e) => r == Result::<(), Error>::Err(e) && final(self).games@ == old(
                    self,
                ).games@ && final(self).hub_events@ == old(self).hub_events@,
            },
    {
        let mut game = match self.lookup_game(session_id) {
            None => return Err(Error::GameNotFound),
            Some(g) => g,
        };
        if game.winner.is_some() {
            return Err(Error::GameAlreadyEnded);
        }
        let is_p1 = player == game.player1;
        let is_p2 = player == game.player2;
        if !is_p1 && !is_p2 {
            return Err(Error::NotPlayer);
        }
        if (if is_p1 {
            0u32
        } else {
            1u32
        }) != game.current_turn {
            return Err(Error::NotYourTurn);
        }
        if !can_play(played_colour, played_value, game.active_colour, game.top_value) {
            return Err(Error::InvalidCard);
        }
        let committed = if is_p1 {
            game.hand_hash_p1.is_some()
        } else {
            game.hand_hash_p2.is_some()
        };
        if !committed {
            return Err(Error::HandNotCommitted);
        }
        if self.risc0_verifier.is_none() {
            return Err(Error::ZkVerifierNotSet);
        }
        if !proof_accepted {
            return Err(Error::ZkProofInvalid);
        }
        game.top_colour = played_colour;
        game.top_value = played_value;
        game.active_colour = if played_colour == WILD {
            wild_colour % 4
        } else {
            played_colour
        };
        if is_p1 {
            game.hand_hash_p1 = Some(new_hand_hash);
        } else {
            game.hand_hash_p2 = Some(new_hand_hash);
        }
        if is_winner {
            return self.finalize_win(session_id, game, player);
        }
        let mut draw_count = game.draw_count;
        game.current_turn = Self::apply_card_effects(game.current_turn, played_value, &mut draw_count);
        game.draw_count = draw_count;
        self.games.insert(session_id, game);
        Ok(())
    }

    /// The journal a draw proof must have committed to, computed from the
    /// stored record and the current deal index.  Fails exactly where
    /// `draw_card_zk` would fail before consulting the verifier.
    pub fn draw_card_journal(&self, session_id: u32, player: u64, new_hand_hash: &[u8; 32]) -> (r:
        Result<VerifyRequest, Error>)
        ensures
            match spec_draw_checks(self.games@, self.risc0_verifier, session_id, player) {
                Err(e) => r == Result::<VerifyRequest, Error>::Err(e),
                Ok(old_hash) => r matches Ok(req) && req.image_id@ == ZK_UNO_DRAW_IMAGE_ID@
                    && req.journal@ == spec_draw_journal(
                    session_id,
                    old_hash@,
                    new_hand_hash@,
                    self.games@[session_id].draw_count,
                ) && req.journal_sha256@ == sha256_of(req.journal@),
            },
    {
        let game = match self.lookup_game(session_id) {
            None => return Err(Error::GameNotFound),
            Some(g) => g,
        };
        if game.winner.is_some() {
            return Err(Error::GameAlreadyEnded);
        }
        let is_p1 = player == game.player1;
        let is_p2 = player == game.player2;
        if !is_p1 && !is_p2 {
            return Err(Error::NotPlayer);
        }
        if (if is_p1 {
            0u32
        } else {
            1u32
        }) != game.current_turn {
            return Err(Error::NotYourTurn);
        }
        let old_hash = if is_p1 {
            match game.hand_hash_p1 {
                None => return Err(Error::HandNotCommitted),
                Some(h) => h,
            }
        } else {
            match game.hand_hash_p2 {
                None => return Err(Error::HandNotCommitted),
                Some(h) => h,
            }
        };
        if self.risc0_verifier.is_none() {
            return Err(Error::ZkVerifierNotSet);
        }
        let journal = draw_journal(session_id, &old_hash, new_hand_hash, game.draw_count);
        let journal_sha256 = sha256(&journal);
        Ok(VerifyRequest { image_id: ZK_UNO_DRAW_IMAGE_ID, journal, journal_sha256 })
    }

    /// Apply an accepted draw proof: advance the deal index, replace the
    /// drawer's commitment, and pass the turn.  The caller must have
    /// authenticated `player` and must pass the verifier's verdict on the
    /// request built by `draw_card_journal`.
    pub fn draw_card_zk(
        &mut self,
        session_id: u32,
        player: u64,
        new_hand_hash: [u8; 32],
        proof_accepted: bool,
    ) -> (r: Result<(), Error>)
        requires
            old(self).wf(),
            old(self).spec_game(session_id) matches Some(g) ==> g.draw_count < u32::MAX,
        ensures
            final(self).wf(),
            final(self).admin == old(self).admin,
            final(self).game_hub == old(self).game_hub,
            final(self).risc0_verifier == old(self).risc0_verifier,
            final(self).hub_events@ == old(self).hub_events@,
            match spec_draw_card(
                old(self).games@,
                old(self).risc0_verifier,
                session_id,
                player,
                new_hand_hash,
                proof_accepted,
            ) {
                Ok(g) => r is Ok && final(self).games@ == old(self).games@.insert(session_id, g),
                Err(e) => r == Result::<(), Error>::Err(e) && final(self).games@ == old(
                    self,
                ).games@,
            },
    {
        let mut game = match self.lookup_game(session_id) {
            None => return Err(Error::GameNotFound),
            Some(g) => g,
        };
        if game.winner.is_some() {
            return Err(Error::GameAlreadyEnded);
        }
        let is_p1 = player == game.player1;
        let is_p2 = player == game.player2;
        if !is_p1 && !is_p2 {
            return Err(Error::NotPlayer);
        }
        if (if is_p1 {
            0u32
        } else {
            1u32
        }) != game.current_turn {
            return Err(Error::NotYourTurn);
        }
        let committed = if is_p1 {
            game.hand_hash_p1.is_some()
        } else {
            game.hand_hash_p2.is_some()
        };
        if !committed {
            return Err(Error::HandNotCommitted);
        }
        if self.risc0_verifier.is_none() {
            return Err(Error::ZkVerifierNotSet);
        }
        if !proof_accepted {
            return Err(Error::ZkProofInvalid);
        }
        game.draw_count = game.draw_count + 1;
        if is_p1 {
            game.hand_hash_p1 = Some(new_hand_hash);
        } else {
            game.hand_hash_p2 = Some(new_hand_hash);
        }
        game.current_turn = 1 - game.current_turn;
        self.games.insert(session_id, game);
        Ok(())
    }

    /// The journal a declare-UNO proof must have committed to: the
    /// declarer's currently stored commitment, binding the proof to the
    /// live hand state.  Fails exactly where `declare_uno_zk` would fail
    /// before consulting the verifier.
    pub fn declare_uno_journal(&self, session_id: u32, player: u64) -> (r: Result<
        VerifyRequest,
        Error,
    >)
        ensures
            match spec_declare_checks(self.games@, self.risc0_verifier, session_id, player) {
                Err(e) => r == Result::<VerifyRequest, Error>::Err(e),
                Ok(stored_hash) => r matches Ok(req) && req.image_id@ == ZK_UNO_UNO_IMAGE_ID@
                    && req.journal@ == spec_commit_journal(session_id, stored_hash@)
                    && req.journal_sha256@ == sha256_of(req.journal@),
            },
    {
        let game = match self.lookup_game(session_id) {
            None => return Err(Error::GameNotFound),
            Some(g) => g,
        };
        if game.winner.is_some() {
            return Err(Error::GameAlreadyEnded);
        }
        let is_p1 = player == game.player1;
        let is_p2 = player == game.player2;
        if !is_p1 && !is_p2 {
            return Err(Error::NotPlayer);
        }
        if self.risc0_verifier.is_none() {
            return Err(Error::ZkVerifierNotSet);
        }
        let stored_hash = if is_p1 {
            match game.hand_hash_p1 {
                None => return Err(Error::HandNotCommitted),
                Some(h) => h,
            }
        } else {
            match game.hand_hash_p2 {
                None => return Err(Error::HandNotCommitted),
                Some(h) => h,
            }
        };
        let journal = commit_journal(session_id, &stored_hash);
        let journal_sha256 = sha256(&journal);
        Ok(VerifyRequest { image_id: ZK_UNO_UNO_IMAGE_ID, journal, journal_sha256 })
    }

    /// Acknowledge an accepted declare-UNO proof.  Purely informational:
    /// the record is never changed.  The caller must have authenticated
    /// `player` and must pass the verifier's verdict on the request built
    /// by `declare_uno_journal`.
    pub fn declare_uno_zk(&self, session_id: u32, player: u64, proof_accepted: bool) -> (r: Result<
        (),
        Error,
    >)
        ensures
            match spec_declare_checks(self.games@, self.risc0_verifier, session_id, player) {
                Err(e) => r == Result::<(), Error>::Err(e),
                Ok(_) => if proof_accepted {
                    r is Ok
                } else {
                    r == Result::<(), Error>::Err(Error::ZkProofInvalid)
                },
            },
    {
        let game = match self.lookup_game(session_id) {
            None => return Err(Error::GameNotFound),
            Some(g) => g,
        };
        if game.winner.is_some() {
            return Err(Error::GameAlreadyEnded);
        }
        let is_p1 = player == game.player1;
        let is_p2 = player == game.player2;
        if !is_p1 && !is_p2 {
            return Err(Error::NotPlayer);
        }
        if self.risc0_verifier.is_none() {
            return Err(Error::ZkVerifierNotSet);
        }
        let committed = if is_p1 {
            game.hand_hash_p1.is_some()
        } else {
            game.hand_hash_p2.is_some()
        };
        if !committed {
            return Err(Error::HandNotCommitted);
        }
        if !proof_accepted {
            return Err(Error::ZkProofInvalid);
        }
        Ok(())
    }

    /// Apply a played value's effects: DrawTwo adds two forced draws,
    /// WildDraw4 four; Skip, Reverse, DrawTwo and WildDraw4 hold the turn,
    /// every other value passes it.
    pub fn apply_card_effects(current_turn: u32, played_value: u32, draw_count: &mut u32) -> (r:
        u32)
        requires
            current_turn <= 1,
            *old(draw_count) + 4 <= u32::MAX,
        ensures
            *final(draw_count) == spec_effect_draw(*old(draw_count), played_value),
            r == spec_effect_turn(current_turn, played_value),
            r <= 1,
            (r == current_turn) <==> (played_value == SKIP || played_value == REVERSE
                || played_value == DRAW_TWO || played_value == WILD_DRAW4),
    {
        if played_value == DRAW_TWO {
            *draw_count = *draw_count + 2;
        }
        if played_value == WILD_DRAW4 {
            *draw_count = *draw_count + 4;
        }
        if played_value == SKIP || played_value == REVERSE || played_value == DRAW_TWO
            || played_value == WILD_DRAW4 {
            current_turn
        } else {
            1 - current_turn
        }
    }

    /// Seal a winning record and owe the ledger the result.
    fn finalize_win(&mut self, session_id: u32, game: Game, winner: u64) -> (r: Result<(), Error>)
        requires
            old(self).wf(),
            game.current_turn <= 1,
        ensures
            r is Ok,
            final(self).wf(),
            final(self).games@ == old(self).games@.insert(
                session_id,
                (Game { winner: Some(winner), ..game }),
            ),
            final(self).hub_events@ == old(self).hub_events@.push(
                (HubEvent::EndGame { session_id, player1_won: winner == game.player1 }),
            ),
            final(self).admin == old(self).admin,
            final(self).game_hub == old(self).game_hub,
            final(self).risc0_verifier == old(self).risc0_verifier,
    {
        let mut sealed = game;
        sealed.winner = Some(winner);
        self.games.insert(session_id, sealed);
        self.hub_events.push(HubEvent::EndGame { session_id, player1_won: winner == game.player1 });
        Ok(())
    }
}

/// Law: once a session has a winner, no mutating operation on it succeeds,
/// whatever the verifier reference, the verdict or the arguments; where the
/// verifier was available and the proof accepted, the reported error is
/// `GameAlreadyEnded`.
pub proof fn lemma_finished_session_is_sealed(
    games: Map<u32, Game>,
    verifier: Option<u64>,
    session_id: u32,
    player: u64,
    hand_hash: [u8; 32],
    played_colour: u32,
    played_value: u32,
    wild_colour: u32,
    proof_accepted: bool,
    is_winner: bool,
)
    requires
        games.contains_key(session_id),
        games[session_id].winner is Some,
    ensures
        spec_commit_hand(games, verifier, session_id, player, hand_hash, proof_accepted) is Err,
        spec_play_card(
            games,
            verifier,
            session_id,
            player,
            played_colour,
            played_value,
            wild_colour,
            hand_hash,
            proof_accepted,
            is_winner,
        ) is Err,
        spec_draw_card(games, verifier, session_id, player, hand_hash, proof_accepted) is Err,
        spec_declare_checks(games, verifier, session_id, player) is Err,
        verifier is Some && proof_accepted ==> {
            &&& spec_commit_hand(games, verifier, session_id, player, hand_hash, proof_accepted)
                == Result::<Game, Error>::Err(Error::GameAlreadyEnded)
            &&& spec_play_card(
                games,
                verifier,
                session_id,
                player,
                played_colour,
                played_value,
                wild_colour,
                hand_hash,
                proof_accepted,
                is_winner,
            ) == Result::<Game, Error>::Err(Error::GameAlreadyEnded)
            &&& spec_draw_card(games, verifier, session_id, player, hand_hash, proof_accepted)
                == Result::<Game, Error>::Err(Error::GameAlreadyEnded)
            &&& spec_declare_checks(games, verifier, session_id, player) == Result::<
                [u8; 32],
                Error,
            >::Err(Error::GameAlreadyEnded)
        },
{
}

/// Law: the journal the state machine expects for a move is byte for byte
/// the journal the move evaluator emits, whenever the stored commitment
/// opens the prover's old hand, the new commitment opens the new hand, the
/// claimed card, chosen colour and colour in force are in byte range, and
/// the flags are the ones honestly derived from the new hand.
pub proof fn lemma_move_journal_binding(
    session_id: u32,
    old_hand: Seq<u8>,
    old_salt: Seq<u8>,
    new_hand: Seq<u8>,
    new_salt: Seq<u8>,
    stored_hash: Seq<u8>,
    new_hand_hash: Seq<u8>,
    played_colour: u32,
    played_value: u32,
    wild_colour: u32,
    active_colour: u32,
)
    requires
        stored_hash == crate::hashing::spec_commit_hash(old_hand, old_salt),
        new_hand_hash == crate::hashing::spec_commit_hash(new_hand, new_salt),
        played_colour <= 0xff,
        played_value <= 0xff,
        wild_colour <= 0xff,
        active_colour <= 0xff,
    ensures
        spec_move_journal(
            session_id,
            stored_hash,
            new_hand_hash,
            (played_colour & 0xff) as u8,
            (played_value & 0xff) as u8,
            (wild_colour & 0xff) as u8,
            (active_colour & 0xff) as u8,
            new_hand.len() / 2 == 0,
            new_hand.len() / 2 == 1,
        ) == spec_move_journal(
            session_id,
            crate::hashing::spec_commit_hash(old_hand, old_salt),
            crate::hashing::spec_commit_hash(new_hand, new_salt),
            played_colour as u8,
            played_value as u8,
            wild_colour as u8,
            active_colour as u8,
            new_hand.len() / 2 == 0,
            new_hand.len() / 2 == 1,
        ),
{
    lemma_low_byte_identity(played_colour);
    lemma_low_byte_identity(played_value);
    lemma_low_byte_identity(wild_colour);
    lemma_low_byte_identity(active_colour);
}

proof fn lemma_low_byte_identity(x: u32)
    requires
        x <= 0xff,
    ensures
        x & 0xff == x,
{
    assert(x <= 0xff ==> x & 0xff == x) by (bit_vector);
}

/// Law: a played value holds the turn exactly when it is Skip, Reverse,
/// DrawTwo or WildDraw4, and passes it for every other value.
pub proof fn lemma_effect_turn(current_turn: u32, played_value: u32)
    requires
        current_turn <= 1,
    ensures
        (spec_effect_turn(current_turn, played_value) == current_turn) <==> (played_value == SKIP
            || played_value == REVERSE || played_value == DRAW_TWO || played_value
            == WILD_DRAW4),
{
}

} // verus!
