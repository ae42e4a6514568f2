//! Fixed parameters of the protocol.

use vstd::prelude::*;

verus! {

/// Address of the verifier for the circuit that binds hole-card commitments to the deck.
pub const DECK_VERIFIER_PROGRAM_ID: [u8; 32] = [
    70, 213, 85, 133, 175, 37, 198, 211, 141, 243, 49, 26, 100, 194, 12, 17,
    105, 146, 80, 93, 81, 173, 23, 173, 106, 167, 22, 245, 137, 36, 163, 146,
];

/// Address of the verifier for the circuit that deals cards from the deck.
pub const DEAL_VERIFIER_PROGRAM_ID: [u8; 32] = [
    188, 4, 82, 55, 148, 70, 57, 113, 40, 88, 103, 127, 101, 30, 80, 174,
    144, 12, 35, 190, 118, 252, 4, 161, 190, 1, 177, 198, 217, 130, 192, 174,
];

/// Address of the verifier for the circuit that opens community cards.
pub const REVEAL_VERIFIER_PROGRAM_ID: [u8; 32] = [
    127, 3, 165, 16, 106, 192, 14, 186, 62, 128, 213, 9, 131, 239, 236, 5,
    221, 54, 63, 245, 179, 229, 240, 5, 153, 88, 216, 223, 57, 177, 211, 71,
];

/// Address of the verifier for the circuit that ranks a hand at showdown.
pub const SHOWDOWN_VERIFIER_PROGRAM_ID: [u8; 32] = [
    102, 176, 76, 67, 28, 102, 20, 13, 65, 249, 217, 204, 147, 193, 37, 5,
    199, 160, 247, 74, 82, 62, 175, 139, 102, 5, 201, 255, 234, 248, 173, 238,
];

/// Address of the verifier for the circuit that checks a bet against a balance.
pub const BET_VERIFIER_PROGRAM_ID: [u8; 32] = [
    85, 137, 230, 208, 179, 111, 109, 79, 88, 164, 167, 255, 25, 80, 252, 197,
    224, 83, 218, 138, 192, 243, 181, 174, 134, 241, 98, 247, 211, 20, 248, 195,
];

/// Seconds a seat has to act when the table names no timeout.
pub const DEFAULT_ACTION_TIMEOUT: i64 = 30;

/// Shortest timeout a table may set, in seconds.
pub const MIN_ACTION_TIMEOUT: i64 = 10;

/// Longest timeout a table may set, in seconds.
pub const MAX_ACTION_TIMEOUT: i64 = 120;

/// Length of a Groth16 proof, in bytes.
pub const PROOF_SIZE: usize = 388;

/// Length of a card commitment, in bytes.
pub const COMMITMENT_SIZE: usize = 32;

/// Cards in the deck; a card index is below this.
pub const DECK_SIZE: u8 = 52;

/// Hole cards dealt to each seat.
pub const HOLE_CARDS: u8 = 2;

/// Community cards dealt over flop, turn and river.
pub const COMMUNITY_CARDS: u8 = 5;

/// Deck positions of the cards of a hand.
pub const P1_CARD_1_POS: u8 = 0;
pub const P1_CARD_2_POS: u8 = 1;
pub const P2_CARD_1_POS: u8 = 2;
pub const P2_CARD_2_POS: u8 = 3;
pub const FLOP_1_POS: u8 = 4;
pub const FLOP_2_POS: u8 = 5;
pub const FLOP_3_POS: u8 = 6;
pub const TURN_POS: u8 = 7;
pub const RIVER_POS: u8 = 8;

/// Stored in place of a card that has not been revealed.
pub const CARD_NOT_REVEALED: u8 = 255;

/// Stored in `winner` and `last_aggressor` while no seat is meant.
pub const NO_SEAT: u8 = 255;

/// Stored in `winner` when both seats share the pot.
pub const SPLIT_POT: u8 = 2;

} // verus!
