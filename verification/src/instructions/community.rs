//! Opening the community cards: flop, then turn, then river, each once, each with
//! a proof that the cards are the ones the deck seed puts at their deck positions.

use vstd::prelude::*;
use crate::constants::{FLOP_1_POS, FLOP_2_POS, FLOP_3_POS, REVEAL_VERIFIER_PROGRAM_ID, RIVER_POS, TURN_POS};
use crate::errors::{outcome, ZkPokerError};
use crate::state::hand::{CardPhase, Hand, HandStage};
use crate::state::proof_buffer::ProofBuffer;
use crate::state::table::Table;
use crate::utils::verification::{
    cards_in_deck,
    check_cards_in_deck,
    community_inputs,
    groth16_request,
    verify_community_cards,
};

verus! {

/// Why the proof gate refuses a reveal of `cards` at `positions`, if it does: every
/// card must be a card of the deck, the proof buffer must be complete, the request
/// to the reveal verifier must be well-formed, and the verifier must have accepted
/// it.
pub open spec fn reveal_gate_error(
    hand: Hand,
    verifier_program: [u8; 32],
    buffer_complete: bool,
    proof: Seq<u8>,
    cards: Seq<u8>,
    positions: Seq<u8>,
    accepted: bool,
) -> Option<ZkPokerError> {
    if !cards_in_deck(cards) {
        Some(ZkPokerError::InvalidCardIndex)
    } else if !buffer_complete {
        Some(ZkPokerError::BufferNotComplete)
    } else {
        match groth16_request(
            verifier_program,
            REVEAL_VERIFIER_PROGRAM_ID,
            proof,
            community_inputs(hand.seeds.deck_seed, cards, positions),
        ) {
            Err(e) => Some(e),
            Ok(_) => if !accepted {
                Some(ZkPokerError::ProofVerificationFailed)
            } else {
                None
            },
        }
    }
}

/// Passes `cards` through the proof gate.
pub fn check_reveal_gate(
    hand: &Hand,
    verifier_program: &[u8; 32],
    proof_buffer: &ProofBuffer,
    cards: &[u8],
    positions: &[u8],
    accepted: bool,
) -> (res: Result<(), ZkPokerError>)
    ensures
        res == outcome(
            reveal_gate_error(
                *hand,
                *verifier_program,
                proof_buffer.complete,
                proof_buffer.data@,
                cards@,
                positions@,
                accepted,
            ),
        ),
{
    if !check_cards_in_deck(cards) {
        return Err(ZkPokerError::InvalidCardIndex);
    }
    let proof_data = match proof_buffer.get_proof_data() {
        Ok(data) => data,
        Err(_) => {
            return Err(ZkPokerError::BufferNotComplete);
        },
    };
    match verify_community_cards(
        verifier_program,
        &hand.seeds.deck_seed,
        cards,
        positions,
        proof_data,
    ) {
        Ok(_) => {},
        Err(e) => {
            return Err(e);
        },
    }
    if !accepted {
        return Err(ZkPokerError::ProofVerificationFailed);
    }
    Ok(())
}

/// Deck positions of the three flop cards.
pub open spec fn flop_positions() -> Seq<u8> {
    seq![FLOP_1_POS, FLOP_2_POS, FLOP_3_POS]
}

/// Why a flop reveal is refused, if it is: the caller must be seated, the hand
/// must be in `Flop`, the flop must not be revealed yet, and the proof gate must
/// let the cards pass.
pub open spec fn reveal_flop_error(
    table: Table,
    hand: Hand,
    player: [u8; 32],
    verifier_program: [u8; 32],
    buffer_complete: bool,
    proof: Seq<u8>,
    cards: [u8; 3],
    accepted: bool,
) -> Option<ZkPokerError> {
    if table.spec_get_seat(&player) is None {
        Some(ZkPokerError::PlayerNotAtTable)
    } else if hand.stage != HandStage::Flop {
        Some(ZkPokerError::InvalidStage)
    } else if hand.cards.flop_revealed {
        Some(ZkPokerError::FlopAlreadyRevealed)
    } else {
        reveal_gate_error(
            hand,
            verifier_program,
            buffer_complete,
            proof,
            cards@,
            flop_positions(),
            accepted,
        )
    }
}

/// The hand with the flop on the table.
pub open spec fn reveal_flop_hand(hand: Hand, cards: [u8; 3], now: i64) -> Hand {
    Hand { cards: CardPhase { flop: cards, flop_revealed: true, ..hand.cards }, ..hand.touched(now) }
}

/// Puts the flop on the table.
///
/// `accepted` is the answer of the reveal verifier to the request that
/// `verify_community_cards` builds from the deck seed of the hand, the cards, their
/// deck positions and the proof in the buffer.
pub fn handle_reveal_flop(
    table: &Table,
    hand: &mut Hand,
    player: &[u8; 32],
    verifier_program: &[u8; 32],
    proof_buffer: &ProofBuffer,
    cards: [u8; 3],
    accepted: bool,
    now: i64,
) -> (res: Result<(), ZkPokerError>)
    ensures
        res == outcome(
            reveal_flop_error(
                *table,
                *old(hand),
                *player,
                *verifier_program,
                proof_buffer.complete,
                proof_buffer.data@,
                cards,
                accepted,
            ),
        ),
        res is Err ==> *final(hand) == *old(hand),
        res is Ok ==> *final(hand) == reveal_flop_hand(*old(hand), cards, now),
        !accepted ==> res is Err,
        final(hand).stage == old(hand).stage,
        old(hand).wf() ==> final(hand).wf(),
{
    if table.get_seat(player).is_none() {
        return Err(ZkPokerError::PlayerNotAtTable);
    }
    if hand.stage != HandStage::Flop {
        return Err(ZkPokerError::InvalidStage);
    }
    if hand.cards.flop_revealed {
        return Err(ZkPokerError::FlopAlreadyRevealed);
    }
    let positions: [u8; 3] = [FLOP_1_POS, FLOP_2_POS, FLOP_3_POS];
    assert(positions@ =~= flop_positions());
    match check_reveal_gate(
        hand,
        verifier_program,
        proof_buffer,
        cards.as_slice(),
        positions.as_slice(),
        accepted,
    ) {
        Ok(()) => {},
        Err(e) => {
            return Err(e);
        },
    }
    hand.cards.flop = cards;
    hand.cards.flop_revealed = true;
    hand.touch(now);
    Ok(())
}

/// Why a turn reveal is refused, if it is: the caller must be seated, the hand
/// must be in `Turn`, the flop must be revealed and the turn not, and the proof
/// gate must let the card pass.
pub open spec fn reveal_turn_error(
    table: Table,
    hand: Hand,
    player: [u8; 32],
    verifier_program: [u8; 32],
    buffer_complete: bool,
    proof: Seq<u8>,
    card: u8,
    accepted: bool,
) -> Option<ZkPokerError> {
    if table.spec_get_seat(&player) is None {
        Some(ZkPokerError::PlayerNotAtTable)
    } else if hand.stage != HandStage::Turn {
        Some(ZkPokerError::InvalidStage)
    } else if !hand.cards.flop_revealed {
        Some(ZkPokerError::RevealOutOfOrder)
    } else if hand.cards.turn_revealed {
        Some(ZkPokerError::TurnAlreadyRevealed)
    } else {
        reveal_gate_error(
            hand,
            verifier_program,
            buffer_complete,
            proof,
            seq![card],
            seq![TURN_POS],
            accepted,
        )
    }
}

/// The hand with the turn card on the table.
pub open spec fn reveal_turn_hand(hand: Hand, card: u8, now: i64) -> Hand {
    Hand { cards: CardPhase { turn: card, turn_revealed: true, ..hand.cards }, ..hand.touched(now) }
}

/// Puts the turn card on the table. The flop must be there already.
///
/// `accepted` is the answer of the reveal verifier, as for the flop.
pub fn handle_reveal_turn(
    table: &Table,
    hand: &mut Hand,
    player: &[u8; 32],
    verifier_program: &[u8; 32],
    proof_buffer: &ProofBuffer,
    card: u8,
    accepted: bool,
    now: i64,
) -> (res: Result<(), ZkPokerError>)
    ensures
        res == outcome(
            reveal_turn_error(
                *table,
                *old(hand),
                *player,
                *verifier_program,
                proof_buffer.complete,
                proof_buffer.data@,
                card,
                accepted,
            ),
        ),
        res is Err ==> *final(hand) == *old(hand),
        res is Ok ==> *final(hand) == reveal_turn_hand(*old(hand), card, now),
        !old(hand).cards.flop_revealed ==> res is Err,
        !accepted ==> res is Err,
        final(hand).stage == old(hand).stage,
        old(hand).wf() ==> final(hand).wf(),
{
    if table.get_seat(player).is_none() {
        return Err(ZkPokerError::PlayerNotAtTable);
    }
    if hand.stage != HandStage::Turn {
        return Err(ZkPokerError::InvalidStage);
    }
    if !hand.cards.flop_revealed {
        return Err(ZkPokerError::RevealOutOfOrder);
    }
    if hand.cards.turn_revealed {
        return Err(ZkPokerError::TurnAlreadyRevealed);
    }
    let cards: [u8; 1] = [card];
    let positions: [u8; 1] = [TURN_POS];
    assert(cards@ =~= seq![card]);
    assert(positions@ =~= seq![TURN_POS]);
    match check_reveal_gate(
        hand,
        verifier_program,
        proof_buffer,
        cards.as_slice(),
        positions.as_slice(),
        accepted,
    ) {
        Ok(()) => {},
        Err(e) => {
            return Err(e);
        },
    }
    hand.cards.turn = card;
    hand.cards.turn_revealed = true;
    hand.touch(now);
    Ok(())
}

/// Why a river reveal is refused, if it is: the caller must be seated, the hand
/// must be in `River`, the turn must be revealed and the river not, and the proof
/// gate must let the card pass.
pub open spec fn reveal_river_error(
    table: Table,
    hand: Hand,
    player: [u8; 32],
    verifier_program: [u8; 32],
    buffer_complete: bool,
    proof: Seq<u8>,
    card: u8,
    accepted: bool,
) -> Option<ZkPokerError> {
    if table.spec_get_seat(&player) is None {
        Some(ZkPokerError::PlayerNotAtTable)
    } else if hand.stage != HandStage::River {
        Some(ZkPokerError::InvalidStage)
    } else if !hand.cards.turn_revealed {
        Some(ZkPokerError::RevealOutOfOrder)
    } else if hand.cards.river_revealed {
        Some(ZkPokerError::RiverAlreadyRevealed)
    } else {
        reveal_gate_error(
            hand,
            verifier_program,
            buffer_complete,
            proof,
            seq![card],
            seq![RIVER_POS],
            accepted,
        )
    }
}

/// The hand with the river card on the table.
pub open spec fn reveal_river_hand(hand: Hand, card: u8, now: i64) -> Hand {
    Hand { cards: CardPhase { river: card, river_revealed: true, ..hand.cards }, ..hand.touched(now) }
}

/// Puts the river card on the table. The turn card must be there already.
///
/// `accepted` is the answer of the reveal verifier, as for the flop.
pub fn handle_reveal_river(
    table: &Table,
    hand: &mut Hand,
    player: &[u8; 32],
    verifier_program: &[u8; 32],
    proof_buffer: &ProofBuffer,
    card: u8,
    accepted: bool,
    now: i64,
) -> (res: Result<(), ZkPokerError>)
    ensures
        res == outcome(
            reveal_river_error(
                *table,
                *old(hand),
                *player,
                *verifier_program,
                proof_buffer.complete,
                proof_buffer.data@,
                card,
                accepted,
            ),
        ),
        res is Err ==> *final(hand) == *old(hand),
        res is Ok ==> *final(hand) == reveal_river_hand(*old(hand), card, now),
        !old(hand).cards.turn_revealed ==> res is Err,
        !accepted ==> res is Err,
        final(hand).stage == old(hand).stage,
        old(hand).wf() ==> final(hand).wf(),
{
    if table.get_seat(player).is_none() {
        return Err(ZkPokerError::PlayerNotAtTable);
    }
    if hand.stage != HandStage::River {
        return Err(ZkPokerError::InvalidStage);
    }
    if !hand.cards.turn_revealed {
        return Err(ZkPokerError::RevealOutOfOrder);
    }
    if hand.cards.river_revealed {
        return Err(ZkPokerError::RiverAlreadyRevealed);
    }
    let cards: [u8; 1] = [card];
    let positions: [u8; 1] = [RIVER_POS];
    assert(cards@ =~= seq![card]);
    assert(positions@ =~= seq![RIVER_POS]);
    match check_reveal_gate(
        hand,
        verifier_program,
        proof_buffer,
        cards.as_slice(),
        positions.as_slice(),
        accepted,
    ) {
        Ok(()) => {},
        Err(e) => {
            return Err(e);
        },
    }
    hand.cards.river = card;
    hand.cards.river_revealed = true;
    hand.touch(now);
    Ok(())
}

} // verus!
