//! Requests to the proof verifiers.
//!
//! A proof is checked by a verifier program outside this library. The functions here
//! do what can be done before that: they refuse a wrong verifier or a malformed
//! proof, and they lay out the message that the verifier expects, the proof followed
//! by the public inputs of the circuit, byte for byte. Whoever drives the library
//! sends the message and hands the verifier's answer to the operation that waits
//! for it.

use vstd::prelude::*;
use vstd::bytes::{spec_u64_to_le_bytes, u64_to_le_bytes};
use crate::constants::{
    DECK_SIZE,
    DECK_VERIFIER_PROGRAM_ID,
    PROOF_SIZE,
    REVEAL_VERIFIER_PROGRAM_ID,
    SHOWDOWN_VERIFIER_PROGRAM_ID,
};
use crate::errors::ZkPokerError;
use crate::utils::hash::bytes32_eq;

verus! {

/// Appends `src` to `out`.
pub fn append_bytes(out: &mut Vec<u8>, src: &[u8])
    ensures
        final(out)@ == old(out)@ + src@,
{
    let mut i: usize = 0;
    while i < src.len()
        invariant
            i <= src@.len(),
            out@ == old(out)@ + src@.take(i as int),
        decreases src@.len() - i,
    {
        out.push(src[i]);
        i += 1;
    }
    assert(src@.take(src@.len() as int) == src@);
}

/// The message for a verifier, or the reason why none is sent: the verifier named
/// must be the expected one, and the proof must have the length of a Groth16 proof.
/// The message is the proof followed by the public inputs.
pub open spec fn groth16_request(
    verifier_program: [u8; 32],
    expected_verifier_id: [u8; 32],
    proof: Seq<u8>,
    public_inputs: Seq<u8>,
) -> Result<Seq<u8>, ZkPokerError> {
    if verifier_program != expected_verifier_id {
        Err(ZkPokerError::ProofVerificationFailed)
    } else if proof.len() != PROOF_SIZE {
        Err(ZkPokerError::InvalidProofFormat)
    } else {
        Ok(proof + public_inputs)
    }
}

/// Whether `bytes` is the message that `request` stands for, or `request` refuses
/// with the error that `res` carries.
pub open spec fn request_is(
    res: Result<Vec<u8>, ZkPokerError>,
    request: Result<Seq<u8>, ZkPokerError>,
) -> bool {
    match res {
        Ok(bytes) => request == Ok::<Seq<u8>, ZkPokerError>(bytes@),
        Err(e) => request == Err::<Seq<u8>, ZkPokerError>(e),
    }
}

/// Prepares the verification of a Groth16 proof: refuses a verifier other than the
/// expected one and a proof of the wrong length, and returns the message to send to
/// the verifier.
pub fn verify_groth16_proof(
    verifier_program: &[u8; 32],
    expected_verifier_id: &[u8; 32],
    proof: &[u8],
    public_inputs: &[u8],
) -> (res: Result<Vec<u8>, ZkPokerError>)
    ensures
        request_is(
            res,
            groth16_request(*verifier_program, *expected_verifier_id, proof@, public_inputs@),
        ),
{
    if !bytes32_eq(verifier_program, expected_verifier_id) {
        return Err(ZkPokerError::ProofVerificationFailed);
    }
    if proof.len() != PROOF_SIZE {
        return Err(ZkPokerError::InvalidProofFormat);
    }
    let mut instruction_data: Vec<u8> = Vec::new();
    append_bytes(&mut instruction_data, proof);
    append_bytes(&mut instruction_data, public_inputs);
    Ok(instruction_data)
}

/// Public inputs of the deck circuit: the deck seed, the seat, and the two
/// commitments.
pub open spec fn hole_card_inputs(deck_seed: [u8; 32], player_seat: u8, commitments: [[u8; 32]; 2])
    -> Seq<u8> {
    deck_seed@ + seq![player_seat] + commitments[0]@ + commitments[1]@
}

/// Prepares the verification that two commitments are the hashes of the cards
/// that the deck seed puts at the two deck positions of `player_seat`.
pub fn verify_hole_card_commitments(
    verifier_program: &[u8; 32],
    deck_seed: &[u8; 32],
    player_seat: u8,
    commitments: &[[u8; 32]; 2],
    proof: &[u8],
) -> (res: Result<Vec<u8>, ZkPokerError>)
    ensures
        request_is(
            res,
            groth16_request(
                *verifier_program,
                DECK_VERIFIER_PROGRAM_ID,
                proof@,
                hole_card_inputs(*deck_seed, player_seat, *commitments),
            ),
        ),
{
    let mut public_inputs: Vec<u8> = Vec::new();
    append_bytes(&mut public_inputs, deck_seed.as_slice());
    public_inputs.push(player_seat);
    append_bytes(&mut public_inputs, commitments[0].as_slice());
    append_bytes(&mut public_inputs, commitments[1].as_slice());
    assert(public_inputs@ =~= hole_card_inputs(*deck_seed, player_seat, *commitments));
    let expected = DECK_VERIFIER_PROGRAM_ID;
    verify_groth16_proof(verifier_program, &expected, proof, public_inputs.as_slice())
}

/// Whether every card of `cards` is a card of the deck.
pub open spec fn cards_in_deck(cards: Seq<u8>) -> bool {
    forall|i: int| 0 <= i < cards.len() ==> cards[i] < DECK_SIZE
}

/// Public inputs of the reveal circuit: the deck seed, the cards, and their deck
/// positions.
pub open spec fn community_inputs(deck_seed: [u8; 32], cards: Seq<u8>, positions: Seq<u8>) -> Seq<
    u8,
> {
    deck_seed@ + cards + positions
}

/// The request for a community-card reveal: a card outside the deck is refused
/// before anything else.
pub open spec fn community_request(
    verifier_program: [u8; 32],
    deck_seed: [u8; 32],
    cards: Seq<u8>,
    positions: Seq<u8>,
    proof: Seq<u8>,
) -> Result<Seq<u8>, ZkPokerError> {
    if !cards_in_deck(cards) {
        Err(ZkPokerError::InvalidCardIndex)
    } else {
        groth16_request(
            verifier_program,
            REVEAL_VERIFIER_PROGRAM_ID,
            proof,
            community_inputs(deck_seed, cards, positions),
        )
    }
}

/// Checks that every card is below the deck size.
pub fn check_cards_in_deck(cards: &[u8]) -> (ok: bool)
    ensures
        ok == cards_in_deck(cards@),
{
    let mut i: usize = 0;
    while i < cards.len()
        invariant
            i <= cards@.len(),
            forall|j: int| 0 <= j < i ==> cards@[j] < DECK_SIZE,
        decreases cards@.len() - i,
    {
        if cards[i] >= DECK_SIZE {
            return false;
        }
        i += 1;
    }
    true
}

/// Prepares the verification that `cards` are the cards that the deck seed puts at
/// the deck positions `positions`.
pub fn verify_community_cards(
    verifier_program: &[u8; 32],
    deck_seed: &[u8; 32],
    cards: &[u8],
    positions: &[u8],
    proof: &[u8],
) -> (res: Result<Vec<u8>, ZkPokerError>)
    ensures
        request_is(
            res,
            community_request(*verifier_program, *deck_seed, cards@, positions@, proof@),
        ),
{
    if !check_cards_in_deck(cards) {
        return Err(ZkPokerError::InvalidCardIndex);
    }
    let mut public_inputs: Vec<u8> = Vec::new();
    append_bytes(&mut public_inputs, deck_seed.as_slice());
    append_bytes(&mut public_inputs, cards);
    append_bytes(&mut public_inputs, positions);
    let expected = REVEAL_VERIFIER_PROGRAM_ID;
    verify_groth16_proof(verifier_program, &expected, proof, public_inputs.as_slice())
}

/// Public inputs of the showdown circuit: the two hole-card commitments, the five
/// community cards, and the claimed rank as eight bytes, least significant first.
pub open spec fn hand_reveal_inputs(
    commitments: [[u8; 32]; 2],
    community_cards: Seq<u8>,
    hand_rank: u64,
) -> Seq<u8> {
    commitments[0]@ + commitments[1]@ + community_cards + spec_u64_to_le_bytes(hand_rank)
}

/// Prepares the verification that `hand_rank` is the rank of the hand made of the
/// committed hole cards and the community cards.
pub fn verify_hand_reveal(
    verifier_program: &[u8; 32],
    commitments: &[[u8; 32]; 2],
    community_cards: &[u8; 5],
    hand_rank: u64,
    proof: &[u8],
) -> (res: Result<Vec<u8>, ZkPokerError>)
    ensures
        request_is(
            res,
            groth16_request(
                *verifier_program,
                SHOWDOWN_VERIFIER_PROGRAM_ID,
                proof@,
                hand_reveal_inputs(*commitments, community_cards@, hand_rank),
            ),
        ),
{
    let mut public_inputs: Vec<u8> = Vec::new();
    append_bytes(&mut public_inputs, commitments[0].as_slice());
    append_bytes(&mut public_inputs, commitments[1].as_slice());
    append_bytes(&mut public_inputs, community_cards.as_slice());
    let rank_bytes = u64_to_le_bytes(hand_rank);
    append_bytes(&mut public_inputs, rank_bytes.as_slice());
    let expected = SHOWDOWN_VERIFIER_PROGRAM_ID;
    verify_groth16_proof(verifier_program, &expected, proof, public_inputs.as_slice())
}

} // verus!
