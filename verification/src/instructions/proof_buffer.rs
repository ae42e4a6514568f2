//! Uploading a proof in chunks.

use vstd::prelude::*;
use crate::errors::ZkPokerError;
use crate::state::proof_buffer::{overwritten, ProofBuffer, ProofBufferError, ProofType};

verus! {

/// The proof purpose that a number stands for: 0 for the deck circuit, 1 for the
/// reveal circuit, 2 for the showdown circuit.
pub open spec fn proof_type_of(proof_type: u8) -> Option<ProofType> {
    if proof_type == 0 {
        Some(ProofType::Deck)
    } else if proof_type == 1 {
        Some(ProofType::Reveal)
    } else if proof_type == 2 {
        Some(ProofType::Showdown)
    } else {
        None
    }
}

/// Sets up an empty buffer of `proof_size` bytes for a proof of `player` for `hand`.
/// A number that stands for no proof purpose is refused.
pub fn handle_init_proof_buffer(
    buffer: &mut ProofBuffer,
    hand: [u8; 32],
    player: [u8; 32],
    proof_type: u8,
    proof_size: u16,
    bump: u8,
) -> (res: Result<(), ZkPokerError>)
    ensures
        res is Ok <==> proof_type_of(proof_type) is Some,
        res is Err ==> res == Err::<(), _>(ZkPokerError::InvalidProofType) && *final(buffer)
            == *old(buffer),
        res is Ok ==> {
            &&& final(buffer).hand == hand
            &&& final(buffer).player == player
            &&& Some(final(buffer).proof_type) == proof_type_of(proof_type)
            &&& final(buffer).size == proof_size
            &&& final(buffer).uploaded == 0
            &&& !final(buffer).complete
            &&& final(buffer).bump == bump
            &&& final(buffer).data@ == Seq::new(proof_size as nat, |i: int| 0u8)
            &&& final(buffer).wf()
        },
{
    let pt = match proof_type {
        0 => ProofType::Deck,
        1 => ProofType::Reveal,
        2 => ProofType::Showdown,
        _ => {
            return Err(ZkPokerError::InvalidProofType);
        },
    };
    buffer.init(hand, player, pt, proof_size, bump);
    Ok(())
}

/// Writes a chunk of proof data into the buffer at `offset`.
pub fn handle_upload_proof_chunk(buffer: &mut ProofBuffer, offset: u16, data: &[u8]) -> (res: Result<
    (),
    ProofBufferError,
>)
    requires
        old(buffer).sized(),
    ensures
        final(buffer).sized(),
        old(buffer).wf() ==> final(buffer).wf(),
        res is Ok <==> offset + data@.len() <= old(buffer).size,
        res is Err ==> res == Err::<(), _>(ProofBufferError::ChunkOverflow) && *final(buffer)
            == *old(buffer),
        res is Ok ==> {
            &&& final(buffer).data@ == overwritten(old(buffer).data@, offset as int, data@)
            &&& final(buffer).uploaded == if offset + data@.len() > old(buffer).uploaded {
                offset + data@.len()
            } else {
                old(buffer).uploaded as int
            }
            &&& final(buffer).complete == (old(buffer).complete || final(buffer).uploaded
                >= old(buffer).size)
            &&& final(buffer).hand == old(buffer).hand
            &&& final(buffer).player == old(buffer).player
            &&& final(buffer).proof_type == old(buffer).proof_type
            &&& final(buffer).size == old(buffer).size
            &&& final(buffer).bump == old(buffer).bump
        },
{
    buffer.upload_chunk(offset, data)
}

} // verus!
