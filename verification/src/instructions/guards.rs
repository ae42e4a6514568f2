//! What is asked of the caller and of the records that come with a call, before
//! the operation itself is looked at: the protocol must run, the administrator
//! must be the one on record, a verifier must be the configured one, and a proof
//! buffer must belong to the caller, to the hand and to the purpose.

use vstd::prelude::*;
use crate::errors::{outcome, ZkPokerError};
use crate::state::global::GlobalConfig;
use crate::state::proof_buffer::{ProofBuffer, ProofType};
use crate::utils::hash::bytes32_eq;

verus! {

/// Refuses every operation that is closed while the protocol is paused: creating a
/// table, sitting down, topping up and starting a hand.
pub fn require_not_paused(global_config: &GlobalConfig) -> (res: Result<(), ZkPokerError>)
    ensures
        res == if global_config.is_paused {
            Err::<(), _>(ZkPokerError::GamePaused)
        } else {
            Ok::<_, ZkPokerError>(())
        },
{
    if global_config.is_paused {
        return Err(ZkPokerError::GamePaused);
    }
    Ok(())
}

/// Refuses an administrator other than the one on record.
pub fn require_authority(global_config: &GlobalConfig, authority: &[u8; 32]) -> (res: Result<
    (),
    ZkPokerError,
>)
    ensures
        res == if global_config.authority == *authority {
            Ok::<_, ZkPokerError>(())
        } else {
            Err::<(), _>(ZkPokerError::Unauthorized)
        },
{
    if !bytes32_eq(&global_config.authority, authority) {
        return Err(ZkPokerError::Unauthorized);
    }
    Ok(())
}

/// Refuses a token mint other than the configured one.
pub fn require_mint(global_config: &GlobalConfig, mint: &[u8; 32]) -> (res: Result<
    (),
    ZkPokerError,
>)
    ensures
        res == if global_config.usdc_mint == *mint {
            Ok::<_, ZkPokerError>(())
        } else {
            Err::<(), _>(ZkPokerError::InvalidMint)
        },
{
    if !bytes32_eq(&global_config.usdc_mint, mint) {
        return Err(ZkPokerError::InvalidMint);
    }
    Ok(())
}

/// Refuses a verifier program other than the one that the configuration names for
/// the circuit.
pub fn require_verifier(configured: &[u8; 32], verifier_program: &[u8; 32]) -> (res: Result<
    (),
    ZkPokerError,
>)
    ensures
        res == if *configured == *verifier_program {
            Ok::<_, ZkPokerError>(())
        } else {
            Err::<(), _>(ZkPokerError::ProofVerificationFailed)
        },
{
    if !bytes32_eq(configured, verifier_program) {
        return Err(ZkPokerError::ProofVerificationFailed);
    }
    Ok(())
}

/// Refuses a caller who does not own the buffer.
pub fn require_buffer_owner(proof_buffer: &ProofBuffer, player: &[u8; 32]) -> (res: Result<
    (),
    ZkPokerError,
>)
    ensures
        res == if proof_buffer.player == *player {
            Ok::<_, ZkPokerError>(())
        } else {
            Err::<(), _>(ZkPokerError::Unauthorized)
        },
{
    if !bytes32_eq(&proof_buffer.player, player) {
        return Err(ZkPokerError::Unauthorized);
    }
    Ok(())
}

/// Why a buffer takes no upload from `player`, if it does not: the buffer must be
/// the player's, and it must not be complete.
pub open spec fn upload_guard_error(proof_buffer: ProofBuffer, player: [u8; 32]) -> Option<
    ZkPokerError,
> {
    if proof_buffer.player != player {
        Some(ZkPokerError::Unauthorized)
    } else if proof_buffer.complete {
        Some(ZkPokerError::BufferAlreadyComplete)
    } else {
        None
    }
}

/// Refuses an upload into a buffer of another player, and into a complete buffer.
pub fn require_open_buffer(proof_buffer: &ProofBuffer, player: &[u8; 32]) -> (res: Result<
    (),
    ZkPokerError,
>)
    ensures
        res == outcome(upload_guard_error(*proof_buffer, *player)),
{
    if !bytes32_eq(&proof_buffer.player, player) {
        return Err(ZkPokerError::Unauthorized);
    }
    if proof_buffer.complete {
        return Err(ZkPokerError::BufferAlreadyComplete);
    }
    Ok(())
}

/// Why a buffer cannot back a reveal of community cards of the hand at address
/// `hand` by `player`, if it cannot: the buffer must be the player's, it must have
/// been set up for that hand and for the reveal circuit, and it must be complete.
pub open spec fn reveal_buffer_error(proof_buffer: ProofBuffer, hand: [u8; 32], player: [u8; 32])
    -> Option<ZkPokerError> {
    if proof_buffer.player != player {
        Some(ZkPokerError::Unauthorized)
    } else if proof_buffer.hand != hand {
        Some(ZkPokerError::BufferMismatch)
    } else if proof_buffer.proof_type != ProofType::Reveal {
        Some(ZkPokerError::BufferMismatch)
    } else if !proof_buffer.complete {
        Some(ZkPokerError::BufferNotComplete)
    } else {
        None
    }
}

/// Refuses a buffer that cannot back a reveal of community cards.
pub fn require_reveal_buffer(proof_buffer: &ProofBuffer, hand: &[u8; 32], player: &[u8; 32]) -> (res:
    Result<(), ZkPokerError>)
    ensures
        res == outcome(reveal_buffer_error(*proof_buffer, *hand, *player)),
{
    if !bytes32_eq(&proof_buffer.player, player) {
        return Err(ZkPokerError::Unauthorized);
    }
    if !bytes32_eq(&proof_buffer.hand, hand) {
        return Err(ZkPokerError::BufferMismatch);
    }
    if proof_buffer.proof_type != ProofType::Reveal {
        return Err(ZkPokerError::BufferMismatch);
    }
    if !proof_buffer.complete {
        return Err(ZkPokerError::BufferNotComplete);
    }
    Ok(())
}

} // verus!
