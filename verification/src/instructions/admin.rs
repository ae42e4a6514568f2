//! Protocol administration: setting up the configuration, and the emergency stop.

use vstd::prelude::*;
use crate::constants::{
    BET_VERIFIER_PROGRAM_ID,
    DEAL_VERIFIER_PROGRAM_ID,
    DECK_VERIFIER_PROGRAM_ID,
    REVEAL_VERIFIER_PROGRAM_ID,
    SHOWDOWN_VERIFIER_PROGRAM_ID,
};
use crate::state::global::GlobalConfig;

verus! {

/// Sets the configuration up with the five verifiers of the protocol.
pub fn handle_initialize(
    global_config: &mut GlobalConfig,
    authority: [u8; 32],
    usdc_mint: [u8; 32],
    bump: u8,
)
    ensures
        *final(global_config) == GlobalConfig::fresh(
            authority,
            usdc_mint,
            DECK_VERIFIER_PROGRAM_ID,
            DEAL_VERIFIER_PROGRAM_ID,
            REVEAL_VERIFIER_PROGRAM_ID,
            SHOWDOWN_VERIFIER_PROGRAM_ID,
            BET_VERIFIER_PROGRAM_ID,
            bump,
        ),
{
    global_config.init(
        authority,
        usdc_mint,
        DECK_VERIFIER_PROGRAM_ID,
        DEAL_VERIFIER_PROGRAM_ID,
        REVEAL_VERIFIER_PROGRAM_ID,
        SHOWDOWN_VERIFIER_PROGRAM_ID,
        BET_VERIFIER_PROGRAM_ID,
        bump,
    );
}

/// Stops the protocol.
pub fn handle_pause(global_config: &mut GlobalConfig)
    ensures
        *final(global_config) == (GlobalConfig { is_paused: true, ..*old(global_config) }),
{
    global_config.is_paused = true;
}

/// Lets the protocol run again.
pub fn handle_unpause(global_config: &mut GlobalConfig)
    ensures
        *final(global_config) == (GlobalConfig { is_paused: false, ..*old(global_config) }),
{
    global_config.is_paused = false;
}

} // verus!
