//! Protocol-wide configuration.

use vstd::prelude::*;
use crate::state::table::saturating_sum;

verus! {

/// Configuration shared by every table.
#[derive(Clone, Copy, PartialEq, Eq, Debug)]
pub struct GlobalConfig {
    /// Who may pause and unpause the protocol.
    pub authority: [u8; 32],
    /// Mint of the token that chips are bought with.
    pub usdc_mint: [u8; 32],
    /// Verifier of hole-card commitments.
    pub deck_verifier: [u8; 32],
    /// Verifier of dealt cards.
    pub deal_verifier: [u8; 32],
    /// Verifier of community-card reveals.
    pub reveal_verifier: [u8; 32],
    /// Verifier of hand ranks at showdown.
    pub showdown_verifier: [u8; 32],
    /// Verifier of bets against balances.
    pub bet_verifier: [u8; 32],
    /// Tables created so far.
    pub table_count: u64,
    /// Emergency stop.
    pub is_paused: bool,
    /// Address bump of the configuration record.
    pub bump: u8,
}

impl GlobalConfig {
    /// The configuration that `init` leaves behind: no table yet, not paused.
    pub open spec fn fresh(
        authority: [u8; 32],
        usdc_mint: [u8; 32],
        deck_verifier: [u8; 32],
        deal_verifier: [u8; 32],
        reveal_verifier: [u8; 32],
        showdown_verifier: [u8; 32],
        bet_verifier: [u8; 32],
        bump: u8,
    ) -> GlobalConfig {
        GlobalConfig {
            authority,
            usdc_mint,
            deck_verifier,
            deal_verifier,
            reveal_verifier,
            showdown_verifier,
            bet_verifier,
            table_count: 0,
            is_paused: false,
            bump,
        }
    }

    /// Resets the record to a configuration without tables.
    pub fn init(
        &mut self,
        authority: [u8; 32],
        usdc_mint: [u8; 32],
        deck_verifier: [u8; 32],
        deal_verifier: [u8; 32],
        reveal_verifier: [u8; 32],
        showdown_verifier: [u8; 32],
        bet_verifier: [u8; 32],
        bump: u8,
    )
        ensures
            *final(self) == GlobalConfig::fresh(
                authority,
                usdc_mint,
                deck_verifier,
                deal_verifier,
                reveal_verifier,
                showdown_verifier,
                bet_verifier,
                bump,
            ),
    {
        self.authority = authority;
        self.usdc_mint = usdc_mint;
        self.deck_verifier = deck_verifier;
        self.deal_verifier = deal_verifier;
        self.reveal_verifier = reveal_verifier;
        self.showdown_verifier = showdown_verifier;
        self.bet_verifier = bet_verifier;
        self.table_count = 0;
        self.is_paused = false;
        self.bump = bump;
    }

    /// Hands out the number of the next table and counts it. The counter saturates.
    pub fn next_table_id(&mut self) -> (id: u64)
        ensures
            id == old(self).table_count,
            *final(self) == (GlobalConfig {
                table_count: saturating_sum(old(self).table_count, 1),
                ..*old(self)
            }),
    {
        let id = self.table_count;
        self.table_count = self.table_count.saturating_add(1);
        id
    }
}

} // verus!
