//! Every way an operation on a table, a hand or a proof buffer can be refused.

use vstd::prelude::*;

verus! {

/// A refused operation. No refusal leaves a record changed.
#[derive(Clone, Copy, PartialEq, Eq, Debug, Structural)]
pub enum ZkPokerError {
    // Table
    /// Both seats are taken.
    TableFull,
    /// A hand needs both seats taken.
    NotEnoughPlayers,
    /// The caller holds no seat at this table.
    PlayerNotAtTable,
    /// The buy-in is outside the table's limits.
    InvalidBuyIn,
    /// Seats cannot change while a hand is played.
    HandInProgress,
    /// The caller already holds a seat.
    PlayerAlreadyAtTable,
    /// Blinds or buy-in limits are inconsistent.
    InvalidTableConfig,
    // Hand
    /// The action belongs to the other seat.
    NotYourTurn,
    /// The hand is not in the stage that the operation needs.
    InvalidStage,
    /// The seat has already committed (or revealed) its seed.
    SeedAlreadyCommitted,
    /// The seat has not committed a seed yet.
    SeedNotCommitted,
    /// The revealed seed does not hash to the stored commitment.
    InvalidSeedReveal,
    /// The seat has already committed its hole cards.
    CardsAlreadyCommitted,
    /// The seat has not committed its hole cards yet.
    CardsNotCommitted,
    /// No such hand.
    HandNotFound,
    /// The hand is over.
    HandAlreadyComplete,
    // Betting
    /// The amount is not allowed here.
    InvalidBetAmount,
    /// The stack does not cover the amount.
    InsufficientChips,
    /// A bet is outstanding: call, raise or fold.
    CannotCheck,
    /// The raise is below the minimum increment.
    RaiseTooSmall,
    /// The seat has folded.
    AlreadyFolded,
    /// The seat is all-in.
    AlreadyAllIn,
    /// An opening bet must be at least the big blind.
    BetTooSmall,
    // Proofs
    /// The verifier rejected the proof, or the wrong verifier was named.
    ProofVerificationFailed,
    /// The proof does not have the length of a Groth16 proof.
    InvalidProofFormat,
    /// The commitment is malformed.
    InvalidCommitment,
    /// A card index is outside the deck.
    InvalidCardIndex,
    /// The hand rank is malformed.
    InvalidHandRank,
    // Timeout
    /// The action came too late.
    ActionTimedOut,
    /// The deadline has not passed, or nobody is late.
    NoTimeout,
    /// The timeout is outside the allowed range.
    InvalidTimeoutConfig,
    // Community cards
    /// The flop is already on the table.
    FlopAlreadyRevealed,
    /// The turn is already on the table.
    TurnAlreadyRevealed,
    /// The river is already on the table.
    RiverAlreadyRevealed,
    /// The preceding street has not been revealed.
    RevealOutOfOrder,
    /// The seat has already shown its hand.
    HandAlreadyRevealed,
    // Showdown
    /// No winner has been determined.
    ShowdownNotReady,
    /// The caller did not win the pot.
    NotTheWinner,
    /// The pot has been paid out.
    PotAlreadyClaimed,
    /// Both seats must show their hands first.
    PlayersNotRevealed,
    // Protocol
    /// The protocol is paused.
    GamePaused,
    /// The caller lacks the authority.
    Unauthorized,
    /// The token mint is not the configured one.
    InvalidMint,
    /// A balance would overflow.
    ArithmeticOverflow,
    // Proof buffers
    /// The proof purpose is unknown.
    InvalidProofType,
    /// The buffer is complete and takes no more data.
    BufferAlreadyComplete,
    /// The buffer is not complete yet.
    BufferNotComplete,
    /// The buffer belongs to another hand or purpose.
    BufferMismatch,
}

/// The result of an operation that is refused with `error`, or carried out if there
/// is none.
pub open spec fn outcome(error: Option<ZkPokerError>) -> Result<(), ZkPokerError> {
    match error {
        Some(e) => Err(e),
        None => Ok(()),
    }
}

} // verus!
