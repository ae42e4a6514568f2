//! The course of a hand up to the first bet: start, seed exchange, hole-card
//! commitment, and the timeout that ends a hand whose player has gone silent.

use vstd::prelude::*;
use crate::constants::DECK_VERIFIER_PROGRAM_ID;
use crate::errors::{outcome, ZkPokerError};
use crate::state::hand::{BettingPhase, CardPhase, Hand, HandStage, SeedPhase, ShowdownPhase};
use crate::state::table::{opposite_seat, Table, TableStatus};
use crate::utils::hash::{bytes32_eq, keccak256, keccak_hashv};
use crate::utils::verification::{
    append_bytes,
    groth16_request,
    hole_card_inputs,
    verify_hole_card_commitments,
};

verus! {

// ---------------------------------------------------------------------------
// start
// ---------------------------------------------------------------------------

/// Why a hand cannot start, if it cannot: the caller must be seated, both seats
/// must be taken, the table must stand between hands, and each blind seat must
/// hold its blind.
pub open spec fn start_hand_error(table: Table, player: [u8; 32]) -> Option<ZkPokerError> {
    if table.spec_get_seat(&player) is None {
        Some(ZkPokerError::PlayerNotAtTable)
    } else if !table.spec_is_full() {
        Some(ZkPokerError::NotEnoughPlayers)
    } else if table.status != TableStatus::Between {
        Some(ZkPokerError::InvalidStage)
    } else if table.spec_get_chips(table.spec_small_blind_seat()) < table.small_blind {
        Some(ZkPokerError::InsufficientChips)
    } else if table.spec_get_chips(table.spec_big_blind_seat()) < table.big_blind {
        Some(ZkPokerError::InsufficientChips)
    } else {
        None
    }
}

/// The table once the blinds are posted and the hand `hand_key` is under way.
pub open spec fn start_hand_table(table: Table, hand_key: [u8; 32]) -> Table {
    let posted = table.with_removed_chips(
        table.spec_small_blind_seat(),
        table.small_blind,
    ).with_removed_chips(table.spec_big_blind_seat(), table.big_blind);
    Table { status: TableStatus::Playing, current_hand: Some(hand_key), ..posted }
}

/// The hand as it starts: a fresh hand in `SeedCommit` with both blinds in the
/// pot and on the street, and the big blind to match.
pub open spec fn start_hand_hand(table: Table, table_key: [u8; 32], now: i64, bump: u8) -> Hand {
    let sb_seat = table.spec_small_blind_seat();
    let bb_seat = table.spec_big_blind_seat();
    let sb_amount = table.removable(sb_seat, table.small_blind);
    let bb_amount = table.with_removed_chips(sb_seat, table.small_blind).removable(
        bb_seat,
        table.big_blind,
    );
    let posted = Hand::fresh(table_key, table.hands_played, now, bump).with_bet(
        sb_seat,
        sb_amount,
    ).with_bet(bb_seat, bb_amount);
    Hand { betting: BettingPhase { current_bet: bb_amount, action_on: 0, ..posted.betting }, ..posted }
}

/// Starts a hand at a full table: posts the blinds and opens the seed exchange.
/// Either seat may commit its seed first.
///
/// `table_key` and `hand_key` are the addresses of the two records, and `now` is
/// the current time.
pub fn handle_start_hand(
    table: &mut Table,
    hand: &mut Hand,
    player: &[u8; 32],
    table_key: [u8; 32],
    hand_key: [u8; 32],
    now: i64,
    bump: u8,
) -> (res: Result<(), ZkPokerError>)
    ensures
        res == outcome(start_hand_error(*old(table), *player)),
        res is Err ==> *final(table) == *old(table) && *final(hand) == *old(hand),
        res is Ok ==> *final(table) == start_hand_table(*old(table), hand_key) && *final(hand)
            == start_hand_hand(*old(table), table_key, now, bump),
        res is Ok ==> final(hand).stage == HandStage::SeedCommit,
        res is Ok && old(table).wf() ==> {
            &&& final(table).wf()
            &&& final(hand).wf()
            &&& final(hand).betting.pot == old(table).small_blind + old(table).big_blind
                || final(hand).betting.pot == u64::MAX
            &&& final(hand).betting.current_bet == old(table).big_blind
            &&& final(hand).spec_get_bet_this_street(old(table).spec_small_blind_seat())
                == old(table).small_blind
            &&& final(hand).spec_get_bet_this_street(old(table).spec_big_blind_seat())
                == old(table).big_blind
        },
{
    if table.get_seat(player).is_none() {
        return Err(ZkPokerError::PlayerNotAtTable);
    }
    if !table.is_full() {
        return Err(ZkPokerError::NotEnoughPlayers);
    }
    if table.status != TableStatus::Between {
        return Err(ZkPokerError::InvalidStage);
    }
    let sb_seat = table.small_blind_seat();
    let bb_seat = table.big_blind_seat();
    if table.get_chips(sb_seat) < table.small_blind {
        return Err(ZkPokerError::InsufficientChips);
    }
    if table.get_chips(bb_seat) < table.big_blind {
        return Err(ZkPokerError::InsufficientChips);
    }
    let hand_number = table.hands_played;
    hand.init(table_key, hand_number, now, bump);

    let small_blind = table.small_blind;
    let big_blind = table.big_blind;
    let sb_amount = table.remove_chips(sb_seat, small_blind);
    let bb_amount = table.remove_chips(bb_seat, big_blind);

    hand.add_bet(sb_seat, sb_amount);
    hand.add_bet(bb_seat, bb_amount);
    hand.betting.current_bet = bb_amount;
    hand.betting.action_on = 0;

    table.status = TableStatus::Playing;
    table.current_hand = Some(hand_key);
    Ok(())
}

// ---------------------------------------------------------------------------
// seed commitment
// ---------------------------------------------------------------------------

/// Why a seed commitment is refused, if it is: the caller must be seated, the hand
/// must be in `SeedCommit`, and the seat must not have committed before.
pub open spec fn commit_seed_error(table: Table, hand: Hand, player: [u8; 32]) -> Option<
    ZkPokerError,
> {
    match table.spec_get_seat(&player) {
        None => Some(ZkPokerError::PlayerNotAtTable),
        Some(seat) => if hand.stage != HandStage::SeedCommit {
            Some(ZkPokerError::InvalidStage)
        } else if hand.seed_committed(seat) {
            Some(ZkPokerError::SeedAlreadyCommitted)
        } else {
            None
        },
    }
}

/// The seed phase after `seat` committed to `seed_hash`.
pub open spec fn seed_committed_by(seeds: SeedPhase, seat: u8, seed_hash: [u8; 32]) -> SeedPhase {
    if seat == 0 {
        SeedPhase { seed_commit_one: seed_hash, p1_seed_committed: true, ..seeds }
    } else if seat == 1 {
        SeedPhase { seed_commit_two: seed_hash, p2_seed_committed: true, ..seeds }
    } else {
        seeds
    }
}

/// The hand after `seat` committed to `seed_hash` at time `now`: the commitment
/// is stored, and once both seats have committed the hand is in `SeedReveal`.
pub open spec fn commit_seed_hand(hand: Hand, seat: u8, seed_hash: [u8; 32], now: i64) -> Hand {
    let seeds = seed_committed_by(hand.seeds, seat, seed_hash);
    Hand {
        seeds,
        stage: if seeds.p1_seed_committed && seeds.p2_seed_committed {
            HandStage::SeedReveal
        } else {
            hand.stage
        },
        ..hand.touched(now)
    }
}

/// Stores a seat's commitment to its shuffle seed. Each seat commits once; the
/// second commitment opens the reveal.
pub fn handle_commit_seed(
    table: &Table,
    hand: &mut Hand,
    player: &[u8; 32],
    seed_hash: [u8; 32],
    now: i64,
) -> (res: Result<(), ZkPokerError>)
    ensures
        res == outcome(commit_seed_error(*table, *old(hand), *player)),
        res is Err ==> *final(hand) == *old(hand),
        res is Ok ==> *final(hand) == commit_seed_hand(
            *old(hand),
            table.spec_get_seat(player)->0,
            seed_hash,
            now,
        ),
        res is Ok ==> final(hand).seed_committed(table.spec_get_seat(player)->0),
        old(hand).stage.may_lead_to(final(hand).stage),
        old(hand).wf() ==> final(hand).wf(),
{
    let seat = match table.get_seat(player) {
        Some(seat) => seat,
        None => {
            return Err(ZkPokerError::PlayerNotAtTable);
        },
    };
    if hand.stage != HandStage::SeedCommit {
        return Err(ZkPokerError::InvalidStage);
    }
    let already_committed = if seat == 0 {
        hand.seeds.p1_seed_committed
    } else {
        hand.seeds.p2_seed_committed
    };
    if already_committed {
        return Err(ZkPokerError::SeedAlreadyCommitted);
    }
    if seat == 0 {
        hand.seeds.seed_commit_one = seed_hash;
        hand.seeds.p1_seed_committed = true;
    } else {
        hand.seeds.seed_commit_two = seed_hash;
        hand.seeds.p2_seed_committed = true;
    }
    hand.touch(now);
    if hand.seeds.p1_seed_committed && hand.seeds.p2_seed_committed {
        hand.stage = HandStage::SeedReveal;
    }
    Ok(())
}

// ---------------------------------------------------------------------------
// seed reveal
// ---------------------------------------------------------------------------

/// The seat that may reveal its seed now, or why the caller may not: the caller
/// must be seated, the hand must be in `SeedReveal`, and the seat must have
/// committed and not yet revealed.
pub open spec fn seed_reveal_seat(table: Table, hand: Hand, player: [u8; 32]) -> Result<
    u8,
    ZkPokerError,
> {
    match table.spec_get_seat(&player) {
        None => Err(ZkPokerError::PlayerNotAtTable),
        Some(seat) => if hand.stage != HandStage::SeedReveal {
            Err(ZkPokerError::InvalidStage)
        } else if !hand.seed_committed(seat) {
            Err(ZkPokerError::SeedNotCommitted)
        } else if hand.seed_revealed(seat) {
            Err(ZkPokerError::SeedAlreadyCommitted)
        } else {
            Ok(seat)
        },
    }
}

/// Why a seed reveal is refused, if it is: out of turn as `seed_reveal_seat` says,
/// or because the seed does not hash to the seat's commitment.
pub open spec fn reveal_seed_error(table: Table, hand: Hand, player: [u8; 32], seed: [u8; 32])
    -> Option<ZkPokerError> {
    match seed_reveal_seat(table, hand, player) {
        Err(e) => Some(e),
        Ok(seat) => if keccak256(seed@) != hand.seed_commitment(seat)@ {
            Some(ZkPokerError::InvalidSeedReveal)
        } else {
            None
        },
    }
}

/// The seed phase after `seat` revealed `seed`.
pub open spec fn seed_revealed_by(seeds: SeedPhase, seat: u8, seed: [u8; 32]) -> SeedPhase {
    if seat == 0 {
        SeedPhase { seed_one: seed, p1_seed_revealed: true, ..seeds }
    } else if seat == 1 {
        SeedPhase { seed_two: seed, p2_seed_revealed: true, ..seeds }
    } else {
        seeds
    }
}

/// What the deck seed is the hash of: the seed of seat 0 followed by the seed of
/// seat 1.
pub open spec fn deck_seed_preimage(seeds: SeedPhase) -> Seq<u8> {
    seeds.seed_one@ + seeds.seed_two@
}

/// The hand with `deck_seed` fixed and the card commitment open.
pub open spec fn with_deck_seed(hand: Hand, deck_seed: [u8; 32]) -> Hand {
    Hand { seeds: SeedPhase { deck_seed, ..hand.seeds }, stage: HandStage::CardCommit, ..hand }
}

/// The hand after `seat` revealed `seed` at time `now`, where `deck_seed` is the
/// hash of both seeds: the seed is stored, and once both seats have revealed, the
/// deck seed is fixed and the hand is in `CardCommit`.
pub open spec fn reveal_seed_hand(hand: Hand, seat: u8, seed: [u8; 32], now: i64, deck_seed: [u8; 32])
    -> Hand {
    let stored = Hand { seeds: seed_revealed_by(hand.seeds, seat, seed), ..hand.touched(now) };
    if stored.seeds.p1_seed_revealed && stored.seeds.p2_seed_revealed {
        with_deck_seed(stored, deck_seed)
    } else {
        stored
    }
}

/// Finds the seat of a caller who wants to reveal a seed and checks that the reveal
/// is due.
pub fn check_seed_reveal(table: &Table, hand: &Hand, player: &[u8; 32]) -> (res: Result<
    u8,
    ZkPokerError,
>)
    ensures
        res == seed_reveal_seat(*table, *hand, *player),
        res matches Ok(seat) ==> seat <= 1,
{
    let seat = match table.get_seat(player) {
        Some(seat) => seat,
        None => {
            return Err(ZkPokerError::PlayerNotAtTable);
        },
    };
    if hand.stage != HandStage::SeedReveal {
        return Err(ZkPokerError::InvalidStage);
    }
    let committed = if seat == 0 {
        hand.seeds.p1_seed_committed
    } else {
        hand.seeds.p2_seed_committed
    };
    if !committed {
        return Err(ZkPokerError::SeedNotCommitted);
    }
    let already_revealed = if seat == 0 {
        hand.seeds.p1_seed_revealed
    } else {
        hand.seeds.p2_seed_revealed
    };
    if already_revealed {
        return Err(ZkPokerError::SeedAlreadyCommitted);
    }
    Ok(seat)
}

/// Why the seed of `seat` is not stored, if it is not: the number must be a seat,
/// and `digest`, the hash of the seed, must be the commitment that the seat made.
pub open spec fn seed_digest_error(hand: Hand, seat: u8, digest: [u8; 32]) -> Option<ZkPokerError> {
    if seat > 1 {
        Some(ZkPokerError::PlayerNotAtTable)
    } else if digest@ != hand.seed_commitment(seat)@ {
        Some(ZkPokerError::InvalidSeedReveal)
    } else {
        None
    }
}

/// Stores the seed of `seat` if `digest`, the hash of the seed, is the commitment
/// that the seat made, and says whether both seeds are now revealed. A seed with
/// another hash is refused and the hand stays as it was.
pub fn apply_seed_reveal(hand: &mut Hand, seat: u8, seed: [u8; 32], digest: &[u8; 32], now: i64)
    -> (res: Result<bool, ZkPokerError>)
    ensures
        res is Ok <==> seed_digest_error(*old(hand), seat, *digest) is None,
        res matches Err(e) ==> seed_digest_error(*old(hand), seat, *digest) == Some(e) && *final(hand)
            == *old(hand),
        res matches Ok(both) ==> {
            &&& *final(hand) == (Hand {
                seeds: seed_revealed_by(old(hand).seeds, seat, seed),
                ..old(hand).touched(now)
            })
            &&& both == (final(hand).seeds.p1_seed_revealed && final(hand).seeds.p2_seed_revealed)
        },
{
    if seat > 1 {
        return Err(ZkPokerError::PlayerNotAtTable);
    }
    let matches_commitment = if seat == 0 {
        bytes32_eq(digest, &hand.seeds.seed_commit_one)
    } else {
        bytes32_eq(digest, &hand.seeds.seed_commit_two)
    };
    if !matches_commitment {
        return Err(ZkPokerError::InvalidSeedReveal);
    }
    if seat == 0 {
        hand.seeds.seed_one = seed;
        hand.seeds.p1_seed_revealed = true;
    } else {
        hand.seeds.seed_two = seed;
        hand.seeds.p2_seed_revealed = true;
    }
    hand.touch(now);
    Ok(hand.seeds.p1_seed_revealed && hand.seeds.p2_seed_revealed)
}

/// The two revealed seeds in one buffer, seat 0 first.
pub fn concat_seeds(seed_one: &[u8; 32], seed_two: &[u8; 32]) -> (both: Vec<u8>)
    ensures
        both@ == seed_one@ + seed_two@,
{
    let mut both: Vec<u8> = Vec::new();
    append_bytes(&mut both, seed_one.as_slice());
    append_bytes(&mut both, seed_two.as_slice());
    both
}

/// Fixes the deck seed and opens the card commitment.
pub fn set_deck_seed(hand: &mut Hand, deck_seed: [u8; 32])
    ensures
        *final(hand) == with_deck_seed(*old(hand), deck_seed),
{
    hand.seeds.deck_seed = deck_seed;
    hand.stage = HandStage::CardCommit;
}

/// Opens a seat's seed. The seed must hash to the commitment that the seat made;
/// one that does not is refused, and the hand, the deck seed with it, stays as it
/// was. With the second reveal the deck seed becomes the hash of both seeds, seat 0
/// first, and the hand moves on to `CardCommit`.
pub fn handle_reveal_seed(
    table: &Table,
    hand: &mut Hand,
    player: &[u8; 32],
    seed: [u8; 32],
    now: i64,
) -> (res: Result<(), ZkPokerError>)
    ensures
        res == outcome(reveal_seed_error(*table, *old(hand), *player, seed)),
        res is Err ==> *final(hand) == *old(hand),
        res is Ok ==> *final(hand) == reveal_seed_hand(
            *old(hand),
            table.spec_get_seat(player)->0,
            seed,
            now,
            final(hand).seeds.deck_seed,
        ),
        res is Ok && final(hand).stage == HandStage::CardCommit ==> final(hand).seeds.deck_seed@
            == keccak256(deck_seed_preimage(final(hand).seeds)),
        res is Ok && final(hand).stage != HandStage::CardCommit ==> final(hand).seeds.deck_seed
            == old(hand).seeds.deck_seed,
        // a seed that does not match the commitment is never accepted
        table.spec_get_seat(player) matches Some(seat) && keccak256(seed@)
            != old(hand).seed_commitment(seat)@ ==> res is Err,
        // once both seeds are revealed, the deck seed stays
        old(hand).seeds.p1_seed_revealed && old(hand).seeds.p2_seed_revealed ==> res is Err,
        old(hand).stage.may_lead_to(final(hand).stage),
        old(hand).wf() ==> final(hand).wf(),
{
    let seat = match check_seed_reveal(table, hand, player) {
        Ok(seat) => seat,
        Err(e) => {
            return Err(e);
        },
    };
    let digest = keccak_hashv(seed.as_slice());
    let both_revealed = match apply_seed_reveal(hand, seat, seed, &digest, now) {
        Ok(both) => both,
        Err(e) => {
            return Err(e);
        },
    };
    if both_revealed {
        let preimage = concat_seeds(&hand.seeds.seed_one, &hand.seeds.seed_two);
        let deck_seed = keccak_hashv(preimage.as_slice());
        set_deck_seed(hand, deck_seed);
    }
    Ok(())
}

// ---------------------------------------------------------------------------
// hole-card commitment
// ---------------------------------------------------------------------------

/// Why a hole-card commitment is refused, if it is: the caller must be seated, the
/// hand must be in `CardCommit`, the seat must not have committed before, the
/// request to the deck verifier must be well-formed, and the verifier must have
/// accepted it.
pub open spec fn commit_hole_cards_error(
    table: Table,
    hand: Hand,
    player: [u8; 32],
    verifier_program: [u8; 32],
    commitments: [[u8; 32]; 2],
    proof: Seq<u8>,
    accepted: bool,
) -> Option<ZkPokerError> {
    match table.spec_get_seat(&player) {
        None => Some(ZkPokerError::PlayerNotAtTable),
        Some(seat) => if hand.stage != HandStage::CardCommit {
            Some(ZkPokerError::InvalidStage)
        } else if hand.cards_committed(seat) {
            Some(ZkPokerError::CardsAlreadyCommitted)
        } else {
            match groth16_request(
                verifier_program,
                DECK_VERIFIER_PROGRAM_ID,
                proof,
                hole_card_inputs(hand.seeds.deck_seed, seat, commitments),
            ) {
                Err(e) => Some(e),
                Ok(_) => if !accepted {
                    Some(ZkPokerError::ProofVerificationFailed)
                } else {
                    None
                },
            }
        },
    }
}

/// The card phase after `seat` committed to its hole cards.
pub open spec fn cards_committed_by(cards: CardPhase, seat: u8, commitments: [[u8; 32]; 2])
    -> CardPhase {
    if seat == 0 {
        CardPhase { p1_hole_commits: commitments, p1_cards_committed: true, ..cards }
    } else if seat == 1 {
        CardPhase { p2_hole_commits: commitments, p2_cards_committed: true, ..cards }
    } else {
        cards
    }
}

/// The betting state at the start of the preflop round: the street is reset, the
/// blinds that were posted at the start stand as the bets on the street, the big
/// blind is the bet to match, and the small-blind seat acts first.
pub open spec fn preflop_betting(table: Table, betting: BettingPhase) -> BettingPhase {
    let sb_seat = table.spec_small_blind_seat();
    BettingPhase {
        action_on: sb_seat,
        p1_bet_this_street: if sb_seat == 0 {
            table.small_blind
        } else {
            table.big_blind
        },
        p2_bet_this_street: if sb_seat == 0 {
            table.big_blind
        } else {
            table.small_blind
        },
        current_bet: table.big_blind,
        ..betting.street_reset()
    }
}

/// The hand after `seat` committed to its hole cards at time `now`: the
/// commitments are stored, and once both seats have committed the hand is in
/// `Preflop`.
pub open spec fn commit_hole_cards_hand(
    table: Table,
    hand: Hand,
    seat: u8,
    commitments: [[u8; 32]; 2],
    now: i64,
) -> Hand {
    let stored = Hand { cards: cards_committed_by(hand.cards, seat, commitments), ..hand.touched(now) };
    if stored.cards.p1_cards_committed && stored.cards.p2_cards_committed {
        Hand {
            stage: HandStage::Preflop,
            betting: preflop_betting(table, stored.betting),
            ..stored
        }
    } else {
        stored
    }
}

/// Stores a seat's commitments to its two hole cards.
///
/// `accepted` is the answer of the deck verifier to the request that
/// `verify_hole_card_commitments` builds from the deck seed of the hand, the seat,
/// the commitments and the proof. Each seat commits once. With the second
/// commitment the hand moves to `Preflop`; the blinds are not collected again.
pub fn handle_commit_hole_cards(
    table: &Table,
    hand: &mut Hand,
    player: &[u8; 32],
    verifier_program: &[u8; 32],
    commitments: [[u8; 32]; 2],
    proof: &[u8],
    accepted: bool,
    now: i64,
) -> (res: Result<(), ZkPokerError>)
    ensures
        res == outcome(
            commit_hole_cards_error(
                *table,
                *old(hand),
                *player,
                *verifier_program,
                commitments,
                proof@,
                accepted,
            ),
        ),
        res is Err ==> *final(hand) == *old(hand),
        res is Ok ==> *final(hand) == commit_hole_cards_hand(
            *table,
            *old(hand),
            table.spec_get_seat(player)->0,
            commitments,
            now,
        ),
        // only in `CardCommit`, and never without the verifier's consent
        old(hand).stage != HandStage::CardCommit ==> res is Err,
        !accepted ==> res is Err,
        // the hand moves on exactly when both seats have committed
        res is Ok ==> (final(hand).stage == HandStage::Preflop <==> (final(hand).cards.p1_cards_committed
            && final(hand).cards.p2_cards_committed)),
        res is Ok && final(hand).stage != HandStage::Preflop ==> final(hand).stage
            == HandStage::CardCommit,
        old(hand).stage.may_lead_to(final(hand).stage),
        old(hand).wf() && table.wf() ==> final(hand).wf(),
{
    let seat = match table.get_seat(player) {
        Some(seat) => seat,
        None => {
            return Err(ZkPokerError::PlayerNotAtTable);
        },
    };
    if hand.stage != HandStage::CardCommit {
        return Err(ZkPokerError::InvalidStage);
    }
    let already_committed = if seat == 0 {
        hand.cards.p1_cards_committed
    } else {
        hand.cards.p2_cards_committed
    };
    if already_committed {
        return Err(ZkPokerError::CardsAlreadyCommitted);
    }
    match verify_hole_card_commitments(
        verifier_program,
        &hand.seeds.deck_seed,
        seat,
        &commitments,
        proof,
    ) {
        Ok(_) => {},
        Err(e) => {
            return Err(e);
        },
    }
    if !accepted {
        return Err(ZkPokerError::ProofVerificationFailed);
    }
    if seat == 0 {
        hand.cards.p1_hole_commits = commitments;
        hand.cards.p1_cards_committed = true;
    } else {
        hand.cards.p2_hole_commits = commitments;
        hand.cards.p2_cards_committed = true;
    }
    hand.touch(now);
    if hand.cards.p1_cards_committed && hand.cards.p2_cards_committed {
        hand.stage = HandStage::Preflop;
        hand.reset_street();
        let sb_seat = table.small_blind_seat();
        hand.betting.action_on = sb_seat;
        hand.betting.p1_bet_this_street = if sb_seat == 0 {
            table.small_blind
        } else {
            table.big_blind
        };
        hand.betting.p2_bet_this_street = if sb_seat == 0 {
            table.big_blind
        } else {
            table.small_blind
        };
        hand.betting.current_bet = table.big_blind;
    }
    Ok(())
}

// ---------------------------------------------------------------------------
// timeout
// ---------------------------------------------------------------------------

/// The seat that the hand is waiting for: in the commit and reveal stages the
/// first seat that has not done its part, during betting the seat to act. `None`
/// when the hand waits for nobody.
pub open spec fn awaited_seat(hand: Hand) -> Option<u8> {
    match hand.stage {
        HandStage::SeedCommit => if !hand.seeds.p1_seed_committed {
            Some(0u8)
        } else if !hand.seeds.p2_seed_committed {
            Some(1u8)
        } else {
            None
        },
        HandStage::SeedReveal => if !hand.seeds.p1_seed_revealed {
            Some(0u8)
        } else if !hand.seeds.p2_seed_revealed {
            Some(1u8)
        } else {
            None
        },
        HandStage::CardCommit => if !hand.cards.p1_cards_committed {
            Some(0u8)
        } else if !hand.cards.p2_cards_committed {
            Some(1u8)
        } else {
            None
        },
        HandStage::Preflop | HandStage::Flop | HandStage::Turn | HandStage::River => Some(
            hand.betting.action_on,
        ),
        HandStage::Showdown => if !hand.showdown.p1_revealed {
            Some(0u8)
        } else if !hand.showdown.p2_revealed {
            Some(1u8)
        } else {
            None
        },
        HandStage::Complete => None,
    }
}

/// Whether the deadline of the awaited action has passed at time `now`: more than
/// the table's timeout has gone by since the last action.
pub open spec fn deadline_passed(table: Table, hand: Hand, now: i64) -> bool {
    now - hand.betting.last_action_at > table.action_timeout
}

/// Why a timeout claim is refused, if it is: the hand must be open, the deadline
/// must have passed, and the hand must be waiting for a seat.
pub open spec fn timeout_error(table: Table, hand: Hand, now: i64) -> Option<ZkPokerError> {
    if hand.stage == HandStage::Complete {
        Some(ZkPokerError::HandAlreadyComplete)
    } else if !deadline_passed(table, hand, now) {
        Some(ZkPokerError::NoTimeout)
    } else if awaited_seat(hand) is None {
        Some(ZkPokerError::NoTimeout)
    } else {
        None
    }
}

/// The hand after `late` forfeited: the seat counts as folded, the other seat has
/// won, the pot is paid out and the hand is complete.
pub open spec fn forfeited_hand(hand: Hand, late: u8) -> Hand {
    Hand {
        stage: HandStage::Complete,
        showdown: ShowdownPhase { winner: opposite_seat(late), ..hand.showdown },
        betting: BettingPhase { pot: 0, ..hand.betting.with_folded(late) },
        ..hand
    }
}

/// The table after `late` forfeited the hand: the other seat has the whole pot
/// and the hand is closed.
pub open spec fn forfeited_table(table: Table, hand: Hand, late: u8) -> Table {
    table.with_added_chips(opposite_seat(late), hand.betting.pot).after_hand()
}

/// The seat that the hand is waiting for.
pub fn find_awaited_seat(hand: &Hand) -> (seat: Option<u8>)
    ensures
        seat == awaited_seat(*hand),
{
    match hand.stage {
        HandStage::SeedCommit => if !hand.seeds.p1_seed_committed {
            Some(0)
        } else if !hand.seeds.p2_seed_committed {
            Some(1)
        } else {
            None
        },
        HandStage::SeedReveal => if !hand.seeds.p1_seed_revealed {
            Some(0)
        } else if !hand.seeds.p2_seed_revealed {
            Some(1)
        } else {
            None
        },
        HandStage::CardCommit => if !hand.cards.p1_cards_committed {
            Some(0)
        } else if !hand.cards.p2_cards_committed {
            Some(1)
        } else {
            None
        },
        HandStage::Preflop | HandStage::Flop | HandStage::Turn | HandStage::River => Some(
            hand.betting.action_on,
        ),
        HandStage::Showdown => if !hand.showdown.p1_revealed {
            Some(0)
        } else if !hand.showdown.p2_revealed {
            Some(1)
        } else {
            None
        },
        HandStage::Complete => None,
    }
}

/// Ends a hand whose awaited seat has let the deadline pass. Anyone may call it,
/// at time `now`. The late seat forfeits: the other seat wins the whole pot and the
/// hand is complete.
pub fn handle_timeout(table: &mut Table, hand: &mut Hand, now: i64) -> (res: Result<
    (),
    ZkPokerError,
>)
    ensures
        res == outcome(timeout_error(*old(table), *old(hand), now)),
        res is Err ==> *final(table) == *old(table) && *final(hand) == *old(hand),
        res is Ok ==> *final(hand) == forfeited_hand(*old(hand), awaited_seat(*old(hand))->0)
            && *final(table) == forfeited_table(
            *old(table),
            *old(hand),
            awaited_seat(*old(hand))->0,
        ),
        res is Ok ==> final(hand).stage == HandStage::Complete && final(hand).betting.pot == 0,
        old(hand).stage.may_lead_to(final(hand).stage),
        old(hand).wf() ==> final(hand).wf(),
        old(table).wf() ==> final(table).wf(),
{
    if hand.stage == HandStage::Complete {
        return Err(ZkPokerError::HandAlreadyComplete);
    }
    let elapsed: i128 = now as i128 - hand.betting.last_action_at as i128;
    if !(elapsed > table.action_timeout as i128) {
        return Err(ZkPokerError::NoTimeout);
    }
    let timed_out_seat = match find_awaited_seat(hand) {
        Some(seat) => seat,
        None => {
            return Err(ZkPokerError::NoTimeout);
        },
    };
    let winner_seat = hand.other_seat(timed_out_seat);
    hand.showdown.winner = winner_seat;
    hand.set_folded(timed_out_seat);

    table.add_chips(winner_seat, hand.betting.pot);
    hand.betting.pot = 0;

    hand.stage = HandStage::Complete;
    table.finish_hand();
    Ok(())
}

} // verus!
