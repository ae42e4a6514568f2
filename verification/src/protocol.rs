//! The hand as a state machine, and what holds of every hand that is played.
//!
//! Each operation on a hand in play is an [`Action`]. [`step`] says what one action
//! does to a table and its hand, in terms of the functions that specify the
//! operations themselves, and [`run`] plays a sequence of actions. The theorems are
//! about every sequence of actions, accepted or refused, in any order.

use vstd::prelude::*;
use crate::errors::ZkPokerError;
use crate::instructions::betting::{
    all_in_applied,
    all_in_error,
    all_in_total,
    bet_applied,
    bet_error,
    call_amount,
    call_applied,
    call_error,
    check_applied,
    check_error,
    fold_applied,
    fold_error,
    raise_increment,
    raise_to_applied,
    raise_to_error,
    settled_hand,
    settled_table,
};
use crate::instructions::community::{
    reveal_flop_error,
    reveal_flop_hand,
    reveal_river_error,
    reveal_river_hand,
    reveal_turn_error,
    reveal_turn_hand,
};
use crate::instructions::hand::{
    awaited_seat,
    commit_hole_cards_error,
    commit_hole_cards_hand,
    commit_seed_error,
    commit_seed_hand,
    forfeited_hand,
    forfeited_table,
    reveal_seed_error,
    reveal_seed_hand,
    start_hand_error,
    start_hand_hand,
    start_hand_table,
    timeout_error,
};
use crate::instructions::showdown::{
    claim_pot_error,
    claim_pot_hand,
    claim_pot_table,
    reveal_hand_error,
    reveal_hand_hand,
};
use crate::state::hand::{Hand, HandStage};
use crate::state::table::Table;

verus! {

/// One operation on a hand in play, with everything that it is called with.
pub enum Action {
    /// `handle_commit_seed`.
    CommitSeed { player: [u8; 32], seed_hash: [u8; 32] },
    /// `handle_reveal_seed`; `deck_seed` is the hash of both seeds, which becomes
    /// the deck seed if this reveal is the second.
    RevealSeed { player: [u8; 32], seed: [u8; 32], deck_seed: [u8; 32] },
    /// `handle_commit_hole_cards`.
    CommitHoleCards {
        player: [u8; 32],
        verifier_program: [u8; 32],
        commitments: [[u8; 32]; 2],
        proof: Seq<u8>,
        accepted: bool,
    },
    /// `handle_check`.
    Check { player: [u8; 32] },
    /// `handle_bet`.
    Bet { player: [u8; 32], amount: u64 },
    /// `handle_call`.
    Call { player: [u8; 32] },
    /// `handle_raise_to`.
    RaiseTo { player: [u8; 32], amount: u64 },
    /// `handle_fold`.
    Fold { player: [u8; 32] },
    /// `handle_all_in`.
    AllIn { player: [u8; 32] },
    /// `handle_reveal_flop`, with the state of the proof buffer.
    RevealFlop {
        player: [u8; 32],
        verifier_program: [u8; 32],
        buffer_complete: bool,
        proof: Seq<u8>,
        cards: [u8; 3],
        accepted: bool,
    },
    /// `handle_reveal_turn`, with the state of the proof buffer.
    RevealTurn {
        player: [u8; 32],
        verifier_program: [u8; 32],
        buffer_complete: bool,
        proof: Seq<u8>,
        card: u8,
        accepted: bool,
    },
    /// `handle_reveal_river`, with the state of the proof buffer.
    RevealRiver {
        player: [u8; 32],
        verifier_program: [u8; 32],
        buffer_complete: bool,
        proof: Seq<u8>,
        card: u8,
        accepted: bool,
    },
    /// `handle_reveal_hand`.
    RevealHand {
        player: [u8; 32],
        verifier_program: [u8; 32],
        hand_rank: u64,
        proof: Seq<u8>,
        accepted: bool,
    },
    /// `handle_claim_pot`.
    ClaimPot { player: [u8; 32] },
    /// `handle_timeout`.
    Timeout,
}

/// An action and the time at which it is taken.
pub struct Move {
    pub action: Action,
    pub now: i64,
}

/// Why `action` is refused at time `now`, if it is.
pub open spec fn step_error(table: Table, hand: Hand, action: Action, now: i64) -> Option<
    ZkPokerError,
> {
    match action {
        Action::CommitSeed { player, seed_hash } => commit_seed_error(table, hand, player),
        Action::RevealSeed { player, seed, deck_seed } => reveal_seed_error(
            table,
            hand,
            player,
            seed,
        ),
        Action::CommitHoleCards { player, verifier_program, commitments, proof, accepted } =>
            commit_hole_cards_error(
            table,
            hand,
            player,
            verifier_program,
            commitments,
            proof,
            accepted,
        ),
        Action::Check { player } => check_error(table, hand, player),
        Action::Bet { player, amount } => bet_error(table, hand, player, amount),
        Action::Call { player } => call_error(table, hand, player),
        Action::RaiseTo { player, amount } => raise_to_error(table, hand, player, amount),
        Action::Fold { player } => fold_error(table, hand, player),
        Action::AllIn { player } => all_in_error(table, hand, player),
        Action::RevealFlop { player, verifier_program, buffer_complete, proof, cards, accepted } =>
            reveal_flop_error(
            table,
            hand,
            player,
            verifier_program,
            buffer_complete,
            proof,
            cards,
            accepted,
        ),
        Action::RevealTurn { player, verifier_program, buffer_complete, proof, card, accepted } =>
            reveal_turn_error(
            table,
            hand,
            player,
            verifier_program,
            buffer_complete,
            proof,
            card,
            accepted,
        ),
        Action::RevealRiver { player, verifier_program, buffer_complete, proof, card, accepted } =>
            reveal_river_error(
            table,
            hand,
            player,
            verifier_program,
            buffer_complete,
            proof,
            card,
            accepted,
        ),
        Action::RevealHand { player, verifier_program, hand_rank, proof, accepted } =>
            reveal_hand_error(table, hand, player, verifier_program, hand_rank, proof, accepted),
        Action::ClaimPot { player } => claim_pot_error(table, hand, player),
        Action::Timeout => timeout_error(table, hand, now),
    }
}

/// The table and the hand after `action` was carried out at time `now`. Says
/// nothing of an action that is refused.
pub open spec fn step_done(table: Table, hand: Hand, action: Action, now: i64) -> (Table, Hand) {
    match action {
        Action::CommitSeed { player, seed_hash } => (
            table,
            commit_seed_hand(hand, table.spec_get_seat(&player)->0, seed_hash, now),
        ),
        Action::RevealSeed { player, seed, deck_seed } => (
            table,
            reveal_seed_hand(hand, table.spec_get_seat(&player)->0, seed, now, deck_seed),
        ),
        Action::CommitHoleCards { player, verifier_program, commitments, proof, accepted } => (
            table,
            commit_hole_cards_hand(table, hand, table.spec_get_seat(&player)->0, commitments, now),
        ),
        Action::Check { player } => {
            let applied = check_applied(hand, table.spec_get_seat(&player)->0, now);
            (settled_table(table, applied), settled_hand(table, applied))
        },
        Action::Bet { player, amount } => {
            let seat = table.spec_get_seat(&player)->0;
            let applied = bet_applied(table, hand, seat, amount, now);
            let debited = table.with_removed_chips(seat, amount);
            (settled_table(debited, applied), settled_hand(debited, applied))
        },
        Action::Call { player } => {
            let seat = table.spec_get_seat(&player)->0;
            let applied = call_applied(table, hand, seat, now);
            let debited = table.with_removed_chips(seat, call_amount(table, hand, seat));
            (settled_table(debited, applied), settled_hand(debited, applied))
        },
        Action::RaiseTo { player, amount } => {
            let seat = table.spec_get_seat(&player)->0;
            let applied = raise_to_applied(table, hand, seat, amount, now);
            let debited = table.with_removed_chips(seat, raise_increment(hand, seat, amount));
            (settled_table(debited, applied), settled_hand(debited, applied))
        },
        Action::Fold { player } => {
            let applied = fold_applied(hand, table.spec_get_seat(&player)->0, now);
            (settled_table(table, applied), settled_hand(table, applied))
        },
        Action::AllIn { player } => {
            let seat = table.spec_get_seat(&player)->0;
            let applied = all_in_applied(table, hand, seat, now);
            let debited = table.with_chips(seat, 0);
            (settled_table(debited, applied), settled_hand(debited, applied))
        },
        Action::RevealFlop { player, verifier_program, buffer_complete, proof, cards, accepted } => (
            table,
            reveal_flop_hand(hand, cards, now),
        ),
        Action::RevealTurn { player, verifier_program, buffer_complete, proof, card, accepted } => (
            table,
            reveal_turn_hand(hand, card, now),
        ),
        Action::RevealRiver { player, verifier_program, buffer_complete, proof, card, accepted } => (
            table,
            reveal_river_hand(hand, card, now),
        ),
        Action::RevealHand { player, verifier_program, hand_rank, proof, accepted } => (
            table,
            reveal_hand_hand(hand, table.spec_get_seat(&player)->0, hand_rank, now),
        ),
        Action::ClaimPot { player } => (claim_pot_table(table, hand), claim_pot_hand(hand)),
        Action::Timeout => (
            forfeited_table(table, hand, awaited_seat(hand)->0),
            forfeited_hand(hand, awaited_seat(hand)->0),
        ),
    }
}

/// The table and the hand after `action` was tried at time `now`: changed as
/// `step_done` says if the action is carried out, and as they were if it is
/// refused.
pub open spec fn step(table: Table, hand: Hand, action: Action, now: i64) -> (Table, Hand) {
    if step_error(table, hand, action, now) is Some {
        (table, hand)
    } else {
        step_done(table, hand, action, now)
    }
}

/// The table and the hand after all of `moves` were tried, one after the other.
pub open spec fn run(table: Table, hand: Hand, moves: Seq<Move>) -> (Table, Hand)
    decreases moves.len(),
{
    if moves.len() == 0 {
        (table, hand)
    } else {
        let before = run(table, hand, moves.drop_last());
        step(before.0, before.1, moves.last().action, moves.last().now)
    }
}

// ---------------------------------------------------------------------------
// what one step keeps
// ---------------------------------------------------------------------------

/// All chips of a table and its hand: the two stacks and the pot.
pub open spec fn chips_in_play(table: Table, hand: Hand) -> int {
    table.player_one_chips + table.player_two_chips + hand.betting.pot
}

/// While the hand is open, the pot is exactly what the two seats have bet.
pub open spec fn pot_is_exact(hand: Hand) -> bool {
    hand.stage != HandStage::Complete ==> hand.betting.pot == hand.betting.p1_total_bet
        + hand.betting.p2_total_bet
}

/// What a seat has done in `before` is still done in `after`: seed commitments,
/// seed reveals, hole-card commitments, shown hands and the claim of the pot.
pub open spec fn record_kept(before: Hand, after: Hand) -> bool {
    &&& before.seeds.p1_seed_committed ==> after.seeds.p1_seed_committed
    &&& before.seeds.p2_seed_committed ==> after.seeds.p2_seed_committed
    &&& before.seeds.p1_seed_revealed ==> after.seeds.p1_seed_revealed
    &&& before.seeds.p2_seed_revealed ==> after.seeds.p2_seed_revealed
    &&& before.cards.p1_cards_committed ==> after.cards.p1_cards_committed
    &&& before.cards.p2_cards_committed ==> after.cards.p2_cards_committed
    &&& before.showdown.p1_revealed ==> after.showdown.p1_revealed
    &&& before.showdown.p2_revealed ==> after.showdown.p2_revealed
    &&& before.showdown.pot_claimed ==> after.showdown.pot_claimed
}

/// The change from `table` and `hand` to `after_table` and `after` is one that the
/// protocol allows, in one step or in many: sound records stay sound; the hand
/// never goes back to an earlier stage; nobody changes seats; what was done stays
/// done; the deck seed stays once both seeds are revealed; and as long as a `u64`
/// can hold all chips in play, none is made or lost and the pot of an open hand is
/// exactly what was bet.
pub open spec fn lawful(table: Table, hand: Hand, after_table: Table, after: Hand) -> bool {
    &&& table.wf() && hand.wf() ==> after_table.wf() && after.wf()
    &&& hand.stage.rank() <= after.stage.rank()
    &&& after_table.player_one == table.player_one
    &&& after_table.player_two == table.player_two
    &&& record_kept(hand, after)
    &&& hand.seeds.p1_seed_revealed && hand.seeds.p2_seed_revealed ==> after.seeds.deck_seed
        == hand.seeds.deck_seed
    &&& table.wf() && hand.wf() && pot_is_exact(hand) && chips_in_play(table, hand) <= u64::MAX
        ==> pot_is_exact(after) && chips_in_play(after_table, after) == chips_in_play(table, hand)
}

/// The hand has entered a stage only with what the stage needs: the seed reveal
/// with both seeds committed, the card commitment with both seeds revealed, and
/// the first betting round with the hole cards of both seats committed.
pub open spec fn gates_kept(before: Hand, after: Hand) -> bool {
    &&& before.stage == HandStage::SeedCommit && after.stage == HandStage::SeedReveal
        ==> after.seeds.p1_seed_committed && after.seeds.p2_seed_committed
    &&& before.stage == HandStage::SeedReveal && after.stage == HandStage::CardCommit
        ==> after.seeds.p1_seed_revealed && after.seeds.p2_seed_revealed
    &&& before.stage == HandStage::CardCommit && after.stage == HandStage::Preflop
        ==> after.cards.p1_cards_committed && after.cards.p2_cards_committed
}

/// A lawful change that moves the hand by one stage at most, unless it ends it,
/// and that enters a stage only with what the stage needs.
pub open spec fn lawful_step(table: Table, hand: Hand, after_table: Table, after: Hand) -> bool {
    &&& lawful(table, hand, after_table, after)
    &&& hand.stage.may_lead_to(after.stage)
    &&& gates_kept(hand, after)
}

proof fn lemma_commit_seed_lawful(table: Table, hand: Hand, player: [u8; 32], seed_hash: [u8; 32], now: i64)
    requires
        commit_seed_error(table, hand, player) is None,
    ensures
        lawful_step(
            table,
            hand,
            table,
            commit_seed_hand(hand, table.spec_get_seat(&player)->0, seed_hash, now),
        ),
{
}

proof fn lemma_reveal_seed_lawful(
    table: Table,
    hand: Hand,
    player: [u8; 32],
    seed: [u8; 32],
    deck_seed: [u8; 32],
    now: i64,
)
    requires
        reveal_seed_error(table, hand, player, seed) is None,
    ensures
        lawful_step(
            table,
            hand,
            table,
            reveal_seed_hand(hand, table.spec_get_seat(&player)->0, seed, now, deck_seed),
        ),
{
}

proof fn lemma_commit_hole_cards_lawful(
    table: Table,
    hand: Hand,
    player: [u8; 32],
    verifier_program: [u8; 32],
    commitments: [[u8; 32]; 2],
    proof: Seq<u8>,
    accepted: bool,
    now: i64,
)
    requires
        commit_hole_cards_error(table, hand, player, verifier_program, commitments, proof, accepted)
            is None,
    ensures
        lawful_step(
            table,
            hand,
            table,
            commit_hole_cards_hand(table, hand, table.spec_get_seat(&player)->0, commitments, now),
        ),
{
}

proof fn lemma_check_lawful(table: Table, hand: Hand, player: [u8; 32], now: i64)
    requires
        check_error(table, hand, player) is None,
    ensures
        ({
            let applied = check_applied(hand, table.spec_get_seat(&player)->0, now);
            lawful_step(table, hand, settled_table(table, applied), settled_hand(table, applied))
        }),
{
    let applied = check_applied(hand, table.spec_get_seat(&player)->0, now);
    let after_table = settled_table(table, applied);
    let after = settled_hand(table, applied);
    // by cases on the seat
    if table.spec_get_seat(&player)->0 == 0 {
        assert(lawful_step(table, hand, after_table, after));
    } else {
        assert(lawful_step(table, hand, after_table, after));
    }
}

proof fn lemma_bet_lawful(table: Table, hand: Hand, player: [u8; 32], amount: u64, now: i64)
    requires
        bet_error(table, hand, player, amount) is None,
    ensures
        ({
            let seat = table.spec_get_seat(&player)->0;
            let applied = bet_applied(table, hand, seat, amount, now);
            let debited = table.with_removed_chips(seat, amount);
            lawful_step(table, hand, settled_table(debited, applied), settled_hand(debited, applied))
        }),
{
    let seat = table.spec_get_seat(&player)->0;
    let applied = bet_applied(table, hand, seat, amount, now);
    let debited = table.with_removed_chips(seat, amount);
    let after_table = settled_table(debited, applied);
    let after = settled_hand(debited, applied);
    // by cases on the seat
    if table.spec_get_seat(&player)->0 == 0 {
        assert(lawful_step(table, hand, after_table, after));
    } else {
        assert(lawful_step(table, hand, after_table, after));
    }
}

proof fn lemma_call_lawful(table: Table, hand: Hand, player: [u8; 32], now: i64)
    requires
        call_error(table, hand, player) is None,
    ensures
        ({
            let seat = table.spec_get_seat(&player)->0;
            let applied = call_applied(table, hand, seat, now);
            let debited = table.with_removed_chips(seat, call_amount(table, hand, seat));
            lawful_step(table, hand, settled_table(debited, applied), settled_hand(debited, applied))
        }),
{
    let seat = table.spec_get_seat(&player)->0;
    let applied = call_applied(table, hand, seat, now);
    let debited = table.with_removed_chips(seat, call_amount(table, hand, seat));
    let after_table = settled_table(debited, applied);
    let after = settled_hand(debited, applied);
    // by cases on the seat
    if table.spec_get_seat(&player)->0 == 0 {
        assert(lawful_step(table, hand, after_table, after));
    } else {
        assert(lawful_step(table, hand, after_table, after));
    }
}

proof fn lemma_raise_to_lawful(table: Table, hand: Hand, player: [u8; 32], amount: u64, now: i64)
    requires
        raise_to_error(table, hand, player, amount) is None,
    ensures
        ({
            let seat = table.spec_get_seat(&player)->0;
            let applied = raise_to_applied(table, hand, seat, amount, now);
            let debited = table.with_removed_chips(seat, raise_increment(hand, seat, amount));
            lawful_step(table, hand, settled_table(debited, applied), settled_hand(debited, applied))
        }),
{
    let seat = table.spec_get_seat(&player)->0;
    let applied = raise_to_applied(table, hand, seat, amount, now);
    let debited = table.with_removed_chips(seat, raise_increment(hand, seat, amount));
    // by cases on the seat
    if seat == 0 {
        assert(lawful_step(table, hand, settled_table(debited, applied), settled_hand(debited, applied)));
    } else {
        assert(lawful_step(table, hand, settled_table(debited, applied), settled_hand(debited, applied)));
    }
}

proof fn lemma_fold_lawful(table: Table, hand: Hand, player: [u8; 32], now: i64)
    requires
        fold_error(table, hand, player) is None,
    ensures
        ({
            let applied = fold_applied(hand, table.spec_get_seat(&player)->0, now);
            lawful_step(table, hand, settled_table(table, applied), settled_hand(table, applied))
        }),
{
    let applied = fold_applied(hand, table.spec_get_seat(&player)->0, now);
    let after_table = settled_table(table, applied);
    let after = settled_hand(table, applied);
    // by cases on the seat
    if table.spec_get_seat(&player)->0 == 0 {
        assert(lawful_step(table, hand, after_table, after));
    } else {
        assert(lawful_step(table, hand, after_table, after));
    }
}

proof fn lemma_all_in_lawful(table: Table, hand: Hand, player: [u8; 32], now: i64)
    requires
        all_in_error(table, hand, player) is None,
    ensures
        ({
            let seat = table.spec_get_seat(&player)->0;
            let applied = all_in_applied(table, hand, seat, now);
            let debited = table.with_chips(seat, 0);
            lawful_step(table, hand, settled_table(debited, applied), settled_hand(debited, applied))
        }),
{
    let seat = table.spec_get_seat(&player)->0;
    let applied = all_in_applied(table, hand, seat, now);
    let debited = table.with_chips(seat, 0);
    let raising = all_in_total(table, hand, seat) > hand.betting.current_bet;
    // by cases on the seat and on whether the all-in raises
    if seat == 0 {
        if raising {
            assert(lawful_step(table, hand, settled_table(debited, applied), settled_hand(debited, applied)));
        } else {
            assert(lawful_step(table, hand, settled_table(debited, applied), settled_hand(debited, applied)));
        }
    } else {
        if raising {
            assert(lawful_step(table, hand, settled_table(debited, applied), settled_hand(debited, applied)));
        } else {
            assert(lawful_step(table, hand, settled_table(debited, applied), settled_hand(debited, applied)));
        }
    }
}

proof fn lemma_reveal_flop_lawful(
    table: Table,
    hand: Hand,
    player: [u8; 32],
    verifier_program: [u8; 32],
    buffer_complete: bool,
    proof: Seq<u8>,
    cards: [u8; 3],
    accepted: bool,
    now: i64,
)
    requires
        reveal_flop_error(
            table,
            hand,
            player,
            verifier_program,
            buffer_complete,
            proof,
            cards,
            accepted,
        ) is None,
    ensures
        lawful_step(table, hand, table, reveal_flop_hand(hand, cards, now)),
{
}

proof fn lemma_reveal_turn_lawful(
    table: Table,
    hand: Hand,
    player: [u8; 32],
    verifier_program: [u8; 32],
    buffer_complete: bool,
    proof: Seq<u8>,
    card: u8,
    accepted: bool,
    now: i64,
)
    requires
        reveal_turn_error(
            table,
            hand,
            player,
            verifier_program,
            buffer_complete,
            proof,
            card,
            accepted,
        ) is None,
    ensures
        lawful_step(table, hand, table, reveal_turn_hand(hand, card, now)),
{
    assert(seq![card][0] == card);
}

proof fn lemma_reveal_river_lawful(
    table: Table,
    hand: Hand,
    player: [u8; 32],
    verifier_program: [u8; 32],
    buffer_complete: bool,
    proof: Seq<u8>,
    card: u8,
    accepted: bool,
    now: i64,
)
    requires
        reveal_river_error(
            table,
            hand,
            player,
            verifier_program,
            buffer_complete,
            proof,
            card,
            accepted,
        ) is None,
    ensures
        lawful_step(table, hand, table, reveal_river_hand(hand, card, now)),
{
    assert(seq![card][0] == card);
}

proof fn lemma_reveal_hand_lawful(
    table: Table,
    hand: Hand,
    player: [u8; 32],
    verifier_program: [u8; 32],
    hand_rank: u64,
    proof: Seq<u8>,
    accepted: bool,
    now: i64,
)
    requires
        reveal_hand_error(table, hand, player, verifier_program, hand_rank, proof, accepted)
            is None,
    ensures
        lawful_step(
            table,
            hand,
            table,
            reveal_hand_hand(hand, table.spec_get_seat(&player)->0, hand_rank, now),
        ),
{
}

proof fn lemma_claim_pot_lawful(table: Table, hand: Hand, player: [u8; 32])
    requires
        claim_pot_error(table, hand, player) is None,
    ensures
        lawful_step(table, hand, claim_pot_table(table, hand), claim_pot_hand(hand)),
{
}

proof fn lemma_timeout_lawful(table: Table, hand: Hand, now: i64)
    requires
        timeout_error(table, hand, now) is None,
    ensures
        lawful_step(
            table,
            hand,
            forfeited_table(table, hand, awaited_seat(hand)->0),
            forfeited_hand(hand, awaited_seat(hand)->0),
        ),
{
}

/// Every step is lawful, whether the action is carried out or refused.
pub proof fn theorem_step_is_lawful(table: Table, hand: Hand, action: Action, now: i64)
    ensures
        lawful_step(table, hand, step(table, hand, action, now).0, step(table, hand, action, now).1),
{
    if step_error(table, hand, action, now) is None {
        match action {
            Action::CommitSeed { player, seed_hash } => {
                lemma_commit_seed_lawful(table, hand, player, seed_hash, now);
            },
            Action::RevealSeed { player, seed, deck_seed } => {
                lemma_reveal_seed_lawful(table, hand, player, seed, deck_seed, now);
            },
            Action::CommitHoleCards { player, verifier_program, commitments, proof, accepted } => {
                lemma_commit_hole_cards_lawful(
                    table,
                    hand,
                    player,
                    verifier_program,
                    commitments,
                    proof,
                    accepted,
                    now,
                );
            },
            Action::Check { player } => {
                lemma_check_lawful(table, hand, player, now);
            },
            Action::Bet { player, amount } => {
                lemma_bet_lawful(table, hand, player, amount, now);
            },
            Action::Call { player } => {
                lemma_call_lawful(table, hand, player, now);
            },
            Action::RaiseTo { player, amount } => {
                lemma_raise_to_lawful(table, hand, player, amount, now);
            },
            Action::Fold { player } => {
                lemma_fold_lawful(table, hand, player, now);
            },
            Action::AllIn { player } => {
                lemma_all_in_lawful(table, hand, player, now);
            },
            Action::RevealFlop {
                player,
                verifier_program,
                buffer_complete,
                proof,
                cards,
                accepted,
            } => {
                lemma_reveal_flop_lawful(
                    table,
                    hand,
                    player,
                    verifier_program,
                    buffer_complete,
                    proof,
                    cards,
                    accepted,
                    now,
                );
            },
            Action::RevealTurn {
                player,
                verifier_program,
                buffer_complete,
                proof,
                card,
                accepted,
            } => {
                lemma_reveal_turn_lawful(
                    table,
                    hand,
                    player,
                    verifier_program,
                    buffer_complete,
                    proof,
                    card,
                    accepted,
                    now,
                );
            },
            Action::RevealRiver {
                player,
                verifier_program,
                buffer_complete,
                proof,
                card,
                accepted,
            } => {
                lemma_reveal_river_lawful(
                    table,
                    hand,
                    player,
                    verifier_program,
                    buffer_complete,
                    proof,
                    card,
                    accepted,
                    now,
                );
            },
            Action::RevealHand { player, verifier_program, hand_rank, proof, accepted } => {
                lemma_reveal_hand_lawful(
                    table,
                    hand,
                    player,
                    verifier_program,
                    hand_rank,
                    proof,
                    accepted,
                    now,
                );
            },
            Action::ClaimPot { player } => {
                lemma_claim_pot_lawful(table, hand, player);
            },
            Action::Timeout => {
                lemma_timeout_lawful(table, hand, now);
            },
        }
    }
}

// ---------------------------------------------------------------------------
// every hand
// ---------------------------------------------------------------------------

/// Stages are passed in order, without cycles and without skipping: after any
/// action the hand is in the stage it was in, in the one that follows it, or
/// complete; and a complete hand stays complete.
pub proof fn theorem_stage_order(table: Table, hand: Hand, action: Action, now: i64)
    ensures
        hand.stage.may_lead_to(step(table, hand, action, now).1.stage),
        hand.stage == HandStage::Complete ==> step(table, hand, action, now).1.stage
            == HandStage::Complete,
{
    theorem_step_is_lawful(table, hand, action, now);
}

/// No stage is entered early: whatever is tried, the hand moves on to the seed
/// reveal only when both seats have committed a seed, to the card commitment only
/// when both have revealed theirs, and to the first betting round only when both
/// have committed their hole cards, never after one.
pub proof fn theorem_stage_gates(table: Table, hand: Hand, action: Action, now: i64)
    ensures
        gates_kept(hand, step(table, hand, action, now).1),
{
    theorem_step_is_lawful(table, hand, action, now);
}

/// Whatever is tried on a table and its hand, in whatever order, the change is
/// lawful.
pub proof fn theorem_run_is_lawful(table: Table, hand: Hand, moves: Seq<Move>)
    ensures
        lawful(table, hand, run(table, hand, moves).0, run(table, hand, moves).1),
    decreases moves.len(),
{
    if moves.len() > 0 {
        let before = run(table, hand, moves.drop_last());
        theorem_run_is_lawful(table, hand, moves.drop_last());
        theorem_step_is_lawful(before.0, before.1, moves.last().action, moves.last().now);
    }
}

/// A hand starts sound, with both blinds in the pot and nothing made or lost.
pub proof fn theorem_start_is_sound(
    table: Table,
    player: [u8; 32],
    table_key: [u8; 32],
    hand_key: [u8; 32],
    started_at: i64,
    bump: u8,
)
    requires
        table.wf(),
        start_hand_error(table, player) is None,
    ensures
        start_hand_table(table, hand_key).wf(),
        start_hand_hand(table, table_key, started_at, bump).wf(),
        table.player_one_chips + table.player_two_chips <= u64::MAX ==> {
            &&& pot_is_exact(start_hand_hand(table, table_key, started_at, bump))
            &&& chips_in_play(
                start_hand_table(table, hand_key),
                start_hand_hand(table, table_key, started_at, bump),
            ) == table.player_one_chips + table.player_two_chips
        },
{
}

/// Every hand stays sound from its start to its end: after any sequence of
/// actions on a hand that was started at a sound table, the invariants of the
/// table and of the hand hold. In particular the pot of the open hand matches what
/// the two seats have bet, and the pot of a complete hand has been paid out.
pub proof fn theorem_hand_stays_sound(
    table: Table,
    player: [u8; 32],
    table_key: [u8; 32],
    hand_key: [u8; 32],
    started_at: i64,
    bump: u8,
    moves: Seq<Move>,
)
    requires
        table.wf(),
        start_hand_error(table, player) is None,
    ensures
        ({
            let end = run(
                start_hand_table(table, hand_key),
                start_hand_hand(table, table_key, started_at, bump),
                moves,
            );
            &&& end.0.wf()
            &&& end.1.wf()
            &&& end.1.pot_matches_bets()
        }),
{
    theorem_start_is_sound(table, player, table_key, hand_key, started_at, bump);
    theorem_run_is_lawful(
        start_hand_table(table, hand_key),
        start_hand_hand(table, table_key, started_at, bump),
        moves,
    );
}

/// In every hand the pot is the sum of what the two seats have bet, until it is
/// paid out, and no chip is made or lost: after any sequence of actions on a hand
/// that was started at a sound table, the pot of the open hand equals the two
/// totals, and the two stacks and the pot together are what the two stacks were
/// before the hand. This holds of every table whose two stacks together fit a
/// `u64`; beyond that the counters stop at the greatest `u64`.
pub proof fn theorem_pot_is_sum_of_bets(
    table: Table,
    player: [u8; 32],
    table_key: [u8; 32],
    hand_key: [u8; 32],
    started_at: i64,
    bump: u8,
    moves: Seq<Move>,
)
    requires
        table.wf(),
        start_hand_error(table, player) is None,
        table.player_one_chips + table.player_two_chips <= u64::MAX,
    ensures
        ({
            let end = run(
                start_hand_table(table, hand_key),
                start_hand_hand(table, table_key, started_at, bump),
                moves,
            );
            &&& end.1.stage != HandStage::Complete ==> end.1.betting.pot
                == end.1.betting.p1_total_bet + end.1.betting.p2_total_bet
            &&& end.1.stage == HandStage::Complete ==> end.1.betting.pot == 0
            &&& end.0.player_one_chips + end.0.player_two_chips + end.1.betting.pot
                == table.player_one_chips + table.player_two_chips
        }),
{
    theorem_start_is_sound(table, player, table_key, hand_key, started_at, bump);
    theorem_run_is_lawful(
        start_hand_table(table, hand_key),
        start_hand_hand(table, table_key, started_at, bump),
        moves,
    );
}

/// Once both seeds are revealed the deck seed is fixed: no sequence of actions
/// changes it.
pub proof fn theorem_deck_seed_is_final(table: Table, hand: Hand, moves: Seq<Move>)
    requires
        hand.seeds.p1_seed_revealed,
        hand.seeds.p2_seed_revealed,
    ensures
        run(table, hand, moves).1.seeds.deck_seed == hand.seeds.deck_seed,
{
    theorem_run_is_lawful(table, hand, moves);
}

/// A seat commits its seed once: after a seed commitment was accepted, every
/// further one by the same player is refused and changes nothing, whatever
/// happened in between.
pub proof fn theorem_commit_seed_once(
    table: Table,
    hand: Hand,
    player: [u8; 32],
    seed_hash: [u8; 32],
    now: i64,
    between: Seq<Move>,
    again: [u8; 32],
    later: i64,
)
    requires
        step_error(table, hand, Action::CommitSeed { player, seed_hash }, now) is None,
    ensures
        ({
            let first = step(table, hand, Action::CommitSeed { player, seed_hash }, now);
            let then = run(first.0, first.1, between);
            let second = Action::CommitSeed { player, seed_hash: again };
            &&& step_error(then.0, then.1, second, later) is Some
            &&& step(then.0, then.1, second, later) == then
        }),
{
    let first = step(table, hand, Action::CommitSeed { player, seed_hash }, now);
    theorem_run_is_lawful(first.0, first.1, between);
}

/// A seat reveals its seed once: after a seed reveal was accepted, every further
/// one by the same player is refused and changes nothing, whatever happened in
/// between.
pub proof fn theorem_reveal_seed_once(
    table: Table,
    hand: Hand,
    player: [u8; 32],
    seed: [u8; 32],
    deck_seed: [u8; 32],
    now: i64,
    between: Seq<Move>,
    again: [u8; 32],
    again_deck_seed: [u8; 32],
    later: i64,
)
    requires
        step_error(table, hand, Action::RevealSeed { player, seed, deck_seed }, now) is None,
    ensures
        ({
            let first = step(table, hand, Action::RevealSeed { player, seed, deck_seed }, now);
            let then = run(first.0, first.1, between);
            let second = Action::RevealSeed { player, seed: again, deck_seed: again_deck_seed };
            &&& step_error(then.0, then.1, second, later) is Some
            &&& step(then.0, then.1, second, later) == then
        }),
{
    let first = step(table, hand, Action::RevealSeed { player, seed, deck_seed }, now);
    theorem_run_is_lawful(first.0, first.1, between);
}

/// A seat commits its hole cards once: after a commitment was accepted, every
/// further one by the same player is refused and changes nothing, whatever
/// happened in between and whatever the verifier says.
pub proof fn theorem_commit_hole_cards_once(
    table: Table,
    hand: Hand,
    first: Action,
    now: i64,
    between: Seq<Move>,
    second: Action,
    later: i64,
)
    requires
        first is CommitHoleCards,
        second is CommitHoleCards,
        first->CommitHoleCards_player == second->CommitHoleCards_player,
        step_error(table, hand, first, now) is None,
    ensures
        ({
            let done = step(table, hand, first, now);
            let then = run(done.0, done.1, between);
            &&& step_error(then.0, then.1, second, later) is Some
            &&& step(then.0, then.1, second, later) == then
        }),
{
    let done = step(table, hand, first, now);
    theorem_run_is_lawful(done.0, done.1, between);
}

/// A seat shows its hand once: after a hand reveal was accepted, every further
/// one by the same player is refused and changes nothing, whatever happened in
/// between and whatever the verifier says.
pub proof fn theorem_reveal_hand_once(
    table: Table,
    hand: Hand,
    first: Action,
    now: i64,
    between: Seq<Move>,
    second: Action,
    later: i64,
)
    requires
        first is RevealHand,
        second is RevealHand,
        first->RevealHand_player == second->RevealHand_player,
        step_error(table, hand, first, now) is None,
    ensures
        ({
            let done = step(table, hand, first, now);
            let then = run(done.0, done.1, between);
            &&& step_error(then.0, then.1, second, later) is Some
            &&& step(then.0, then.1, second, later) == then
        }),
{
    let done = step(table, hand, first, now);
    theorem_run_is_lawful(done.0, done.1, between);
}

/// A pot is claimed once: after a claim was accepted, every further claim of any
/// seated player is refused and changes nothing, whatever happened in between.
pub proof fn theorem_claim_pot_once(
    table: Table,
    hand: Hand,
    player: [u8; 32],
    now: i64,
    between: Seq<Move>,
    claimant: [u8; 32],
    later: i64,
)
    requires
        step_error(table, hand, Action::ClaimPot { player }, now) is None,
    ensures
        ({
            let first = step(table, hand, Action::ClaimPot { player }, now);
            let then = run(first.0, first.1, between);
            let second = Action::ClaimPot { player: claimant };
            &&& step_error(then.0, then.1, second, later) is Some
            &&& step(then.0, then.1, second, later) == then
        }),
{
    let first = step(table, hand, Action::ClaimPot { player }, now);
    theorem_run_is_lawful(first.0, first.1, between);
}

} // verus!
