//! The betting round between two seats: check, bet, call, raise, fold and all-in,
//! and the settlement of the street that follows each action.

use vstd::prelude::*;
use crate::errors::{outcome, ZkPokerError};
use crate::state::hand::{BettingPhase, Hand, HandStage, ShowdownPhase};
use crate::state::table::{opposite_seat, saturating_sum, Table};

verus! {

/// The seat that may act now, or why the caller may not: the caller must be seated,
/// the hand must be in a betting stage, the action must be on the caller's seat,
/// and the seat must be neither folded nor all-in.
pub open spec fn betting_seat(table: Table, hand: Hand, player: [u8; 32]) -> Result<
    u8,
    ZkPokerError,
> {
    match table.spec_get_seat(&player) {
        None => Err(ZkPokerError::PlayerNotAtTable),
        Some(seat) => if !hand.stage.spec_is_betting_stage() {
            Err(ZkPokerError::InvalidStage)
        } else if hand.betting.action_on != seat {
            Err(ZkPokerError::NotYourTurn)
        } else if hand.spec_has_folded(seat) {
            Err(ZkPokerError::AlreadyFolded)
        } else if hand.spec_is_all_in(seat) {
            Err(ZkPokerError::AlreadyAllIn)
        } else {
            Ok(seat)
        },
    }
}

/// Finds the seat of a caller who wants to act and checks that the action is
/// theirs to take.
pub fn validate_betting_action(table: &Table, hand: &Hand, player: &[u8; 32]) -> (res: Result<
    u8,
    ZkPokerError,
>)
    ensures
        res == betting_seat(*table, *hand, *player),
        res matches Ok(seat) ==> seat <= 1 && seat == hand.betting.action_on,
{
    let seat = match table.get_seat(player) {
        Some(seat) => seat,
        None => {
            return Err(ZkPokerError::PlayerNotAtTable);
        },
    };
    if !hand.stage.is_betting_stage() {
        return Err(ZkPokerError::InvalidStage);
    }
    if hand.betting.action_on != seat {
        return Err(ZkPokerError::NotYourTurn);
    }
    if hand.has_folded(seat) {
        return Err(ZkPokerError::AlreadyFolded);
    }
    if hand.is_all_in(seat) {
        return Err(ZkPokerError::AlreadyAllIn);
    }
    Ok(seat)
}

// ---------------------------------------------------------------------------
// settlement of the street
// ---------------------------------------------------------------------------

/// The hand after the street was settled. If one seat is left, it has won, the pot
/// is paid out and the hand is complete. Otherwise, if the betting round is closed,
/// the hand is in the next stage with a fresh street and the big-blind seat to
/// act. Otherwise the hand waits for the next action.
pub open spec fn settled_hand(table: Table, hand: Hand) -> Hand {
    if hand.spec_remaining_players() == 1 {
        Hand {
            stage: HandStage::Complete,
            showdown: ShowdownPhase { winner: hand.spec_non_folded_seat()->0, ..hand.showdown },
            betting: BettingPhase { pot: 0, ..hand.betting },
            ..hand
        }
    } else if hand.spec_is_betting_complete() && hand.stage.spec_next_betting_stage() is Some {
        Hand {
            stage: hand.stage.spec_next_betting_stage()->0,
            betting: BettingPhase {
                action_on: table.spec_big_blind_seat(),
                ..hand.betting.street_reset()
            },
            ..hand
        }
    } else {
        hand
    }
}

/// The table after the street was settled: if one seat is left, it has the pot and
/// the hand is closed; otherwise the table is as it was.
pub open spec fn settled_table(table: Table, hand: Hand) -> Table {
    if hand.spec_remaining_players() == 1 {
        table.with_added_chips(hand.spec_non_folded_seat()->0, hand.betting.pot).after_hand()
    } else {
        table
    }
}

/// Settles the street after an action.
///
/// The stage changes only in two ways: to `Complete`, when a fold has left one
/// seat, or to the next stage, when the betting round is closed, that is when both
/// seats are all-in or both have acted on this street and have bet the same.
pub fn handle_street_transition(table: &mut Table, hand: &mut Hand)
    ensures
        *final(hand) == settled_hand(*old(table), *old(hand)),
        *final(table) == settled_table(*old(table), *old(hand)),
        final(hand).stage != old(hand).stage ==> {
            ||| old(hand).spec_remaining_players() == 1 && final(hand).stage
                == HandStage::Complete
            ||| old(hand).spec_is_betting_complete() && old(hand).stage.spec_next_betting_stage()
                == Some(final(hand).stage)
        },
        old(hand).stage.may_lead_to(final(hand).stage),
        old(hand).wf_in_action() && old(hand).stage.spec_is_betting_stage() ==> final(hand).wf(),
        old(table).wf() ==> final(table).wf(),
{
    if hand.remaining_players() == 1 {
        match hand.non_folded_seat() {
            Some(winner) => {
                hand.showdown.winner = winner;
                table.add_chips(winner, hand.betting.pot);
                hand.betting.pot = 0;
                hand.stage = HandStage::Complete;
                table.finish_hand();
            },
            None => {},
        }
        return ;
    }
    if hand.is_betting_complete() {
        match hand.stage.next_betting_stage() {
            Some(next_stage) => {
                hand.stage = next_stage;
                hand.reset_street();
                let bb_seat = table.big_blind_seat();
                hand.betting.action_on = bb_seat;
            },
            None => {},
        }
    }
}

/// The hand after `seat` completed an action at time `now`: the seat has acted on
/// this street, it is all-in if `all_in` says so, and the action is on the other
/// seat.
pub open spec fn action_done(hand: Hand, seat: u8, all_in: bool, now: i64) -> Hand {
    let acted = hand.with_acted(seat, true);
    let marked = if all_in {
        acted.with_all_in(seat)
    } else {
        acted
    };
    marked.touched(now).with_action_on(opposite_seat(hand.betting.action_on))
}

/// Closes an action of `seat`: marks the seat as having acted, and as all-in if
/// its stack is empty, notes the time and passes the action on.
fn finish_action(hand: &mut Hand, seat: u8, all_in: bool, now: i64)
    ensures
        *final(hand) == action_done(*old(hand), seat, all_in, now),
{
    hand.set_acted_this_street(seat);
    if all_in {
        hand.set_all_in(seat);
    }
    hand.touch(now);
    hand.switch_action();
}

// ---------------------------------------------------------------------------
// check
// ---------------------------------------------------------------------------

/// Why a check is refused, if it is: the action must be the caller's, and the
/// seat must have matched the bet.
pub open spec fn check_error(table: Table, hand: Hand, player: [u8; 32]) -> Option<ZkPokerError> {
    match betting_seat(table, hand, player) {
        Err(e) => Some(e),
        Ok(seat) => if hand.betting.current_bet != hand.spec_get_bet_this_street(seat) {
            Some(ZkPokerError::CannotCheck)
        } else {
            None
        },
    }
}

/// The hand after `seat` checked, before the street is settled.
pub open spec fn check_applied(hand: Hand, seat: u8, now: i64) -> Hand {
    action_done(hand, seat, false, now)
}

/// Passes without betting.
pub fn handle_check(table: &mut Table, hand: &mut Hand, player: &[u8; 32], now: i64) -> (res:
    Result<(), ZkPokerError>)
    ensures
        res == outcome(check_error(*old(table), *old(hand), *player)),
        res is Err ==> *final(table) == *old(table) && *final(hand) == *old(hand),
        res is Ok ==> {
            let seat = old(table).spec_get_seat(player)->0;
            let applied = check_applied(*old(hand), seat, now);
            &&& *final(hand) == settled_hand(*old(table), applied)
            &&& *final(table) == settled_table(*old(table), applied)
            &&& final(hand).stage != old(hand).stage && final(hand).stage != HandStage::Complete
                ==> applied.spec_is_betting_complete()
        },
        old(hand).stage.may_lead_to(final(hand).stage),
        old(hand).wf() ==> final(hand).wf(),
        old(table).wf() ==> final(table).wf(),
{
    let seat = match validate_betting_action(table, hand, player) {
        Ok(seat) => seat,
        Err(e) => {
            return Err(e);
        },
    };
    let player_bet = hand.get_bet_this_street(seat);
    if hand.betting.current_bet != player_bet {
        return Err(ZkPokerError::CannotCheck);
    }
    finish_action(hand, seat, false, now);
    handle_street_transition(table, hand);
    Ok(())
}

// ---------------------------------------------------------------------------
// bet
// ---------------------------------------------------------------------------

/// Why an opening bet is refused, if it is: the action must be the caller's,
/// nothing may be bet on the street yet, the amount must be at least the big
/// blind, and the stack must cover it.
pub open spec fn bet_error(table: Table, hand: Hand, player: [u8; 32], amount: u64) -> Option<
    ZkPokerError,
> {
    match betting_seat(table, hand, player) {
        Err(e) => Some(e),
        Ok(seat) => if hand.betting.current_bet != 0 {
            Some(ZkPokerError::InvalidBetAmount)
        } else if amount < table.big_blind {
            Some(ZkPokerError::BetTooSmall)
        } else if amount > table.spec_get_chips(seat) {
            Some(ZkPokerError::InsufficientChips)
        } else {
            None
        },
    }
}

/// The hand after `seat` bet `amount`, before the street is settled: the amount is
/// in the pot and is the bet to match, the seat is the aggressor, and it is all-in
/// if the bet emptied its stack.
pub open spec fn bet_applied(table: Table, hand: Hand, seat: u8, amount: u64, now: i64) -> Hand {
    let paid = hand.with_bet(seat, amount);
    let opened = Hand {
        betting: BettingPhase { current_bet: amount, last_aggressor: seat, ..paid.betting },
        ..paid
    };
    action_done(opened, seat, table.with_removed_chips(seat, amount).spec_get_chips(seat) == 0, now)
}

/// Opens the betting on a street with `amount` chips.
pub fn handle_bet(table: &mut Table, hand: &mut Hand, player: &[u8; 32], amount: u64, now: i64)
    -> (res: Result<(), ZkPokerError>)
    ensures
        res == outcome(bet_error(*old(table), *old(hand), *player, amount)),
        res is Err ==> *final(table) == *old(table) && *final(hand) == *old(hand),
        res is Ok ==> {
            let seat = old(table).spec_get_seat(player)->0;
            let applied = bet_applied(*old(table), *old(hand), seat, amount, now);
            let debited = old(table).with_removed_chips(seat, amount);
            &&& *final(hand) == settled_hand(debited, applied)
            &&& *final(table) == settled_table(debited, applied)
            &&& final(hand).stage != old(hand).stage && final(hand).stage != HandStage::Complete
                ==> applied.spec_is_betting_complete()
        },
        old(hand).stage.may_lead_to(final(hand).stage),
        old(hand).wf() ==> final(hand).wf(),
        old(table).wf() ==> final(table).wf(),
{
    let seat = match validate_betting_action(table, hand, player) {
        Ok(seat) => seat,
        Err(e) => {
            return Err(e);
        },
    };
    if hand.betting.current_bet != 0 {
        return Err(ZkPokerError::InvalidBetAmount);
    }
    if amount < table.big_blind {
        return Err(ZkPokerError::BetTooSmall);
    }
    let available_chips = table.get_chips(seat);
    if amount > available_chips {
        return Err(ZkPokerError::InsufficientChips);
    }
    table.remove_chips(seat, amount);
    hand.add_bet(seat, amount);
    hand.betting.current_bet = amount;
    hand.betting.last_aggressor = seat;
    let all_in = table.get_chips(seat) == 0;
    finish_action(hand, seat, all_in, now);
    handle_street_transition(table, hand);
    Ok(())
}

// ---------------------------------------------------------------------------
// call
// ---------------------------------------------------------------------------

/// What `seat` owes to match the bet.
pub open spec fn owed(hand: Hand, seat: u8) -> u64 {
    if hand.betting.current_bet >= hand.spec_get_bet_this_street(seat) {
        (hand.betting.current_bet - hand.spec_get_bet_this_street(seat)) as u64
    } else {
        0
    }
}

/// Why a call is refused, if it is: the action must be the caller's, and
/// something must be owed.
pub open spec fn call_error(table: Table, hand: Hand, player: [u8; 32]) -> Option<ZkPokerError> {
    match betting_seat(table, hand, player) {
        Err(e) => Some(e),
        Ok(seat) => if owed(hand, seat) == 0 {
            Some(ZkPokerError::CannotCheck)
        } else {
            None
        },
    }
}

/// What a call of `seat` puts into the pot: what is owed, or the whole stack if
/// that is less.
pub open spec fn call_amount(table: Table, hand: Hand, seat: u8) -> u64 {
    table.removable(seat, owed(hand, seat))
}

/// The hand after `seat` called, before the street is settled: a seat whose stack
/// is emptied by the call is all-in and owes no more.
pub open spec fn call_applied(table: Table, hand: Hand, seat: u8, now: i64) -> Hand {
    let amount = call_amount(table, hand, seat);
    action_done(
        hand.with_bet(seat, amount),
        seat,
        table.with_removed_chips(seat, amount).spec_get_chips(seat) == 0,
        now,
    )
}

/// Matches the bet, as far as the stack goes.
pub fn handle_call(table: &mut Table, hand: &mut Hand, player: &[u8; 32], now: i64) -> (res: Result<
    (),
    ZkPokerError,
>)
    ensures
        res == outcome(call_error(*old(table), *old(hand), *player)),
        res is Err ==> *final(table) == *old(table) && *final(hand) == *old(hand),
        res is Ok ==> {
            let seat = old(table).spec_get_seat(player)->0;
            let applied = call_applied(*old(table), *old(hand), seat, now);
            let debited = old(table).with_removed_chips(
                seat,
                call_amount(*old(table), *old(hand), seat),
            );
            &&& *final(hand) == settled_hand(debited, applied)
            &&& *final(table) == settled_table(debited, applied)
            &&& final(hand).stage != old(hand).stage && final(hand).stage != HandStage::Complete
                ==> applied.spec_is_betting_complete()
        },
        old(hand).stage.may_lead_to(final(hand).stage),
        old(hand).wf() ==> final(hand).wf(),
        old(table).wf() ==> final(table).wf(),
{
    let seat = match validate_betting_action(table, hand, player) {
        Ok(seat) => seat,
        Err(e) => {
            return Err(e);
        },
    };
    let player_bet = hand.get_bet_this_street(seat);
    let to_call = hand.betting.current_bet.saturating_sub(player_bet);
    if to_call == 0 {
        return Err(ZkPokerError::CannotCheck);
    }
    let actual_call = table.remove_chips(seat, to_call);
    hand.add_bet(seat, actual_call);
    let all_in = table.get_chips(seat) == 0;
    finish_action(hand, seat, all_in, now);
    handle_street_transition(table, hand);
    Ok(())
}

// ---------------------------------------------------------------------------
// raise
// ---------------------------------------------------------------------------

/// What `seat` has to add to have `amount` on the street.
pub open spec fn raise_increment(hand: Hand, seat: u8, amount: u64) -> u64 {
    if amount >= hand.spec_get_bet_this_street(seat) {
        (amount - hand.spec_get_bet_this_street(seat)) as u64
    } else {
        0
    }
}

/// Why a raise to `amount` is refused, if it is: the action must be the caller's,
/// the amount must exceed the bet to match by at least the big blind, and the stack
/// must cover what the seat has to add.
pub open spec fn raise_to_error(table: Table, hand: Hand, player: [u8; 32], amount: u64) -> Option<
    ZkPokerError,
> {
    match betting_seat(table, hand, player) {
        Err(e) => Some(e),
        Ok(seat) => if amount <= hand.betting.current_bet {
            Some(ZkPokerError::RaiseTooSmall)
        } else if amount < saturating_sum(hand.betting.current_bet, table.big_blind) {
            Some(ZkPokerError::RaiseTooSmall)
        } else if raise_increment(hand, seat, amount) > table.spec_get_chips(seat) {
            Some(ZkPokerError::InsufficientChips)
        } else {
            None
        },
    }
}

/// The hand after `seat` raised to `amount`, before the street is settled: the
/// increment is in the pot, `amount` is the bet to match, the seat is the
/// aggressor, and the other seat has to act again.
pub open spec fn raise_to_applied(table: Table, hand: Hand, seat: u8, amount: u64, now: i64)
    -> Hand {
    let increment = raise_increment(hand, seat, amount);
    let paid = hand.with_bet(seat, increment);
    let raised = Hand {
        betting: BettingPhase { current_bet: amount, last_aggressor: seat, ..paid.betting },
        ..paid
    }.with_acted(opposite_seat(seat), false);
    action_done(
        raised,
        seat,
        table.with_removed_chips(seat, increment).spec_get_chips(seat) == 0,
        now,
    )
}

/// Raises the bet to match to `amount` in all. A raise reopens the action: the
/// other seat has to act again, whatever it did before on this street.
pub fn handle_raise_to(
    table: &mut Table,
    hand: &mut Hand,
    player: &[u8; 32],
    amount: u64,
    now: i64,
) -> (res: Result<(), ZkPokerError>)
    ensures
        res == outcome(raise_to_error(*old(table), *old(hand), *player, amount)),
        res is Err ==> *final(table) == *old(table) && *final(hand) == *old(hand),
        res is Ok ==> {
            let seat = old(table).spec_get_seat(player)->0;
            let applied = raise_to_applied(*old(table), *old(hand), seat, amount, now);
            let debited = old(table).with_removed_chips(
                seat,
                raise_increment(*old(hand), seat, amount),
            );
            &&& *final(hand) == settled_hand(debited, applied)
            &&& *final(table) == settled_table(debited, applied)
            &&& !applied.spec_has_acted_this_street(opposite_seat(seat))
            &&& !final(hand).spec_has_acted_this_street(opposite_seat(seat))
            &&& final(hand).stage != old(hand).stage && final(hand).stage != HandStage::Complete
                ==> applied.spec_is_betting_complete()
        },
        old(hand).stage.may_lead_to(final(hand).stage),
        old(hand).wf() ==> final(hand).wf(),
        old(table).wf() ==> final(table).wf(),
{
    let seat = match validate_betting_action(table, hand, player) {
        Ok(seat) => seat,
        Err(e) => {
            return Err(e);
        },
    };
    if amount <= hand.betting.current_bet {
        return Err(ZkPokerError::RaiseTooSmall);
    }
    let min_raise = hand.betting.current_bet.saturating_add(table.big_blind);
    if amount < min_raise {
        return Err(ZkPokerError::RaiseTooSmall);
    }
    let player_bet = hand.get_bet_this_street(seat);
    let additional = amount.saturating_sub(player_bet);
    let available_chips = table.get_chips(seat);
    if additional > available_chips {
        return Err(ZkPokerError::InsufficientChips);
    }
    table.remove_chips(seat, additional);
    hand.add_bet(seat, additional);
    hand.betting.current_bet = amount;
    hand.betting.last_aggressor = seat;
    let opponent = hand.other_seat(seat);
    hand.clear_acted_this_street(opponent);
    let all_in = table.get_chips(seat) == 0;
    finish_action(hand, seat, all_in, now);
    handle_street_transition(table, hand);
    Ok(())
}

// ---------------------------------------------------------------------------
// fold
// ---------------------------------------------------------------------------

/// Why a fold is refused, if it is: the action must be the caller's.
pub open spec fn fold_error(table: Table, hand: Hand, player: [u8; 32]) -> Option<ZkPokerError> {
    match betting_seat(table, hand, player) {
        Err(e) => Some(e),
        Ok(_) => None,
    }
}

/// The hand after `seat` folded, before the street is settled. The action stays
/// where it was.
pub open spec fn fold_applied(hand: Hand, seat: u8, now: i64) -> Hand {
    hand.with_folded(seat).touched(now)
}

/// Gives the hand up. The other seat wins the pot at once and the hand is
/// complete.
pub fn handle_fold(table: &mut Table, hand: &mut Hand, player: &[u8; 32], now: i64) -> (res: Result<
    (),
    ZkPokerError,
>)
    ensures
        res == outcome(fold_error(*old(table), *old(hand), *player)),
        res is Err ==> *final(table) == *old(table) && *final(hand) == *old(hand),
        res is Ok ==> {
            let seat = old(table).spec_get_seat(player)->0;
            let applied = fold_applied(*old(hand), seat, now);
            &&& *final(hand) == settled_hand(*old(table), applied)
            &&& *final(table) == settled_table(*old(table), applied)
            &&& old(hand).wf() ==> {
                &&& final(hand).stage == HandStage::Complete
                &&& final(hand).showdown.winner == opposite_seat(seat)
                &&& final(hand).betting.pot == 0
                &&& *final(table) == old(table).with_added_chips(
                    opposite_seat(seat),
                    old(hand).betting.pot,
                ).after_hand()
            }
            &&& final(hand).stage != old(hand).stage && final(hand).stage != HandStage::Complete
                ==> applied.spec_is_betting_complete()
        },
        old(hand).stage.may_lead_to(final(hand).stage),
        old(hand).wf() ==> final(hand).wf(),
        old(table).wf() ==> final(table).wf(),
{
    let seat = match validate_betting_action(table, hand, player) {
        Ok(seat) => seat,
        Err(e) => {
            return Err(e);
        },
    };
    hand.set_folded(seat);
    hand.touch(now);
    handle_street_transition(table, hand);
    Ok(())
}

// ---------------------------------------------------------------------------
// all-in
// ---------------------------------------------------------------------------

/// Why an all-in is refused, if it is: the action must be the caller's, and the
/// stack must not be empty.
pub open spec fn all_in_error(table: Table, hand: Hand, player: [u8; 32]) -> Option<ZkPokerError> {
    match betting_seat(table, hand, player) {
        Err(e) => Some(e),
        Ok(seat) => if table.spec_get_chips(seat) == 0 {
            Some(ZkPokerError::InsufficientChips)
        } else {
            None
        },
    }
}

/// What `seat` has on the street once its whole stack is in.
pub open spec fn all_in_total(table: Table, hand: Hand, seat: u8) -> u64 {
    saturating_sum(hand.spec_get_bet_this_street(seat), table.spec_get_chips(seat))
}

/// The hand after `seat` went all-in, before the street is settled: the whole
/// stack is in the pot, and if that is more than the bet to match it counts as a
/// raise: it is the new bet to match, the seat is the aggressor and the other seat
/// has to act again.
pub open spec fn all_in_applied(table: Table, hand: Hand, seat: u8, now: i64) -> Hand {
    let total = all_in_total(table, hand, seat);
    let paid = hand.with_bet(seat, table.spec_get_chips(seat));
    let raised = if total > hand.betting.current_bet {
        Hand {
            betting: BettingPhase { current_bet: total, last_aggressor: seat, ..paid.betting },
            ..paid
        }.with_acted(opposite_seat(seat), false)
    } else {
        paid
    };
    action_done(raised, seat, true, now)
}

/// Puts the seat's whole stack into the pot.
pub fn handle_all_in(table: &mut Table, hand: &mut Hand, player: &[u8; 32], now: i64) -> (res:
    Result<(), ZkPokerError>)
    ensures
        res == outcome(all_in_error(*old(table), *old(hand), *player)),
        res is Err ==> *final(table) == *old(table) && *final(hand) == *old(hand),
        res is Ok ==> {
            let seat = old(table).spec_get_seat(player)->0;
            let applied = all_in_applied(*old(table), *old(hand), seat, now);
            let debited = old(table).with_chips(seat, 0);
            &&& *final(hand) == settled_hand(debited, applied)
            &&& *final(table) == settled_table(debited, applied)
            &&& applied.spec_is_all_in(seat)
            &&& all_in_total(*old(table), *old(hand), seat) > old(hand).betting.current_bet
                ==> !applied.spec_has_acted_this_street(opposite_seat(seat))
            &&& final(hand).stage != old(hand).stage && final(hand).stage != HandStage::Complete
                ==> applied.spec_is_betting_complete()
        },
        old(hand).stage.may_lead_to(final(hand).stage),
        old(hand).wf() ==> final(hand).wf(),
        old(table).wf() ==> final(table).wf(),
{
    let seat = match validate_betting_action(table, hand, player) {
        Ok(seat) => seat,
        Err(e) => {
            return Err(e);
        },
    };
    let available_chips = table.get_chips(seat);
    if available_chips == 0 {
        return Err(ZkPokerError::InsufficientChips);
    }
    table.remove_chips(seat, available_chips);
    let player_bet = hand.get_bet_this_street(seat);
    let new_total = player_bet.saturating_add(available_chips);
    hand.add_bet(seat, available_chips);
    if new_total > hand.betting.current_bet {
        hand.betting.current_bet = new_total;
        hand.betting.last_aggressor = seat;
        let opponent = hand.other_seat(seat);
        hand.clear_acted_this_street(opponent);
    }
    finish_action(hand, seat, true, now);
    handle_street_transition(table, hand);
    Ok(())
}

} // verus!
