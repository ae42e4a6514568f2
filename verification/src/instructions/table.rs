//! Seating: creating a table, sitting down, standing up, and topping up a stack.
//!
//! Moving the tokens that back the chips is not done here: each operation says
//! what is owed, and whoever drives the library moves it.

use vstd::prelude::*;
use crate::constants::{DEFAULT_ACTION_TIMEOUT, MAX_ACTION_TIMEOUT, MIN_ACTION_TIMEOUT};
use crate::errors::{outcome, ZkPokerError};
use crate::state::global::GlobalConfig;
use crate::state::table::{saturating_sum, Table, TableStatus};

verus! {

/// The timeout of a table that asks for `action_timeout`: the default where it
/// asks for none.
pub open spec fn chosen_timeout(action_timeout: Option<i64>) -> i64 {
    match action_timeout {
        Some(timeout) => timeout,
        None => DEFAULT_ACTION_TIMEOUT,
    }
}

/// Why a table cannot be created, if it cannot: the small blind must be positive
/// and no more than the big blind, the least buy-in must be at least ten big blinds
/// and no more than the greatest, and the timeout must be within its limits.
pub open spec fn create_table_error(
    small_blind: u64,
    big_blind: u64,
    min_buy_in: u64,
    max_buy_in: u64,
    action_timeout: Option<i64>,
) -> Option<ZkPokerError> {
    if small_blind == 0 {
        Some(ZkPokerError::InvalidTableConfig)
    } else if big_blind < small_blind {
        Some(ZkPokerError::InvalidTableConfig)
    } else if min_buy_in < big_blind * 10 {
        Some(ZkPokerError::InvalidTableConfig)
    } else if max_buy_in < min_buy_in {
        Some(ZkPokerError::InvalidTableConfig)
    } else if chosen_timeout(action_timeout) < MIN_ACTION_TIMEOUT || chosen_timeout(action_timeout)
        > MAX_ACTION_TIMEOUT {
        Some(ZkPokerError::InvalidTimeoutConfig)
    } else {
        None
    }
}

/// Creates an empty table with the next table number. `now` is the current time.
pub fn handle_create_table(
    global_config: &mut GlobalConfig,
    table: &mut Table,
    small_blind: u64,
    big_blind: u64,
    min_buy_in: u64,
    max_buy_in: u64,
    action_timeout: Option<i64>,
    now: i64,
    bump: u8,
) -> (res: Result<(), ZkPokerError>)
    ensures
        res == outcome(
            create_table_error(small_blind, big_blind, min_buy_in, max_buy_in, action_timeout),
        ),
        res is Err ==> *final(table) == *old(table) && *final(global_config) == *old(global_config),
        res is Ok ==> {
            &&& *final(table) == Table::fresh(
                old(global_config).table_count,
                small_blind,
                big_blind,
                min_buy_in,
                max_buy_in,
                chosen_timeout(action_timeout),
                now,
                bump,
            )
            &&& *final(global_config) == (GlobalConfig {
                table_count: saturating_sum(old(global_config).table_count, 1),
                ..*old(global_config)
            })
            &&& final(table).wf()
        },
{
    if small_blind == 0 {
        return Err(ZkPokerError::InvalidTableConfig);
    }
    if big_blind < small_blind {
        return Err(ZkPokerError::InvalidTableConfig);
    }
    match big_blind.checked_mul(10) {
        Some(ten_big_blinds) => {
            if min_buy_in < ten_big_blinds {
                return Err(ZkPokerError::InvalidTableConfig);
            }
        },
        None => {
            return Err(ZkPokerError::InvalidTableConfig);
        },
    }
    if max_buy_in < min_buy_in {
        return Err(ZkPokerError::InvalidTableConfig);
    }
    let timeout = match action_timeout {
        Some(timeout) => timeout,
        None => DEFAULT_ACTION_TIMEOUT,
    };
    if timeout < MIN_ACTION_TIMEOUT || timeout > MAX_ACTION_TIMEOUT {
        return Err(ZkPokerError::InvalidTimeoutConfig);
    }
    let table_id = global_config.next_table_id();
    table.init(table_id, small_blind, big_blind, min_buy_in, max_buy_in, timeout, now, bump);
    Ok(())
}

/// Why a player cannot sit down, if they cannot: the buy-in must be within the
/// table's limits, the player must not be seated already, a seat must be free, and
/// no hand may be in progress.
pub open spec fn join_table_error(table: Table, player: [u8; 32], buy_in_amount: u64) -> Option<
    ZkPokerError,
> {
    if buy_in_amount < table.min_buy_in || buy_in_amount > table.max_buy_in {
        Some(ZkPokerError::InvalidBuyIn)
    } else if table.spec_get_seat(&player) is Some {
        Some(ZkPokerError::PlayerAlreadyAtTable)
    } else if !table.spec_has_empty_seat() {
        Some(ZkPokerError::TableFull)
    } else if table.status == TableStatus::Playing {
        Some(ZkPokerError::HandInProgress)
    } else {
        None
    }
}

/// The table after `player` sat down with `buy_in_amount` chips: in seat 0 if it is
/// free, else in seat 1; a table that is full now stands between hands.
pub open spec fn join_table_table(table: Table, player: [u8; 32], buy_in_amount: u64) -> Table {
    let seated = if table.player_one is None {
        Table { player_one: Some(player), player_one_chips: buy_in_amount, ..table }
    } else {
        Table { player_two: Some(player), player_two_chips: buy_in_amount, ..table }
    };
    if seated.spec_is_full() {
        Table { status: TableStatus::Between, ..seated }
    } else {
        seated
    }
}

/// Seats a player with a stack of `buy_in_amount` chips. The caller owes the table
/// that amount.
pub fn handle_join_table(table: &mut Table, player: &[u8; 32], buy_in_amount: u64) -> (res: Result<
    (),
    ZkPokerError,
>)
    ensures
        res == outcome(join_table_error(*old(table), *player, buy_in_amount)),
        res is Err ==> *final(table) == *old(table),
        res is Ok ==> *final(table) == join_table_table(*old(table), *player, buy_in_amount),
        res is Ok ==> final(table).spec_get_seat(player) is Some,
        old(table).wf() ==> final(table).wf(),
{
    if buy_in_amount < table.min_buy_in || buy_in_amount > table.max_buy_in {
        return Err(ZkPokerError::InvalidBuyIn);
    }
    if table.get_seat(player).is_some() {
        return Err(ZkPokerError::PlayerAlreadyAtTable);
    }
    if !table.has_empty_seat() {
        return Err(ZkPokerError::TableFull);
    }
    if table.status == TableStatus::Playing {
        return Err(ZkPokerError::HandInProgress);
    }
    if table.player_one.is_none() {
        table.player_one = Some(*player);
        table.player_one_chips = buy_in_amount;
    } else {
        table.player_two = Some(*player);
        table.player_two_chips = buy_in_amount;
    }
    if table.is_full() {
        table.status = TableStatus::Between;
    }
    Ok(())
}

/// Why a player cannot stand up, if they cannot: they must be seated, and no hand
/// may be in progress.
pub open spec fn leave_table_error(table: Table, player: [u8; 32]) -> Option<ZkPokerError> {
    if table.spec_get_seat(&player) is None {
        Some(ZkPokerError::PlayerNotAtTable)
    } else if table.status == TableStatus::Playing {
        Some(ZkPokerError::HandInProgress)
    } else {
        None
    }
}

/// The table after `seat` was vacated: nobody sits there, its stack is empty, and
/// the table waits for a player.
pub open spec fn leave_table_table(table: Table, seat: u8) -> Table {
    let vacated = if seat == 0 {
        Table { player_one: None, player_one_chips: 0, ..table }
    } else if seat == 1 {
        Table { player_two: None, player_two_chips: 0, ..table }
    } else {
        table
    };
    Table { status: TableStatus::Waiting, ..vacated }
}

/// Vacates the seat of a player and returns the chips that the table owes them.
pub fn handle_leave_table(table: &mut Table, player: &[u8; 32]) -> (res: Result<u64, ZkPokerError>)
    ensures
        res is Ok <==> leave_table_error(*old(table), *player) is None,
        res matches Err(e) ==> leave_table_error(*old(table), *player) == Some(e) && *final(table)
            == *old(table),
        res matches Ok(chips) ==> {
            let seat = old(table).spec_get_seat(player)->0;
            &&& chips == old(table).spec_get_chips(seat)
            &&& *final(table) == leave_table_table(*old(table), seat)
        },
        old(table).wf() ==> final(table).wf(),
{
    let seat = match table.get_seat(player) {
        Some(seat) => seat,
        None => {
            return Err(ZkPokerError::PlayerNotAtTable);
        },
    };
    if table.status == TableStatus::Playing {
        return Err(ZkPokerError::HandInProgress);
    }
    let chips_to_return = table.get_chips(seat);
    if seat == 0 {
        table.player_one = None;
        table.player_one_chips = 0;
    } else {
        table.player_two = None;
        table.player_two_chips = 0;
    }
    table.status = TableStatus::Waiting;
    Ok(chips_to_return)
}

/// Why a stack cannot be topped up, if it cannot: the player must be seated, no
/// hand may be in progress, and the new stack must fit a `u64` and must not exceed
/// the greatest buy-in.
pub open spec fn add_chips_error(table: Table, player: [u8; 32], amount: u64) -> Option<
    ZkPokerError,
> {
    match table.spec_get_seat(&player) {
        None => Some(ZkPokerError::PlayerNotAtTable),
        Some(seat) => if table.status == TableStatus::Playing {
            Some(ZkPokerError::HandInProgress)
        } else if table.spec_get_chips(seat) + amount > u64::MAX {
            Some(ZkPokerError::ArithmeticOverflow)
        } else if table.spec_get_chips(seat) + amount > table.max_buy_in {
            Some(ZkPokerError::InvalidBuyIn)
        } else {
            None
        },
    }
}

/// Adds `amount` chips to the stack of a seated player. The caller owes the table
/// that amount.
pub fn handle_add_chips(table: &mut Table, player: &[u8; 32], amount: u64) -> (res: Result<
    (),
    ZkPokerError,
>)
    ensures
        res == outcome(add_chips_error(*old(table), *player, amount)),
        res is Err ==> *final(table) == *old(table),
        res is Ok ==> {
            let seat = old(table).spec_get_seat(player)->0;
            &&& *final(table) == old(table).with_chips(
                seat,
                (old(table).spec_get_chips(seat) + amount) as u64,
            )
            &&& final(table).spec_get_chips(seat) == old(table).spec_get_chips(seat) + amount
        },
        old(table).wf() ==> final(table).wf(),
{
    let seat = match table.get_seat(player) {
        Some(seat) => seat,
        None => {
            return Err(ZkPokerError::PlayerNotAtTable);
        },
    };
    if table.status == TableStatus::Playing {
        return Err(ZkPokerError::HandInProgress);
    }
    let current_chips = table.get_chips(seat);
    let new_total = match current_chips.checked_add(amount) {
        Some(total) => total,
        None => {
            return Err(ZkPokerError::ArithmeticOverflow);
        },
    };
    if new_total > table.max_buy_in {
        return Err(ZkPokerError::InvalidBuyIn);
    }
    table.add_chips(seat, amount);
    Ok(())
}

} // verus!
