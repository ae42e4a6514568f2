//! A two-seat table: blinds, buy-in limits, the seats and their chip stacks.

use vstd::prelude::*;
use crate::constants::{MAX_ACTION_TIMEOUT, MIN_ACTION_TIMEOUT};
use crate::utils::hash::bytes32_eq;

verus! {

/// Where a table stands between hands.
#[derive(Clone, Copy, PartialEq, Eq, Debug, Structural)]
pub enum TableStatus {
    /// A seat is empty.
    Waiting,
    /// A hand is being played.
    Playing,
    /// Both seats are taken and no hand is being played.
    Between,
}

impl Default for TableStatus {
    fn default() -> (status: Self)
        ensures
            status == TableStatus::Waiting,
    {
        TableStatus::Waiting
    }
}

/// A poker table for two. Seats are numbered 0 and 1.
#[derive(Clone, Copy, PartialEq, Eq, Debug)]
pub struct Table {
    /// Number of the table.
    pub table_id: u64,
    /// Small blind, in chips.
    pub small_blind: u64,
    /// Big blind, in chips.
    pub big_blind: u64,
    /// Least buy-in.
    pub min_buy_in: u64,
    /// Greatest buy-in, and greatest stack after adding chips.
    pub max_buy_in: u64,
    /// Seconds a seat may take to act.
    pub action_timeout: i64,
    /// Who sits in seat 0.
    pub player_one: Option<[u8; 32]>,
    /// Who sits in seat 1.
    pub player_two: Option<[u8; 32]>,
    /// Stack of seat 0.
    pub player_one_chips: u64,
    /// Stack of seat 1.
    pub player_two_chips: u64,
    /// Seat of the dealer button, which posts the small blind.
    pub button: u8,
    /// Where the table stands.
    pub status: TableStatus,
    /// The hand being played.
    pub current_hand: Option<[u8; 32]>,
    /// Hands finished at this table.
    pub hands_played: u64,
    /// When the table was created.
    pub created_at: i64,
    /// Address bump of the table record.
    pub bump: u8,
}

/// The seat across from `seat`: 1 for seat 0, and 0 for anything else.
pub open spec fn opposite_seat(seat: u8) -> u8 {
    if seat == 0 {
        1
    } else {
        0
    }
}

/// `x + y`, or the greatest `u64` where the sum is larger.
pub open spec fn saturating_sum(x: u64, y: u64) -> u64 {
    if x + y > u64::MAX {
        u64::MAX
    } else {
        (x + y) as u64
    }
}

impl Table {
    /// The configuration is sound: blinds are positive and ordered, the least buy-in is
    /// at least ten big blinds and no more than the greatest, the timeout is within
    /// its limits, and the button is on a seat.
    pub open spec fn wf(&self) -> bool {
        &&& 0 < self.small_blind <= self.big_blind
        &&& 10 * self.big_blind <= self.min_buy_in <= self.max_buy_in
        &&& MIN_ACTION_TIMEOUT <= self.action_timeout <= MAX_ACTION_TIMEOUT
        &&& self.button <= 1
    }

    /// The empty table that `init` leaves behind.
    pub open spec fn fresh(
        table_id: u64,
        small_blind: u64,
        big_blind: u64,
        min_buy_in: u64,
        max_buy_in: u64,
        action_timeout: i64,
        created_at: i64,
        bump: u8,
    ) -> Table {
        Table {
            table_id,
            small_blind,
            big_blind,
            min_buy_in,
            max_buy_in,
            action_timeout,
            player_one: None,
            player_two: None,
            player_one_chips: 0,
            player_two_chips: 0,
            button: 0,
            status: TableStatus::Waiting,
            current_hand: None,
            hands_played: 0,
            created_at,
            bump,
        }
    }

    /// Resets the record to an empty table with the given configuration.
    pub fn init(
        &mut self,
        table_id: u64,
        small_blind: u64,
        big_blind: u64,
        min_buy_in: u64,
        max_buy_in: u64,
        action_timeout: i64,
        created_at: i64,
        bump: u8,
    )
        ensures
            *final(self) == Table::fresh(
                table_id,
                small_blind,
                big_blind,
                min_buy_in,
                max_buy_in,
                action_timeout,
                created_at,
                bump,
            ),
    {
        self.table_id = table_id;
        self.small_blind = small_blind;
        self.big_blind = big_blind;
        self.min_buy_in = min_buy_in;
        self.max_buy_in = max_buy_in;
        self.action_timeout = action_timeout;
        self.player_one = None;
        self.player_two = None;
        self.player_one_chips = 0;
        self.player_two_chips = 0;
        self.button = 0;
        self.status = TableStatus::Waiting;
        self.current_hand = None;
        self.hands_played = 0;
        self.created_at = created_at;
        self.bump = bump;
    }

    pub open spec fn spec_has_empty_seat(&self) -> bool {
        self.player_one is None || self.player_two is None
    }

    /// Whether a seat is free.
    #[verifier::when_used_as_spec(spec_has_empty_seat)]
    pub fn has_empty_seat(&self) -> (empty: bool)
        ensures
            empty == self.spec_has_empty_seat(),
    {
        self.player_one.is_none() || self.player_two.is_none()
    }

    pub open spec fn spec_is_full(&self) -> bool {
        self.player_one is Some && self.player_two is Some
    }

    /// Whether both seats are taken.
    #[verifier::when_used_as_spec(spec_is_full)]
    pub fn is_full(&self) -> (full: bool)
        ensures
            full == self.spec_is_full(),
    {
        self.player_one.is_some() && self.player_two.is_some()
    }

    /// Whether `player` sits in seat 0.
    pub open spec fn sits_first(&self, player: [u8; 32]) -> bool {
        self.player_one == Some(player)
    }

    /// Whether `player` sits in seat 1.
    pub open spec fn sits_second(&self, player: [u8; 32]) -> bool {
        self.player_two == Some(player)
    }

    pub open spec fn spec_get_seat(&self, player: &[u8; 32]) -> Option<u8> {
        if self.sits_first(*player) {
            Some(0u8)
        } else if self.sits_second(*player) {
            Some(1u8)
        } else {
            None
        }
    }

    /// The seat of `player`: seat 0 is looked at first, and `None` means that the
    /// player is not at the table.
    #[verifier::when_used_as_spec(spec_get_seat)]
    pub fn get_seat(&self, player: &[u8; 32]) -> (seat: Option<u8>)
        ensures
            seat == self.spec_get_seat(player),
            seat matches Some(s) ==> s <= 1,
    {
        let first = match &self.player_one {
            Some(key) => bytes32_eq(key, player),
            None => false,
        };
        if first {
            return Some(0);
        }
        let second = match &self.player_two {
            Some(key) => bytes32_eq(key, player),
            None => false,
        };
        if second {
            Some(1)
        } else {
            None
        }
    }

    pub open spec fn spec_get_chips(&self, seat: u8) -> u64 {
        if seat == 0 {
            self.player_one_chips
        } else if seat == 1 {
            self.player_two_chips
        } else {
            0
        }
    }

    /// The stack of a seat; 0 for a number that is no seat.
    #[verifier::when_used_as_spec(spec_get_chips)]
    pub fn get_chips(&self, seat: u8) -> (chips: u64)
        ensures
            chips == self.spec_get_chips(seat),
    {
        match seat {
            0 => self.player_one_chips,
            1 => self.player_two_chips,
            _ => 0,
        }
    }

    /// This table with the stack of `seat` replaced; unchanged for a number that is
    /// no seat.
    pub open spec fn with_chips(self, seat: u8, chips: u64) -> Table {
        if seat == 0 {
            Table { player_one_chips: chips, ..self }
        } else if seat == 1 {
            Table { player_two_chips: chips, ..self }
        } else {
            self
        }
    }

    /// Replaces the stack of a seat.
    pub fn set_chips(&mut self, seat: u8, chips: u64)
        ensures
            *final(self) == old(self).with_chips(seat, chips),
    {
        match seat {
            0 => {
                self.player_one_chips = chips;
            },
            1 => {
                self.player_two_chips = chips;
            },
            _ => {},
        }
    }

    /// This table after `amount` went to the stack of `seat`, which stops at the
    /// greatest `u64`.
    pub open spec fn with_added_chips(self, seat: u8, amount: u64) -> Table {
        self.with_chips(seat, saturating_sum(self.spec_get_chips(seat), amount))
    }

    /// Credits a stack. The stack saturates instead of overflowing.
    pub fn add_chips(&mut self, seat: u8, amount: u64)
        ensures
            *final(self) == old(self).with_added_chips(seat, amount),
    {
        let current = self.get_chips(seat);
        self.set_chips(seat, current.saturating_add(amount));
    }

    /// What `remove_chips` takes: the amount asked for, or the whole stack if that
    /// is less.
    pub open spec fn removable(&self, seat: u8, amount: u64) -> u64 {
        if amount <= self.spec_get_chips(seat) {
            amount
        } else {
            self.spec_get_chips(seat)
        }
    }

    /// This table after `remove_chips(seat, amount)`.
    pub open spec fn with_removed_chips(self, seat: u8, amount: u64) -> Table {
        self.with_chips(seat, (self.spec_get_chips(seat) - self.removable(seat, amount)) as u64)
    }

    /// Debits a stack by at most what it holds, and returns what was taken.
    pub fn remove_chips(&mut self, seat: u8, amount: u64) -> (removed: u64)
        ensures
            removed == old(self).removable(seat, amount),
            *final(self) == old(self).with_removed_chips(seat, amount),
    {
        let current = self.get_chips(seat);
        let removed = if amount <= current {
            amount
        } else {
            current
        };
        self.set_chips(seat, current - removed);
        removed
    }

    pub open spec fn spec_other_seat(&self, seat: u8) -> u8 {
        opposite_seat(seat)
    }

    /// The seat across from `seat`.
    #[verifier::when_used_as_spec(spec_other_seat)]
    pub fn other_seat(&self, seat: u8) -> (other: u8)
        ensures
            other == opposite_seat(seat),
            other <= 1,
    {
        if seat == 0 {
            1
        } else {
            0
        }
    }

    /// Moves the button to the other seat.
    pub fn rotate_button(&mut self)
        ensures
            *final(self) == (Table { button: opposite_seat(old(self).button), ..*old(self) }),
    {
        self.button = self.other_seat(self.button);
    }

    pub open spec fn spec_small_blind_seat(&self) -> u8 {
        self.button
    }

    /// The seat that posts the small blind: heads-up, the button.
    #[verifier::when_used_as_spec(spec_small_blind_seat)]
    pub fn small_blind_seat(&self) -> (seat: u8)
        ensures
            seat == self.button,
    {
        self.button
    }

    pub open spec fn spec_big_blind_seat(&self) -> u8 {
        opposite_seat(self.button)
    }

    /// The seat that posts the big blind: the one across from the button.
    #[verifier::when_used_as_spec(spec_big_blind_seat)]
    pub fn big_blind_seat(&self) -> (seat: u8)
        ensures
            seat == opposite_seat(self.button),
            seat <= 1,
    {
        self.other_seat(self.button)
    }

    /// Counts one more finished hand. The counter saturates.
    pub fn increment_hands_played(&mut self)
        ensures
            *final(self) == (Table {
                hands_played: saturating_sum(old(self).hands_played, 1),
                ..*old(self)
            }),
    {
        self.hands_played = self.hands_played.saturating_add(1);
    }

    /// This table after a hand ended: no hand is current, the table waits between
    /// hands, one more hand is counted and the button has moved.
    pub open spec fn after_hand(self) -> Table {
        Table {
            status: TableStatus::Between,
            current_hand: None,
            hands_played: saturating_sum(self.hands_played, 1),
            button: opposite_seat(self.button),
            ..self
        }
    }

    /// Closes the books on a hand.
    pub fn finish_hand(&mut self)
        ensures
            *final(self) == old(self).after_hand(),
    {
        self.status = TableStatus::Between;
        self.current_hand = None;
        self.increment_hands_played();
        self.rotate_button();
    }
}

} // verus!
