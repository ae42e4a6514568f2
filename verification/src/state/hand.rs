//! One hand of heads-up poker: its stage, the seed exchange, the committed and
//! revealed cards, the showdown and the betting state.

use vstd::prelude::*;
use crate::constants::{CARD_NOT_REVEALED, DECK_SIZE, NO_SEAT};
use crate::state::table::{opposite_seat, saturating_sum};
use crate::utils::hash::filled32;

verus! {

/// The phase a hand is in. Stages follow one another in the order written here; a
/// hand may also end early and jump to `Complete`.
#[derive(Clone, Copy, PartialEq, Eq, Debug, Structural)]
pub enum HandStage {
    /// Both seats commit to a shuffle seed.
    SeedCommit,
    /// Both seats open their seed.
    SeedReveal,
    /// Both seats commit to their hole cards.
    CardCommit,
    /// Betting before the flop.
    Preflop,
    /// Betting on the flop.
    Flop,
    /// Betting on the turn.
    Turn,
    /// Betting on the river.
    River,
    /// Both seats show their hand rank.
    Showdown,
    /// The hand is over.
    Complete,
}

impl Default for HandStage {
    fn default() -> (stage: Self)
        ensures
            stage == HandStage::SeedCommit,
    {
        HandStage::SeedCommit
    }
}

impl HandStage {
    /// Position of the stage in the order of play, from 0 for `SeedCommit` to 8 for
    /// `Complete`.
    pub open spec fn rank(self) -> nat {
        match self {
            HandStage::SeedCommit => 0,
            HandStage::SeedReveal => 1,
            HandStage::CardCommit => 2,
            HandStage::Preflop => 3,
            HandStage::Flop => 4,
            HandStage::Turn => 5,
            HandStage::River => 6,
            HandStage::Showdown => 7,
            HandStage::Complete => 8,
        }
    }

    /// A hand may move from `self` to `next`: it stays, steps to the stage that
    /// follows, or ends.
    pub open spec fn may_lead_to(self, next: HandStage) -> bool {
        ||| next == self
        ||| next.rank() == self.rank() + 1
        ||| next == HandStage::Complete
    }

    pub open spec fn spec_is_betting_stage(&self) -> bool {
        *self == HandStage::Preflop || *self == HandStage::Flop || *self == HandStage::Turn
            || *self == HandStage::River
    }

    /// Whether bets are taken in this stage.
    #[verifier::when_used_as_spec(spec_is_betting_stage)]
    pub fn is_betting_stage(&self) -> (betting: bool)
        ensures
            betting == self.spec_is_betting_stage(),
            betting == (3 <= self.rank() <= 6),
    {
        match self {
            HandStage::Preflop | HandStage::Flop | HandStage::Turn | HandStage::River => true,
            _ => false,
        }
    }

    pub open spec fn spec_next_betting_stage(&self) -> Option<HandStage> {
        match *self {
            HandStage::Preflop => Some(HandStage::Flop),
            HandStage::Flop => Some(HandStage::Turn),
            HandStage::Turn => Some(HandStage::River),
            HandStage::River => Some(HandStage::Showdown),
            _ => None,
        }
    }

    /// The stage that follows a closed betting round; `None` outside the betting
    /// stages.
    #[verifier::when_used_as_spec(spec_next_betting_stage)]
    pub fn next_betting_stage(&self) -> (next: Option<HandStage>)
        ensures
            next == self.spec_next_betting_stage(),
            next is Some <==> self.spec_is_betting_stage(),
            next matches Some(stage) ==> stage.rank() == self.rank() + 1,
    {
        match self {
            HandStage::Preflop => Some(HandStage::Flop),
            HandStage::Flop => Some(HandStage::Turn),
            HandStage::Turn => Some(HandStage::River),
            HandStage::River => Some(HandStage::Showdown),
            _ => None,
        }
    }
}

/// The seed exchange: each seat commits to a seed, then opens it.
#[derive(Clone, Copy, PartialEq, Eq, Debug)]
pub struct SeedPhase {
    /// Seed commitment of seat 0.
    pub seed_commit_one: [u8; 32],
    /// Seed commitment of seat 1.
    pub seed_commit_two: [u8; 32],
    /// Seed of seat 0, zero until revealed.
    pub seed_one: [u8; 32],
    /// Seed of seat 1, zero until revealed.
    pub seed_two: [u8; 32],
    /// Hash of both seeds, seat 0 first; zero until both are revealed.
    pub deck_seed: [u8; 32],
    pub p1_seed_committed: bool,
    pub p2_seed_committed: bool,
    pub p1_seed_revealed: bool,
    pub p2_seed_revealed: bool,
}

/// The cards: committed hole cards and revealed community cards.
#[derive(Clone, Copy, PartialEq, Eq, Debug)]
pub struct CardPhase {
    /// Commitments to the two hole cards of seat 0.
    pub p1_hole_commits: [[u8; 32]; 2],
    /// Commitments to the two hole cards of seat 1.
    pub p2_hole_commits: [[u8; 32]; 2],
    pub p1_cards_committed: bool,
    pub p2_cards_committed: bool,
    /// The flop, each card below 52, or 255 while not revealed.
    pub flop: [u8; 3],
    /// The turn card, below 52, or 255 while not revealed.
    pub turn: u8,
    /// The river card, below 52, or 255 while not revealed.
    pub river: u8,
    pub flop_revealed: bool,
    pub turn_revealed: bool,
    pub river_revealed: bool,
}

/// The showdown: proved hand ranks and the settlement.
#[derive(Clone, Copy, PartialEq, Eq, Debug)]
pub struct ShowdownPhase {
    /// Proved rank of the hand of seat 0, 0 until shown.
    pub p1_hand_rank: u64,
    /// Proved rank of the hand of seat 1, 0 until shown.
    pub p2_hand_rank: u64,
    pub p1_revealed: bool,
    pub p2_revealed: bool,
    /// Winning seat, 2 for a split pot, 255 while undecided.
    pub winner: u8,
    /// Whether the pot was claimed.
    pub pot_claimed: bool,
}

/// The betting state of the hand and of the current street.
#[derive(Clone, Copy, PartialEq, Eq, Debug)]
pub struct BettingPhase {
    /// Chips in the pot.
    pub pot: u64,
    /// The bet to match on this street.
    pub current_bet: u64,
    pub p1_bet_this_street: u64,
    pub p2_bet_this_street: u64,
    pub p1_total_bet: u64,
    pub p2_total_bet: u64,
    /// The seat to act.
    pub action_on: u8,
    /// Time of the last action, in seconds.
    pub last_action_at: i64,
    /// The seat that bet or raised last on this street, 255 for none.
    pub last_aggressor: u8,
    pub p1_folded: bool,
    pub p2_folded: bool,
    pub p1_all_in: bool,
    pub p2_all_in: bool,
    pub p1_acted_this_street: bool,
    pub p2_acted_this_street: bool,
}

/// The record of one hand. Seat 0 is "p1", seat 1 is "p2".
#[derive(Clone, Copy, PartialEq, Eq, Debug)]
pub struct Hand {
    /// The table the hand is played at.
    pub table: [u8; 32],
    /// Number of the hand at its table.
    pub hand_number: u64,
    /// The stage the hand is in.
    pub stage: HandStage,
    pub seeds: SeedPhase,
    pub cards: CardPhase,
    pub showdown: ShowdownPhase,
    pub betting: BettingPhase,
    /// Address bump of the hand record.
    pub bump: u8,
}

impl BettingPhase {
    /// This state with `seat` folded; unchanged for a number that is no seat.
    pub open spec fn with_folded(self, seat: u8) -> BettingPhase {
        if seat == 0 {
            BettingPhase { p1_folded: true, ..self }
        } else if seat == 1 {
            BettingPhase { p2_folded: true, ..self }
        } else {
            self
        }
    }

    /// This state with `seat` all-in; unchanged for a number that is no seat.
    pub open spec fn with_all_in(self, seat: u8) -> BettingPhase {
        if seat == 0 {
            BettingPhase { p1_all_in: true, ..self }
        } else if seat == 1 {
            BettingPhase { p2_all_in: true, ..self }
        } else {
            self
        }
    }

    /// This state after `seat` put `amount` into the pot: the amount is added to
    /// the seat's bet on this street, to its total and to the pot, each stopping at
    /// the greatest `u64`. For a number that is no seat only the pot grows.
    pub open spec fn with_bet(self, seat: u8, amount: u64) -> BettingPhase {
        let pot = saturating_sum(self.pot, amount);
        if seat == 0 {
            BettingPhase {
                p1_bet_this_street: saturating_sum(self.p1_bet_this_street, amount),
                p1_total_bet: saturating_sum(self.p1_total_bet, amount),
                pot,
                ..self
            }
        } else if seat == 1 {
            BettingPhase {
                p2_bet_this_street: saturating_sum(self.p2_bet_this_street, amount),
                p2_total_bet: saturating_sum(self.p2_total_bet, amount),
                pot,
                ..self
            }
        } else {
            BettingPhase { pot, ..self }
        }
    }

    /// This state with the acted flag of `seat` set to `acted`; unchanged for a
    /// number that is no seat.
    pub open spec fn with_acted(self, seat: u8, acted: bool) -> BettingPhase {
        if seat == 0 {
            BettingPhase { p1_acted_this_street: acted, ..self }
        } else if seat == 1 {
            BettingPhase { p2_acted_this_street: acted, ..self }
        } else {
            self
        }
    }

    /// This state at the start of a street: no bets on the street, nothing to
    /// match, nobody has acted and there is no aggressor. Totals and the pot stay.
    pub open spec fn street_reset(self) -> BettingPhase {
        BettingPhase {
            p1_bet_this_street: 0,
            p2_bet_this_street: 0,
            current_bet: 0,
            p1_acted_this_street: false,
            p2_acted_this_street: false,
            last_aggressor: NO_SEAT,
            ..self
        }
    }

    /// The pot is the sum of what both seats have bet in this hand, stopping at the
    /// greatest `u64` as every counter does.
    pub open spec fn pot_is_sum_of_bets(&self) -> bool {
        if self.p1_total_bet + self.p2_total_bet > u64::MAX {
            self.pot == u64::MAX
        } else {
            self.pot == self.p1_total_bet + self.p2_total_bet
        }
    }
}

impl Hand {
    /// The pot agrees with what the seats have bet: while the hand is open it is
    /// the sum of both totals, and once the hand is over it has been paid out.
    pub open spec fn pot_matches_bets(&self) -> bool {
        if self.stage == HandStage::Complete {
            self.betting.pot == 0
        } else {
            self.betting.pot_is_sum_of_bets()
        }
    }

    /// Nobody has folded while the hand is open, and never both seats.
    pub open spec fn folds_consistent(&self) -> bool {
        &&& !(self.betting.p1_folded && self.betting.p2_folded)
        &&& self.stage != HandStage::Complete ==> !self.betting.p1_folded
            && !self.betting.p2_folded
    }

    /// No seat has bet more on this street than the bet to match.
    pub open spec fn bets_within_current(&self) -> bool {
        &&& self.betting.p1_bet_this_street <= self.betting.current_bet
        &&& self.betting.p2_bet_this_street <= self.betting.current_bet
    }

    /// Community cards are on the table in order: a street is revealed only after
    /// the one before it and only once betting has reached it; a revealed card is
    /// a card of the deck and a hidden one holds the placeholder.
    pub open spec fn reveals_in_order(&self) -> bool {
        &&& self.cards.turn_revealed ==> self.cards.flop_revealed
        &&& self.cards.river_revealed ==> self.cards.turn_revealed
        &&& self.cards.flop_revealed ==> self.stage.rank() >= HandStage::Flop.rank()
        &&& self.cards.turn_revealed ==> self.stage.rank() >= HandStage::Turn.rank()
        &&& self.cards.river_revealed ==> self.stage.rank() >= HandStage::River.rank()
        &&& forall|i: int|
            0 <= i < 3 ==> if self.cards.flop_revealed {
                #[trigger] self.cards.flop[i] < DECK_SIZE
            } else {
                self.cards.flop[i] == CARD_NOT_REVEALED
            }
        &&& if self.cards.turn_revealed {
            self.cards.turn < DECK_SIZE
        } else {
            self.cards.turn == CARD_NOT_REVEALED
        }
        &&& if self.cards.river_revealed {
            self.cards.river < DECK_SIZE
        } else {
            self.cards.river == CARD_NOT_REVEALED
        }
    }

    /// What holds of a hand at every moment, also between a fold and the
    /// settlement that follows it: the pot matches the bets, no seat has bet more
    /// than the bet to match, community cards are in order, the action is on a
    /// seat, and the two seats have not both folded.
    pub open spec fn wf_in_action(&self) -> bool {
        &&& self.pot_matches_bets()
        &&& self.bets_within_current()
        &&& self.reveals_in_order()
        &&& self.betting.action_on <= 1
        &&& !(self.betting.p1_folded && self.betting.p2_folded)
    }

    /// The record is one that the protocol can reach.
    pub open spec fn wf(&self) -> bool {
        &&& self.wf_in_action()
        &&& self.folds_consistent()
    }

    /// The hand that `init` leaves behind: nothing committed, revealed or bet.
    pub open spec fn fresh(table: [u8; 32], hand_number: u64, timestamp: i64, bump: u8) -> Hand {
        Hand {
            table,
            hand_number,
            stage: HandStage::SeedCommit,
            seeds: SeedPhase {
                seed_commit_one: filled32(0),
                seed_commit_two: filled32(0),
                seed_one: filled32(0),
                seed_two: filled32(0),
                deck_seed: filled32(0),
                p1_seed_committed: false,
                p2_seed_committed: false,
                p1_seed_revealed: false,
                p2_seed_revealed: false,
            },
            cards: CardPhase {
                p1_hole_commits: vstd::array::spec_array_fill_for_copy_type::<[u8; 32], 2>(
                    filled32(0),
                ),
                p2_hole_commits: vstd::array::spec_array_fill_for_copy_type::<[u8; 32], 2>(
                    filled32(0),
                ),
                p1_cards_committed: false,
                p2_cards_committed: false,
                flop: vstd::array::spec_array_fill_for_copy_type::<u8, 3>(CARD_NOT_REVEALED),
                turn: CARD_NOT_REVEALED,
                river: CARD_NOT_REVEALED,
                flop_revealed: false,
                turn_revealed: false,
                river_revealed: false,
            },
            showdown: ShowdownPhase {
                p1_hand_rank: 0,
                p2_hand_rank: 0,
                p1_revealed: false,
                p2_revealed: false,
                winner: NO_SEAT,
                pot_claimed: false,
            },
            betting: BettingPhase {
                pot: 0,
                current_bet: 0,
                p1_bet_this_street: 0,
                p2_bet_this_street: 0,
                p1_total_bet: 0,
                p2_total_bet: 0,
                action_on: 0,
                last_action_at: timestamp,
                last_aggressor: NO_SEAT,
                p1_folded: false,
                p2_folded: false,
                p1_all_in: false,
                p2_all_in: false,
                p1_acted_this_street: false,
                p2_acted_this_street: false,
            },
            bump,
        }
    }

    /// Resets the record to a hand that has just begun.
    pub fn init(&mut self, table: [u8; 32], hand_number: u64, timestamp: i64, bump: u8)
        ensures
            *final(self) == Hand::fresh(table, hand_number, timestamp, bump),
            final(self).wf(),
    {
        self.table = table;
        self.hand_number = hand_number;
        self.stage = HandStage::SeedCommit;
        self.seeds = SeedPhase {
            seed_commit_one: [0u8; 32],
            seed_commit_two: [0u8; 32],
            seed_one: [0u8; 32],
            seed_two: [0u8; 32],
            deck_seed: [0u8; 32],
            p1_seed_committed: false,
            p2_seed_committed: false,
            p1_seed_revealed: false,
            p2_seed_revealed: false,
        };
        self.cards = CardPhase {
            p1_hole_commits: [[0u8; 32]; 2],
            p2_hole_commits: [[0u8; 32]; 2],
            p1_cards_committed: false,
            p2_cards_committed: false,
            flop: [CARD_NOT_REVEALED; 3],
            turn: CARD_NOT_REVEALED,
            river: CARD_NOT_REVEALED,
            flop_revealed: false,
            turn_revealed: false,
            river_revealed: false,
        };
        self.showdown = ShowdownPhase {
            p1_hand_rank: 0,
            p2_hand_rank: 0,
            p1_revealed: false,
            p2_revealed: false,
            winner: NO_SEAT,
            pot_claimed: false,
        };
        self.betting = BettingPhase {
            pot: 0,
            current_bet: 0,
            p1_bet_this_street: 0,
            p2_bet_this_street: 0,
            p1_total_bet: 0,
            p2_total_bet: 0,
            action_on: 0,
            last_action_at: timestamp,
            last_aggressor: NO_SEAT,
            p1_folded: false,
            p2_folded: false,
            p1_all_in: false,
            p2_all_in: false,
            p1_acted_this_street: false,
            p2_acted_this_street: false,
        };
        self.bump = bump;
    }

    pub open spec fn spec_has_folded(&self, seat: u8) -> bool {
        if seat == 0 {
            self.betting.p1_folded
        } else if seat == 1 {
            self.betting.p2_folded
        } else {
            true
        }
    }

    /// Whether a seat has folded; a number that is no seat counts as folded.
    #[verifier::when_used_as_spec(spec_has_folded)]
    pub fn has_folded(&self, seat: u8) -> (folded: bool)
        ensures
            folded == self.spec_has_folded(seat),
    {
        match seat {
            0 => self.betting.p1_folded,
            1 => self.betting.p2_folded,
            _ => true,
        }
    }

    /// This hand with `seat` folded.
    pub open spec fn with_folded(self, seat: u8) -> Hand {
        Hand { betting: self.betting.with_folded(seat), ..self }
    }

    /// Marks a seat as folded. A number that is no seat changes nothing.
    pub fn set_folded(&mut self, seat: u8)
        ensures
            *final(self) == old(self).with_folded(seat),
    {
        match seat {
            0 => {
                self.betting.p1_folded = true;
            },
            1 => {
                self.betting.p2_folded = true;
            },
            _ => {},
        }
    }

    pub open spec fn spec_is_all_in(&self, seat: u8) -> bool {
        if seat == 0 {
            self.betting.p1_all_in
        } else if seat == 1 {
            self.betting.p2_all_in
        } else {
            false
        }
    }

    /// Whether a seat is all-in.
    #[verifier::when_used_as_spec(spec_is_all_in)]
    pub fn is_all_in(&self, seat: u8) -> (all_in: bool)
        ensures
            all_in == self.spec_is_all_in(seat),
    {
        match seat {
            0 => self.betting.p1_all_in,
            1 => self.betting.p2_all_in,
            _ => false,
        }
    }

    /// This hand with `seat` all-in.
    pub open spec fn with_all_in(self, seat: u8) -> Hand {
        Hand { betting: self.betting.with_all_in(seat), ..self }
    }

    /// Marks a seat as all-in. A number that is no seat changes nothing.
    pub fn set_all_in(&mut self, seat: u8)
        ensures
            *final(self) == old(self).with_all_in(seat),
    {
        match seat {
            0 => {
                self.betting.p1_all_in = true;
            },
            1 => {
                self.betting.p2_all_in = true;
            },
            _ => {},
        }
    }

    pub open spec fn spec_get_bet_this_street(&self, seat: u8) -> u64 {
        if seat == 0 {
            self.betting.p1_bet_this_street
        } else if seat == 1 {
            self.betting.p2_bet_this_street
        } else {
            0
        }
    }

    /// What a seat has bet on this street.
    #[verifier::when_used_as_spec(spec_get_bet_this_street)]
    pub fn get_bet_this_street(&self, seat: u8) -> (bet: u64)
        ensures
            bet == self.spec_get_bet_this_street(seat),
    {
        match seat {
            0 => self.betting.p1_bet_this_street,
            1 => self.betting.p2_bet_this_street,
            _ => 0,
        }
    }

    /// This hand after `seat` put `amount` into the pot.
    pub open spec fn with_bet(self, seat: u8, amount: u64) -> Hand {
        Hand { betting: self.betting.with_bet(seat, amount), ..self }
    }

    /// Moves `amount` from a seat into the pot: it is added to the seat's bet on
    /// this street, to its total and to the pot. The pot keeps matching the bets.
    pub fn add_bet(&mut self, seat: u8, amount: u64)
        ensures
            *final(self) == old(self).with_bet(seat, amount),
            old(self).betting.pot_is_sum_of_bets() && seat <= 1
                ==> final(self).betting.pot_is_sum_of_bets(),
    {
        match seat {
            0 => {
                self.betting.p1_bet_this_street = self.betting.p1_bet_this_street.saturating_add(
                    amount,
                );
                self.betting.p1_total_bet = self.betting.p1_total_bet.saturating_add(amount);
            },
            1 => {
                self.betting.p2_bet_this_street = self.betting.p2_bet_this_street.saturating_add(
                    amount,
                );
                self.betting.p2_total_bet = self.betting.p2_total_bet.saturating_add(amount);
            },
            _ => {},
        }
        self.betting.pot = self.betting.pot.saturating_add(amount);
    }

    pub open spec fn spec_has_acted_this_street(&self, seat: u8) -> bool {
        if seat == 0 {
            self.betting.p1_acted_this_street
        } else if seat == 1 {
            self.betting.p2_acted_this_street
        } else {
            false
        }
    }

    /// Whether a seat has acted on this street.
    #[verifier::when_used_as_spec(spec_has_acted_this_street)]
    pub fn has_acted_this_street(&self, seat: u8) -> (acted: bool)
        ensures
            acted == self.spec_has_acted_this_street(seat),
    {
        match seat {
            0 => self.betting.p1_acted_this_street,
            1 => self.betting.p2_acted_this_street,
            _ => false,
        }
    }

    /// This hand with the acted flag of `seat` set to `acted`.
    pub open spec fn with_acted(self, seat: u8, acted: bool) -> Hand {
        Hand { betting: self.betting.with_acted(seat, acted), ..self }
    }

    /// Records that a seat has acted on this street.
    pub fn set_acted_this_street(&mut self, seat: u8)
        ensures
            *final(self) == old(self).with_acted(seat, true),
    {
        match seat {
            0 => {
                self.betting.p1_acted_this_street = true;
            },
            1 => {
                self.betting.p2_acted_this_street = true;
            },
            _ => {},
        }
    }

    /// Reopens the action for a seat: it has to act again on this street.
    pub fn clear_acted_this_street(&mut self, seat: u8)
        ensures
            *final(self) == old(self).with_acted(seat, false),
    {
        match seat {
            0 => {
                self.betting.p1_acted_this_street = false;
            },
            1 => {
                self.betting.p2_acted_this_street = false;
            },
            _ => {},
        }
    }

    /// This hand at the start of a street.
    pub open spec fn street_reset(self) -> Hand {
        Hand { betting: self.betting.street_reset(), ..self }
    }

    /// Clears the betting state of the street: bets on the street, the bet to
    /// match, the acted flags and the aggressor. Totals and the pot stay.
    pub fn reset_street(&mut self)
        ensures
            *final(self) == old(self).street_reset(),
    {
        self.betting.p1_bet_this_street = 0;
        self.betting.p2_bet_this_street = 0;
        self.betting.current_bet = 0;
        self.betting.p1_acted_this_street = false;
        self.betting.p2_acted_this_street = false;
        self.betting.last_aggressor = NO_SEAT;
    }

    pub open spec fn spec_other_seat(&self, seat: u8) -> u8 {
        opposite_seat(seat)
    }

    /// The seat across from `seat`.
    #[verifier::when_used_as_spec(spec_other_seat)]
    pub fn other_seat(&self, seat: u8) -> (other: u8)
        ensures
            other == opposite_seat(seat),
            other <= 1,
    {
        if seat == 0 {
            1
        } else {
            0
        }
    }

    /// This hand with the action on `seat`.
    pub open spec fn with_action_on(self, seat: u8) -> Hand {
        Hand { betting: BettingPhase { action_on: seat, ..self.betting }, ..self }
    }

    /// Passes the action to the other seat.
    pub fn switch_action(&mut self)
        ensures
            *final(self) == old(self).with_action_on(opposite_seat(old(self).betting.action_on)),
    {
        self.betting.action_on = self.other_seat(self.betting.action_on);
    }

    pub open spec fn spec_is_betting_complete(&self) -> bool {
        ||| self.betting.p1_all_in && self.betting.p2_all_in
        ||| {
            &&& self.betting.p1_acted_this_street
            &&& self.betting.p2_acted_this_street
            &&& self.betting.p1_bet_this_street == self.betting.p2_bet_this_street
        }
    }

    /// Whether the betting round is closed: both seats are all-in, or both have
    /// acted on this street and have bet the same.
    #[verifier::when_used_as_spec(spec_is_betting_complete)]
    pub fn is_betting_complete(&self) -> (complete: bool)
        ensures
            complete == self.spec_is_betting_complete(),
    {
        if self.betting.p1_all_in && self.betting.p2_all_in {
            return true;
        }
        let both_acted = self.betting.p1_acted_this_street && self.betting.p2_acted_this_street;
        let bets_equal = self.betting.p1_bet_this_street == self.betting.p2_bet_this_street;
        both_acted && bets_equal
    }

    pub open spec fn spec_remaining_players(&self) -> u8 {
        if self.betting.p1_folded && self.betting.p2_folded {
            0
        } else if self.betting.p1_folded || self.betting.p2_folded {
            1
        } else {
            2
        }
    }

    /// How many seats have not folded.
    #[verifier::when_used_as_spec(spec_remaining_players)]
    pub fn remaining_players(&self) -> (count: u8)
        ensures
            count == self.spec_remaining_players(),
    {
        let mut count: u8 = 0;
        if !self.betting.p1_folded {
            count += 1;
        }
        if !self.betting.p2_folded {
            count += 1;
        }
        count
    }

    pub open spec fn spec_non_folded_seat(&self) -> Option<u8> {
        if self.betting.p1_folded && !self.betting.p2_folded {
            Some(1u8)
        } else if !self.betting.p1_folded && self.betting.p2_folded {
            Some(0u8)
        } else {
            None
        }
    }

    /// The seat left in the hand when exactly one seat has folded.
    #[verifier::when_used_as_spec(spec_non_folded_seat)]
    pub fn non_folded_seat(&self) -> (seat: Option<u8>)
        ensures
            seat == self.spec_non_folded_seat(),
            seat is Some <==> self.spec_remaining_players() == 1,
            seat matches Some(s) ==> s <= 1 && !self.spec_has_folded(s),
    {
        if self.betting.p1_folded && !self.betting.p2_folded {
            Some(1)
        } else if !self.betting.p1_folded && self.betting.p2_folded {
            Some(0)
        } else {
            None
        }
    }

    /// This hand with `now` as the time of the last action.
    pub open spec fn touched(self, now: i64) -> Hand {
        Hand { betting: BettingPhase { last_action_at: now, ..self.betting }, ..self }
    }

    /// Records `now` as the time of the last action; the deadline of the next one
    /// runs from here.
    pub fn touch(&mut self, now: i64)
        ensures
            *final(self) == old(self).touched(now),
    {
        self.betting.last_action_at = now;
    }

    /// This hand in another stage.
    pub open spec fn with_stage(self, stage: HandStage) -> Hand {
        Hand { stage, ..self }
    }

    /// Whether `seat` has committed a seed. A number that is no seat has not.
    pub open spec fn seed_committed(&self, seat: u8) -> bool {
        if seat == 0 {
            self.seeds.p1_seed_committed
        } else {
            seat == 1 && self.seeds.p2_seed_committed
        }
    }

    /// Whether `seat` has revealed its seed.
    pub open spec fn seed_revealed(&self, seat: u8) -> bool {
        if seat == 0 {
            self.seeds.p1_seed_revealed
        } else {
            seat == 1 && self.seeds.p2_seed_revealed
        }
    }

    /// The seed commitment stored for seat 0 or, for any other number, for seat 1.
    pub open spec fn seed_commitment(&self, seat: u8) -> [u8; 32] {
        if seat == 0 {
            self.seeds.seed_commit_one
        } else {
            self.seeds.seed_commit_two
        }
    }

    /// Whether `seat` has committed its hole cards.
    pub open spec fn cards_committed(&self, seat: u8) -> bool {
        if seat == 0 {
            self.cards.p1_cards_committed
        } else {
            seat == 1 && self.cards.p2_cards_committed
        }
    }

    /// The hole-card commitments stored for seat 0 or, for any other number, for
    /// seat 1.
    pub open spec fn hole_commits(&self, seat: u8) -> [[u8; 32]; 2] {
        if seat == 0 {
            self.cards.p1_hole_commits
        } else {
            self.cards.p2_hole_commits
        }
    }

    /// Whether `seat` has shown its hand rank.
    pub open spec fn rank_revealed(&self, seat: u8) -> bool {
        if seat == 0 {
            self.showdown.p1_revealed
        } else {
            seat == 1 && self.showdown.p2_revealed
        }
    }
}

} // verus!
