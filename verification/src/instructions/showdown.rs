//! Showdown: each seat shows its proved hand rank, the higher rank wins, and the
//! pot is claimed.

use vstd::prelude::*;
use crate::constants::{NO_SEAT, SHOWDOWN_VERIFIER_PROGRAM_ID, SPLIT_POT};
use crate::errors::{outcome, ZkPokerError};
use crate::state::hand::{BettingPhase, CardPhase, Hand, HandStage, ShowdownPhase};
use crate::state::table::Table;
use crate::utils::verification::{groth16_request, hand_reveal_inputs, verify_hand_reveal};

verus! {

/// The five community cards in the order in which they came: flop, turn, river.
pub open spec fn community_cards(cards: CardPhase) -> Seq<u8> {
    seq![cards.flop[0], cards.flop[1], cards.flop[2], cards.turn, cards.river]
}

/// Why a hand reveal is refused, if it is: the caller must be seated, the hand
/// must be in `Showdown`, the seat must not have folded nor shown before, the
/// request to the showdown verifier must be well-formed, and the verifier must have
/// accepted it.
pub open spec fn reveal_hand_error(
    table: Table,
    hand: Hand,
    player: [u8; 32],
    verifier_program: [u8; 32],
    hand_rank: u64,
    proof: Seq<u8>,
    accepted: bool,
) -> Option<ZkPokerError> {
    match table.spec_get_seat(&player) {
        None => Some(ZkPokerError::PlayerNotAtTable),
        Some(seat) => if hand.stage != HandStage::Showdown {
            Some(ZkPokerError::InvalidStage)
        } else if hand.spec_has_folded(seat) {
            Some(ZkPokerError::AlreadyFolded)
        } else if hand.rank_revealed(seat) {
            Some(ZkPokerError::HandAlreadyRevealed)
        } else {
            match groth16_request(
                verifier_program,
                SHOWDOWN_VERIFIER_PROGRAM_ID,
                proof,
                hand_reveal_inputs(hand.hole_commits(seat), community_cards(hand.cards), hand_rank),
            ) {
                Err(e) => Some(e),
                Ok(_) => if !accepted {
                    Some(ZkPokerError::ProofVerificationFailed)
                } else {
                    None
                },
            }
        },
    }
}

/// The showdown after `seat` showed `hand_rank`.
pub open spec fn rank_shown_by(showdown: ShowdownPhase, seat: u8, hand_rank: u64) -> ShowdownPhase {
    if seat == 0 {
        ShowdownPhase { p1_hand_rank: hand_rank, p1_revealed: true, ..showdown }
    } else if seat == 1 {
        ShowdownPhase { p2_hand_rank: hand_rank, p2_revealed: true, ..showdown }
    } else {
        showdown
    }
}

/// The winner that two shown ranks determine: the seat with the higher rank, or a
/// split pot where the ranks are equal.
pub open spec fn winner_by_rank(showdown: ShowdownPhase) -> u8 {
    if showdown.p1_hand_rank > showdown.p2_hand_rank {
        0
    } else if showdown.p2_hand_rank > showdown.p1_hand_rank {
        1
    } else {
        SPLIT_POT
    }
}

/// The hand after `seat` showed `hand_rank` at time `now`: the rank is stored, and
/// once both seats have shown, the winner is decided.
pub open spec fn reveal_hand_hand(hand: Hand, seat: u8, hand_rank: u64, now: i64) -> Hand {
    let shown = rank_shown_by(hand.showdown, seat, hand_rank);
    Hand {
        showdown: if shown.p1_revealed && shown.p2_revealed {
            ShowdownPhase { winner: winner_by_rank(shown), ..shown }
        } else {
            shown
        },
        ..hand.touched(now)
    }
}

/// Decides the showdown from the two shown ranks.
pub fn determine_winner(hand: &mut Hand)
    ensures
        *final(hand) == (Hand {
            showdown: ShowdownPhase {
                winner: winner_by_rank(old(hand).showdown),
                ..old(hand).showdown
            },
            ..*old(hand)
        }),
        final(hand).showdown.winner <= SPLIT_POT,
{
    if hand.showdown.p1_hand_rank > hand.showdown.p2_hand_rank {
        hand.showdown.winner = 0;
    } else if hand.showdown.p2_hand_rank > hand.showdown.p1_hand_rank {
        hand.showdown.winner = 1;
    } else {
        hand.showdown.winner = SPLIT_POT;
    }
}

/// Shows a seat's hand rank.
///
/// `accepted` is the answer of the showdown verifier to the request that
/// `verify_hand_reveal` builds from the seat's hole-card commitments, the five
/// community cards, the rank and the proof. Each seat shows once.
pub fn handle_reveal_hand(
    table: &Table,
    hand: &mut Hand,
    player: &[u8; 32],
    verifier_program: &[u8; 32],
    hand_rank: u64,
    proof: &[u8],
    accepted: bool,
    now: i64,
) -> (res: Result<(), ZkPokerError>)
    ensures
        res == outcome(
            reveal_hand_error(
                *table,
                *old(hand),
                *player,
                *verifier_program,
                hand_rank,
                proof@,
                accepted,
            ),
        ),
        res is Err ==> *final(hand) == *old(hand),
        res is Ok ==> *final(hand) == reveal_hand_hand(
            *old(hand),
            table.spec_get_seat(player)->0,
            hand_rank,
            now,
        ),
        !accepted ==> res is Err,
        final(hand).stage == old(hand).stage,
        old(hand).wf() ==> final(hand).wf(),
{
    let seat = match table.get_seat(player) {
        Some(seat) => seat,
        None => {
            return Err(ZkPokerError::PlayerNotAtTable);
        },
    };
    if hand.stage != HandStage::Showdown {
        return Err(ZkPokerError::InvalidStage);
    }
    if hand.has_folded(seat) {
        return Err(ZkPokerError::AlreadyFolded);
    }
    let already_revealed = if seat == 0 {
        hand.showdown.p1_revealed
    } else {
        hand.showdown.p2_revealed
    };
    if already_revealed {
        return Err(ZkPokerError::HandAlreadyRevealed);
    }
    let commitments = if seat == 0 {
        hand.cards.p1_hole_commits
    } else {
        hand.cards.p2_hole_commits
    };
    let community: [u8; 5] = [
        hand.cards.flop[0],
        hand.cards.flop[1],
        hand.cards.flop[2],
        hand.cards.turn,
        hand.cards.river,
    ];
    assert(community@ =~= community_cards(hand.cards));
    match verify_hand_reveal(verifier_program, &commitments, &community, hand_rank, proof) {
        Ok(_) => {},
        Err(e) => {
            return Err(e);
        },
    }
    if !accepted {
        return Err(ZkPokerError::ProofVerificationFailed);
    }
    if seat == 0 {
        hand.showdown.p1_hand_rank = hand_rank;
        hand.showdown.p1_revealed = true;
    } else {
        hand.showdown.p2_hand_rank = hand_rank;
        hand.showdown.p2_revealed = true;
    }
    hand.touch(now);
    if hand.showdown.p1_revealed && hand.showdown.p2_revealed {
        determine_winner(hand);
    }
    Ok(())
}

/// Why a claim of the pot is refused, if it is. The caller must be seated, the
/// hand must be in `Showdown` or `Complete`, and the pot must not have been
/// claimed. After a fold only the seat that is left may claim. Otherwise both seats
/// must have shown their hands and the winner must be decided; a split pot may be
/// claimed by either seat, any other only by its winner.
pub open spec fn claim_pot_error(table: Table, hand: Hand, player: [u8; 32]) -> Option<
    ZkPokerError,
> {
    match table.spec_get_seat(&player) {
        None => Some(ZkPokerError::PlayerNotAtTable),
        Some(seat) => if hand.stage != HandStage::Showdown && hand.stage != HandStage::Complete {
            Some(ZkPokerError::InvalidStage)
        } else if hand.showdown.pot_claimed {
            Some(ZkPokerError::PotAlreadyClaimed)
        } else if hand.spec_remaining_players() == 1 {
            if hand.spec_non_folded_seat() != Some(seat) {
                Some(ZkPokerError::NotTheWinner)
            } else {
                None
            }
        } else if !(hand.showdown.p1_revealed && hand.showdown.p2_revealed) {
            Some(ZkPokerError::PlayersNotRevealed)
        } else if hand.showdown.winner == NO_SEAT {
            Some(ZkPokerError::ShowdownNotReady)
        } else if hand.showdown.winner == SPLIT_POT {
            None
        } else if seat != hand.showdown.winner {
            Some(ZkPokerError::NotTheWinner)
        } else {
            None
        },
    }
}

/// The share of seat 0 in a split pot: half, and the odd chip if there is one.
pub open spec fn first_share(pot: u64) -> u64 {
    (pot / 2 + pot % 2) as u64
}

/// The share of seat 1 in a split pot: half, rounded down.
pub open spec fn second_share(pot: u64) -> u64 {
    pot / 2
}

/// The table after the pot of `hand` was paid out and the hand closed: the pot
/// goes to the seat that is left after a fold, to both seats in a split, and to the
/// winner otherwise.
pub open spec fn claim_pot_table(table: Table, hand: Hand) -> Table {
    let pot = hand.betting.pot;
    let paid = if hand.spec_remaining_players() == 1 {
        table.with_added_chips(hand.spec_non_folded_seat()->0, pot)
    } else if hand.showdown.winner == SPLIT_POT {
        table.with_added_chips(0, first_share(pot)).with_added_chips(1, second_share(pot))
    } else {
        table.with_added_chips(hand.showdown.winner, pot)
    };
    paid.after_hand()
}

/// The hand after its pot was claimed: empty pot, claimed, complete.
pub open spec fn claim_pot_hand(hand: Hand) -> Hand {
    Hand {
        stage: HandStage::Complete,
        showdown: ShowdownPhase { pot_claimed: true, ..hand.showdown },
        betting: BettingPhase { pot: 0, ..hand.betting },
        ..hand
    }
}

/// Pays the pot out and closes the hand. A pot is claimed once.
pub fn handle_claim_pot(table: &mut Table, hand: &mut Hand, player: &[u8; 32]) -> (res: Result<
    (),
    ZkPokerError,
>)
    ensures
        res == outcome(claim_pot_error(*old(table), *old(hand), *player)),
        res is Err ==> *final(table) == *old(table) && *final(hand) == *old(hand),
        res is Ok ==> *final(hand) == claim_pot_hand(*old(hand)) && *final(table)
            == claim_pot_table(*old(table), *old(hand)),
        // what is paid out is what both seats have bet
        res is Ok && old(hand).wf() && old(hand).stage == HandStage::Showdown
            ==> old(hand).betting.pot_is_sum_of_bets(),
        // the two shares of a split pot make up the pot, and the odd chip is seat 0's
        first_share(old(hand).betting.pot) + second_share(old(hand).betting.pot)
            == old(hand).betting.pot,
        second_share(old(hand).betting.pot) <= first_share(old(hand).betting.pot)
            <= second_share(old(hand).betting.pot) + 1,
        old(hand).showdown.pot_claimed ==> res is Err,
        old(hand).stage.may_lead_to(final(hand).stage),
        old(hand).wf() ==> final(hand).wf(),
        old(table).wf() ==> final(table).wf(),
{
    let seat = match table.get_seat(player) {
        Some(seat) => seat,
        None => {
            return Err(ZkPokerError::PlayerNotAtTable);
        },
    };
    if hand.stage != HandStage::Showdown && hand.stage != HandStage::Complete {
        return Err(ZkPokerError::InvalidStage);
    }
    if hand.showdown.pot_claimed {
        return Err(ZkPokerError::PotAlreadyClaimed);
    }
    let fold_win = hand.remaining_players() == 1;
    if fold_win {
        let winner = match hand.non_folded_seat() {
            Some(winner) => winner,
            None => {
                return Err(ZkPokerError::NotTheWinner);
            },
        };
        if seat != winner {
            return Err(ZkPokerError::NotTheWinner);
        }
        table.add_chips(winner, hand.betting.pot);
    } else {
        if !(hand.showdown.p1_revealed && hand.showdown.p2_revealed) {
            return Err(ZkPokerError::PlayersNotRevealed);
        }
        if hand.showdown.winner == NO_SEAT {
            return Err(ZkPokerError::ShowdownNotReady);
        }
        if hand.showdown.winner == SPLIT_POT {
            let half = hand.betting.pot / 2;
            let remainder = hand.betting.pot % 2;
            table.add_chips(0, half + remainder);
            table.add_chips(1, half);
        } else {
            if seat != hand.showdown.winner {
                return Err(ZkPokerError::NotTheWinner);
            }
            table.add_chips(hand.showdown.winner, hand.betting.pot);
        }
    }
    hand.betting.pot = 0;
    hand.showdown.pot_claimed = true;
    hand.stage = HandStage::Complete;
    table.finish_hand();
    Ok(())
}

} // verus!
