use zk_poker::state::hand::{
    BettingPhase, CardPhase, Hand, HandStage, SeedPhase, ShowdownPhase,
};

fn used_hand() -> Hand {
    Hand {
        table: [9; 32],
        hand_number: 9,
        stage: HandStage::River,
        seeds: SeedPhase {
            seed_commit_one: [9; 32],
            seed_commit_two: [9; 32],
            seed_one: [9; 32],
            seed_two: [9; 32],
            deck_seed: [9; 32],
            p1_seed_committed: true,
            p2_seed_committed: true,
            p1_seed_revealed: true,
            p2_seed_revealed: true,
        },
        cards: CardPhase {
            p1_hole_commits: [[9; 32]; 2],
            p2_hole_commits: [[9; 32]; 2],
            p1_cards_committed: true,
            p2_cards_committed: true,
            flop: [1, 2, 3],
            turn: 4,
            river: 5,
            flop_revealed: true,
            turn_revealed: true,
            river_revealed: true,
        },
        showdown: ShowdownPhase {
            p1_hand_rank: 9,
            p2_hand_rank: 9,
            p1_revealed: true,
            p2_revealed: true,
            winner: 1,
            pot_claimed: true,
        },
        betting: BettingPhase {
            pot: 9,
            current_bet: 9,
            p1_bet_this_street: 9,
            p2_bet_this_street: 9,
            p1_total_bet: 9,
            p2_total_bet: 9,
            action_on: 1,
            last_action_at: 9,
            last_aggressor: 1,
            p1_folded: true,
            p2_folded: true,
            p1_all_in: true,
            p2_all_in: true,
            p1_acted_this_street: true,
            p2_acted_this_street: true,
        },
        bump: 9,
    }
}

fn fresh_hand() -> Hand {
    let mut hand = used_hand();
    hand.init([7; 32], 12, 1000, 3);
    hand
}

#[test]
fn init_clears_the_hand() {
    assert_eq!(
        fresh_hand(),
        Hand {
            table: [7; 32],
            hand_number: 12,
            stage: HandStage::SeedCommit,
            seeds: SeedPhase {
                seed_commit_one: [0; 32],
                seed_commit_two: [0; 32],
                seed_one: [0; 32],
                seed_two: [0; 32],
                deck_seed: [0; 32],
                p1_seed_committed: false,
                p2_seed_committed: false,
                p1_seed_revealed: false,
                p2_seed_revealed: false,
            },
            cards: CardPhase {
                p1_hole_commits: [[0; 32]; 2],
                p2_hole_commits: [[0; 32]; 2],
                p1_cards_committed: false,
                p2_cards_committed: false,
                flop: [255; 3],
                turn: 255,
                river: 255,
                flop_revealed: false,
                turn_revealed: false,
                river_revealed: false,
            },
            showdown: ShowdownPhase {
                p1_hand_rank: 0,
                p2_hand_rank: 0,
                p1_revealed: false,
                p2_revealed: false,
                winner: 255,
                pot_claimed: false,
            },
            betting: BettingPhase {
                pot: 0,
                current_bet: 0,
                p1_bet_this_street: 0,
                p2_bet_this_street: 0,
                p1_total_bet: 0,
                p2_total_bet: 0,
                action_on: 0,
                last_action_at: 1000,
                last_aggressor: 255,
                p1_folded: false,
                p2_folded: false,
                p1_all_in: false,
                p2_all_in: false,
                p1_acted_this_street: false,
                p2_acted_this_street: false,
            },
            bump: 3,
        }
    );
}

#[test]
fn stages_follow_one_another() {
    assert_eq!(HandStage::default(), HandStage::SeedCommit);
    assert_eq!(HandStage::Preflop.next_betting_stage(), Some(HandStage::Flop));
    assert_eq!(HandStage::Flop.next_betting_stage(), Some(HandStage::Turn));
    assert_eq!(HandStage::Turn.next_betting_stage(), Some(HandStage::River));
    assert_eq!(HandStage::River.next_betting_stage(), Some(HandStage::Showdown));
    for stage in [
        HandStage::SeedCommit,
        HandStage::SeedReveal,
        HandStage::CardCommit,
        HandStage::Showdown,
        HandStage::Complete,
    ] {
        assert_eq!(stage.next_betting_stage(), None);
        assert!(!stage.is_betting_stage());
    }
    for stage in [HandStage::Preflop, HandStage::Flop, HandStage::Turn, HandStage::River] {
        assert!(stage.is_betting_stage());
    }
}

#[test]
fn folds_are_kept_per_seat() {
    let mut hand = fresh_hand();
    assert!(!hand.has_folded(0));
    assert!(!hand.has_folded(1));
    assert!(hand.has_folded(2));
    assert_eq!(hand.remaining_players(), 2);
    assert_eq!(hand.non_folded_seat(), None);
    hand.set_folded(2);
    assert_eq!(hand, fresh_hand());
    hand.set_folded(1);
    assert!(hand.has_folded(1));
    assert!(!hand.has_folded(0));
    assert_eq!(hand.remaining_players(), 1);
    assert_eq!(hand.non_folded_seat(), Some(0));
    hand.set_folded(0);
    assert_eq!(hand.remaining_players(), 0);
    assert_eq!(hand.non_folded_seat(), None);
    let mut hand = fresh_hand();
    hand.set_folded(0);
    assert_eq!(hand.non_folded_seat(), Some(1));
}

#[test]
fn all_in_is_kept_per_seat() {
    let mut hand = fresh_hand();
    assert!(!hand.is_all_in(0));
    assert!(!hand.is_all_in(2));
    hand.set_all_in(2);
    assert_eq!(hand, fresh_hand());
    hand.set_all_in(0);
    assert!(hand.is_all_in(0));
    assert!(!hand.is_all_in(1));
    hand.set_all_in(1);
    assert!(hand.is_all_in(1));
}

#[test]
fn acted_flags_are_kept_per_seat() {
    let mut hand = fresh_hand();
    assert!(!hand.has_acted_this_street(0));
    assert!(!hand.has_acted_this_street(3));
    hand.set_acted_this_street(3);
    assert_eq!(hand, fresh_hand());
    hand.set_acted_this_street(0);
    hand.set_acted_this_street(1);
    assert!(hand.has_acted_this_street(0));
    assert!(hand.has_acted_this_street(1));
    hand.clear_acted_this_street(0);
    assert!(!hand.has_acted_this_street(0));
    assert!(hand.has_acted_this_street(1));
    hand.clear_acted_this_street(1);
    hand.clear_acted_this_street(9);
    assert_eq!(hand, fresh_hand());
}

#[test]
fn a_bet_goes_to_the_street_the_total_and_the_pot() {
    let mut hand = fresh_hand();
    hand.add_bet(0, 5);
    hand.add_bet(1, 7);
    hand.add_bet(0, 1);
    assert_eq!(hand.get_bet_this_street(0), 6);
    assert_eq!(hand.get_bet_this_street(1), 7);
    assert_eq!(hand.get_bet_this_street(2), 0);
    assert_eq!(hand.betting.p1_total_bet, 6);
    assert_eq!(hand.betting.p2_total_bet, 7);
    assert_eq!(hand.betting.pot, 13);
    hand.add_bet(4, 2);
    assert_eq!(hand.betting.pot, 15);
    assert_eq!(hand.betting.p1_total_bet, 6);
    assert_eq!(hand.betting.p2_total_bet, 7);
}

#[test]
fn bets_saturate() {
    let mut hand = fresh_hand();
    hand.add_bet(0, u64::MAX - 1);
    hand.add_bet(1, 5);
    assert_eq!(hand.betting.pot, u64::MAX);
    assert_eq!(hand.betting.p1_total_bet, u64::MAX - 1);
    assert_eq!(hand.betting.p2_total_bet, 5);
    hand.add_bet(0, 9);
    assert_eq!(hand.betting.p1_total_bet, u64::MAX);
    assert_eq!(hand.betting.p1_bet_this_street, u64::MAX);
    assert_eq!(hand.betting.pot, u64::MAX);
}

#[test]
fn reset_street_keeps_pot_and_totals() {
    let mut hand = fresh_hand();
    hand.add_bet(0, 5);
    hand.add_bet(1, 7);
    hand.betting.current_bet = 7;
    hand.betting.last_aggressor = 1;
    hand.set_acted_this_street(0);
    hand.set_acted_this_street(1);
    hand.set_all_in(1);
    hand.betting.action_on = 1;
    hand.reset_street();
    let mut expected = fresh_hand();
    expected.betting.pot = 12;
    expected.betting.p1_total_bet = 5;
    expected.betting.p2_total_bet = 7;
    expected.betting.p2_all_in = true;
    expected.betting.action_on = 1;
    assert_eq!(hand, expected);
}

#[test]
fn the_action_switches_between_the_seats() {
    let mut hand = fresh_hand();
    assert_eq!(hand.other_seat(0), 1);
    assert_eq!(hand.other_seat(1), 0);
    assert_eq!(hand.other_seat(200), 0);
    hand.switch_action();
    assert_eq!(hand.betting.action_on, 1);
    hand.switch_action();
    assert_eq!(hand, fresh_hand());
}

#[test]
fn touch_notes_the_time() {
    let mut hand = fresh_hand();
    hand.touch(-5);
    assert_eq!(hand.betting.last_action_at, -5);
    hand.touch(1000);
    assert_eq!(hand, fresh_hand());
}

#[test]
fn the_round_is_closed_by_equal_bets_of_two_seats_that_acted() {
    let mut hand = fresh_hand();
    assert!(!hand.is_betting_complete());
    hand.set_acted_this_street(0);
    assert!(!hand.is_betting_complete());
    hand.set_acted_this_street(1);
    assert!(hand.is_betting_complete());
    hand.add_bet(0, 5);
    assert!(!hand.is_betting_complete());
    hand.add_bet(1, 5);
    assert!(hand.is_betting_complete());
}

#[test]
fn the_round_is_closed_when_both_seats_are_all_in() {
    let mut hand = fresh_hand();
    hand.add_bet(0, 5);
    hand.set_all_in(0);
    assert!(!hand.is_betting_complete());
    hand.set_all_in(1);
    assert!(hand.is_betting_complete());
}

#[test]
fn a_fold_alone_does_not_close_the_round() {
    let mut hand = fresh_hand();
    hand.set_folded(0);
    assert!(!hand.is_betting_complete());
}
