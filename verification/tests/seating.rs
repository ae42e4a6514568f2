use zk_poker::constants::{
    BET_VERIFIER_PROGRAM_ID, DEAL_VERIFIER_PROGRAM_ID, DECK_VERIFIER_PROGRAM_ID,
    REVEAL_VERIFIER_PROGRAM_ID, SHOWDOWN_VERIFIER_PROGRAM_ID,
};
use zk_poker::errors::ZkPokerError;
use zk_poker::instructions::admin::{handle_initialize, handle_pause, handle_unpause};
use zk_poker::instructions::table::{
    handle_add_chips, handle_create_table, handle_join_table, handle_leave_table,
};
use zk_poker::state::global::GlobalConfig;
use zk_poker::state::table::{Table, TableStatus};

const ALICE: [u8; 32] = [0xA1; 32];
const BOB: [u8; 32] = [0xB2; 32];
const CAROL: [u8; 32] = [0xC3; 32];

fn blank_table() -> Table {
    Table {
        table_id: 77,
        small_blind: 9,
        big_blind: 9,
        min_buy_in: 9,
        max_buy_in: 9,
        action_timeout: 9,
        player_one: Some([9; 32]),
        player_two: Some([8; 32]),
        player_one_chips: 9,
        player_two_chips: 9,
        button: 1,
        status: TableStatus::Playing,
        current_hand: Some([7; 32]),
        hands_played: 9,
        created_at: 9,
        bump: 9,
    }
}

fn blank_config() -> GlobalConfig {
    GlobalConfig {
        authority: [1; 32],
        usdc_mint: [2; 32],
        deck_verifier: [3; 32],
        deal_verifier: [4; 32],
        reveal_verifier: [5; 32],
        showdown_verifier: [6; 32],
        bet_verifier: [7; 32],
        table_count: 5,
        is_paused: true,
        bump: 8,
    }
}

fn new_table() -> Table {
    let mut config = blank_config();
    let mut table = blank_table();
    handle_create_table(&mut config, &mut table, 5, 10, 100, 1000, Some(60), 1234, 2).unwrap();
    table
}

// ---------------------------------------------------------------------------
// administration
// ---------------------------------------------------------------------------

#[test]
fn initialize_sets_the_verifiers() {
    let mut config = blank_config();
    handle_initialize(&mut config, ALICE, BOB, 250);
    assert_eq!(
        config,
        GlobalConfig {
            authority: ALICE,
            usdc_mint: BOB,
            deck_verifier: DECK_VERIFIER_PROGRAM_ID,
            deal_verifier: DEAL_VERIFIER_PROGRAM_ID,
            reveal_verifier: REVEAL_VERIFIER_PROGRAM_ID,
            showdown_verifier: SHOWDOWN_VERIFIER_PROGRAM_ID,
            bet_verifier: BET_VERIFIER_PROGRAM_ID,
            table_count: 0,
            is_paused: false,
            bump: 250,
        }
    );
}

#[test]
fn verifier_addresses_are_the_published_ones() {
    assert_eq!(DECK_VERIFIER_PROGRAM_ID[..4], [70, 213, 85, 133]);
    assert_eq!(DEAL_VERIFIER_PROGRAM_ID[..4], [188, 4, 82, 55]);
    assert_eq!(REVEAL_VERIFIER_PROGRAM_ID[..4], [127, 3, 165, 16]);
    assert_eq!(SHOWDOWN_VERIFIER_PROGRAM_ID[..4], [102, 176, 76, 67]);
    assert_eq!(BET_VERIFIER_PROGRAM_ID[..4], [85, 137, 230, 208]);
}

#[test]
fn pause_and_unpause_set_the_flag_only() {
    let mut config = blank_config();
    config.is_paused = false;
    let before = config;
    handle_pause(&mut config);
    assert!(config.is_paused);
    handle_pause(&mut config);
    assert!(config.is_paused);
    handle_unpause(&mut config);
    assert_eq!(config, before);
}

#[test]
fn next_table_id_counts_up_and_saturates() {
    let mut config = blank_config();
    assert_eq!(config.next_table_id(), 5);
    assert_eq!(config.next_table_id(), 6);
    assert_eq!(config.table_count, 7);
    config.table_count = u64::MAX;
    assert_eq!(config.next_table_id(), u64::MAX);
    assert_eq!(config.table_count, u64::MAX);
}

// ---------------------------------------------------------------------------
// creating a table
// ---------------------------------------------------------------------------

#[test]
fn create_table_makes_an_empty_table() {
    let mut config = blank_config();
    let mut table = blank_table();
    handle_create_table(&mut config, &mut table, 5, 10, 100, 1000, Some(60), 1234, 2).unwrap();
    assert_eq!(
        table,
        Table {
            table_id: 5,
            small_blind: 5,
            big_blind: 10,
            min_buy_in: 100,
            max_buy_in: 1000,
            action_timeout: 60,
            player_one: None,
            player_two: None,
            player_one_chips: 0,
            player_two_chips: 0,
            button: 0,
            status: TableStatus::Waiting,
            current_hand: None,
            hands_played: 0,
            created_at: 1234,
            bump: 2,
        }
    );
    assert_eq!(config.table_count, 6);
}

#[test]
fn create_table_defaults_the_timeout_to_thirty_seconds() {
    let mut config = blank_config();
    let mut table = blank_table();
    handle_create_table(&mut config, &mut table, 5, 10, 100, 1000, None, 1234, 2).unwrap();
    assert_eq!(table.action_timeout, 30);
}

#[test]
fn create_table_refuses_bad_blinds_and_buy_ins() {
    let mut config = blank_config();
    let mut table = blank_table();
    let before = (config, table);
    let cases: [(u64, u64, u64, u64); 6] = [
        (0, 10, 100, 1000),
        (11, 10, 110, 1000),
        (5, 10, 99, 1000),
        (5, 10, 100, 99),
        (1, u64::MAX / 10 + 1, u64::MAX, u64::MAX),
        (1, u64::MAX, u64::MAX, u64::MAX),
    ];
    for (sb, bb, min, max) in cases {
        let res = handle_create_table(&mut config, &mut table, sb, bb, min, max, None, 0, 0);
        assert_eq!(res, Err(ZkPokerError::InvalidTableConfig));
        assert_eq!((config, table), before);
    }
    handle_create_table(&mut config, &mut table, 10, 10, 100, 100, None, 0, 0).unwrap();
}

#[test]
fn create_table_refuses_a_timeout_out_of_range() {
    let mut config = blank_config();
    let mut table = blank_table();
    let before = (config, table);
    for timeout in [9, 121, 0, -1, i64::MAX, i64::MIN] {
        let res = handle_create_table(&mut config, &mut table, 5, 10, 100, 1000, Some(timeout), 0, 0);
        assert_eq!(res, Err(ZkPokerError::InvalidTimeoutConfig));
        assert_eq!((config, table), before);
    }
    handle_create_table(&mut config, &mut table, 5, 10, 100, 1000, Some(10), 0, 0).unwrap();
    handle_create_table(&mut config, &mut table, 5, 10, 100, 1000, Some(120), 0, 0).unwrap();
}

// ---------------------------------------------------------------------------
// sitting down and standing up
// ---------------------------------------------------------------------------

#[test]
fn players_take_seat_zero_then_seat_one() {
    let mut table = new_table();
    handle_join_table(&mut table, &ALICE, 100).unwrap();
    assert_eq!(table.player_one, Some(ALICE));
    assert_eq!(table.player_one_chips, 100);
    assert_eq!(table.status, TableStatus::Waiting);
    assert_eq!(table.get_seat(&ALICE), Some(0));
    assert!(table.has_empty_seat());
    assert!(!table.is_full());
    handle_join_table(&mut table, &BOB, 1000).unwrap();
    assert_eq!(table.player_two, Some(BOB));
    assert_eq!(table.player_two_chips, 1000);
    assert_eq!(table.status, TableStatus::Between);
    assert_eq!(table.get_seat(&BOB), Some(1));
    assert_eq!(table.get_seat(&CAROL), None);
    assert!(!table.has_empty_seat());
    assert!(table.is_full());
}

#[test]
fn join_refuses_a_buy_in_outside_the_limits() {
    let mut table = new_table();
    let before = table;
    assert_eq!(handle_join_table(&mut table, &ALICE, 99), Err(ZkPokerError::InvalidBuyIn));
    assert_eq!(handle_join_table(&mut table, &ALICE, 1001), Err(ZkPokerError::InvalidBuyIn));
    assert_eq!(table, before);
}

#[test]
fn join_refuses_a_player_who_is_seated() {
    let mut table = new_table();
    handle_join_table(&mut table, &ALICE, 100).unwrap();
    let before = table;
    assert_eq!(handle_join_table(&mut table, &ALICE, 100), Err(ZkPokerError::PlayerAlreadyAtTable));
    assert_eq!(table, before);
}

#[test]
fn join_refuses_a_third_player() {
    let mut table = new_table();
    handle_join_table(&mut table, &ALICE, 100).unwrap();
    handle_join_table(&mut table, &BOB, 100).unwrap();
    let before = table;
    assert_eq!(handle_join_table(&mut table, &CAROL, 100), Err(ZkPokerError::TableFull));
    assert_eq!(table, before);
}

#[test]
fn join_refuses_while_a_hand_is_played() {
    let mut table = new_table();
    handle_join_table(&mut table, &ALICE, 100).unwrap();
    table.status = TableStatus::Playing;
    assert_eq!(handle_join_table(&mut table, &BOB, 100), Err(ZkPokerError::HandInProgress));
}

#[test]
fn a_freed_seat_zero_is_taken_again_first() {
    let mut table = new_table();
    handle_join_table(&mut table, &ALICE, 100).unwrap();
    handle_join_table(&mut table, &BOB, 200).unwrap();
    assert_eq!(handle_leave_table(&mut table, &ALICE), Ok(100));
    assert_eq!(table.player_one, None);
    assert_eq!(table.player_one_chips, 0);
    assert_eq!(table.player_two, Some(BOB));
    assert_eq!(table.player_two_chips, 200);
    assert_eq!(table.status, TableStatus::Waiting);
    handle_join_table(&mut table, &CAROL, 300).unwrap();
    assert_eq!(table.get_seat(&CAROL), Some(0));
    assert_eq!(table.status, TableStatus::Between);
}

#[test]
fn leaving_returns_the_stack_of_seat_one() {
    let mut table = new_table();
    handle_join_table(&mut table, &ALICE, 100).unwrap();
    handle_join_table(&mut table, &BOB, 200).unwrap();
    assert_eq!(handle_leave_table(&mut table, &BOB), Ok(200));
    assert_eq!(table.player_two, None);
    assert_eq!(table.player_two_chips, 0);
    assert_eq!(table.player_one_chips, 100);
    assert_eq!(table.status, TableStatus::Waiting);
}

#[test]
fn leave_refuses_a_stranger_and_a_hand_in_progress() {
    let mut table = new_table();
    handle_join_table(&mut table, &ALICE, 100).unwrap();
    assert_eq!(handle_leave_table(&mut table, &BOB), Err(ZkPokerError::PlayerNotAtTable));
    table.status = TableStatus::Playing;
    let before = table;
    assert_eq!(handle_leave_table(&mut table, &ALICE), Err(ZkPokerError::HandInProgress));
    assert_eq!(table, before);
}

#[test]
fn add_chips_tops_up_to_the_greatest_buy_in() {
    let mut table = new_table();
    handle_join_table(&mut table, &ALICE, 100).unwrap();
    handle_join_table(&mut table, &BOB, 100).unwrap();
    handle_add_chips(&mut table, &BOB, 900).unwrap();
    assert_eq!(table.player_two_chips, 1000);
    assert_eq!(table.player_one_chips, 100);
    let before = table;
    assert_eq!(handle_add_chips(&mut table, &BOB, 1), Err(ZkPokerError::InvalidBuyIn));
    assert_eq!(handle_add_chips(&mut table, &ALICE, 901), Err(ZkPokerError::InvalidBuyIn));
    assert_eq!(table, before);
    handle_add_chips(&mut table, &ALICE, 0).unwrap();
    assert_eq!(table, before);
}

#[test]
fn add_chips_refuses_an_overflow() {
    let mut table = new_table();
    handle_join_table(&mut table, &ALICE, 100).unwrap();
    let before = table;
    assert_eq!(handle_add_chips(&mut table, &ALICE, u64::MAX), Err(ZkPokerError::ArithmeticOverflow));
    assert_eq!(handle_add_chips(&mut table, &ALICE, u64::MAX - 99), Err(ZkPokerError::ArithmeticOverflow));
    assert_eq!(handle_add_chips(&mut table, &ALICE, u64::MAX - 100), Err(ZkPokerError::InvalidBuyIn));
    assert_eq!(table, before);
}

#[test]
fn add_chips_refuses_a_stranger_and_a_hand_in_progress() {
    let mut table = new_table();
    handle_join_table(&mut table, &ALICE, 100).unwrap();
    assert_eq!(handle_add_chips(&mut table, &BOB, 10), Err(ZkPokerError::PlayerNotAtTable));
    table.status = TableStatus::Playing;
    assert_eq!(handle_add_chips(&mut table, &ALICE, 10), Err(ZkPokerError::HandInProgress));
}

// ---------------------------------------------------------------------------
// the table record
// ---------------------------------------------------------------------------

#[test]
fn init_clears_the_table() {
    let mut table = blank_table();
    table.init(3, 1, 2, 20, 40, 15, 99, 7);
    assert_eq!(
        table,
        Table {
            table_id: 3,
            small_blind: 1,
            big_blind: 2,
            min_buy_in: 20,
            max_buy_in: 40,
            action_timeout: 15,
            player_one: None,
            player_two: None,
            player_one_chips: 0,
            player_two_chips: 0,
            button: 0,
            status: TableStatus::Waiting,
            current_hand: None,
            hands_played: 0,
            created_at: 99,
            bump: 7,
        }
    );
}

#[test]
fn status_defaults_to_waiting() {
    assert_eq!(TableStatus::default(), TableStatus::Waiting);
}

#[test]
fn chips_are_kept_per_seat() {
    let mut table = new_table();
    table.set_chips(0, 10);
    table.set_chips(1, 20);
    let before = table;
    table.set_chips(2, 30);
    assert_eq!(table, before);
    assert_eq!(table.get_chips(0), 10);
    assert_eq!(table.get_chips(1), 20);
    assert_eq!(table.get_chips(2), 0);
    assert_eq!(table.get_chips(255), 0);
}

#[test]
fn add_chips_saturates() {
    let mut table = new_table();
    table.add_chips(0, 5);
    table.add_chips(1, u64::MAX - 1);
    assert_eq!(table.player_one_chips, 5);
    assert_eq!(table.player_two_chips, u64::MAX - 1);
    table.add_chips(1, 1);
    assert_eq!(table.player_two_chips, u64::MAX);
    table.add_chips(1, 7);
    assert_eq!(table.player_two_chips, u64::MAX);
    let before = table;
    table.add_chips(9, 7);
    assert_eq!(table, before);
}

#[test]
fn remove_chips_takes_no_more_than_the_stack() {
    let mut table = new_table();
    table.set_chips(0, 10);
    assert_eq!(table.remove_chips(0, 4), 4);
    assert_eq!(table.player_one_chips, 6);
    assert_eq!(table.remove_chips(0, 7), 6);
    assert_eq!(table.player_one_chips, 0);
    assert_eq!(table.remove_chips(0, 1), 0);
    assert_eq!(table.remove_chips(5, 1), 0);
}

#[test]
fn the_button_posts_the_small_blind() {
    let mut table = new_table();
    assert_eq!(table.small_blind_seat(), 0);
    assert_eq!(table.big_blind_seat(), 1);
    table.rotate_button();
    assert_eq!(table.button, 1);
    assert_eq!(table.small_blind_seat(), 1);
    assert_eq!(table.big_blind_seat(), 0);
    table.rotate_button();
    assert_eq!(table.button, 0);
    assert_eq!(table.other_seat(0), 1);
    assert_eq!(table.other_seat(1), 0);
    assert_eq!(table.other_seat(7), 0);
}

#[test]
fn hands_played_counts_up_and_saturates() {
    let mut table = new_table();
    table.increment_hands_played();
    assert_eq!(table.hands_played, 1);
    table.hands_played = u64::MAX;
    table.increment_hands_played();
    assert_eq!(table.hands_played, u64::MAX);
}

#[test]
fn finish_hand_closes_the_books() {
    let mut table = new_table();
    table.status = TableStatus::Playing;
    table.current_hand = Some([4; 32]);
    table.player_one_chips = 11;
    table.finish_hand();
    assert_eq!(table.status, TableStatus::Between);
    assert_eq!(table.current_hand, None);
    assert_eq!(table.hands_played, 1);
    assert_eq!(table.button, 1);
    assert_eq!(table.player_one_chips, 11);
}

#[test]
fn get_seat_looks_at_seat_zero_first() {
    let mut table = new_table();
    table.player_one = Some(ALICE);
    table.player_two = Some(ALICE);
    assert_eq!(table.get_seat(&ALICE), Some(0));
    let mut near = ALICE;
    near[31] ^= 1;
    assert_eq!(table.get_seat(&near), None);
}
