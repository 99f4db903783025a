use devnet_counter::schedule::{
    needs_airdrop, MonitorState, ACCOUNT_COUNTER_LIMIT, AIRDROP_LAMPORTS, UPDATE_COUNTER_LIMIT,
};

#[test]
fn new_state_starts_at_round_one() {
    let s = MonitorState::new();
    assert_eq!(s.update_counter, 1);
    assert_eq!(s.account_counter, 0);
}

#[test]
fn account_counter_stops_at_ten() {
    let mut s = MonitorState::new();
    for expected in 1..=10u32 {
        assert_eq!(s.begin_round(), Some(expected));
        s.end_round();
    }
    assert_eq!(s.account_counter, ACCOUNT_COUNTER_LIMIT);
    for _ in 0..5 {
        assert_eq!(s.begin_round(), None);
        assert_eq!(s.account_counter, 10);
        s.end_round();
    }
}

#[test]
fn update_counter_wraps_after_one_hundred() {
    let mut s = MonitorState::new();
    for round in 1..100u32 {
        assert_eq!(s.update_counter, round);
        assert!(!s.end_round());
    }
    assert_eq!(s.update_counter, UPDATE_COUNTER_LIMIT);
    assert!(s.end_round());
    assert_eq!(s.update_counter, 1);
}

#[test]
fn rounds_follow_both_counters() {
    let mut s = MonitorState::new();
    for _ in 0..250u32 {
        s.begin_round();
        s.end_round();
    }
    assert_eq!(s.account_counter, 10);
    assert_eq!(s.update_counter, 250 % 100 + 1);
}

#[test]
fn begin_round_leaves_round_number() {
    let mut s = MonitorState { update_counter: 37, account_counter: 4 };
    assert_eq!(s.begin_round(), Some(5));
    assert_eq!(s.update_counter, 37);
}

#[test]
fn end_round_leaves_account_counter() {
    let mut s = MonitorState { update_counter: 100, account_counter: 7 };
    assert!(s.end_round());
    assert_eq!(s, MonitorState { update_counter: 1, account_counter: 7 });
}

#[test]
fn airdrop_only_for_empty_account() {
    assert!(needs_airdrop(0));
    assert!(!needs_airdrop(1));
    assert!(!needs_airdrop(u64::MAX));
    assert_eq!(AIRDROP_LAMPORTS, 1_000_000_000);
}
