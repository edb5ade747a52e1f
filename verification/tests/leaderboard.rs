use car_checker::leaderboard::Leaderboard;

fn board(entries: &[(u64, (u32, u32))]) -> Leaderboard {
    Leaderboard {
        channel_id: 10,
        message_id: 20,
        leaderboard: Some(entries.to_vec()),
    }
}

fn lookup(lb: &Leaderboard, id: u64) -> Option<(u32, u32)> {
    lb.leaderboard
        .as_ref()
        .and_then(|v| v.iter().find(|e| e.0 == id).map(|e| e.1))
}

#[test]
fn sorted_results_order_by_wins_then_podiums() {
    let lb = board(&[(1, (2, 5)), (2, (4, 0)), (3, (2, 7)), (4, (0, 1))]);
    let sorted = lb.get_sorted_results();
    assert_eq!(sorted, vec![(2, (4, 0)), (3, (2, 7)), (1, (2, 5)), (4, (0, 1))]);
}

#[test]
fn sorted_results_of_absent_board_are_empty() {
    let lb = Leaderboard { channel_id: 0, message_id: 0, leaderboard: None };
    assert_eq!(lb.get_sorted_results(), Vec::new());
}

#[test]
fn add_win_creates_and_increments() {
    let mut lb = Leaderboard { channel_id: 1, message_id: 2, leaderboard: None };
    lb.add_win(7);
    assert_eq!(lookup(&lb, 7), Some((1, 0)));
    lb.add_win(7);
    assert_eq!(lookup(&lb, 7), Some((2, 0)));
    lb.add_win(8);
    assert_eq!(lookup(&lb, 8), Some((1, 0)));
    assert_eq!(lookup(&lb, 7), Some((2, 0)));
    assert_eq!(lb.channel_id, 1);
    assert_eq!(lb.message_id, 2);
}

#[test]
fn remove_win_stops_at_zero() {
    let mut lb = board(&[(7, (1, 3))]);
    lb.remove_win(7);
    assert_eq!(lookup(&lb, 7), Some((0, 3)));
    lb.remove_win(7);
    assert_eq!(lookup(&lb, 7), Some((0, 3)));
    lb.remove_win(9);
    assert_eq!(lookup(&lb, 9), None);
}

#[test]
fn add_and_remove_podium_touch_only_podiums() {
    let mut lb = board(&[(7, (4, 0))]);
    lb.add_podium(7);
    assert_eq!(lookup(&lb, 7), Some((4, 1)));
    lb.add_podium(5);
    assert_eq!(lookup(&lb, 5), Some((0, 1)));
    lb.remove_podium(7);
    assert_eq!(lookup(&lb, 7), Some((4, 0)));
    lb.remove_podium(7);
    assert_eq!(lookup(&lb, 7), Some((4, 0)));
}
