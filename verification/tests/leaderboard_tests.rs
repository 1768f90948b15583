use game_station::leaderboard::update_leaderboard_entries;
use game_station::types::LeaderboardEntry;

fn submit(board: &mut Vec<LeaderboardEntry>, id: &str, name: &str, score: u32) {
    update_leaderboard_entries(board, id, name, score);
}

#[test]
fn three_scores_rank_descending() {
    let mut board = Vec::new();
    submit(&mut board, "p1", "one", 50);
    submit(&mut board, "p2", "two", 80);
    submit(&mut board, "p3", "three", 30);
    assert_eq!(board.len(), 3);
    assert_eq!(board[0].player_id, "p2");
    assert_eq!(board[0].score, 80);
    assert_eq!(board[0].rank, 1);
    assert_eq!(board[1].player_id, "p1");
    assert_eq!(board[1].score, 50);
    assert_eq!(board[1].rank, 2);
    assert_eq!(board[2].player_id, "p3");
    assert_eq!(board[2].score, 30);
    assert_eq!(board[2].rank, 3);
}

#[test]
fn lower_score_does_not_replace() {
    let mut board = Vec::new();
    submit(&mut board, "p1", "one", 50);
    submit(&mut board, "p1", "one", 40);
    assert_eq!(board.len(), 1);
    assert_eq!(board[0].score, 50);
}

#[test]
fn equal_score_does_not_replace() {
    let mut board = Vec::new();
    submit(&mut board, "p1", "one", 50);
    submit(&mut board, "p1", "one", 50);
    assert_eq!(board.len(), 1);
    assert_eq!(board[0].score, 50);
}

#[test]
fn higher_score_replaces_and_resorts() {
    let mut board = Vec::new();
    submit(&mut board, "p1", "one", 50);
    submit(&mut board, "p2", "two", 80);
    submit(&mut board, "p1", "one", 90);
    assert_eq!(board.len(), 2);
    assert_eq!(board[0].player_id, "p1");
    assert_eq!(board[0].score, 90);
    assert_eq!(board[0].rank, 1);
    assert_eq!(board[1].player_id, "p2");
    assert_eq!(board[1].rank, 2);
}

#[test]
fn ties_keep_the_earlier_arrival_first() {
    let mut board = Vec::new();
    submit(&mut board, "p1", "one", 50);
    submit(&mut board, "p2", "two", 50);
    assert_eq!(board[0].player_id, "p1");
    assert_eq!(board[1].player_id, "p2");
}

#[test]
fn the_101st_lowest_score_is_dropped() {
    let mut board = Vec::new();
    for i in 0..101u32 {
        submit(&mut board, &format!("p{}", i), "name", i);
    }
    assert_eq!(board.len(), 100);
    // Scores were 0..=100; the lowest, 0, fell off the end.
    assert_eq!(board[0].score, 100);
    assert_eq!(board[99].score, 1);
    assert!(board.iter().all(|e| e.player_id != "p0"));
    for (i, e) in board.iter().enumerate() {
        assert_eq!(e.rank, i as u32 + 1);
    }
}
